//! The database behind the tables: SQLite, through `rusqlite`.
//!
//! A connection is described by the tables that its statements see, by the tables
//! that are saved whatever becomes of the transaction in progress, and by whether a
//! transaction is in progress. A statement outside of a transaction is a transaction
//! by itself. Of the database behind it two things matter for as
//! long as it is open: whether anything else changes it, and whether it conforms,
//! that is, whether the tables that it has under the names of [`SCHEMA`] are those
//! that `SCHEMA` creates, with rows of the declared types. What is said of tables is said of databases that conform.

use vstd::prelude::*;
use rusqlite::{Connection, DropBehavior, OptionalExtension};
use crate::share::{NewFile, OfferedFile};
use crate::tables::Tables;

verus! {

/// A connection to a SQLite database.
#[verifier::external_type_specification]
#[verifier::external_body]
pub struct ExConnection(rusqlite::Connection);

/// A failure that SQLite or `rusqlite` reports.
#[verifier::external_type_specification]
#[verifier::external_body]
pub struct ExSqlError(rusqlite::Error);

/// The tables as the connection's statements see them.
pub uninterp spec fn seen(conn: Connection) -> Tables;

/// The saved tables, as of the connection's last look at them.
pub uninterp spec fn saved(conn: Connection) -> Tables;

/// Whether a transaction is in progress on the connection.
pub uninterp spec fn in_transaction(conn: Connection) -> bool;

/// Whether a `ROLLBACK` has failed on the connection and left its transaction in
/// progress.
pub uninterp spec fn stuck(conn: Connection) -> bool;

/// Whether no other connection changes the database while this one is open.
pub uninterp spec fn undisturbed(conn: Connection) -> bool;

/// Whether, while the connection is open, the database's tables `files` and `usage`
/// are those of [`SCHEMA`], or not there, their columns hold texts and integers as
/// `SCHEMA` declares them, no id and no month is null, and nothing but statements
/// acts on them.
pub uninterp spec fn conforms(conn: Connection) -> bool;

/// Whether [`SCHEMA`] has been run on the database without failure.
pub uninterp spec fn laid_out(conn: Connection) -> bool;

/// The path that the connection was opened with.
pub uninterp spec fn opened_on(conn: Connection) -> Seq<char>;

pub const SCHEMA: &'static str = "
    PRAGMA journal_mode = WAL;
    CREATE TABLE IF NOT EXISTS files (
        id TEXT PRIMARY KEY,
        key TEXT NOT NULL UNIQUE,
        name TEXT NOT NULL,
        content_type TEXT NOT NULL,
        size_bytes INTEGER NOT NULL,
        created_at INTEGER NOT NULL,
        expires_at INTEGER NOT NULL,
        downloads INTEGER NOT NULL DEFAULT 0,
        max_downloads INTEGER NOT NULL,
        ready INTEGER NOT NULL DEFAULT 0,
        removed_at INTEGER
    );
    CREATE INDEX IF NOT EXISTS files_cleanup ON files(removed_at, expires_at, downloads);
    CREATE TABLE IF NOT EXISTS usage (
        month TEXT PRIMARY KEY,
        class_a INTEGER NOT NULL DEFAULT 0,
        class_b INTEGER NOT NULL DEFAULT 0
    );
";

pub const COMMIT: &'static str = "COMMIT";

pub const ROLLBACK: &'static str = "ROLLBACK";

pub const CURRENT_MONTH: &'static str = "SELECT strftime('%Y-%m','now')";

pub const ADD_MONTH: &'static str = "INSERT OR IGNORE INTO usage (month) VALUES (?)";

pub const COUNT_CLASS_A: &'static str = "UPDATE usage SET class_a = class_a + 1 WHERE month = ?";

pub const COUNT_CLASS_B: &'static str = "UPDATE usage SET class_b = class_b + 1 WHERE month = ?";

pub const COUNTS: &'static str = "SELECT class_a, class_b FROM usage WHERE month = ?";

pub const ACTIVE_STORAGE: &'static str =
    "SELECT COALESCE(SUM(size_bytes), 0) FROM files WHERE removed_at IS NULL";

pub const ADD_FILE: &'static str = "INSERT INTO files \
    (id, key, name, content_type, size_bytes, created_at, expires_at, max_downloads) \
    VALUES (?, ?, ?, ?, ?, ?, ?, ?)";

pub const OFFERED_FILE: &'static str =
    "SELECT key, name, content_type, expires_at, downloads, max_downloads \
    FROM files WHERE id = ? AND ready = 1 AND removed_at IS NULL";

pub const SET_DOWNLOADS: &'static str = "UPDATE files SET downloads = ? WHERE id = ?";

pub const SET_READY: &'static str = "UPDATE files SET ready = 1 WHERE id = ?";

pub const SET_REMOVED: &'static str = "UPDATE files SET removed_at = ? WHERE id = ?";

pub const DUE_FILES: &'static str = "SELECT id, key FROM files \
    WHERE removed_at IS NULL \
    AND (expires_at <= ? OR downloads >= max_downloads OR (ready = 0 AND created_at <= ?)) \
    LIMIT ?";

/// What stays as it is for as long as a connection is open.
pub open spec fn same_database(before: Connection, after: Connection) -> bool {
    &&& undisturbed(after) == undisturbed(before)
    &&& conforms(after) == conforms(before)
    &&& opened_on(after) == opened_on(before)
    &&& laid_out(before) ==> laid_out(after)
}

/// What a read leaves alone: the saved tables always, everything else if it succeeds.
pub open spec fn only_read(before: Connection, after: Connection, ok: bool) -> bool {
    &&& same_database(before, after)
    &&& saved(after) == saved(before)
    &&& ok ==> seen(after) == seen(before) && in_transaction(after)
}

/// What a change inside a transaction leaves alone: the saved tables always, and
/// the transaction itself if the change succeeds.
pub open spec fn only_pending(before: Connection, after: Connection, ok: bool) -> bool {
    &&& same_database(before, after)
    &&& saved(after) == saved(before)
    &&& ok ==> in_transaction(after)
}

/// How a statement that changes the tables can end outside of a transaction, when it
/// finds the tables `found`: with what it makes of them saved (`changed` tells
/// whether it is), or with a failure, which may have saved it or nothing.
pub open spec fn ran_alone(
    before: Connection,
    after: Connection,
    found: Tables,
    changed: bool,
    ok: bool,
) -> bool {
    &&& undisturbed(before) ==> found == saved(before)
    &&& ok ==> found.valid() && changed
    &&& !ok ==> saved(after) == found || (found.valid() && changed)
}

/// [`ran_alone`] for the statements with one text argument.
pub open spec fn text_ran_alone(
    before: Connection,
    after: Connection,
    sql: Seq<char>,
    arg: Seq<char>,
    found: Tables,
    ok: bool,
) -> bool {
    ran_alone(before, after, found, changed_by_text(sql, arg, found, saved(after)), ok)
}

/// [`ran_alone`] for the statements with a number and a text argument.
pub open spec fn number_ran_alone(
    before: Connection,
    after: Connection,
    sql: Seq<char>,
    number: i64,
    arg: Seq<char>,
    found: Tables,
    ok: bool,
) -> bool {
    ran_alone(before, after, found, changed_by_number(sql, number, arg, found, saved(after)), ok)
}

/// What the statements with one text argument make of the tables.
pub open spec fn changed_by_text(
    sql: Seq<char>,
    arg: Seq<char>,
    before: Tables,
    after: Tables,
) -> bool {
    &&& sql == ADD_MONTH@ ==> after == before.with_month(arg)
    &&& sql == COUNT_CLASS_A@ && before.counts(arg).class_a < i64::MAX
        ==> after == before.count_class_a(arg)
    &&& sql == COUNT_CLASS_B@ && before.counts(arg).class_b < i64::MAX
        ==> after == before.count_class_b(arg)
    &&& sql == SET_READY@ ==> after == before.set_ready(arg)
}

/// What the statements with a number and a text argument make of the tables.
pub open spec fn changed_by_number(
    sql: Seq<char>,
    number: i64,
    arg: Seq<char>,
    before: Tables,
    after: Tables,
) -> bool {
    &&& sql == SET_DOWNLOADS@ ==> after == before.set_downloads(arg, number)
    &&& sql == SET_REMOVED@ ==> after == before.set_removed(arg, number)
}

/// Four digits, a hyphen and two digits.
pub open spec fn is_month(s: Seq<char>) -> bool {
    &&& s.len() == 7
    &&& s[4] == '-'
    &&& forall|i: int| 0 <= i < 7 && i != 4 ==> '0' <= #[trigger] s[i] <= '9'
}

/// Some text of the form of a month.
pub open spec fn some_month() -> Seq<char> {
    seq!['2', '0', '0', '0', '-', '0', '1']
}

pub(crate) proof fn lemma_some_month()
    ensures
        is_month(some_month()),
{
}

/// A list of files that are due, with their keys: each at most once, at most
/// `limit` of them if `limit` is not negative, and all of them if they are fewer
/// than `limit` or `limit` is negative. Which ones come first is left open.
pub open spec fn lists_due(
    list: Seq<(String, String)>,
    tables: Tables,
    now: int,
    stale: int,
    limit: int,
) -> bool {
    &&& limit >= 0 ==> list.len() <= limit
    &&& forall|i: int|
        0 <= i < list.len() ==> {
            let (id, key) = #[trigger] list[i];
            &&& tables.files.contains_key(id@)
            &&& tables.files[id@].due(now, stale)
            &&& tables.files[id@].key == key@
        }
    &&& forall|i: int, j: int|
        0 <= i < j < list.len() ==> (#[trigger] list[i]).0@ != (#[trigger] list[j]).0@
    &&& limit < 0 || list.len() < limit ==> forall|id: Seq<char>|
        #[trigger] tables.files.contains_key(id) && tables.files[id].due(now, stale)
            ==> lists_id(list, id)
}

pub open spec fn lists_id(list: Seq<(String, String)>, id: Seq<char>) -> bool {
    exists|i: int| 0 <= i < list.len() && (#[trigger] list[i]).0@ == id
}

/// `Connection::open`: a connection to the database file at `path`, without a
/// transaction in progress. What the file holds is not known beforehand.
#[verifier::external_body]
pub(crate) fn open(path: &str) -> (r: Result<Connection, rusqlite::Error>)
    ensures
        r matches Ok(conn) ==> opened_on(conn) == path@ && !in_transaction(conn),
{
    Connection::open(path)
}

/// `Connection::transaction`, with `Transaction::set_drop_behavior` so that the
/// transaction outlives the value that stands for it.
///
/// It starts a transaction, unless there is one, on the tables that are saved when it
/// first looks at them; if nothing else changes the database they are those of the
/// last look. Where it fails and there was no transaction, there is none afterwards.
#[verifier::external_body]
pub(crate) fn begin(conn: &mut Connection) -> (r: Result<(), rusqlite::Error>)
    ensures
        same_database(*old(conn), *final(conn)),
        undisturbed(*old(conn)) ==> saved(*final(conn)) == saved(*old(conn)),
        r is Ok ==> {
            &&& !in_transaction(*old(conn))
            &&& in_transaction(*final(conn))
            &&& seen(*final(conn)) == saved(*final(conn))
            &&& conforms(*old(conn)) ==> saved(*final(conn)).valid()
        },
        r is Err && !in_transaction(*old(conn)) ==> !in_transaction(*final(conn)),
{
    let mut transaction = conn.transaction()?;
    transaction.set_drop_behavior(DropBehavior::Ignore);
    Ok(())
}

/// `Connection::execute_batch` runs statements that take no arguments: `SCHEMA`,
/// or one that ends a transaction.
///
/// `SCHEMA` creates the tables that are not there, without rows, and neither begins a
/// transaction nor, where it succeeds, ends one. `COMMIT` saves what the transaction
/// sees and ends it, or fails; a failed one may have saved it all or nothing.
/// `ROLLBACK` saves nothing. It ends the transaction, unless it fails before it has
/// done so, for want of memory for instance.
#[verifier::external_body]
pub(crate) fn execute_batch(conn: &mut Connection, sql: &str) -> (r: Result<(), rusqlite::Error>)
    requires
        sql@ == SCHEMA@ || sql@ == COMMIT@ || sql@ == ROLLBACK@,
    ensures
        same_database(*old(conn), *final(conn)),
        sql@ == SCHEMA@ && r is Ok ==> laid_out(*final(conn)),
        sql@ == SCHEMA@ && undisturbed(*old(conn)) ==> saved(*final(conn)) == saved(*old(conn)),
        sql@ == SCHEMA@ && !in_transaction(*old(conn)) ==> !in_transaction(*final(conn)),
        sql@ == SCHEMA@ && r is Ok && in_transaction(*old(conn)) ==> {
            &&& in_transaction(*final(conn))
            &&& seen(*final(conn)) == seen(*old(conn))
        },
        sql@ == COMMIT@ && in_transaction(*old(conn)) ==> {
            ||| saved(*final(conn)) == seen(*old(conn))
            ||| r is Err && saved(*final(conn)) == saved(*old(conn))
        },
        sql@ == COMMIT@ && r is Ok ==> !in_transaction(*final(conn)),
        sql@ == ROLLBACK@ ==> saved(*final(conn)) == saved(*old(conn)),
        sql@ == ROLLBACK@ ==> {
            ||| !in_transaction(*final(conn))
            ||| r is Err && stuck(*final(conn))
        },
{
    conn.execute_batch(sql)
}

/// `Connection::execute` of a statement with one text argument. Inside a transaction,
/// on success, the statement has had its effect on the tables that the transaction
/// sees; after a failure nothing is claimed of them. Outside of one, its effect is
/// saved.
#[verifier::external_body]
pub(crate) fn execute_text(conn: &mut Connection, sql: &str, arg: &str) -> (r: Result<
    usize,
    rusqlite::Error,
>)
    requires
        sql@ == ADD_MONTH@ || sql@ == COUNT_CLASS_A@ || sql@ == COUNT_CLASS_B@ || sql@
            == SET_READY@,
    ensures
        same_database(*old(conn), *final(conn)),
        in_transaction(*old(conn)) ==> only_pending(*old(conn), *final(conn), r is Ok),
        in_transaction(*old(conn)) && r is Ok && conforms(*old(conn)) ==> changed_by_text(
            sql@,
            arg@,
            seen(*old(conn)),
            seen(*final(conn)),
        ),
        !in_transaction(*old(conn)) ==> !in_transaction(*final(conn)),
        !in_transaction(*old(conn)) && conforms(*old(conn)) ==> exists|found: Tables| #[trigger]
            text_ran_alone(*old(conn), *final(conn), sql@, arg@, found, r is Ok),
{
    conn.execute(sql, (arg,))
}

/// `Connection::execute` of a statement with a number and a text argument, as
/// [`execute_text`].
#[verifier::external_body]
pub(crate) fn execute_number(conn: &mut Connection, sql: &str, number: i64, arg: &str) -> (r: Result<
    usize,
    rusqlite::Error,
>)
    requires
        sql@ == SET_DOWNLOADS@ || sql@ == SET_REMOVED@,
    ensures
        same_database(*old(conn), *final(conn)),
        in_transaction(*old(conn)) ==> only_pending(*old(conn), *final(conn), r is Ok),
        in_transaction(*old(conn)) && r is Ok && conforms(*old(conn)) ==> changed_by_number(
            sql@,
            number,
            arg@,
            seen(*old(conn)),
            seen(*final(conn)),
        ),
        !in_transaction(*old(conn)) ==> !in_transaction(*final(conn)),
        !in_transaction(*old(conn)) && conforms(*old(conn)) ==> exists|found: Tables| #[trigger]
            number_ran_alone(*old(conn), *final(conn), sql@, number, arg@, found, r is Ok),
{
    conn.execute(sql, (number, arg))
}

/// `Connection::execute` of `ADD_FILE` with the columns of a new file, inside a
/// transaction, as [`execute_text`]. It succeeds only where neither the id nor the key is taken,
/// and then adds the file's row.
#[verifier::external_body]
pub(crate) fn execute_file(conn: &mut Connection, sql: &str, file: &NewFile) -> (r: Result<
    usize,
    rusqlite::Error,
>)
    requires
        in_transaction(*old(conn)),
        sql@ == ADD_FILE@,
    ensures
        only_pending(*old(conn), *final(conn), r is Ok),
        r is Ok && conforms(*old(conn)) ==> {
            &&& !seen(*old(conn)).files.contains_key(file.id@)
            &&& !seen(*old(conn)).has_key(file.key@)
            &&& seen(*final(conn)) == seen(*old(conn)).add_file(file.id@, file.row())
        },
{
    conn.execute(
        sql,
        (
            &file.id,
            &file.key,
            &file.name,
            &file.content_type,
            file.size_bytes,
            file.created_at,
            file.expires_at,
            file.max_downloads,
        ),
    )
}

/// `Connection::query_row` of `CURRENT_MONTH`, a row of one text. It reads the
/// clock: of its answer only the form is known, `2024-05` for instance.
#[verifier::external_body]
pub(crate) fn query_text(conn: &mut Connection, sql: &str) -> (r: Result<String, rusqlite::Error>)
    requires
        in_transaction(*old(conn)),
        sql@ == CURRENT_MONTH@,
    ensures
        only_read(*old(conn), *final(conn), r is Ok),
        r matches Ok(month) ==> is_month(month@),
{
    conn.query_row(sql, (), |row| row.get(0))
}

/// `Connection::query_row` of `ACTIVE_STORAGE`, a row of one number: the sizes of
/// the files that are not removed, added up. It fails if the sum does not fit.
#[verifier::external_body]
pub(crate) fn query_number(conn: &mut Connection, sql: &str) -> (r: Result<i64, rusqlite::Error>)
    requires
        in_transaction(*old(conn)),
        sql@ == ACTIVE_STORAGE@,
    ensures
        only_read(*old(conn), *final(conn), r is Ok),
        r matches Ok(n) ==> conforms(*old(conn)) ==> n == seen(*old(conn)).live_bytes(),
{
    conn.query_row(sql, (), |row| row.get(0))
}

/// `Connection::query_row` of `COUNTS`, a row of two numbers, with one text
/// argument: the counts in the month's row. It fails if there is none.
#[verifier::external_body]
pub(crate) fn query_counts(conn: &mut Connection, sql: &str, arg: &str) -> (r: Result<
    (i64, i64),
    rusqlite::Error,
>)
    requires
        in_transaction(*old(conn)),
        sql@ == COUNTS@,
    ensures
        only_read(*old(conn), *final(conn), r is Ok),
        r matches Ok(counts) ==> conforms(*old(conn)) ==> {
            let usage = seen(*old(conn)).usage;
            &&& usage.contains_key(arg@)
            &&& counts == (usage[arg@].class_a, usage[arg@].class_b)
        },
{
    conn.query_row(sql, (arg,), |row| Ok((row.get(0)?, row.get(1)?)))
}

/// `Connection::query_row` of `OFFERED_FILE` with one text argument, and
/// `OptionalExtension::optional`: the columns of the file of that id if it is ready
/// and not removed, and no row otherwise.
#[verifier::external_body]
pub(crate) fn query_file(conn: &mut Connection, sql: &str, arg: &str) -> (r: Result<
    Option<OfferedFile>,
    rusqlite::Error,
>)
    requires
        in_transaction(*old(conn)),
        sql@ == OFFERED_FILE@,
    ensures
        only_read(*old(conn), *final(conn), r is Ok),
        r matches Ok(found) ==> conforms(*old(conn)) ==> {
            let files = seen(*old(conn)).files;
            &&& found is Some <==> files.contains_key(arg@) && files[arg@].offered()
            &&& found matches Some(file) ==> file.is_of(files[arg@])
        },
{
    conn.query_row(sql, (arg,), |row| {
        Ok(OfferedFile {
            key: row.get(0)?,
            name: row.get(1)?,
            content_type: row.get(2)?,
            expires_at: row.get(3)?,
            downloads: row.get(4)?,
            max_downloads: row.get(5)?,
        })
    }).optional()
}

/// `Connection::prepare` of `DUE_FILES` and `Statement::query_map` with a time, a
/// stale time and a limit: the ids and keys of files to be deleted, up to the limit.
/// Which files come first where there are more is left open. Inside a transaction it
/// looks at the tables that the transaction sees, and outside of one at those that
/// are saved.
#[verifier::external_body]
pub(crate) fn query_due(conn: &mut Connection, sql: &str, now: i64, stale: i64, limit: i64) -> (r: Result<
    Vec<(String, String)>,
    rusqlite::Error,
>)
    requires
        sql@ == DUE_FILES@,
    ensures
        same_database(*old(conn), *final(conn)),
        in_transaction(*old(conn)) ==> only_read(*old(conn), *final(conn), r is Ok),
        !in_transaction(*old(conn)) ==> !in_transaction(*final(conn)),
        undisturbed(*old(conn)) ==> saved(*final(conn)) == saved(*old(conn)),
        r matches Ok(list) ==> conforms(*old(conn)) ==> {
            let found = if in_transaction(*old(conn)) {
                seen(*old(conn))
            } else {
                saved(*final(conn))
            };
            &&& found.valid()
            &&& lists_due(list@, found, now as int, stale as int, limit as int)
        },
{
    let mut statement = conn.prepare(sql)?;
    let rows = statement.query_map((now, stale, limit), |row| Ok((row.get(0)?, row.get(1)?)))?;
    rows.collect()
}

} // verus!
