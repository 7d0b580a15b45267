//! The service's records, kept in a database.

use vstd::prelude::*;
use rusqlite::Connection;
use crate::clock::{can_show, now};
use crate::config::Guards;
use crate::error::{describe, describes_failure, ApiError, ApiResult};
use crate::rules;
use crate::share::{DownloadTicket, NewFile, OfferedFile};
use crate::sql;
use crate::tables::{Tables, UsageRow};

verus! {

/// What a database answers, with its failures as errors of the service.
fn answer<T>(outcome: Result<T, rusqlite::Error>) -> (r: ApiResult<T>)
    ensures
        match outcome {
            Ok(value) => r == Ok::<T, ApiError>(value),
            Err(_) => r matches Err(e) && e.of_database(),
        },
{
    match outcome {
        Ok(value) => Ok(value),
        Err(error) => Err(ApiError::db(error)),
    }
}

/// The month that the database's clock shows.
fn current_month(conn: &mut Connection) -> (r: ApiResult<String>)
    requires
        sql::in_transaction(*old(conn)),
    ensures
        sql::only_read(*old(conn), *final(conn), r is Ok),
        match r {
            Ok(month) => sql::is_month(month@),
            Err(e) => e.of_database(),
        },
{
    answer(sql::query_text(conn, sql::CURRENT_MONTH))
}

/// Whether `month` is the given month or, where none is given, of the form of one.
spec fn is_month_of(given: Option<&str>, month: Seq<char>) -> bool {
    match given {
        Some(text) => month == text@,
        None => sql::is_month(month),
    }
}

/// The given month or else some month.
spec fn some_month_of(given: Option<&str>) -> Seq<char> {
    match given {
        Some(text) => text@,
        None => sql::some_month(),
    }
}

proof fn lemma_some_month_of(given: Option<&str>)
    ensures
        is_month_of(given, some_month_of(given)),
{
    sql::lemma_some_month();
}

/// The given month or else the one that the database's clock shows.
fn find_month(conn: &mut Connection, given: Option<&str>) -> (r: ApiResult<String>)
    requires
        sql::in_transaction(*old(conn)),
    ensures
        sql::only_read(*old(conn), *final(conn), r is Ok),
        match r {
            Ok(month) => is_month_of(given, month@),
            Err(e) => given is None && e.of_database(),
        },
{
    match given {
        Some(month) => Ok(month.to_string()),
        None => current_month(conn),
    }
}

/// Gives the month a row if it has none.
fn ensure_usage(conn: &mut Connection, month: &str) -> (r: ApiResult<()>)
    requires
        sql::in_transaction(*old(conn)),
    ensures
        sql::only_pending(*old(conn), *final(conn), r is Ok),
        match r {
            Ok(_) => sql::conforms(*old(conn)) ==> sql::seen(*final(conn)) == sql::seen(
                *old(conn),
            ).with_month(month@),
            Err(e) => e.of_database(),
        },
{
    answer(sql::execute_text(conn, sql::ADD_MONTH, month))?;
    Ok(())
}

/// The operations of class A and class B that were spent in the month.
fn usage(conn: &mut Connection, month: &str) -> (r: ApiResult<(i64, i64)>)
    requires
        sql::in_transaction(*old(conn)),
    ensures
        sql::only_read(*old(conn), *final(conn), r is Ok),
        match r {
            Ok((class_a, class_b)) => sql::conforms(*old(conn)) ==> {
                &&& sql::seen(*old(conn)).usage.contains_key(month@)
                &&& sql::seen(*old(conn)).usage[month@] == (UsageRow { class_a, class_b })
            },
            Err(e) => e.of_database(),
        },
{
    answer(sql::query_counts(conn, sql::COUNTS, month))
}

/// The bytes that the files take up.
fn active_storage(conn: &mut Connection) -> (r: ApiResult<i64>)
    requires
        sql::in_transaction(*old(conn)),
    ensures
        sql::only_read(*old(conn), *final(conn), r is Ok),
        match r {
            Ok(n) => sql::conforms(*old(conn)) ==> n == sql::seen(*old(conn)).live_bytes(),
            Err(e) => e.of_database(),
        },
{
    answer(sql::query_number(conn, sql::ACTIVE_STORAGE))
}

/// Spends one operation of class A in a month that has a row.
fn spend_class_a(conn: &mut Connection, month: &str) -> (r: ApiResult<()>)
    requires
        sql::in_transaction(*old(conn)),
    ensures
        sql::only_pending(*old(conn), *final(conn), r is Ok),
        match r {
            Ok(_) => sql::conforms(*old(conn)) && sql::seen(*old(conn)).counts(month@).class_a
                < i64::MAX ==> sql::seen(*final(conn)) == sql::seen(*old(conn)).count_class_a(
                month@,
            ),
            Err(e) => e.of_database(),
        },
{
    answer(sql::execute_text(conn, sql::COUNT_CLASS_A, month))?;
    Ok(())
}

/// Spends one operation of class B in a month that has a row.
fn spend_class_b(conn: &mut Connection, month: &str) -> (r: ApiResult<()>)
    requires
        sql::in_transaction(*old(conn)),
    ensures
        sql::only_pending(*old(conn), *final(conn), r is Ok),
        match r {
            Ok(_) => sql::conforms(*old(conn)) && sql::seen(*old(conn)).counts(month@).class_b
                < i64::MAX ==> sql::seen(*final(conn)) == sql::seen(*old(conn)).count_class_b(
                month@,
            ),
            Err(e) => e.of_database(),
        },
{
    answer(sql::execute_text(conn, sql::COUNT_CLASS_B, month))?;
    Ok(())
}

/// The part of an upload's beginning that happens inside the transaction.
fn stage_upload(conn: &mut Connection, month: &str, file: &NewFile, guards: &Guards) -> (r:
    ApiResult<()>)
    requires
        sql::in_transaction(*old(conn)),
    ensures
        sql::only_pending(*old(conn), *final(conn), r is Ok),
        r matches Err(e) ==> e.of_database() || rules::refuses_as_upload(e),
        sql::conforms(*old(conn)) ==> {
            let found = sql::seen(*old(conn));
            let refusal = found.refuses_upload(month@, *file, *guards);
            match r {
                Ok(_) => {
                    &&& refusal is None
                    &&& found.has_room_for(*file)
                    &&& sql::seen(*final(conn)) == found.with_upload(month@, *file)
                },
                Err(e) => e.of_database() || e.reports(refusal),
            }
        },
{
    ensure_usage(conn, month)?;
    let (class_a, class_b) = usage(conn, month)?;
    let storage: i64 = active_storage(conn)?;
    rules::check_upload(storage, class_a, class_b, file.size_bytes, guards)?;
    spend_class_a(conn, month)?;
    answer(sql::execute_file(conn, sql::ADD_FILE, file))?;
    Ok(())
}

/// Finds the file of a link that serves downloads at `now`.
fn find_link(conn: &mut Connection, id: &str, now: i64) -> (r: ApiResult<OfferedFile>)
    requires
        sql::in_transaction(*old(conn)),
    ensures
        sql::only_pending(*old(conn), *final(conn), r is Ok),
        r matches Ok(file) ==> file.downloads < file.max_downloads,
        r matches Err(e) ==> e.of_database() || rules::refuses_as_download(e),
        sql::conforms(*old(conn)) ==> {
            let found = sql::seen(*old(conn));
            let refusal = found.refuses_link(id@, now as int);
            match r {
                Ok(file) => {
                    &&& refusal is None
                    &&& file.is_of(found.files[id@])
                    &&& sql::seen(*final(conn)) == found
                },
                Err(e) => e.of_database() || e.reports(refusal),
            }
        },
{
    let found = answer(sql::query_file(conn, sql::OFFERED_FILE, id))?;
    rules::check_link(found, now)
}

/// Spends one download of a file that was found, unless a guard stands in the way.
fn stage_download(
    conn: &mut Connection,
    month: &str,
    id: &str,
    file: OfferedFile,
    guards: &Guards,
) -> (r: ApiResult<DownloadTicket>)
    requires
        sql::in_transaction(*old(conn)),
        file.downloads < file.max_downloads,
    ensures
        sql::only_pending(*old(conn), *final(conn), r is Ok),
        r matches Err(e) ==> e.of_database() || rules::refuses_as_download(e),
        ({
            let found = sql::seen(*old(conn));
            &&& sql::conforms(*old(conn))
            &&& found.files.contains_key(id@)
            &&& file.is_of(found.files[id@])
        }) ==> {
            let found = sql::seen(*old(conn));
            let refusal = rules::class_b_refusal(found.counts(month@).class_b as int, *guards);
            match r {
                Ok(ticket) => {
                    &&& refusal is None
                    &&& ticket.is_for(id@, found.files[id@])
                    &&& sql::seen(*final(conn)) == found.with_download(month@, id@)
                },
                Err(e) => e.of_database() || e.reports(refusal),
            }
        },
{
    ensure_usage(conn, month)?;
    let (_, class_b) = usage(conn, month)?;
    let (next_downloads, ticket) = rules::grant_download(id, file, class_b, guards)?;
    spend_class_b(conn, month)?;
    answer(sql::execute_number(conn, sql::SET_DOWNLOADS, next_downloads, id))?;
    Ok(ticket)
}

/// Spends one operation of class A, unless the guard stands in the way.
fn stage_reserve(conn: &mut Connection, month: &str, guards: &Guards) -> (r: ApiResult<bool>)
    requires
        sql::in_transaction(*old(conn)),
    ensures
        sql::only_pending(*old(conn), *final(conn), r is Ok),
        r matches Err(e) ==> e.of_database(),
        r matches Ok(spent) ==> sql::conforms(*old(conn)) ==> {
            let found = sql::seen(*old(conn));
            &&& spent == !found.refuses_class_a(month@, *guards)
            &&& spent ==> sql::seen(*final(conn)) == found.with_class_a(month@)
        },
{
    ensure_usage(conn, month)?;
    let (class_a, _) = usage(conn, month)?;
    if !rules::allows_class_a(class_a, guards) {
        return Ok(false);
    }
    spend_class_a(conn, month)?;
    Ok(true)
}

/// The service's records: files, and what was spent in each month.
pub struct Db {
    conn: Connection,
}

impl View for Db {
    type V = Tables;

    /// The saved tables, as of the last look at them.
    closed spec fn view(&self) -> Tables {
        sql::saved(self.conn)
    }
}

/// How a change that nothing stands in the way of can end for the database `before`,
/// when it finds the tables `found` and would make `next` of them.
///
/// It is saved, unless the database fails. Where a transaction is in progress it takes
/// part in that, and nothing is saved.
pub open spec fn changed(
    before: Db,
    after: Db,
    found: Tables,
    next: Tables,
    r: ApiResult<()>,
) -> bool {
    if before.idle() {
        &&& before.can_find(found)
        &&& rules::change_outcome(found, next, r, after@)
        &&& after.idle()
    } else {
        &&& found == before.pending()
        &&& after@ == before@
        &&& match r {
            Ok(_) => !after.idle() && after.pending() == next,
            Err(e) => e.of_database(),
        }
    }
}

/// What a look at the tables leaves alone.
pub open spec fn looked(before: Db, after: Db, ok: bool) -> bool {
    &&& before.can_find(after@)
    &&& before.idle() ==> after.idle()
    &&& !before.idle() ==> after@ == before@
    &&& !before.idle() && ok ==> !after.idle() && after.pending() == before.pending()
}

/// The tables that a look finds: those that a transaction in progress sees, or else
/// those that are saved.
pub open spec fn looked_at(before: Db, after: Db) -> Tables {
    if before.idle() {
        after@
    } else {
        before.pending()
    }
}

impl Db {
    /// Whether nothing else changes the database while this is open.
    pub closed spec fn undisturbed(&self) -> bool {
        sql::undisturbed(self.conn)
    }

    /// Whether the database has no tables of another layout under the names that
    /// the records use. Nothing is said of the tables of one that does.
    pub closed spec fn conforms(&self) -> bool {
        sql::conforms(self.conn)
    }

    /// Whether the tables have been created.
    pub closed spec fn laid_out(&self) -> bool {
        sql::laid_out(self.conn)
    }

    /// The path that the database was opened with.
    pub closed spec fn path(&self) -> Seq<char> {
        sql::opened_on(self.conn)
    }

    /// Whether no transaction is in progress.
    pub closed spec fn idle(&self) -> bool {
        !sql::in_transaction(self.conn)
    }

    /// Whether the database has failed to drop a transaction, which is still in
    /// progress.
    pub closed spec fn stuck(&self) -> bool {
        sql::stuck(self.conn)
    }

    /// The tables as the transaction in progress sees them.
    pub closed spec fn pending(&self) -> Tables {
        sql::seen(self.conn)
    }

    /// Whether an operation that came after `before` has ended the transaction that
    /// it began, unless the database failed to drop it.
    pub open spec fn settled_after(&self, before: Db) -> bool {
        before.idle() ==> self.idle() || self.stuck()
    }

    /// Whether this is the same database as `before`, later.
    pub open spec fn follows(&self, before: Db) -> bool {
        &&& self.undisturbed() == before.undisturbed()
        &&& self.conforms() == before.conforms()
        &&& self.path() == before.path()
        &&& before.laid_out() ==> self.laid_out()
    }

    /// Whether `found` can be what an operation finds when it looks at the tables:
    /// what was there before, if nothing else changes the database.
    pub open spec fn can_find(&self, found: Tables) -> bool {
        self.undisturbed() ==> found == self@
    }

    fn begin(&mut self) -> (r: ApiResult<()>)
        ensures
            final(self).follows(*old(self)),
            old(self).can_find(final(self)@),
            match r {
                Ok(_) => {
                    &&& old(self).idle()
                    &&& old(self).conforms() ==> final(self)@.valid()
                    &&& !final(self).idle()
                    &&& final(self).pending() == final(self)@
                },
                Err(e) => e.of_database() && (old(self).idle() ==> final(self).idle()),
            },
    {
        answer(sql::begin(&mut self.conn))
    }

    /// Drops the transaction in progress together with its changes. If the database
    /// cannot, nothing is saved all the same.
    fn rollback(&mut self) -> (r: ApiResult<()>)
        ensures
            final(self).follows(*old(self)),
            final(self)@ == old(self)@,
            match r {
                Ok(_) => final(self).idle(),
                Err(e) => e.of_database() && (final(self).idle() || final(self).stuck()),
            },
    {
        answer(sql::execute_batch(&mut self.conn, sql::ROLLBACK))
    }

    fn commit(&mut self) -> (r: ApiResult<()>)
        requires
            !old(self).idle(),
        ensures
            final(self).follows(*old(self)),
            final(self).idle() || final(self).stuck(),
            match r {
                Ok(_) => final(self).idle() && final(self)@ == old(self).pending(),
                Err(e) => {
                    &&& e.of_database()
                    &&& final(self)@ == old(self).pending() || final(self)@ == old(self)@
                },
            },
    {
        let r = answer(sql::execute_batch(&mut self.conn, sql::COMMIT));
        if r.is_err() {
            let _ = self.rollback();
        }
        r
    }

    /// Saves what the transaction did if `done` is a success, else drops it.
    fn finish<T>(&mut self, done: ApiResult<T>) -> (r: ApiResult<T>)
        requires
            done is Ok ==> !old(self).idle(),
        ensures
            final(self).follows(*old(self)),
            final(self).idle() || final(self).stuck(),
            match done {
                Ok(value) => match r {
                    Ok(v) => {
                        &&& v == value
                        &&& final(self).idle()
                        &&& final(self)@ == old(self).pending()
                    },
                    Err(e) => {
                        &&& e.of_database()
                        &&& final(self)@ == old(self).pending() || final(self)@ == old(self)@
                    },
                },
                Err(e) => r == Err::<T, ApiError>(e) && final(self)@ == old(self)@,
            },
    {
        match done {
            Ok(value) => match self.commit() {
                Ok(_) => Ok(value),
                Err(e) => Err(e),
            },
            Err(e) => {
                let _ = self.rollback();
                Err(e)
            },
        }
    }

    /// Saves an operation that was spent, and drops the transaction otherwise.
    fn finish_reserve(&mut self, done: ApiResult<bool>) -> (r: ApiResult<bool>)
        requires
            done matches Ok(true) ==> !old(self).idle(),
        ensures
            final(self).follows(*old(self)),
            final(self).idle() || final(self).stuck(),
            match done {
                Ok(true) => match r {
                    Ok(spent) => {
                        &&& spent
                        &&& final(self).idle()
                        &&& final(self)@ == old(self).pending()
                    },
                    Err(e) => {
                        &&& e.of_database()
                        &&& final(self)@ == old(self).pending() || final(self)@ == old(self)@
                    },
                },
                _ => r == done && final(self)@ == old(self)@,
            },
    {
        match done {
            Ok(false) => {
                let _ = self.rollback();
                Ok(false)
            },
            done => self.finish(done),
        }
    }

    /// Begins an upload in the given or else the current month: see
    /// [`Db::begin_upload_in`].
    fn upload_in(&mut self, given: Option<&str>, file: &NewFile, guards: &Guards) -> (r: ApiResult<
        (),
    >)
        ensures
            final(self).follows(*old(self)),
            final(self).settled_after(*old(self)),
            r is Ok ==> final(self).idle(),
            !old(self).idle() ==> (r matches Err(e) && e.of_database()),
            r matches Err(e) ==> e.of_database() || rules::refuses_as_upload(e),
            old(self).conforms() ==> exists|found: Tables, month: Seq<char>|
                old(self).can_find(found) && is_month_of(given, month)
                    && #[trigger] rules::upload_outcome(
                    found,
                    month,
                    *file,
                    *guards,
                    r,
                    final(self)@,
                ),
    {
        let ghost mut month_seen = some_month_of(given);
        let begun = self.begin();
        let ghost found = self@;
        let r = match begun {
            Ok(_) => {
                let done = match find_month(&mut self.conn, given) {
                    Ok(month) => {
                        proof {
                            month_seen = month@;
                        }
                        stage_upload(&mut self.conn, month.as_str(), file, guards)
                    },
                    Err(e) => Err(e),
                };
                self.finish(done)
            },
            Err(e) => Err(e),
        };
        proof {
            lemma_some_month_of(given);
            if old(self).conforms() {
                assert(rules::upload_outcome(found, month_seen, *file, *guards, r, self@));
            }
        }
        r
    }

    /// Begins an upload in the given month: spends an operation of class A and
    /// records the file, unless a guard stands in the way.
    pub fn begin_upload_in(&mut self, month: &str, file: &NewFile, guards: &Guards) -> (r:
        ApiResult<()>)
        ensures
            final(self).follows(*old(self)),
            final(self).settled_after(*old(self)),
            r is Ok ==> final(self).idle(),
            !old(self).idle() ==> (r matches Err(e) && e.of_database()),
            r matches Err(e) ==> e.of_database() || rules::refuses_as_upload(e),
            old(self).conforms() ==> exists|found: Tables|
                old(self).can_find(found) && #[trigger] rules::upload_outcome(
                    found,
                    month@,
                    *file,
                    *guards,
                    r,
                    final(self)@,
                ),
    {
        self.upload_in(Some(month), file, guards)
    }

    /// Begins an upload in the current month, see [`Db::begin_upload_in`].
    pub fn begin_upload(&mut self, file: &NewFile, guards: &Guards) -> (r: ApiResult<()>)
        ensures
            final(self).follows(*old(self)),
            final(self).settled_after(*old(self)),
            r is Ok ==> final(self).idle(),
            !old(self).idle() ==> (r matches Err(e) && e.of_database()),
            r matches Err(e) ==> e.of_database() || rules::refuses_as_upload(e),
            old(self).conforms() ==> exists|found: Tables, month: Seq<char>|
                old(self).can_find(found) && sql::is_month(month) && #[trigger] rules::upload_outcome(
                    found,
                    month,
                    *file,
                    *guards,
                    r,
                    final(self)@,
                ),
    {
        self.upload_in(None, file, guards)
    }

    /// Begins a download at the given time and in the given or else the current
    /// month: see [`Db::begin_download_in`].
    fn download_in(&mut self, given: Option<&str>, id: &str, now: i64, guards: &Guards) -> (r:
        ApiResult<DownloadTicket>)
        ensures
            final(self).follows(*old(self)),
            final(self).settled_after(*old(self)),
            r is Ok ==> final(self).idle(),
            !old(self).idle() ==> (r matches Err(e) && e.of_database()),
            r matches Err(e) ==> e.of_database() || rules::refuses_as_download(e),
            old(self).conforms() ==> exists|found: Tables, month: Seq<char>|
                old(self).can_find(found) && is_month_of(given, month)
                    && #[trigger] rules::download_outcome(
                    found,
                    month,
                    id@,
                    now as int,
                    *guards,
                    r,
                    final(self)@,
                ),
    {
        let ghost mut month_seen = some_month_of(given);
        let begun = self.begin();
        let ghost found = self@;
        let r = match begun {
            Ok(_) => {
                let done = match find_link(&mut self.conn, id, now) {
                    Ok(file) => match find_month(&mut self.conn, given) {
                        Ok(month) => {
                            proof {
                                month_seen = month@;
                            }
                            stage_download(&mut self.conn, month.as_str(), id, file, guards)
                        },
                        Err(e) => Err(e),
                    },
                    Err(e) => Err(e),
                };
                self.finish(done)
            },
            Err(e) => Err(e),
        };
        proof {
            lemma_some_month_of(given);
            if old(self).conforms() {
                let time = now as int;
                assert(rules::download_outcome(found, month_seen, id@, time, *guards, r, self@));
            }
        }
        r
    }

    /// Begins a download of the file `id` at the given time and in the given
    /// month: spends an operation of class B and a download of the file, unless the
    /// link is not there, has ended, or a guard stands in the way.
    pub fn begin_download_in(&mut self, month: &str, id: &str, now: i64, guards: &Guards) -> (r:
        ApiResult<DownloadTicket>)
        ensures
            final(self).follows(*old(self)),
            final(self).settled_after(*old(self)),
            r is Ok ==> final(self).idle(),
            !old(self).idle() ==> (r matches Err(e) && e.of_database()),
            r matches Err(e) ==> e.of_database() || rules::refuses_as_download(e),
            old(self).conforms() ==> exists|found: Tables|
                old(self).can_find(found) && #[trigger] rules::download_outcome(
                    found,
                    month@,
                    id@,
                    now as int,
                    *guards,
                    r,
                    final(self)@,
                ),
    {
        self.download_in(Some(month), id, now, guards)
    }

    /// Begins a download now, see [`Db::begin_download_in`].
    pub fn begin_download(&mut self, id: &str, guards: &Guards) -> (r: ApiResult<DownloadTicket>)
        ensures
            final(self).follows(*old(self)),
            final(self).settled_after(*old(self)),
            r is Ok ==> final(self).idle(),
            !old(self).idle() ==> (r matches Err(e) && e.of_database()),
            r matches Err(e) ==> e.of_database() || rules::refuses_as_download(e),
            old(self).conforms() ==> exists|found: Tables, month: Seq<char>, now: i64|
                old(self).can_find(found) && sql::is_month(month) && can_show(now)
                    && #[trigger] rules::download_outcome(
                    found,
                    month,
                    id@,
                    now as int,
                    *guards,
                    r,
                    final(self)@,
                ),
    {
        let now: i64 = now();
        self.download_in(None, id, now, guards)
    }

    /// Spends one operation of class A in the given or else the current month: see
    /// [`Db::reserve_class_a_in`].
    fn reserve_in(&mut self, given: Option<&str>, guards: &Guards) -> (r: ApiResult<bool>)
        ensures
            final(self).follows(*old(self)),
            final(self).settled_after(*old(self)),
            r matches Ok(true) ==> final(self).idle(),
            !old(self).idle() ==> r is Err,
            r matches Err(e) ==> e.of_database(),
            old(self).conforms() ==> exists|found: Tables, month: Seq<char>|
                old(self).can_find(found) && is_month_of(given, month)
                    && #[trigger] rules::reserve_outcome(found, month, *guards, r, final(self)@),
    {
        let ghost mut month_seen = some_month_of(given);
        let begun = self.begin();
        let ghost found = self@;
        let r = match begun {
            Ok(_) => {
                let done = match find_month(&mut self.conn, given) {
                    Ok(month) => {
                        proof {
                            month_seen = month@;
                        }
                        stage_reserve(&mut self.conn, month.as_str(), guards)
                    },
                    Err(e) => Err(e),
                };
                self.finish_reserve(done)
            },
            Err(e) => Err(e),
        };
        proof {
            lemma_some_month_of(given);
            if old(self).conforms() {
                assert(rules::reserve_outcome(found, month_seen, *guards, r, self@));
            }
        }
        r
    }

    /// Spends one operation of class A in the given month, unless the guard stands
    /// in the way: the answer tells.
    pub fn reserve_class_a_in(&mut self, month: &str, guards: &Guards) -> (r: ApiResult<bool>)
        ensures
            final(self).follows(*old(self)),
            final(self).settled_after(*old(self)),
            r matches Ok(true) ==> final(self).idle(),
            !old(self).idle() ==> r is Err,
            r matches Err(e) ==> e.of_database(),
            old(self).conforms() ==> exists|found: Tables|
                old(self).can_find(found) && #[trigger] rules::reserve_outcome(
                    found,
                    month@,
                    *guards,
                    r,
                    final(self)@,
                ),
    {
        self.reserve_in(Some(month), guards)
    }

    /// Spends one operation of class A in the current month, see
    /// [`Db::reserve_class_a_in`].
    pub fn reserve_class_a(&mut self, guards: &Guards) -> (r: ApiResult<bool>)
        ensures
            final(self).follows(*old(self)),
            final(self).settled_after(*old(self)),
            r matches Ok(true) ==> final(self).idle(),
            !old(self).idle() ==> r is Err,
            r matches Err(e) ==> e.of_database(),
            old(self).conforms() ==> exists|found: Tables, month: Seq<char>|
                old(self).can_find(found) && sql::is_month(month) && #[trigger] rules::reserve_outcome(
                    found,
                    month,
                    *guards,
                    r,
                    final(self)@,
                ),
    {
        self.reserve_in(None, guards)
    }

    /// Opens the link of the file `id`, whose upload is complete.
    pub fn mark_ready(&mut self, id: &str) -> (r: ApiResult<()>)
        ensures
            final(self).follows(*old(self)),
            old(self).idle() ==> final(self).idle(),
            r matches Err(e) ==> e.of_database(),
            old(self).conforms() ==> exists|found: Tables| #[trigger]
                changed(*old(self), *final(self), found, found.set_ready(id@), r),
    {
        let done = answer(sql::execute_text(&mut self.conn, sql::SET_READY, id));
        let ok = done.is_ok();
        let r = match done {
            Ok(_) => Ok(()),
            Err(e) => Err(e),
        };
        proof {
            let before = *old(self);
            let found = if before.idle() {
                choose|found: Tables| #[trigger]
                    sql::text_ran_alone(
                        before.conn,
                        self.conn,
                        sql::SET_READY@,
                        id@,
                        found,
                        ok,
                    )
            } else {
                before.pending()
            };
            if before.conforms() {
                assert(changed(before, *self, found, found.set_ready(id@), r));
            }
        }
        r
    }

    /// Records that the file `id` was removed at the given time.
    pub fn mark_removed_at(&mut self, id: &str, at: i64) -> (r: ApiResult<()>)
        ensures
            final(self).follows(*old(self)),
            old(self).idle() ==> final(self).idle(),
            r matches Err(e) ==> e.of_database(),
            old(self).conforms() ==> exists|found: Tables| #[trigger]
                changed(*old(self), *final(self), found, found.set_removed(id@, at), r),
    {
        let done = answer(sql::execute_number(&mut self.conn, sql::SET_REMOVED, at, id));
        let ok = done.is_ok();
        let r = match done {
            Ok(_) => Ok(()),
            Err(e) => Err(e),
        };
        proof {
            let before = *old(self);
            let found = if before.idle() {
                choose|found: Tables| #[trigger]
                    sql::number_ran_alone(
                        before.conn,
                        self.conn,
                        sql::SET_REMOVED@,
                        at,
                        id@,
                        found,
                        ok,
                    )
            } else {
                before.pending()
            };
            if before.conforms() {
                assert(changed(before, *self, found, found.set_removed(id@, at), r));
            }
        }
        r
    }

    /// Records that the file `id` is removed now.
    pub fn mark_removed(&mut self, id: &str) -> (r: ApiResult<()>)
        ensures
            final(self).follows(*old(self)),
            old(self).idle() ==> final(self).idle(),
            r matches Err(e) ==> e.of_database(),
            old(self).conforms() ==> exists|found: Tables, at: i64|
                can_show(at) && #[trigger] changed(
                    *old(self),
                    *final(self),
                    found,
                    found.set_removed(id@, at),
                    r,
                ),
    {
        let at: i64 = now();
        self.mark_removed_at(id, at)
    }

    /// The ids and keys of files to be deleted at the given time, at most `limit`
    /// of them; all of them if `limit` is negative.
    pub fn expired_files_at(&mut self, limit: i64, now: i64) -> (r: ApiResult<
        Vec<(String, String)>,
    >)
        ensures
            final(self).follows(*old(self)),
            looked(*old(self), *final(self), r is Ok),
            r matches Err(e) ==> e.of_database(),
            old(self).conforms() ==> rules::due_outcome(
                looked_at(*old(self), *final(self)),
                now,
                limit as int,
                r,
            ),
    {
        let stale: i64 = now.wrapping_sub(3600);
        answer(sql::query_due(&mut self.conn, sql::DUE_FILES, now, stale, limit))
    }

    /// The files to be deleted now, see [`Db::expired_files_at`].
    pub fn expired_files(&mut self, limit: i64) -> (r: ApiResult<Vec<(String, String)>>)
        ensures
            final(self).follows(*old(self)),
            looked(*old(self), *final(self), r is Ok),
            r matches Err(e) ==> e.of_database(),
            old(self).conforms() ==> exists|now: i64|
                can_show(now) && #[trigger] rules::due_outcome(
                    looked_at(*old(self), *final(self)),
                    now,
                    limit as int,
                    r,
                ),
    {
        let now: i64 = now();
        self.expired_files_at(limit, now)
    }

    /// The records in the database of a connection, which gets the tables that it
    /// does not have yet. If it cannot, the database's description of why.
    pub fn from_connection(conn: Connection) -> (r: Result<Self, String>)
        ensures
            match r {
                Ok(db) => {
                    &&& db.laid_out()
                    &&& db.idle() == !sql::in_transaction(conn)
                    &&& !db.idle() ==> db.pending() == sql::seen(conn)
                    &&& db.path() == sql::opened_on(conn)
                    &&& db.conforms() == sql::conforms(conn)
                    &&& db.undisturbed() == sql::undisturbed(conn)
                    &&& sql::undisturbed(conn) ==> db@ == sql::saved(conn)
                },
                Err(message) => describes_failure(message),
            },
    {
        let mut conn = conn;
        match sql::execute_batch(&mut conn, sql::SCHEMA) {
            Ok(_) => Ok(Db { conn }),
            Err(error) => Err(describe(&error)),
        }
    }

    /// The records in the database file at `path`.
    pub fn open(path: &str) -> (r: Result<Self, String>)
        ensures
            match r {
                Ok(db) => db.laid_out() && db.idle() && db.path() == path@,
                Err(message) => describes_failure(message),
            },
    {
        match sql::open(path) {
            Ok(conn) => Self::from_connection(conn),
            Err(error) => Err(describe(&error)),
        }
    }
}

} // verus!
