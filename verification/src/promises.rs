//! What the operations are for: how what comes out of them is tied to what goes in,
//! said without the functions that they are described with.

use vstd::prelude::*;
use axum::http::HeaderMap;
use crate::clock;
use crate::config;
use crate::config::{Env, EnvVars, Guards, LimitVars, Limits};
use crate::course;
use crate::course::Step;
use crate::db;
use crate::db::Db;
use crate::error::{describes_failure, ApiError, ApiResult, Reply, StatusCode};
use crate::headers;
use crate::laws;
use crate::rules;
use crate::service;
use crate::share::{DownloadTicket, NewFile, OfferedFile};
use crate::sql;
use crate::tables::{FileRow, Tables, UsageRow};
use crate::text;

verus! {

// Time.

/// The number for a time is the seconds that it is after the epoch, for as long as
/// they fit; those that do not are counted down from zero, and a time before the epoch
/// is the epoch.
pub proof fn law_time_is_seconds_after_epoch(s: u64)
    ensures
        s <= i64::MAX ==> clock::signed_seconds(Some(s)) == s,
        s > i64::MAX ==> clock::signed_seconds(Some(s)) == s - 0x1_0000_0000_0000_0000,
        clock::signed_seconds(None) == 0,
{
    assert(s <= 0x7fff_ffff_ffff_ffff ==> s as i64 == s) by (bit_vector);
    assert(s > 0x7fff_ffff_ffff_ffff ==> s as i64 == s - 0x1_0000_0000_0000_0000) by (bit_vector);
}

/// What the clock shows is the number for some time: how many seconds that is after
/// the epoch, for as long as they fit, or zero where it is before the epoch.
pub proof fn law_clock_shows_seconds_of_a_time(n: i64)
    requires
        clock::can_show(n),
    ensures
        exists|time: std::time::SystemTime|
            match #[trigger] clock::seconds_after_epoch(time) {
                Some(s) => s == n || s == n + 0x1_0000_0000_0000_0000,
                None => n == 0,
            },
{
    let time = choose|time: std::time::SystemTime|
        clock::signed_seconds(#[trigger] clock::seconds_after_epoch(time)) == n;
    law_time_is_seconds_after_epoch(0);
    if let Some(s) = clock::seconds_after_epoch(time) {
        law_time_is_seconds_after_epoch(s);
    }
    assert(match clock::seconds_after_epoch(time) {
        Some(s) => s == n || s == n + 0x1_0000_0000_0000_0000,
        None => n == 0,
    });
}

/// A link that was uploaded when the clock showed `s` seconds after the epoch serves,
/// while downloads are left to it, at every reading before `s` and its time to live,
/// and is answered as expired at every reading from then on.
pub proof fn law_link_expires_by_the_clock(
    t: Tables,
    month: Seq<char>,
    file: NewFile,
    request: HeaderMap,
    size: int,
    s: u64,
    limits: Limits,
    reading: u64,
)
    requires
        service::is_upload_of(
            file,
            request,
            file.id@,
            size,
            clock::signed_seconds(Some(s)),
            limits,
        ),
        s <= i64::MAX,
        reading <= i64::MAX,
        i64::MIN <= s + limits.ttl_seconds <= i64::MAX,
        limits.max_downloads > 0,
    ensures
        t.with_upload(month, file).set_ready(file.id@).refuses_link(
            file.id@,
            clock::signed_seconds(Some(reading)) as int,
        ) == (if reading < s + limits.ttl_seconds {
            None
        } else {
            Some((StatusCode::Gone, "link expired"@))
        }),
{
    law_time_is_seconds_after_epoch(s);
    law_time_is_seconds_after_epoch(reading);
    law_link_serves_exactly(
        t.with_upload(month, file).set_ready(file.id@),
        file.id@,
        reading as int,
    );
}

// Links and downloads.

/// A link serves exactly while its file is there, complete, not removed, not expired
/// and not downloaded as often as it may be. It is answered as not found where the file
/// is not there, not complete or removed, and as expired otherwise.
pub proof fn law_link_serves_exactly(t: Tables, id: Seq<char>, now: int)
    ensures
        t.refuses_link(id, now) is None <==> {
            &&& t.files.dom().contains(id)
            &&& t.files[id].ready == 1
            &&& t.files[id].removed_at is None
            &&& now < t.files[id].expires_at
            &&& t.files[id].downloads < t.files[id].max_downloads
        },
        t.refuses_link(id, now) == Some((StatusCode::NotFound, "link not found"@)) <==> {
            ||| !t.files.dom().contains(id)
            ||| t.files[id].ready != 1
            ||| t.files[id].removed_at is Some
        },
        t.refuses_link(id, now) matches Some(refusal) ==> {
            ||| refusal == (StatusCode::NotFound, "link not found"@)
            ||| refusal == (StatusCode::Gone, "link expired"@)
        },
{
}

/// What is decided of a file that was found, or of none, is what the tables say of it.
pub proof fn law_found_file_decides_the_link(
    t: Tables,
    id: Seq<char>,
    found: Option<OfferedFile>,
    now: int,
)
    requires
        match found {
            Some(file) => {
                &&& t.files.dom().contains(id)
                &&& t.files[id].ready == 1
                &&& t.files[id].removed_at is None
                &&& file.expires_at == t.files[id].expires_at
                &&& file.downloads == t.files[id].downloads
                &&& file.max_downloads == t.files[id].max_downloads
            },
            None => !(t.files.dom().contains(id) && t.files[id].ready == 1
                && t.files[id].removed_at is None),
        },
    ensures
        rules::link_refusal(found, now) == t.refuses_link(id, now),
{
}

/// The columns that are read of a file are those of its row.
pub proof fn law_columns_are_read_as_they_are(file: OfferedFile, row: FileRow)
    ensures
        file.is_of(row) <==> {
            &&& file.key@ == row.key
            &&& file.name@ == row.name
            &&& file.content_type@ == row.content_type
            &&& file.expires_at == row.expires_at
            &&& file.downloads == row.downloads
            &&& file.max_downloads == row.max_downloads
        },
{
}

/// A file that a request uploads is granted exactly as many downloads as the limits
/// allow: after some downloads, before it expires, its link serves on if and only if
/// they are fewer.
pub proof fn law_upload_is_granted_its_downloads(
    t: Tables,
    month: Seq<char>,
    file: NewFile,
    request: HeaderMap,
    size: int,
    created: i64,
    limits: Limits,
    months: Seq<Seq<char>>,
    time: int,
)
    requires
        service::is_upload_of(file, request, file.id@, size, created, limits),
        i64::MIN <= created + limits.ttl_seconds <= i64::MAX,
        time < created + limits.ttl_seconds,
        months.len() <= limits.max_downloads,
    ensures
        ({
            let opened = t.with_upload(month, file).set_ready(file.id@);
            let after = laws::after_downloads(opened, file.id@, months);
            &&& after.refuses_link(file.id@, time) is None <==> months.len() < limits.max_downloads
            &&& months.len() == limits.max_downloads ==> after.refuses_link(file.id@, time) == Some(
                (StatusCode::Gone, "link expired"@),
            )
            &&& after.files[file.id@].downloads == months.len()
        }),
{
    let opened = t.with_upload(month, file).set_ready(file.id@);
    laws::law_link_serves_its_downloads(opened, file.id@, months, time);
}

/// The downloads of a file that a request uploads are told to be the last exactly when
/// they use up what the limits allow.
pub proof fn law_last_download_goes_by_the_limits(
    t: Tables,
    upload_month: Seq<char>,
    file: NewFile,
    request: HeaderMap,
    size: int,
    created: i64,
    limits: Limits,
    months: Seq<Seq<char>>,
    month: Seq<char>,
    time: int,
    guards: Guards,
    ticket: DownloadTicket,
    left: Tables,
)
    requires
        service::is_upload_of(file, request, file.id@, size, created, limits),
        i64::MIN <= created + limits.ttl_seconds <= i64::MAX,
        time < created + limits.ttl_seconds,
        months.len() < limits.max_downloads,
        rules::download_outcome(
            laws::after_downloads(
                t.with_upload(upload_month, file).set_ready(file.id@),
                file.id@,
                months,
            ),
            month,
            file.id@,
            time,
            guards,
            Ok(ticket),
            left,
        ),
    ensures
        ticket.delete_after <==> months.len() + 1 == limits.max_downloads,
        ticket.key@ == file.key@,
        ticket.name@ == file.name@,
        ticket.content_type@ == file.content_type@,
        ticket.id@ == file.id@,
{
    let opened = t.with_upload(upload_month, file).set_ready(file.id@);
    laws::law_link_serves_its_downloads(opened, file.id@, months, time);
}

/// Whatever operations follow each other, a file that a request uploads is never
/// granted more downloads than the limits allow.
pub proof fn law_no_more_downloads_than_the_limits_say(
    t: Tables,
    month: Seq<char>,
    file: NewFile,
    request: HeaderMap,
    size: int,
    created: i64,
    limits: Limits,
    steps: Seq<Step>,
    guards: Guards,
    tables: Seq<Tables>,
)
    requires
        service::is_upload_of(file, request, file.id@, size, created, limits),
        course::leads_through(steps, guards, tables),
        tables[0] == t.with_upload(month, file).set_ready(file.id@),
        limits.max_downloads >= 0,
    ensures
        course::granted(steps, file.id@) <= limits.max_downloads,
{
    course::law_no_more_downloads_than_allowed(steps, guards, tables, file.id@);
    course::law_nothing_is_ever_forgotten(steps, guards, tables);
    assert(tables[0].files.contains_key(file.id@));
}

/// A download that is granted was of a link that serves, with room for one more
/// operation of class B in the month. It counts one download of the file and one
/// operation, and nothing else changes.
pub proof fn law_granted_download(
    found: Tables,
    month: Seq<char>,
    id: Seq<char>,
    now: int,
    guards: Guards,
    ticket: DownloadTicket,
    left: Tables,
)
    requires
        rules::download_outcome(found, month, id, now, guards, Ok(ticket), left),
    ensures
        found.refuses_link(id, now) is None,
        found.counts(month).class_b < guards.class_b,
        left.files.dom() == found.files.dom(),
        left.files[id] == (FileRow {
            downloads: (found.files[id].downloads + 1) as i64,
            ..found.files[id]
        }),
        left.files[id].downloads == found.files[id].downloads + 1,
        forall|other: Seq<char>|
            other != id ==> #[trigger] left.files[other] == found.files[other],
        left.counts(month).class_a == found.counts(month).class_a,
        left.counts(month).class_b == found.counts(month).class_b + 1,
        forall|other: Seq<char>|
            other != month ==> #[trigger] left.counts(other) == found.counts(other),
        ticket.id@ == id,
        ticket.key@ == found.files[id].key,
        ticket.name@ == found.files[id].name,
        ticket.content_type@ == found.files[id].content_type,
        ticket.delete_after == (left.files[id].downloads == left.files[id].max_downloads),
{
    law_link_serves_exactly(found, id, now);
    assert(left.files.dom() =~= found.files.dom());
}

/// A download that is not granted, unless the database fails, is refused for a reason
/// and with nothing changed: because its link does not serve, or, if it does, because
/// the operations of class B of the month have reached their guard.
pub proof fn law_refused_download(
    found: Tables,
    month: Seq<char>,
    id: Seq<char>,
    now: int,
    guards: Guards,
    e: ApiError,
    left: Tables,
)
    requires
        rules::download_outcome(found, month, id, now, guards, Err(e), left),
        !e.of_database(),
    ensures
        left == found,
        match found.refuses_link(id, now) {
            Some((status, message)) => e.status == status && e.message@ == message,
            None => {
                &&& found.counts(month).class_b >= guards.class_b
                &&& e.status == StatusCode::ServiceUnavailable
                &&& e.message@ == "download disabled: Class B guard reached"@
            },
        },
{
}

/// An operation of class B may be spent on a download exactly below the guard.
pub proof fn law_class_b_is_refused_at_its_guard(class_b: int, guards: Guards)
    ensures
        rules::class_b_refusal(class_b, guards) is None <==> class_b < guards.class_b,
        class_b >= guards.class_b ==> rules::class_b_refusal(class_b, guards) == Some(
            (StatusCode::ServiceUnavailable, "download disabled: Class B guard reached"@),
        ),
{
}

// Uploads.

/// An upload is refused by the first guard that stands in its way, and by none if it
/// fits into the storage and both classes have room.
pub proof fn law_first_guard_refuses(
    t: Tables,
    month: Seq<char>,
    file: NewFile,
    guards: Guards,
)
    ensures
        ({
            let refusal = t.refuses_upload(month, file, guards);
            let fits = t.live_bytes() + file.size_bytes <= guards.storage;
            let room_a = t.counts(month).class_a < guards.class_a;
            let room_b = t.counts(month).class_b < guards.class_b;
            &&& fits && room_a && room_b ==> refusal is None
            &&& !fits ==> refusal == Some(
                (StatusCode::ServiceUnavailable, "upload disabled: storage guard reached"@),
            )
            &&& fits && !room_a ==> refusal == Some(
                (StatusCode::ServiceUnavailable, "upload disabled: Class A guard reached"@),
            )
            &&& fits && room_a && !room_b ==> refusal == Some(
                (StatusCode::ServiceUnavailable, "upload disabled: Class B guard reached"@),
            )
        }),
{
}

/// What is decided from numbers is what is decided of tables that hold them.
pub proof fn law_numbers_decide_the_upload(
    t: Tables,
    month: Seq<char>,
    file: NewFile,
    guards: Guards,
    storage: i64,
    class_a: i64,
    class_b: i64,
)
    requires
        storage == t.live_bytes(),
        class_a == t.counts(month).class_a,
        class_b == t.counts(month).class_b,
    ensures
        rules::upload_refusal(
            storage as int,
            UsageRow { class_a, class_b },
            file.size_bytes as int,
            guards,
        ) == t.refuses_upload(month, file, guards),
{
}

/// An upload that is admitted fits, its id and key were free, and it adds a row with
/// what is known of the file, and one operation of class A in the month.
pub proof fn law_admitted_upload(
    found: Tables,
    month: Seq<char>,
    file: NewFile,
    guards: Guards,
    left: Tables,
)
    requires
        rules::upload_outcome(found, month, file, guards, Ok(()), left),
    ensures
        found.live_bytes() + file.size_bytes <= guards.storage,
        found.counts(month).class_a < guards.class_a,
        found.counts(month).class_b < guards.class_b,
        !found.files.dom().contains(file.id@),
        forall|id: Seq<char>|
            found.files.dom().contains(id) ==> #[trigger] found.files[id].key != file.key@,
        left.files.dom() == found.files.dom().insert(file.id@),
        forall|id: Seq<char>|
            id != file.id@ ==> #[trigger] left.files[id] == found.files[id],
        ({
            let row = left.files[file.id@];
            &&& row.key == file.key@
            &&& row.name == file.name@
            &&& row.content_type == file.content_type@
            &&& row.size_bytes == file.size_bytes
            &&& row.created_at == file.created_at
            &&& row.expires_at == file.expires_at
            &&& row.downloads == 0
            &&& row.max_downloads == file.max_downloads
            &&& row.ready == 0
            &&& row.removed_at is None
        }),
        left.counts(month).class_a == found.counts(month).class_a + 1,
        left.counts(month).class_b == found.counts(month).class_b,
        forall|other: Seq<char>|
            other != month ==> #[trigger] left.counts(other) == found.counts(other),
        left.live_bytes() == found.live_bytes() + file.size_bytes,
{
    law_first_guard_refuses(found, month, file, guards);
    laws::law_upload_effect(found, month, file, guards);
    assert forall|id: Seq<char>| found.files.dom().contains(id) implies
        #[trigger] found.files[id].key != file.key@ by {
        if found.files[id].key == file.key@ {
            assert(found.files.contains_key(id));
            assert(found.has_key(file.key@));
        }
    }
    assert(left.files.dom() =~= found.files.dom().insert(file.id@));
}

/// An upload that is not admitted, unless the database fails, leaves all as it was and
/// is told which guard stood in its way.
pub proof fn law_refused_upload(
    found: Tables,
    month: Seq<char>,
    file: NewFile,
    guards: Guards,
    e: ApiError,
    left: Tables,
)
    requires
        rules::upload_outcome(found, month, file, guards, Err(e), left),
        !e.of_database(),
    ensures
        left == found,
        e.status == StatusCode::ServiceUnavailable,
        found.refuses_upload(month, file, guards) == Some((e.status, e.message@)),
        found.live_bytes() + file.size_bytes > guards.storage || found.counts(month).class_a
            >= guards.class_a || found.counts(month).class_b >= guards.class_b,
{
    law_first_guard_refuses(found, month, file, guards);
}

/// The bytes that the files take up are added up file by file: none without files, and
/// a file that is added takes up its size unless it is removed.
pub proof fn law_bytes_add_up(files: Map<Seq<char>, FileRow>, id: Seq<char>, row: FileRow)
    requires
        files.dom().finite(),
        !files.dom().contains(id),
    ensures
        (Tables { files: Map::empty(), usage: Map::empty() }).live_bytes() == 0,
        ({
            let t = Tables { files, usage: Map::empty() };
            let more = Tables { files: files.insert(id, row), usage: Map::empty() };
            more.live_bytes() == t.live_bytes() + (if row.removed_at is None {
                row.size_bytes as int
            } else {
                0
            })
        }),
{
    assert(Map::<Seq<char>, FileRow>::empty().dom() =~= Set::empty());
    laws::lemma_total_live_insert(files, id, row);
}

/// The operations of a month are those of its row, and none where it has no row.
pub proof fn law_counts_are_those_of_the_month(t: Tables, month: Seq<char>)
    ensures
        t.usage.dom().contains(month) ==> t.counts(month) == t.usage[month],
        !t.usage.dom().contains(month) ==> t.counts(month).class_a == 0 && t.counts(month).class_b
            == 0,
{
}

/// An operation of class A is spent exactly below the guard: it then counts one in the
/// month, and else nothing changes.
pub proof fn law_class_a_is_spent_below_its_guard(
    found: Tables,
    month: Seq<char>,
    guards: Guards,
    spent: bool,
    left: Tables,
)
    requires
        rules::reserve_outcome(found, month, guards, Ok(spent), left),
    ensures
        spent <==> found.counts(month).class_a < guards.class_a,
        left.files == found.files,
        left.counts(month).class_a == found.counts(month).class_a + (if spent {
            1int
        } else {
            0
        }),
        left.counts(month).class_b == found.counts(month).class_b,
        forall|other: Seq<char>|
            other != month ==> #[trigger] left.counts(other) == found.counts(other),
        !spent ==> left == found,
{
}

/// Opening a link makes its file ready and changes nothing else; an unknown id changes
/// nothing.
pub proof fn law_ready_effect(t: Tables, id: Seq<char>)
    ensures
        t.set_ready(id).usage == t.usage,
        t.set_ready(id).files.dom() == t.files.dom(),
        forall|other: Seq<char>|
            other != id ==> #[trigger] t.set_ready(id).files[other] == t.files[other],
        t.files.dom().contains(id) ==> t.set_ready(id).files[id] == (FileRow {
            ready: 1,
            ..t.files[id]
        }),
{
    assert(t.set_ready(id).files.dom() =~= t.files.dom());
}

/// Removing a file marks it with the time and changes nothing else; an unknown id
/// changes nothing.
pub proof fn law_removed_row(t: Tables, id: Seq<char>, at: i64)
    ensures
        t.set_removed(id, at).usage == t.usage,
        t.set_removed(id, at).files.dom() == t.files.dom(),
        forall|other: Seq<char>|
            other != id ==> #[trigger] t.set_removed(id, at).files[other] == t.files[other],
        t.files.dom().contains(id) ==> t.set_removed(id, at).files[id] == (FileRow {
            removed_at: Some(at),
            ..t.files[id]
        }),
{
    assert(t.set_removed(id, at).files.dom() =~= t.files.dom());
}

/// A change that succeeds is there, and one that fails is the database's failure.
pub proof fn law_change_is_made(found: Tables, next: Tables, r: ApiResult<()>, left: Tables)
    requires
        rules::change_outcome(found, next, r, left),
    ensures
        r is Ok ==> left == next,
        r matches Err(e) ==> e.of_database() && (left == found || left == next),
{
}

/// What is recorded of an upload: the id and the key under it, the size that was
/// announced, the time, the end of its time to live, and the downloads that the limits
/// allow.
pub proof fn law_record_of_an_upload(
    file: NewFile,
    request: HeaderMap,
    id: Seq<char>,
    size: int,
    now: i64,
    limits: Limits,
)
    requires
        service::is_upload_of(file, request, id, size, now, limits),
    ensures
        file.id@ == id,
        file.key@ == "shares/"@ + id,
        file.size_bytes == size,
        file.created_at == now,
        i64::MIN <= now + limits.ttl_seconds <= i64::MAX ==> file.expires_at == now
            + limits.ttl_seconds,
        file.max_downloads == limits.max_downloads,
        file.name@ == headers::given_name(request, id),
        file.content_type@ == headers::given_content_type(request),
{
}

/// What a request can upload: a file under an id of 32 hexadecimal digits, with the
/// size that it announces, the type and the name that it gives, the time that the clock
/// shows, and the life and the downloads that the limits allow.
pub proof fn law_what_a_request_uploads(file: NewFile, request: HeaderMap, limits: Limits)
    requires
        service::can_upload(file, request, limits),
    ensures
        file.id@.len() == 32,
        forall|i: int|
            0 <= i < 32 ==> '0' <= #[trigger] file.id@[i] <= '9' || 'a' <= file.id@[i] <= 'f',
        file.key@ == "shares/"@ + file.id@,
        headers::announced_length(request) == Some(file.size_bytes as int),
        file.name@ == headers::given_name(request, file.id@),
        file.content_type@ == headers::given_content_type(request),
        clock::can_show(file.created_at),
        i64::MIN <= file.created_at + limits.ttl_seconds <= i64::MAX ==> file.expires_at
            == file.created_at + limits.ttl_seconds,
        file.max_downloads == limits.max_downloads,
{
    let size = headers::announced_length(request)->0;
    let (id, now) = choose|id: Seq<char>, now: i64|
        service::is_id(id) && clock::can_show(now) && headers::announced_length(request) is Some
            && #[trigger] service::is_upload_of(file, request, id, size, now, limits);
    assert forall|i: int| 0 <= i < 32 implies '0' <= #[trigger] file.id@[i] <= '9' || 'a'
        <= file.id@[i] <= 'f' by {
        assert(service::is_hex(id[i]));
    }
}

/// A body is refused before it is sent where no length is announced, where it is empty,
/// and where it is longer than the limit, and is let through otherwise.
///
/// A limit beyond the largest length that can be announced lets nothing through.
pub proof fn law_length_decides_the_upload(request: HeaderMap, limits: Limits)
    ensures
        match headers::announced_length(request) {
            None => service::size_refusal(request, limits) == Some(
                (StatusCode::LengthRequired, "content-length required"@),
            ),
            Some(n) => {
                &&& service::size_refusal(request, limits) is None <==> 1 <= n
                    <= limits.max_upload_bytes <= i64::MAX
                &&& n == 0 ==> service::size_refusal(request, limits) == Some(
                    (StatusCode::BadRequest, "empty uploads are not useful"@),
                )
                &&& n > 0 && !(n <= limits.max_upload_bytes <= i64::MAX) ==> service::size_refusal(
                    request,
                    limits,
                ) == Some((StatusCode::PayloadTooLarge, "file is too large"@))
            },
        },
{
    let limit = limits.max_upload_bytes;
    assert(limit <= 0x7fff_ffff_ffff_ffff ==> limit as i64 == limit) by (bit_vector);
    assert(limit > 0x7fff_ffff_ffff_ffff ==> (limit as i64) < 0) by (bit_vector);
    law_announced_length(request);
}

/// An upload of an admissible length that fits below all guards goes ahead, unless the
/// database fails.
pub proof fn law_upload_with_room_goes_ahead(
    before: Db,
    after: Db,
    request: HeaderMap,
    limits: Limits,
    guards: Guards,
    n: int,
    r: ApiResult<NewFile>,
)
    requires
        before.conforms(),
        before.undisturbed(),
        service::started(before, after, request, limits, guards, r),
        headers::announced_length(request) == Some(n),
        1 <= n <= limits.max_upload_bytes <= i64::MAX,
        before@.live_bytes() + n <= guards.storage,
        forall|month: Seq<char>|
            {
                &&& (#[trigger] before@.counts(month)).class_a < guards.class_a
                &&& before@.counts(month).class_b < guards.class_b
            },
    ensures
        r matches Err(e) ==> e.of_database(),
        r matches Ok(file) ==> file.size_bytes == n && file.max_downloads == limits.max_downloads,
        r matches Ok(file) ==> after@.files.dom().contains(file.id@),
{
    law_length_decides_the_upload(request, limits);
    let (found, month, file) = choose|found: Tables, month: Seq<char>, file: NewFile|
        before.can_find(found) && sql::is_month(month) && service::can_upload(file, request, limits)
            && #[trigger] service::start_outcome(found, month, file, guards, r, after@);
    law_first_guard_refuses(before@, month, file, guards);
    assert(before@.counts(month).class_a < guards.class_a);
}

/// A body is accepted exactly if it has the length that was announced.
pub proof fn law_body_is_accepted_at_its_length(
    before: Db,
    after: Db,
    file: NewFile,
    received: Option<usize>,
    r: ApiResult<()>,
)
    requires
        service::accepted(before, after, file, received, r),
        file.size_bytes >= 0,
    ensures
        r is Ok <==> (received matches Some(n) && n == file.size_bytes),
        r is Ok ==> after == before,
        r matches Err(e) ==> {
            ||| e.of_database()
            ||| received is Some && e.status == StatusCode::BadRequest && e.message@
                == "content-length mismatch"@
            ||| received is None && e.status == StatusCode::PayloadTooLarge && e.message@
                == "file is too large"@
        },
{
    if let Some(n) = received {
        assert(n <= 0x7fff_ffff_ffff_ffff ==> n as i64 == n) by (bit_vector);
        assert(n > 0x7fff_ffff_ffff_ffff ==> (n as i64) < 0) by (bit_vector);
    }
}

/// An upload that is stored is answered with its link under the base URL, and one that
/// the store fails is answered with the store's words, unless the database fails.
pub proof fn law_upload_is_answered(
    before: Db,
    after: Db,
    file: NewFile,
    failure: Option<String>,
    base: Seq<char>,
    r: ApiResult<Reply>,
)
    requires
        service::finished(before, after, file, failure, base, r),
    ensures
        r is Ok ==> failure is None,
        r matches Ok(reply) ==> {
            &&& reply.status == StatusCode::Created
            &&& reply.body@ == base + "/f/"@ + file.id@ + "\n"@
        },
        r matches Err(e) ==> {
            ||| e.of_database()
            ||| {
                &&& failure is Some
                &&& e.status == StatusCode::BadGateway
                &&& e.message@ == "r2 upload failed: "@ + failure->0@
            }
        },
        failure is None ==> (r matches Err(e) ==> e.of_database()),
{
    law_store_failure_is_told("upload"@, "upload"@);
    if let Some(words) = failure {
        reveal_strlit("r2 ");
        reveal_strlit("upload");
        reveal_strlit(" failed: ");
        reveal_strlit("r2 upload failed: ");
        assert("r2 "@ + "upload"@ + " failed: "@ =~= "r2 upload failed: "@);
    }
}

/// A failure of the object store is told with the stage that failed and its words.
pub proof fn law_store_failure_is_told(stage: Seq<char>, words: Seq<char>)
    ensures
        service::store_refusal(stage, words) == (
            StatusCode::BadGateway,
            "r2 "@ + stage + " failed: "@ + words,
        ),
{
}

/// An error says exactly one status and message, and a database's failure is told with
/// the database's words.
pub proof fn law_error_says_what_it_holds(e: ApiError, status: StatusCode, message: Seq<char>)
    ensures
        e.says(status, message) <==> e.status == status && e.message@ == message,
        e.reports(Some((status, message))) <==> e.status == status && e.message@ == message,
        !e.reports(None),
        e.of_database() ==> {
            &&& e.status == StatusCode::InternalServerError
            &&& exists|words: String| #[trigger]
                describes_failure(words) && e.message@ == "database failed: "@ + words@
        },
{
}

/// The words of a database's failure are those of an error that it reported.
pub proof fn law_words_are_those_of_an_error(words: String)
    requires
        describes_failure(words),
    ensures
        exists|error: rusqlite::Error| #[trigger]
            vstd::string::to_string_from_display_ensures(&error, words),
{
}

/// A change outside of a transaction is made to the tables that are there, and is saved
/// where it succeeds; inside of one nothing is saved.
pub proof fn law_change_is_saved(
    before: Db,
    after: Db,
    found: Tables,
    next: Tables,
    r: ApiResult<()>,
)
    requires
        db::changed(before, after, found, next, r),
    ensures
        before.idle() && before.undisturbed() ==> found == before@,
        before.idle() && r is Ok ==> after@ == next,
        before.idle() ==> after.idle() && (after@ == found || after@ == next),
        !before.idle() ==> found == before.pending() && after@ == before@,
        !before.idle() && r is Ok ==> after.pending() == next,
        r matches Err(e) ==> e.of_database(),
{
}

/// A look outside of a transaction finds the tables that are there, and inside of one
/// those that it sees.
pub proof fn law_look_finds_what_is_there(before: Db, after: Db, ok: bool)
    requires
        db::looked(before, after, ok),
    ensures
        before.undisturbed() ==> after@ == before@,
        before.idle() && before.undisturbed() ==> db::looked_at(before, after) == before@,
        !before.idle() ==> db::looked_at(before, after) == before.pending(),
        before.idle() ==> after.idle(),
{
}

// Cleanup.

/// A file is up for deletion exactly if it is not removed and has expired, has had its
/// downloads, or is not complete since the stale time.
pub proof fn law_due_exactly(row: FileRow, now: int, stale: int)
    ensures
        row.due(now, stale) <==> row.removed_at is None && {
            ||| row.expires_at <= now
            ||| row.downloads >= row.max_downloads
            ||| row.ready == 0 && row.created_at <= stale
        },
{
}

/// The stale time is an hour ago.
pub proof fn law_stale_is_an_hour_ago(now: i64)
    requires
        now >= i64::MIN + 3600,
    ensures
        rules::stale_time(now) == now - 3600,
{
}

/// A cleanup lists files that are up for deletion, each once and with its key, a
/// hundred at most, and all of them if they are fewer.
pub proof fn law_cleanup_lists_what_is_due(
    found: Tables,
    now: i64,
    list: Vec<(String, String)>,
    id: Seq<char>,
)
    requires
        rules::due_outcome(found, now, service::CLEANUP_BATCH as int, Ok(list)),
        now >= i64::MIN + 3600,
    ensures
        list@.len() <= 100,
        forall|i: int|
            0 <= i < list@.len() ==> {
                let row = found.files[(#[trigger] list@[i]).0@];
                &&& found.files.dom().contains(list@[i].0@)
                &&& row.key == list@[i].1@
                &&& row.removed_at is None
                &&& row.expires_at <= now || row.downloads >= row.max_downloads || (row.ready == 0
                    && row.created_at + 3600 <= now)
            },
        forall|i: int, j: int|
            0 <= i < j < list@.len() ==> (#[trigger] list@[i]).0@ != (#[trigger] list@[j]).0@,
        ({
            let row = found.files[id];
            &&& list@.len() < 100
            &&& found.files.dom().contains(id)
            &&& row.removed_at is None
            &&& row.expires_at <= now || row.downloads >= row.max_downloads || (row.ready == 0
                && row.created_at + 3600 <= now)
        }) ==> exists|i: int| 0 <= i < list@.len() && (#[trigger] list@[i]).0@ == id,
{
    law_stale_is_an_hour_ago(now);
    let stale = rules::stale_time(now) as int;
    assert(found.files.contains_key(id) == found.files.dom().contains(id));
    if found.files.contains_key(id) && found.files[id].due(now as int, stale) && list@.len() < 100 {
        assert(sql::lists_id(list@, id));
    }
}

// Requests.

/// The text of a header is its bytes, one character for each, where all of them are
/// visible ASCII or tabs.
pub proof fn law_header_text_is_its_bytes(request: HeaderMap, name: Seq<char>)
    ensures
        ({
            let lines = headers::header_lines(request);
            &&& headers::text_of(request, name) is Some <==> lines.dom().contains(name) && forall|
                i: int,
            |
                0 <= i < lines[name].len() ==> 32 <= (#[trigger] lines[name][i]) < 127
                    || lines[name][i] == 9
            &&& headers::text_of(request, name) matches Some(s) ==> {
                &&& s.len() == lines[name].len()
                &&& forall|i: int|
                    0 <= i < s.len() ==> #[trigger] s[i] as int == lines[name][i] as int
            }
        }),
{
    let lines = headers::header_lines(request);
    if lines.dom().contains(name) {
        let bytes = lines[name];
        if headers::all_visible(bytes) {
            assert forall|i: int| 0 <= i < bytes.len() implies 32 <= (#[trigger] bytes[i]) < 127
                || bytes[i] == 9 by {
                assert(headers::is_visible(bytes[i]));
            }
        }
        assert(lines.contains_key(name));
    }
}

/// A request announces a length where its header `content-length` reads as an integer
/// that is not negative and fits, and then that integer.
pub proof fn law_announced_length(request: HeaderMap)
    ensures
        headers::announced_length(request) matches Some(n) ==> {
            &&& 0 <= n <= i64::MAX
            &&& headers::text_of(request, "content-length"@) is Some
            &&& text::integer_of(headers::text_of(request, "content-length"@)->0, true) == Some(n)
        },
        headers::text_of(request, "content-length"@) matches Some(s) ==> (text::integer_of(s, true)
            matches Some(n) ==> 0 <= n <= i64::MAX ==> headers::announced_length(request) == Some(
            n,
        )),
{
}

/// A content type that is text of less than 128 characters, none of them a control
/// character, is kept, and every other becomes the type of arbitrary bytes.
pub proof fn law_usable_content_type_is_kept(request: HeaderMap)
    ensures
        match headers::text_of(request, "content-type"@) {
            Some(s) => headers::given_content_type(request) == (if s.len() < 128 && forall|i: int|
                0 <= i < s.len() ==> 32 <= (#[trigger] s[i]) as int && s[i] as int != 127 {
                s
            } else {
                "application/octet-stream"@
            }),
            None => headers::given_content_type(request) == "application/octet-stream"@,
        },
{
    if let Some(s) = headers::text_of(request, "content-type"@) {
        if headers::has_control(s) {
            let i = choose|i: int| 0 <= i < s.len() && headers::is_control(#[trigger] s[i]);
            assert(!(32 <= s[i] as int && s[i] as int != 127));
        } else {
            assert forall|i: int| 0 <= i < s.len() implies 32 <= (#[trigger] s[i]) as int
                && s[i] as int != 127 by {
                assert(!headers::is_control(s[i]));
            }
        }
    }
}

/// A letter or digit of ASCII, a dot, an underscore or a hyphen.
pub open spec fn is_name_char(c: char) -> bool {
    ||| 97 <= c as int <= 122
    ||| 65 <= c as int <= 90
    ||| 48 <= c as int <= 57
    ||| c as int == 46
    ||| c as int == 95
    ||| c as int == 45
}

proof fn lemma_plain_part_filters(s: Seq<char>)
    ensures
        headers::plain_part(s) == s.filter(|c: char| is_name_char(c)),
    decreases s.len(),
{
    reveal(Seq::filter);
    if s.len() > 0 {
        lemma_plain_part_filters(s.drop_last());
    }
}

/// The name of a file is made of the characters of the name that its request gives, or
/// else of the fallback, that are letters or digits of ASCII, dots, underscores or
/// hyphens: the first 120 of them, in their order. A name without any is `download`.
pub proof fn law_name_is_what_may_stand_in_it(request: HeaderMap, fallback: Seq<char>)
    ensures
        ({
            let raw = match headers::text_of(request, "x-filename"@) {
                Some(s) => s,
                None => fallback,
            };
            let kept = raw.filter(|c: char| is_name_char(c));
            &&& kept.len() == 0 ==> headers::given_name(request, fallback) == "download"@
            &&& 0 < kept.len() <= 120 ==> headers::given_name(request, fallback) == kept
            &&& kept.len() > 120 ==> headers::given_name(request, fallback) == kept.take(120)
        }),
{
    let raw = match headers::text_of(request, "x-filename"@) {
        Some(s) => s,
        None => fallback,
    };
    lemma_plain_part_filters(raw);
}

/// A name that a request gives, and that has from 1 to 120 characters, all of which may
/// stand in a name, is kept as it is; without one the fallback is.
pub proof fn law_given_name_is_kept(request: HeaderMap, fallback: Seq<char>, s: Seq<char>)
    requires
        headers::text_of(request, "x-filename"@) == Some(s) || (headers::text_of(
            request,
            "x-filename"@,
        ) is None && s == fallback),
        0 < s.len() <= 120,
        forall|i: int|
            0 <= i < s.len() ==> {
                ||| 'a' <= #[trigger] s[i] <= 'z'
                ||| 'A' <= s[i] <= 'Z'
                ||| '0' <= s[i] <= '9'
                ||| s[i] == '.'
                ||| s[i] == '_'
                ||| s[i] == '-'
            },
    ensures
        headers::given_name(request, fallback) == s,
{
    law_name_is_what_may_stand_in_it(request, fallback);
    assert(s.filter(|c: char| is_name_char(c)) == s) by {
        lemma_filter_keeps_all(s);
    }
}

proof fn lemma_filter_keeps_all(s: Seq<char>)
    requires
        forall|i: int| 0 <= i < s.len() ==> is_name_char(#[trigger] s[i]),
    ensures
        s.filter(|c: char| is_name_char(c)) == s,
    decreases s.len(),
{
    reveal(Seq::filter);
    if s.len() > 0 {
        let some = s.drop_last();
        assert forall|i: int| 0 <= i < some.len() implies is_name_char(#[trigger] some[i]) by {
            assert(some[i] == s[i]);
        }
        lemma_filter_keeps_all(some);
        assert(some.push(s.last()) =~= s);
    }
}

/// Where a base URL is configured it is the public URL, whatever headers a request has.
pub proof fn law_configured_url_is_the_public_one(url: Seq<char>, request: HeaderMap)
    ensures
        headers::public_url(Some(url), request) == url,
{
}

/// Where none is configured, the public URL is that of the host that was asked for,
/// `localhost:3000` if that is not known. It is secure exactly if the first scheme that
/// a proxy lists is `https`.
pub proof fn law_public_url_is_the_one_that_was_used(request: HeaderMap)
    ensures
        ({
            let host = match headers::text_of(request, "host"@) {
                Some(s) => s,
                None => "localhost:3000"@,
            };
            let secure = match headers::text_of(request, "x-forwarded-proto"@) {
                Some(s) => s == "https"@ || "https,"@.is_prefix_of(s),
                None => false,
            };
            headers::public_url(None, request) == (if secure {
                "https://"@ + host
            } else {
                "http://"@ + host
            })
        }),
{
    reveal_strlit("https");
    reveal_strlit("https,");
    reveal_strlit("http");
    reveal_strlit("://");
    reveal_strlit("https://");
    reveal_strlit("http://");
    assert("https"@ + "://"@ =~= "https://"@);
    assert("http"@ + "://"@ =~= "http://"@);
    if let Some(s) = headers::text_of(request, "x-forwarded-proto"@) {
        lemma_comma_at(s);
        let n = headers::comma_at(s);
        if headers::first_part(s) == "https"@ {
            assert(n == 5);
            assert(s.take(5) == "https"@);
            assert forall|i: int| 0 <= i < 5 implies s[i] == "https"@[i] by {
                assert(s[i] == s.take(5)[i]);
            }
            if s.len() == 5 {
                assert(s =~= "https"@);
            } else {
                assert(s[5] == ',');
                assert("https,"@ =~= s.take(6));
            }
        } else if s == "https"@ {
            assert(n == 5);
            assert(s.take(5) =~= s);
        } else if "https,"@.is_prefix_of(s) {
            assert(s.take(6) == "https,"@);
            assert forall|i: int| 0 <= i < 6 implies s[i] == "https,"@[i] by {
                assert(s[i] == s.take(6)[i]);
            }
            assert(s[5] == ',' && s[0] == 'h' && s[1] == 't' && s[2] == 't' && s[3] == 'p' && s[4]
                == 's');
            assert(n == 5);
            assert(s.take(5) =~= "https"@);
        }
    }
}

proof fn lemma_comma_at(s: Seq<char>)
    ensures
        0 <= headers::comma_at(s) <= s.len(),
        headers::comma_at(s) < s.len() ==> s[headers::comma_at(s)] == ',',
        forall|i: int| 0 <= i < headers::comma_at(s) ==> #[trigger] s[i] != ',',
    decreases s.len(),
{
    if s.len() > 0 && s[0] != ',' {
        let rest = s.skip(1);
        lemma_comma_at(rest);
        assert forall|i: int| 0 <= i < headers::comma_at(s) implies #[trigger] s[i] != ',' by {
            if i > 0 {
                assert(rest[i - 1] == s[i]);
            }
        }
    }
}

/// A download is announced as an attachment under its name.
pub proof fn law_download_is_an_attachment(name: Seq<char>)
    ensures
        headers::disposition(name) == "attachment; filename=\""@ + name + "\""@,
{
}

/// A header of a response can be made exactly of bytes that are tabs or neither below
/// 32 nor 127.
pub proof fn law_response_header_bytes(content_type: Seq<char>, name: Seq<char>)
    ensures
        headers::can_announce(content_type, name) <==> {
            let first = vstd::utf8::encode_utf8(content_type);
            let second = vstd::utf8::encode_utf8("attachment; filename=\""@ + name + "\""@);
            &&& forall|i: int|
                0 <= i < first.len() ==> (#[trigger] first[i]) == 9 || (first[i] >= 32 && first[i]
                    != 127)
            &&& forall|i: int|
                0 <= i < second.len() ==> (#[trigger] second[i]) == 9 || (second[i] >= 32
                    && second[i] != 127)
        },
{
    let first = vstd::utf8::encode_utf8(content_type);
    let second = vstd::utf8::encode_utf8(headers::disposition(name));
    if headers::can_announce(content_type, name) {
        assert forall|i: int| 0 <= i < first.len() implies (#[trigger] first[i]) == 9 || (first[i]
            >= 32 && first[i] != 127) by {
            assert(headers::is_allowed(first[i]));
        }
        assert forall|i: int| 0 <= i < second.len() implies (#[trigger] second[i]) == 9 || (
        second[i] >= 32 && second[i] != 127) by {
            assert(headers::is_allowed(second[i]));
        }
    }
}

/// The start page ends with the path of uploads and with what is promised of links.
pub proof fn law_start_page_promises()
    ensures
        service::PAGE_TAIL@ == r#"/upload</code>
<p>No sign-up. Links expire after 7 days or 20 downloads.</p>
</main>
</body>
</html>"#@,
{
}

// Text.

/// A text is escaped character by character, and only five of them change.
pub proof fn law_text_is_escaped_by_character(a: Seq<char>, c: char)
    ensures
        text::escaped(Seq::empty()) == Seq::<char>::empty(),
        text::escaped(a.push(c)) == text::escaped(a) + (if c as int == 38 {
            "&amp;"@
        } else if c as int == 60 {
            "&lt;"@
        } else if c as int == 62 {
            "&gt;"@
        } else if c as int == 34 {
            "&quot;"@
        } else if c as int == 39 {
            "&#39;"@
        } else {
            seq![c]
        }),
{
    assert(a.push(c).drop_last() =~= a);
}

/// One digit reads as its value, and an empty text as no integer.
pub proof fn law_digit_reads_as_its_value(d: char, signed: bool)
    requires
        48 <= d as int <= 57,
    ensures
        text::integer_of(seq![d], signed) == Some(d as int - 48),
        text::integer_of(Seq::empty(), signed) is None,
{
    let s = seq![d];
    assert(s.drop_last() =~= Seq::<char>::empty());
    assert(text::digits_value(s.drop_last()) == 0);
    assert(text::all_digits(s));
}

/// One more digit makes ten times the integer and the digit, away from zero.
pub proof fn law_next_digit(s: Seq<char>, d: char, signed: bool)
    requires
        48 <= d as int <= 57,
        text::integer_of(s, signed) is Some,
    ensures
        text::integer_of(s.push(d), signed) == Some(
            if signed && s[0] == '-' {
                10 * text::integer_of(s, signed)->0 - (d as int - 48)
            } else {
                10 * text::integer_of(s, signed)->0 + (d as int - 48)
            },
        ),
{
    let more = s.push(d);
    assert(s.len() > 0);
    assert(more[0] == s[0]);
    let (few, all) = (text::magnitude(s, signed), text::magnitude(more, signed));
    assert(all =~= few.push(d));
    assert(all.drop_last() =~= few);
    assert forall|i: int| 0 <= i < all.len() implies text::is_digit(#[trigger] all[i]) by {
        if i < few.len() {
            assert(all[i] == few[i]);
        }
    }
}

/// A sign before digits leaves the integer or turns it round; a minus sign is one only
/// where integers are signed.
pub proof fn law_sign(s: Seq<char>, signed: bool)
    requires
        text::integer_of(s, signed) is Some,
        s[0] != '+',
        s[0] != '-',
    ensures
        text::integer_of(seq!['+'] + s, signed) == text::integer_of(s, signed),
        text::integer_of(seq!['-'] + s, true) == Some(-(text::integer_of(s, signed)->0)),
        text::integer_of(seq!['-'] + s, false) is None,
{
    let (plus, minus) = (seq!['+'] + s, seq!['-'] + s);
    assert(plus.skip(1) =~= s);
    assert(minus.skip(1) =~= s);
    assert(text::magnitude(s, signed) == s);
    assert(!text::is_digit(minus[0]));
}

/// A text that reads as an integer ends in a digit, and all of it but a sign is digits.
pub proof fn law_integers_are_digits(s: Seq<char>, signed: bool)
    requires
        text::integer_of(s, signed) is Some,
    ensures
        s.len() > 0,
        48 <= s.last() as int <= 57,
        forall|i: int| 1 <= i < s.len() ==> 48 <= (#[trigger] s[i]) as int <= 57,
        s[0] == '+' || (signed && s[0] == '-') || 48 <= s[0] as int <= 57,
{
    let digits = text::magnitude(s, signed);
    let skipped = s.len() - digits.len();
    assert forall|i: int| skipped <= i < s.len() implies 48 <= (#[trigger] s[i]) as int <= 57 by {
        assert(digits[i - skipped] == s[i]);
        assert(text::is_digit(digits[i - skipped]));
    }
}

/// A text of digits alone reads as an integer.
pub proof fn law_digits_are_integers(s: Seq<char>, signed: bool)
    requires
        s.len() > 0,
        forall|i: int| 0 <= i < s.len() ==> 48 <= (#[trigger] s[i]) as int <= 57,
    ensures
        text::integer_of(s, signed) matches Some(n) && n >= 0,
{
    assert(48 <= s[0] as int <= 57);
    assert forall|i: int| 0 <= i < s.len() implies text::is_digit(#[trigger] s[i]) by {
        assert(48 <= s[i] as int <= 57);
    }
}

// Settings.

/// Whether a setting gives this integer: what its text reads as, or the default.
pub open spec fn gives(value: Option<String>, signed: bool, default: int, n: int) -> bool {
    match value {
        Some(s) => text::integer_of(s@, signed) == Some(n),
        None => n == default,
    }
}

/// Whether a setting reads as an integer that fits, or is not set.
pub open spec fn reads(value: Option<String>, signed: bool, low: int, high: int) -> bool {
    match value {
        Some(s) => text::integer_of(s@, signed) matches Some(n) && low <= n <= high,
        None => true,
    }
}

/// A setting is the integer that its text reads as, where that fits, and its default
/// where it is not set.
pub proof fn law_setting_is_what_it_reads_as(value: Option<String>, default: int, name: Seq<char>)
    ensures
        value is None ==> config::setting_i64(value.deep_view(), default) == Some(default),
        value is None ==> config::setting_usize(value.deep_view(), default) == Some(default),
        value matches Some(s) ==> (text::integer_of(s@, true) matches Some(n) ==> i64::MIN <= n
            <= i64::MAX ==> config::setting_i64(value.deep_view(), default) == Some(n)),
        value matches Some(s) ==> (text::integer_of(s@, false) matches Some(n) ==> 0 <= n
            <= usize::MAX ==> config::setting_usize(value.deep_view(), default) == Some(n)),
        !reads(value, true, i64::MIN as int, i64::MAX as int) ==> config::setting_i64(
            value.deep_view(),
            default,
        ) is None,
        !reads(value, false, 0, usize::MAX as int) ==> config::setting_usize(
            value.deep_view(),
            default,
        ) is None,
        config::not_set(name) == name + " is required"@,
        config::not_an_integer(name) == name + " must be an integer"@,
{
}

/// The limits are what is set, and where nothing is set 10 GB, a million operations of
/// class A and ten million of class B, 100 MB for a file, seven days and 20 downloads.
pub proof fn law_limits_are_what_is_set(limits: Limits, vars: LimitVars)
    requires
        limits.set_by(vars),
    ensures
        gives(vars.storage_limit_bytes, true, 10_000_000_000, limits.storage_bytes as int),
        gives(vars.class_a_limit, true, 1_000_000, limits.class_a_ops as int),
        gives(vars.class_b_limit, true, 10_000_000, limits.class_b_ops as int),
        gives(vars.max_upload_bytes, false, 100_000_000, limits.max_upload_bytes as int),
        gives(vars.ttl_seconds, true, 604_800, limits.ttl_seconds as int),
        gives(vars.max_downloads, true, 20, limits.max_downloads as int),
{
}

/// The limits are read exactly if every one of them reads; else the first that does not
/// is named.
pub proof fn law_first_unreadable_limit_is_named(vars: LimitVars)
    ensures
        ({
            let (low, high) = (i64::MIN as int, i64::MAX as int);
            let storage = reads(vars.storage_limit_bytes, true, low, high);
            let class_a = reads(vars.class_a_limit, true, low, high);
            let class_b = reads(vars.class_b_limit, true, low, high);
            let ratio = vars.guard_ratio_reads;
            let upload = reads(vars.max_upload_bytes, false, 0, usize::MAX as int);
            let ttl = reads(vars.ttl_seconds, true, low, high);
            let downloads = reads(vars.max_downloads, true, low, high);
            vars.fault() == (if !storage {
                Some("STORAGE_LIMIT_BYTES"@ + " must be an integer"@)
            } else if !class_a {
                Some("CLASS_A_LIMIT"@ + " must be an integer"@)
            } else if !class_b {
                Some("CLASS_B_LIMIT"@ + " must be an integer"@)
            } else if !ratio {
                Some("LIMIT_GUARD_RATIO must be a number"@)
            } else if !upload {
                Some("MAX_UPLOAD_BYTES"@ + " must be an integer"@)
            } else if !ttl {
                Some("TTL_SECONDS"@ + " must be an integer"@)
            } else if !downloads {
                Some("MAX_DOWNLOADS"@ + " must be an integer"@)
            } else {
                None
            })
        }),
{
}

/// The service is set up exactly if what is required is set and the limits read; else
/// the first that is missing is named, before any limit.
pub proof fn law_first_missing_setting_is_named(vars: EnvVars)
    ensures
        vars.fault() == (if vars.account_id is None {
            Some("R2_ACCOUNT_ID"@ + " is required"@)
        } else if vars.access_key_id is None {
            Some("R2_ACCESS_KEY_ID"@ + " is required"@)
        } else if vars.secret_access_key is None {
            Some("R2_SECRET_ACCESS_KEY"@ + " is required"@)
        } else if vars.bucket is None {
            Some("R2_BUCKET"@ + " is required"@)
        } else {
            vars.limits.fault()
        }),
{
}

/// The configuration is what is set, with a default where it has one; the base URL is
/// the one that is set, without the slashes at its end.
pub proof fn law_configuration_is_what_is_set(env: Env, vars: EnvVars)
    requires
        env.set_by(vars),
    ensures
        vars.access_key_id matches Some(s) && s@ == env.access_key_id@,
        vars.secret_access_key matches Some(s) && s@ == env.secret_access_key@,
        vars.bucket matches Some(s) && s@ == env.bucket@,
        vars.endpoint matches Some(s) ==> env.endpoint@ == s@,
        vars.endpoint is None ==> (vars.account_id matches Some(id) ==> env.endpoint@ == "https://"@
            + id@ + ".r2.cloudflarestorage.com"@),
        vars.region matches Some(s) ==> env.region@ == s@,
        vars.region is None ==> env.region@ == "auto"@,
        vars.listen_addr matches Some(s) ==> env.listen_addr@ == s@,
        vars.listen_addr is None ==> env.listen_addr@ == "0.0.0.0:3000"@,
        vars.db_path matches Some(s) ==> env.db_path@ == s@,
        vars.db_path is None ==> env.db_path@ == "lake.sqlite3"@,
        vars.base_url is None <==> env.base_url is None,
        vars.base_url matches Some(url) ==> (env.base_url matches Some(base) && {
            &&& base@.len() <= url@.len()
            &&& forall|i: int| 0 <= i < base@.len() ==> #[trigger] base@[i] == url@[i]
            &&& forall|i: int| base@.len() <= i < url@.len() ==> #[trigger] url@[i] == '/'
            &&& base@.len() > 0 ==> base@.last() != '/'
        }),
        env.limits.set_by(vars.limits),
{
    if let Some(url) = vars.base_url {
        config::law_base_url_has_no_slash_at_its_end(url@);
        let base = config::without_slashes(url@);
        assert(env.base_url is Some);
        assert(env.base_url->0@ == base);
        assert forall|i: int| 0 <= i < base.len() implies #[trigger] base[i] == url@[i] by {
            assert(base[i] == url@.take(base.len() as int)[i]);
        }
    }
}

} // verus!
