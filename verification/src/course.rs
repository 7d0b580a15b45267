//! What holds of whole requests, from their first step to their last, and of any
//! course of requests.

use vstd::prelude::*;
use axum::http::HeaderMap;
use crate::clock::can_show;
use crate::config::{Guards, Limits};
use crate::db;
use crate::db::Db;
use crate::error::{ApiError, ApiResult, Reply, StatusCode};
use crate::headers;
use crate::laws;
use crate::rules;
use crate::service;
use crate::share::{DownloadTicket, NewFile};
use crate::sql;
use crate::tables::{FileRow, Tables};

verus! {

/// How the upload of `file` can end as a whole for the database `before`: it is refused
/// at its start, given up when its body is not the one that was announced, or ended
/// when the object store has been asked to store it. `received` and `failure` are what
/// the reading of the body and the object store came to.
pub open spec fn uploaded(
    before: Db,
    after: Db,
    request: HeaderMap,
    limits: Limits,
    guards: Guards,
    configured: Option<Seq<char>>,
    file: NewFile,
    received: Option<usize>,
    failure: Option<String>,
    r: ApiResult<Reply>,
) -> bool {
    let base = headers::public_url(configured, request);
    ||| r matches Err(e) && service::started(before, after, request, limits, guards, Err(e))
    ||| r matches Err(e) && exists|begun: Db|
        #[trigger] service::started(before, begun, request, limits, guards, Ok(file))
            && service::accepted(begun, after, file, received, Err(e))
    ||| exists|begun: Db, read: Db|
        #[trigger] service::started(before, begun, request, limits, guards, Ok(file))
            && #[trigger] service::accepted(begun, read, file, received, Ok(()))
            && service::finished(read, after, file, failure, base, r)
}

/// The tables that an upload has left when it was started.
proof fn lemma_started(
    before: Db,
    begun: Db,
    request: HeaderMap,
    limits: Limits,
    guards: Guards,
    file: NewFile,
) -> (month: Seq<char>)
    requires
        before.conforms(),
        before.undisturbed(),
        service::started(before, begun, request, limits, guards, Ok(file)),
    ensures
        begun.idle(),
        begun.conforms(),
        begun.undisturbed(),
        service::can_upload(file, request, limits),
        headers::announced_length(request) == Some(file.size_bytes as int),
        rules::upload_outcome(before@, month, file, guards, Ok(()), begun@),
{
    let (found, month, recorded) = choose|found: Tables, month: Seq<char>, recorded: NewFile|
        before.can_find(found) && sql::is_month(month) && service::can_upload(
            recorded,
            request,
            limits,
        ) && #[trigger] service::start_outcome(
            found,
            month,
            recorded,
            guards,
            Ok::<NewFile, ApiError>(file),
            begun@,
        );
    month
}

/// An upload that was started and is given up takes up nothing, and opens no link.
proof fn lemma_given_up(
    before: Tables,
    month: Seq<char>,
    file: NewFile,
    guards: Guards,
    begun: Tables,
    at: i64,
)
    requires
        rules::upload_outcome(before, month, file, guards, Ok(()), begun),
    ensures
        ({
            let after = begun.set_removed(file.id@, at);
            &&& after.live_bytes() == before.live_bytes()
            &&& forall|id: Seq<char>, time: int|
                before.refuses_link(id, time) is Some ==> #[trigger] after.refuses_link(
                    id,
                    time,
                ) is Some
        }),
{
    laws::law_given_up_upload_frees_its_bytes(before, month, file, at, 0);
}

/// An upload as a whole takes up what it announced, or nothing.
///
/// If it fails, and not because the database does, no more bytes are taken up than
/// before, and no link serves that did not. If it succeeds, exactly its file is added,
/// with the length that the request announced, and the guard on storage is kept.
pub proof fn law_upload_takes_its_size_or_nothing(
    before: Db,
    after: Db,
    request: HeaderMap,
    limits: Limits,
    guards: Guards,
    configured: Option<Seq<char>>,
    file: NewFile,
    received: Option<usize>,
    failure: Option<String>,
    r: ApiResult<Reply>,
)
    requires
        before.conforms(),
        before.undisturbed(),
        uploaded(
            before,
            after,
            request,
            limits,
            guards,
            configured,
            file,
            received,
            failure,
            r,
        ),
    ensures
        (r matches Err(e) && !e.of_database()) ==> {
            &&& after@.live_bytes() == before@.live_bytes()
            &&& forall|id: Seq<char>, time: int|
                before@.refuses_link(id, time) is Some ==> #[trigger] after@.refuses_link(
                    id,
                    time,
                ) is Some
        },
        r is Ok ==> {
            &&& after.idle()
            &&& headers::announced_length(request) == Some(file.size_bytes as int)
            &&& after@.live_bytes() == before@.live_bytes() + file.size_bytes
            &&& after@.live_bytes() <= guards.storage
            &&& after@.files == before@.files.insert(
                file.id@,
                FileRow { ready: 1, ..file.row() },
            )
        },
{
    let base = headers::public_url(configured, request);
    if r is Err && service::started(before, after, request, limits, guards, Err(r->Err_0)) {
        let e = r->Err_0;
        if !e.of_database() && service::size_refusal(request, limits) is None {
            let (found, month, recorded) = choose|
                found: Tables,
                month: Seq<char>,
                recorded: NewFile,
            |
                before.can_find(found) && sql::is_month(month) && service::can_upload(
                    recorded,
                    request,
                    limits,
                ) && #[trigger] service::start_outcome(
                    found,
                    month,
                    recorded,
                    guards,
                    Err::<NewFile, ApiError>(e),
                    after@,
                );
            assert(after@ == before@);
        }
    } else if r is Err && exists|begun: Db|
        #[trigger] service::started(before, begun, request, limits, guards, Ok(file))
            && service::accepted(begun, after, file, received, Err(r->Err_0)) {
        let e = r->Err_0;
        let begun = choose|begun: Db|
            #[trigger] service::started(before, begun, request, limits, guards, Ok(file))
                && service::accepted(begun, after, file, received, Err(e));
        let month = lemma_started(before, begun, request, limits, guards, file);
        let refusal = service::body_refusal(file.size_bytes, received);
        let (found, at, done) = choose|found: Tables, at: i64, done: ApiResult<()>| #[trigger]
            service::gave_up(begun, after, found, file.id@, at, done, refusal, e);
        if !e.of_database() {
            lemma_given_up(before@, month, file, guards, begun@, at);
        }
    } else {
        let (begun, read) = choose|begun: Db, read: Db|
            #[trigger] service::started(before, begun, request, limits, guards, Ok(file))
                && #[trigger] service::accepted(begun, read, file, received, Ok(()))
                && service::finished(read, after, file, failure, base, r);
        let month = lemma_started(before, begun, request, limits, guards, file);
        match failure {
            None => {
                let (found, done) = choose|found: Tables, done: ApiResult<()>|
                    #[trigger] db::changed(read, after, found, found.set_ready(file.id@), done)
                        && match done {
                        Ok(_) => r is Ok,
                        Err(failure) => r == Err::<Reply, ApiError>(failure),
                    };
                if r is Ok {
                    laws::law_upload_effect(before@, month, file, guards);
                    laws::law_ready_takes_up_nothing(begun@, file.id@);
                    assert(after@.files =~= before@.files.insert(
                        file.id@,
                        FileRow { ready: 1, ..file.row() },
                    ));
                }
            },
            Some(text) => {
                let e = r->Err_0;
                let refusal = Some(service::store_refusal("upload"@, text@));
                let (found, at, done) = choose|found: Tables, at: i64, done: ApiResult<()>|
                    #[trigger]
                    service::gave_up(read, after, found, file.id@, at, done, refusal, e);
                if !e.of_database() {
                    lemma_given_up(before@, month, file, guards, begun@, at);
                }
            },
        }
    }
}

/// Whether two requests have the same header of this name, or both have none.
pub open spec fn same_header(a: HeaderMap, b: HeaderMap, name: Seq<char>) -> bool {
    let (x, y) = (headers::header_lines(a), headers::header_lines(b));
    &&& x.contains_key(name) == y.contains_key(name)
    &&& x.contains_key(name) ==> x[name] == y[name]
}

/// Whether two requests agree in the five headers that an upload goes by.
pub open spec fn same_upload_headers(a: HeaderMap, b: HeaderMap) -> bool {
    &&& same_header(a, b, "content-length"@)
    &&& same_header(a, b, "content-type"@)
    &&& same_header(a, b, "x-filename"@)
    &&& same_header(a, b, "host"@)
    &&& same_header(a, b, "x-forwarded-proto"@)
}

/// The record of an upload, and what is refused of it, go by five headers alone: with
/// the same id and at the same time, two requests that agree in those are recorded
/// alike, whatever other headers they have.
pub proof fn law_record_goes_by_five_headers(
    a: HeaderMap,
    b: HeaderMap,
    limits: Limits,
    file: NewFile,
    id: Seq<char>,
    size: int,
    now: i64,
    configured: Option<Seq<char>>,
)
    requires
        same_upload_headers(a, b),
    ensures
        service::size_refusal(a, limits) == service::size_refusal(b, limits),
        headers::announced_length(a) == headers::announced_length(b),
        service::is_upload_of(file, a, id, size, now, limits) == service::is_upload_of(
            file,
            b,
            id,
            size,
            now,
            limits,
        ),
        headers::public_url(configured, a) == headers::public_url(configured, b),
{
}

proof fn lemma_can_upload_alike(a: HeaderMap, b: HeaderMap, limits: Limits, file: NewFile)
    requires
        same_upload_headers(a, b),
        service::can_upload(file, a, limits),
    ensures
        service::can_upload(file, b, limits),
{
    let size = headers::announced_length(a)->0;
    let (id, now) = choose|id: Seq<char>, now: i64|
        service::is_id(id) && can_show(now) && headers::announced_length(a) is Some
            && #[trigger] service::is_upload_of(file, a, id, size, now, limits);
    law_record_goes_by_five_headers(a, b, limits, file, id, size, now, None);
    assert(service::is_upload_of(file, b, id, size, now, limits));
}

proof fn lemma_started_alike(
    a: HeaderMap,
    b: HeaderMap,
    before: Db,
    after: Db,
    limits: Limits,
    guards: Guards,
    r: ApiResult<NewFile>,
)
    requires
        same_upload_headers(a, b),
        service::started(before, after, a, limits, guards, r),
    ensures
        service::started(before, after, b, limits, guards, r),
{
    assert(service::size_refusal(a, limits) == service::size_refusal(b, limits));
    if service::size_refusal(a, limits) is None {
        if let Ok(file) = r {
            lemma_can_upload_alike(a, b, limits, file);
        }
        if before.conforms() {
            let (found, month, file) = choose|found: Tables, month: Seq<char>, file: NewFile|
                before.can_find(found) && sql::is_month(month) && service::can_upload(
                    file,
                    a,
                    limits,
                ) && #[trigger] service::start_outcome(found, month, file, guards, r, after@);
            lemma_can_upload_alike(a, b, limits, file);
            assert(service::start_outcome(found, month, file, guards, r, after@));
        }
    }
}

proof fn lemma_uploaded_alike(
    a: HeaderMap,
    b: HeaderMap,
    before: Db,
    after: Db,
    limits: Limits,
    guards: Guards,
    configured: Option<Seq<char>>,
    file: NewFile,
    received: Option<usize>,
    failure: Option<String>,
    r: ApiResult<Reply>,
)
    requires
        same_upload_headers(a, b),
        uploaded(before, after, a, limits, guards, configured, file, received, failure, r),
    ensures
        uploaded(before, after, b, limits, guards, configured, file, received, failure, r),
{
    let base = headers::public_url(configured, a);
    assert(base == headers::public_url(configured, b));
    if r is Err && service::started(before, after, a, limits, guards, Err(r->Err_0)) {
        lemma_started_alike(a, b, before, after, limits, guards, Err(r->Err_0));
    } else if r is Err && exists|begun: Db|
        #[trigger] service::started(before, begun, a, limits, guards, Ok(file))
            && service::accepted(begun, after, file, received, Err(r->Err_0)) {
        let begun = choose|begun: Db|
            #[trigger] service::started(before, begun, a, limits, guards, Ok(file))
                && service::accepted(begun, after, file, received, Err(r->Err_0));
        lemma_started_alike(a, b, before, begun, limits, guards, Ok(file));
    } else {
        let (begun, read) = choose|begun: Db, read: Db|
            #[trigger] service::started(before, begun, a, limits, guards, Ok(file))
                && #[trigger] service::accepted(begun, read, file, received, Ok(()))
                && service::finished(read, after, file, failure, base, r);
        lemma_started_alike(a, b, before, begun, limits, guards, Ok(file));
    }
}

/// An upload as a whole goes by five headers alone: two requests that agree in those
/// can end in the same ways, with the same answers and the same records. No header
/// tells who sends it: nobody signs up.
pub proof fn law_upload_goes_by_five_headers(
    a: HeaderMap,
    b: HeaderMap,
    before: Db,
    after: Db,
    limits: Limits,
    guards: Guards,
    configured: Option<Seq<char>>,
    file: NewFile,
    received: Option<usize>,
    failure: Option<String>,
    r: ApiResult<Reply>,
)
    requires
        same_upload_headers(a, b),
    ensures
        uploaded(before, after, a, limits, guards, configured, file, received, failure, r)
            <==> uploaded(
            before,
            after,
            b,
            limits,
            guards,
            configured,
            file,
            received,
            failure,
            r,
        ),
{
    if uploaded(before, after, a, limits, guards, configured, file, received, failure, r) {
        lemma_uploaded_alike(
            a,
            b,
            before,
            after,
            limits,
            guards,
            configured,
            file,
            received,
            failure,
            r,
        );
    }
    if uploaded(before, after, b, limits, guards, configured, file, received, failure, r) {
        lemma_uploaded_alike(
            b,
            a,
            before,
            after,
            limits,
            guards,
            configured,
            file,
            received,
            failure,
            r,
        );
    }
}

/// No answer asks a client to say who it is.
pub proof fn law_nobody_is_asked_to_sign_up(status: StatusCode)
    ensures
        status.number() != 401,
        status.number() != 403,
{
}

/// What was uploaded comes back: an upload that succeeds is answered with a link, and
/// as long as that has not expired, has downloads left and its file is not removed, and
/// class B has room, whatever requests come in between, a download of it is granted
/// unless the database fails. It fetches the object under whose key the body was
/// stored, and is announced with the type and the name that the upload's request gave.
pub proof fn law_uploaded_file_comes_back(
    before: Db,
    after: Db,
    request: HeaderMap,
    limits: Limits,
    guards: Guards,
    configured: Option<Seq<char>>,
    file: NewFile,
    received: Option<usize>,
    failure: Option<String>,
    reply: Reply,
    later: Tables,
    month: Seq<char>,
    now: int,
    guards_later: Guards,
    r: ApiResult<DownloadTicket>,
    left: Tables,
)
    requires
        before.conforms(),
        before.undisturbed(),
        uploaded(
            before,
            after,
            request,
            limits,
            guards,
            configured,
            file,
            received,
            failure,
            Ok(reply),
        ),
        after@.can_become(later),
        now < file.expires_at,
        later.files[file.id@].downloads < limits.max_downloads,
        later.files[file.id@].removed_at is None,
        later.counts(month).class_b < guards_later.class_b,
        rules::download_outcome(later, month, file.id@, now, guards_later, r, left),
    ensures
        after.idle(),
        failure is None,
        received matches Some(n) && n as i64 == file.size_bytes,
        reply.status == StatusCode::Created,
        reply.body@ == service::link_line(headers::public_url(configured, request), file.id@),
        file.key@ == service::object_key(file.id@),
        match r {
            Ok(ticket) => {
                &&& ticket.id@ == file.id@
                &&& ticket.key@ == file.key@
                &&& ticket.content_type@ == headers::given_content_type(request)
                &&& ticket.name@ == headers::given_name(request, file.id@)
                &&& headers::can_announce(ticket.content_type@, ticket.name@)
            },
            Err(e) => e.of_database(),
        },
{
    let base = headers::public_url(configured, request);
    law_upload_takes_its_size_or_nothing(
        before,
        after,
        request,
        limits,
        guards,
        configured,
        file,
        received,
        failure,
        Ok(reply),
    );
    let (begun, read) = choose|begun: Db, read: Db|
        #[trigger] service::started(before, begun, request, limits, guards, Ok(file))
            && #[trigger] service::accepted(begun, read, file, received, Ok(()))
            && service::finished(
            read,
            after,
            file,
            failure,
            base,
            Ok::<Reply, ApiError>(reply),
        );
    lemma_started(before, begun, request, limits, guards, file);
    headers::law_uploads_can_be_announced(request, file.id@);
    assert(after@.files.contains_key(file.id@));
    assert(later.files[file.id@].key == file.key@);
}

/// Whether a list of files to be deleted holds this file with this key.
pub open spec fn lists_file(list: Seq<(String, String)>, id: Seq<char>, key: Seq<char>) -> bool {
    exists|i: int|
        0 <= i < list.len() && (#[trigger] list[i]).0@ == id && list[i].1@ == key
}

/// A list of due files whose limit is not below the number of files holds them all.
proof fn lemma_lists_all(
    list: Seq<(String, String)>,
    tables: Tables,
    now: int,
    stale: int,
    limit: int,
    id: Seq<char>,
)
    requires
        tables.valid(),
        sql::lists_due(list, tables, now, stale, limit),
        limit < 0 || tables.files.dom().len() <= limit,
        tables.files.contains_key(id),
        tables.files[id].due(now, stale),
    ensures
        sql::lists_id(list, id),
{
    if 0 <= limit <= list.len() {
        let ids = list.map_values(|entry: (String, String)| entry.0@);
        assert(ids.no_duplicates()) by {
            assert forall|i: int, j: int| 0 <= i < ids.len() && 0 <= j < ids.len() && i != j implies
                ids[i] != ids[j] by {
                if i < j {
                    assert(list[i].0@ != list[j].0@);
                } else {
                    assert(list[j].0@ != list[i].0@);
                }
            }
        }
        ids.unique_seq_to_set();
        assert(ids.to_set().subset_of(tables.files.dom())) by {
            assert forall|x: Seq<char>| ids.to_set().contains(x) implies tables.files.dom().contains(
                x,
            ) by {
                let i = choose|i: int| 0 <= i < ids.len() && ids[i] == x;
                assert(tables.files.contains_key(list[i].0@));
            }
        }
        vstd::set_lib::lemma_len_subset(ids.to_set(), tables.files.dom());
        vstd::set_lib::lemma_subset_equality(ids.to_set(), tables.files.dom());
        assert(ids.to_set().contains(id));
        let i = choose|i: int| 0 <= i < ids.len() && ids[i] == id;
        assert(list[i].0@ == id);
    }
}

/// A cleanup takes exactly the open links that can no longer be downloaded: where the
/// limit is not below the number of files, it lists an open link if and only if a
/// download at the same time is answered as expired.
pub proof fn law_cleanup_takes_ended_links(
    found: Tables,
    month: Seq<char>,
    id: Seq<char>,
    now: i64,
    guards: Guards,
    r: ApiResult<DownloadTicket>,
    left: Tables,
    limit: int,
    list: Vec<(String, String)>,
)
    requires
        found.files.contains_key(id),
        found.files[id].offered(),
        rules::download_outcome(found, month, id, now as int, guards, r, left),
        !(r matches Err(e) && e.of_database()),
        limit < 0 || found.files.dom().len() <= limit,
        rules::due_outcome(found, now, limit, Ok(list)),
    ensures
        lists_file(list@, id, found.files[id].key) <==> (r matches Err(e) && e.says(
            StatusCode::Gone,
            "link expired"@,
        )),
{
    let row = found.files[id];
    let stale = rules::stale_time(now) as int;
    if row.ended(now as int) {
        lemma_lists_all(list@, found, now as int, stale, limit, id);
        let i = choose|i: int| 0 <= i < list@.len() && (#[trigger] list@[i]).0@ == id;
        assert(list@[i].1@ == row.key);
    }
}

/// What the record of a removal is: the file's row is marked with the time, an unknown
/// id changes nothing, and the bytes that the file took up are free.
pub proof fn law_removal_effect(
    before: Db,
    after: Db,
    found: Tables,
    id: Seq<char>,
    at: i64,
)
    requires
        before.idle(),
        db::changed(before, after, found, found.set_removed(id, at), Ok(())),
    ensures
        after.idle(),
        after@ == (if found.files.contains_key(id) {
            let row = FileRow { removed_at: Some(at), ..found.files[id] };
            Tables { files: found.files.insert(id, row), ..found }
        } else {
            found
        }),
        after@.live_bytes() == found.live_bytes() - (if found.files.contains_key(id) {
            found.files[id].live_bytes()
        } else {
            0
        }),
{
    if found.files.contains_key(id) {
        laws::law_removed_file_is_gone(found, id, at, 0, 0);
    }
}

/// What a removal means from then on, whatever requests come in between, one that
/// opens the link among them: a download is answered as not found unless the database
/// fails, and no cleanup lists the file.
pub proof fn law_removed_file_is_done_with(
    t: Tables,
    id: Seq<char>,
    at: i64,
    later: Tables,
    month: Seq<char>,
    now: int,
    guards: Guards,
    r: ApiResult<DownloadTicket>,
    left: Tables,
    time: i64,
    limit: int,
    list: Vec<(String, String)>,
)
    requires
        t.files.contains_key(id),
        t.set_removed(id, at).can_become(later),
        rules::download_outcome(later, month, id, now, guards, r, left),
        rules::due_outcome(later, time, limit, Ok(list)),
    ensures
        r matches Err(e) && (e.of_database() || e.says(StatusCode::NotFound, "link not found"@)),
        !sql::lists_id(list@, id),
{
    let removed = t.set_removed(id, at);
    assert(removed.files.contains_key(id));
    laws::law_removed_link_never_comes_back(removed, id, later, now);
    if sql::lists_id(list@, id) {
        let i = choose|i: int| 0 <= i < list@.len() && (#[trigger] list@[i]).0@ == id;
        assert(later.files[list@[i].0@].due(time as int, rules::stale_time(time) as int));
    }
}

/// One operation on the records, with its result.
pub enum Step {
    Upload { month: Seq<char>, file: NewFile, r: ApiResult<()> },
    Download { month: Seq<char>, id: Seq<char>, now: int, r: ApiResult<DownloadTicket> },
    Reserve { month: Seq<char>, r: ApiResult<bool> },
    Ready { id: Seq<char>, r: ApiResult<()> },
    Removal { id: Seq<char>, at: i64, r: ApiResult<()> },
}

impl Step {
    /// Whether the operation can end so when it finds the tables `found`.
    pub open spec fn leads(self, found: Tables, guards: Guards, left: Tables) -> bool {
        match self {
            Step::Upload { month, file, r } => rules::upload_outcome(
                found,
                month,
                file,
                guards,
                r,
                left,
            ),
            Step::Download { month, id, now, r } => rules::download_outcome(
                found,
                month,
                id,
                now,
                guards,
                r,
                left,
            ),
            Step::Reserve { month, r } => rules::reserve_outcome(found, month, guards, r, left),
            Step::Ready { id, r } => rules::change_outcome(found, found.set_ready(id), r, left),
            Step::Removal { id, at, r } => rules::change_outcome(
                found,
                found.set_removed(id, at),
                r,
                left,
            ),
        }
    }

    /// Whether this uploads a file of a negative size, which no request announces.
    pub open spec fn has_negative_size(self) -> bool {
        self matches Step::Upload { file, .. } && file.size_bytes < 0
    }

    /// Whether this is a download of the file `id` that was granted.
    pub open spec fn grants(self, of: Seq<char>) -> bool {
        self matches Step::Download { id, r, .. } && id == of && r is Ok
    }

    /// Whether this is a download of the file `id` that was granted as its last.
    pub open spec fn grants_last(self, of: Seq<char>) -> bool {
        self matches Step::Download { id, r: Ok(ticket), .. } && id == of && ticket.delete_after
    }
}

/// Whether the steps lead through these tables, from the first to the last.
pub open spec fn leads_through(steps: Seq<Step>, guards: Guards, tables: Seq<Tables>) -> bool {
    &&& tables.len() == steps.len() + 1
    &&& forall|i: int|
        0 <= i < steps.len() ==> (#[trigger] steps[i]).leads(tables[i], guards, tables[i + 1])
}

/// How many downloads of the file `id` were granted.
pub open spec fn granted(steps: Seq<Step>, id: Seq<char>) -> int
    decreases steps.len(),
{
    if steps.len() == 0 {
        0
    } else {
        granted(steps.drop_last(), id) + if steps.last().grants(id) {
            1int
        } else {
            0
        }
    }
}

/// How many downloads of the file `id` were granted as its last.
pub open spec fn granted_last(steps: Seq<Step>, id: Seq<char>) -> int
    decreases steps.len(),
{
    if steps.len() == 0 {
        0
    } else {
        granted_last(steps.drop_last(), id) + if steps.last().grants_last(id) {
            1int
        } else {
            0
        }
    }
}

proof fn lemma_leads_to_last(steps: Seq<Step>, guards: Guards, tables: Seq<Tables>)
    requires
        leads_through(steps, guards, tables),
        steps.len() > 0,
    ensures
        leads_through(steps.drop_last(), guards, tables.drop_last()),
        tables.drop_last()[0] == tables[0],
        steps.last().leads(tables.drop_last().last(), guards, tables.last()),
{
    let (some, before) = (steps.drop_last(), tables.drop_last());
    assert forall|i: int| 0 <= i < some.len() implies (#[trigger] some[i]).leads(
        before[i],
        guards,
        before[i + 1],
    ) by {
        assert(steps[i].leads(tables[i], guards, tables[i + 1]));
    }
    let n = steps.len() - 1;
    assert(steps[n].leads(tables[n], guards, tables[n + 1]));
}

/// The guards are never passed, whatever operations follow each other.
pub proof fn law_guards_are_never_passed(
    steps: Seq<Step>,
    guards: Guards,
    tables: Seq<Tables>,
)
    requires
        leads_through(steps, guards, tables),
        tables[0].within(guards),
        forall|i: int| 0 <= i < steps.len() ==> !(#[trigger] steps[i]).has_negative_size(),
    ensures
        tables.last().within(guards),
    decreases steps.len(),
{
    if steps.len() > 0 {
        lemma_leads_to_last(steps, guards, tables);
        let some = steps.drop_last();
        assert forall|i: int| 0 <= i < some.len() implies !(#[trigger] some[i]).has_negative_size() by {
            assert(some[i] == steps[i]);
        }
        law_guards_are_never_passed(some, guards, tables.drop_last());
        let (found, left) = (tables.drop_last().last(), tables.last());
        assert(!steps[steps.len() - 1].has_negative_size());
        match steps.last() {
            Step::Upload { month, file, r } => {
                laws::law_upload_keeps_guards(found, month, file, guards, r, left);
            },
            Step::Download { month, id, now, r } => {
                laws::law_download_keeps_guards(found, month, id, now, guards, r, left);
            },
            Step::Reserve { month, r } => {
                laws::law_reserve_keeps_guards(found, month, guards, r, left);
            },
            Step::Ready { id, r } => {
                laws::law_ready_keeps_guards(found, id, guards, r, left);
            },
            Step::Removal { id, at, r } => {
                laws::law_removal_keeps_guards(found, id, at, guards, r, left);
            },
        }
    }
}

/// Nothing is forgotten, whatever operations follow each other.
pub proof fn law_nothing_is_ever_forgotten(
    steps: Seq<Step>,
    guards: Guards,
    tables: Seq<Tables>,
)
    requires
        leads_through(steps, guards, tables),
    ensures
        tables[0].can_become(tables.last()),
    decreases steps.len(),
{
    if steps.len() > 0 {
        lemma_leads_to_last(steps, guards, tables);
        law_nothing_is_ever_forgotten(steps.drop_last(), guards, tables.drop_last());
        let (found, left) = (tables.drop_last().last(), tables.last());
        match steps.last() {
            Step::Upload { month, file, r } => {
                laws::law_upload_forgets_nothing(found, month, file, guards, r, left);
            },
            Step::Download { month, id, now, r } => {
                laws::law_download_forgets_nothing(found, month, id, now, guards, r, left);
            },
            Step::Reserve { month, r } => {
                laws::law_reserve_forgets_nothing(found, month, guards, r, left);
            },
            Step::Ready { id, r } => {
                laws::law_ready_forgets_nothing(found, id, r, left);
            },
            Step::Removal { id, at, r } => {
                laws::law_removal_forgets_nothing(found, id, at, r, left);
            },
        }
        laws::law_nothing_is_forgotten_in_turn(tables[0], found, left);
    }
}

/// How often a file has been downloaded: never before it is there.
pub open spec fn downloads_of(t: Tables, id: Seq<char>) -> int {
    if t.files.contains_key(id) {
        t.files[id].downloads as int
    } else {
        0
    }
}

/// A file is downloaded as often as it allows at most, and at most one of its
/// downloads is told to be the last, whatever operations follow each other.
pub proof fn law_no_more_downloads_than_allowed(
    steps: Seq<Step>,
    guards: Guards,
    tables: Seq<Tables>,
    id: Seq<char>,
)
    requires
        leads_through(steps, guards, tables),
    ensures
        0 <= granted_last(steps, id) <= granted(steps, id),
        granted_last(steps, id) <= 1,
        downloads_of(tables[0], id) + granted(steps, id) <= downloads_of(tables.last(), id),
        granted(steps, id) > 0 ==> {
            &&& tables.last().files.contains_key(id)
            &&& tables.last().files[id].downloads <= tables.last().files[id].max_downloads
        },
        granted_last(steps, id) == 1 ==> tables.last().files[id].downloads
            >= tables.last().files[id].max_downloads,
    decreases steps.len(),
{
    if steps.len() > 0 {
        lemma_leads_to_last(steps, guards, tables);
        law_no_more_downloads_than_allowed(steps.drop_last(), guards, tables.drop_last(), id);
    }
}

} // verus!
