//! What the service decides on the way of a request, between one step of
//! communication and the next.

use vstd::prelude::*;
use axum::http::HeaderMap;
use uuid::Uuid;
use crate::clock::{can_show, now};
use crate::config::{Guards, Limits};
use crate::db;
use crate::db::Db;
use crate::error::{ApiError, ApiResult, Reply, StatusCode};
use crate::headers;
use crate::rules;
use crate::rules::Refusal;
use crate::share::{DownloadTicket, NewFile};
use crate::sql;
use crate::tables::Tables;
use crate::text;

verus! {

pub const PAGE_HEAD: &'static str = r#"<!doctype html>
<html lang="en">
<head>
<meta charset="utf-8">
<meta name="viewport" content="width=device-width,initial-scale=1">
<title>lake</title>
<style>
:root{font:16px/1.45 system-ui,sans-serif;color:#111;background:#fafafa}
body{margin:0;display:grid;min-height:100vh;place-items:center}
main{width:min(680px,calc(100vw - 40px))}
h1{font-size:clamp(38px,8vw,76px);line-height:1;margin:0 0 18px}
p{color:#555;margin:12px 0}
code{display:block;white-space:pre-wrap;overflow-wrap:anywhere;background:#111;color:#fff;padding:16px;border-radius:8px}
</style>
</head>
<body>
<main>
<h1>lake</h1>
<code>curl -fsS -H "X-Filename: file" --data-binary @file "#;

pub const PAGE_TAIL: &'static str = r#"/upload</code>
<p>No sign-up. Links expire after 7 days or 20 downloads.</p>
</main>
</body>
</html>"#;

/// The start page, which shows how to upload to the URL that the client used.
pub fn index(configured: &Option<String>, headers: &HeaderMap) -> (r: String)
    ensures
        r@ == PAGE_HEAD@ + text::escaped(headers::public_url(configured.deep_view(), *headers))
            + PAGE_TAIL@,
{
    let base = text::escape_html(headers::base_url(configured, headers).as_str());
    let mut page = PAGE_HEAD.to_string();
    page.append(base.as_str());
    page.append(PAGE_TAIL);
    page
}

pub open spec fn is_hex(c: char) -> bool {
    '0' <= c <= '9' || 'a' <= c <= 'f'
}

/// The form of a file's id: a random UUID, as 32 hexadecimal digits.
pub open spec fn is_id(s: Seq<char>) -> bool {
    &&& s.len() == 32
    &&& forall|i: int| 0 <= i < 32 ==> is_hex(#[trigger] s[i])
    &&& s[12] == '4'
    &&& s[16] == '8' || s[16] == '9' || s[16] == 'a' || s[16] == 'b'
}

/// `Uuid::new_v4`, formatted by `Uuid::simple`: a random UUID as 32 hexadecimal
/// digits in lower case, two of which tell its version and variant. Nothing is
/// known of the others. It panics if the system has no random numbers to give.
#[verifier::external_body]
fn random_id() -> (r: String)
    ensures
        is_id(r@),
{
    Uuid::new_v4().simple().to_string()
}

/// The key of the object that holds the file `id`.
pub open spec fn object_key(id: Seq<char>) -> Seq<char> {
    "shares/"@ + id
}

/// Files with different ids have different object keys.
pub proof fn law_keys_are_distinct(a: Seq<char>, b: Seq<char>)
    requires
        a != b,
    ensures
        object_key(a) != object_key(b),
{
    let n = "shares/"@.len() as int;
    assert(object_key(a).skip(n) =~= a);
    assert(object_key(b).skip(n) =~= b);
}

/// A file that is uploaded without a usable name is named by its id.
pub proof fn law_unnamed_file_is_named_by_id(request: HeaderMap, id: Seq<char>)
    requires
        is_id(id),
        headers::text_of(request, "x-filename"@) is None,
    ensures
        headers::given_name(request, id) == id,
{
    assert forall|i: int| 0 <= i < id.len() implies headers::is_plain(#[trigger] id[i]) by {
        assert(is_hex(id[i]));
    }
    headers::law_plain_names_are_kept(id);
}

/// Why a request's announcement of its body is refused, if it is.
pub open spec fn size_refusal(request: HeaderMap, limits: Limits) -> Option<Refusal> {
    match headers::announced_length(request) {
        None => Some((StatusCode::LengthRequired, "content-length required"@)),
        Some(n) => if n == 0 {
            Some((StatusCode::BadRequest, "empty uploads are not useful"@))
        } else if n > limits.max_upload_bytes as i64 {
            Some((StatusCode::PayloadTooLarge, "file is too large"@))
        } else {
            None
        },
    }
}

/// An upload goes ahead only with a body of at least one byte and at most the
/// limit.
pub proof fn law_admitted_size_is_in_bounds(request: HeaderMap, limits: Limits)
    requires
        size_refusal(request, limits) is None,
    ensures
        headers::announced_length(request) matches Some(n) && 1 <= n <= limits.max_upload_bytes,
{
    let limit = limits.max_upload_bytes;
    assert(limit as i64 <= limit) by (bit_vector);
}

/// Decides whether a body of the announced length may be sent, and gives the length.
pub fn check_size(request: &HeaderMap, limits: &Limits) -> (r: ApiResult<i64>)
    ensures
        match r {
            Ok(size) => {
                &&& size_refusal(*request, *limits) is None
                &&& headers::announced_length(*request) == Some(size as int)
            },
            Err(e) => e.reports(size_refusal(*request, *limits)),
        },
{
    let size: i64 = headers::content_length(request)?;
    if size == 0 {
        return Err(ApiError::new(StatusCode::BadRequest, "empty uploads are not useful"));
    }
    if size > limits.max_upload_bytes as i64 {
        return Err(ApiError::new(StatusCode::PayloadTooLarge, "file is too large"));
    }
    Ok(size)
}

/// Whether `file` is what a request uploads, under the id `id` and at the time `now`.
pub open spec fn is_upload_of(
    file: NewFile,
    request: HeaderMap,
    id: Seq<char>,
    size: int,
    now: i64,
    limits: Limits,
) -> bool {
    &&& file.id@ == id
    &&& file.key@ == object_key(id)
    &&& file.name@ == headers::given_name(request, id)
    &&& file.content_type@ == headers::given_content_type(request)
    &&& file.size_bytes == size
    &&& file.created_at == now
    &&& file.expires_at == now.wrapping_add(limits.ttl_seconds)
    &&& file.max_downloads == limits.max_downloads
}

/// The link of a file that was uploaded at `created` serves downloads for as long
/// as the limits say, and is answered as expired from then on.
pub proof fn law_link_lives_as_long_as_limits_say(
    t: Tables,
    month: Seq<char>,
    file: NewFile,
    request: HeaderMap,
    size: int,
    created: i64,
    limits: Limits,
    time: int,
)
    requires
        is_upload_of(file, request, file.id@, size, created, limits),
        i64::MIN <= created + limits.ttl_seconds <= i64::MAX,
        limits.max_downloads > 0,
    ensures
        t.with_upload(month, file).set_ready(file.id@).refuses_link(file.id@, time) == (if time
            < created + limits.ttl_seconds {
            None
        } else {
            Some((StatusCode::Gone, "link expired"@))
        }),
{
}

/// Makes the record of the file that a request uploads.
pub fn new_file(request: &HeaderMap, id: String, size: i64, now: i64, limits: &Limits) -> (r:
    NewFile)
    ensures
        is_upload_of(r, *request, id@, size as int, now, *limits),
{
    let mut key = "shares/".to_string();
    key.append(id.as_str());
    NewFile {
        key,
        name: headers::filename(request, id.as_str()),
        content_type: headers::content_type(request),
        id,
        size_bytes: size,
        created_at: now,
        expires_at: now.wrapping_add(limits.ttl_seconds),
        max_downloads: limits.max_downloads,
    }
}

/// Whether `file` can be what a request uploads, whatever id and time it is given.
pub open spec fn can_upload(file: NewFile, request: HeaderMap, limits: Limits) -> bool {
    exists|id: Seq<char>, now: i64|
        is_id(id) && can_show(now) && headers::announced_length(request) is Some
            && #[trigger] is_upload_of(
            file,
            request,
            id,
            headers::announced_length(request)->0,
            now,
            limits,
        )
}

/// Makes the record of a file that a request announces, if it may be sent, with a
/// new id and the current time.
pub fn prepare_upload(request: &HeaderMap, limits: &Limits) -> (r: ApiResult<NewFile>)
    ensures
        match r {
            Ok(file) => {
                &&& size_refusal(*request, *limits) is None
                &&& can_upload(file, *request, *limits)
            },
            Err(e) => e.reports(size_refusal(*request, *limits)),
        },
{
    let size: i64 = check_size(request, limits)?;
    let id = random_id();
    let ghost id_text = id@;
    let now: i64 = now();
    let file = new_file(request, id, size, now, limits);
    proof {
        assert(is_upload_of(file, *request, id_text, size as int, now, *limits));
    }
    Ok(file)
}

/// How starting the upload of `file` can end when it finds the tables `found` in
/// `month`: as its record does, with the file as the answer.
pub open spec fn start_outcome(
    found: Tables,
    month: Seq<char>,
    file: NewFile,
    guards: Guards,
    r: ApiResult<NewFile>,
    left: Tables,
) -> bool {
    match r {
        Ok(answer) => {
            &&& answer == file
            &&& rules::upload_outcome(found, month, file, guards, Ok(()), left)
        },
        Err(e) => rules::upload_outcome(found, month, file, guards, Err(e), left),
    }
}

/// How starting an upload can end for the database `before`.
///
/// What the request announces is refused, with nothing changed, or the file is
/// recorded under the guards.
pub open spec fn started(
    before: Db,
    after: Db,
    request: HeaderMap,
    limits: Limits,
    guards: Guards,
    r: ApiResult<NewFile>,
) -> bool {
    &&& after.follows(before)
    &&& after.settled_after(before)
    &&& r is Ok ==> after.idle()
    &&& match size_refusal(request, limits) {
        Some(refusal) => {
            &&& after == before
            &&& r matches Err(e) && e.reports(Some(refusal))
        },
        None => {
            &&& r matches Ok(file) ==> can_upload(file, request, limits)
            &&& r matches Err(e) ==> e.of_database() || rules::refuses_as_upload(e)
            &&& !before.idle() ==> (r matches Err(e) && e.of_database())
            &&& before.conforms() ==> exists|found: Tables, month: Seq<char>, file: NewFile|
                before.can_find(found) && sql::is_month(month) && can_upload(file, request, limits)
                    && #[trigger] start_outcome(found, month, file, guards, r, after@)
        },
    }
}

/// Starts an upload: checks what the request announces, and records the file. The
/// body is to be read next, up to the limit.
pub fn start_upload(db: &mut Db, request: &HeaderMap, limits: &Limits, guards: &Guards) -> (r:
    ApiResult<NewFile>)
    ensures
        started(*old(db), *final(db), *request, *limits, *guards, r),
{
    let file = prepare_upload(request, limits)?;
    let done = db.begin_upload(&file, guards);
    let ghost outcome = done;
    let ghost recorded = file;
    let r = match done {
        Ok(_) => Ok(file),
        Err(e) => Err(e),
    };
    proof {
        if old(db).conforms() {
            let (found, month) = choose|found: Tables, month: Seq<char>|
                old(db).can_find(found) && sql::is_month(month) && #[trigger] rules::upload_outcome(
                    found,
                    month,
                    recorded,
                    *guards,
                    outcome,
                    db@,
                );
            assert(start_outcome(found, month, recorded, *guards, r, db@));
        }
    }
    r
}

/// Why the body of an upload of `size` bytes is refused, if it is: `received` is the
/// number of bytes that came, or none if they were more than the limit.
pub open spec fn body_refusal(size: i64, received: Option<usize>) -> Option<Refusal> {
    match received {
        Some(n) => if n as i64 == size {
            None
        } else {
            Some((StatusCode::BadRequest, "content-length mismatch"@))
        },
        None => Some((StatusCode::PayloadTooLarge, "file is too large"@)),
    }
}

/// Decides whether the body that came is the one that was announced.
pub fn check_body(size: i64, received: Option<usize>) -> (r: ApiResult<()>)
    ensures
        match r {
            Ok(_) => body_refusal(size, received) is None,
            Err(e) => e.reports(body_refusal(size, received)),
        },
{
    match received {
        Some(n) => {
            if n as i64 == size {
                Ok(())
            } else {
                Err(ApiError::new(StatusCode::BadRequest, "content-length mismatch"))
            }
        },
        None => Err(ApiError::new(StatusCode::PayloadTooLarge, "file is too large")),
    }
}

/// How giving up the upload `id` can end for the database `before`, when it finds the
/// tables `found`: the file is recorded as removed and the request is answered with
/// `refusal`, or with the failure if the record (`done`) fails.
pub open spec fn gave_up(
    before: Db,
    after: Db,
    found: Tables,
    id: Seq<char>,
    at: i64,
    done: ApiResult<()>,
    refusal: Option<Refusal>,
    e: ApiError,
) -> bool {
    &&& can_show(at)
    &&& db::changed(before, after, found, found.set_removed(id, at), done)
    &&& match done {
        Ok(_) => e.reports(refusal),
        Err(failure) => e == failure,
    }
}

/// Gives up an upload: records the file as removed, and answers with `refusal`
/// unless that fails.
fn give_up(db: &mut Db, id: &str, refusal: ApiError) -> (e: ApiError)
    ensures
        final(db).follows(*old(db)),
        old(db).idle() ==> final(db).idle(),
        e == refusal || e.of_database(),
        old(db).conforms() ==> exists|found: Tables, at: i64, done: ApiResult<()>| #[trigger]
            gave_up(
                *old(db),
                *final(db),
                found,
                id@,
                at,
                done,
                Some((refusal.status, refusal.message@)),
                e,
            ),
{
    let done = db.mark_removed(id);
    let ghost outcome = done;
    let e = match done {
        Ok(_) => refusal,
        Err(e) => e,
    };
    proof {
        if old(db).conforms() {
            let before = *old(db);
            let (found, at) = choose|found: Tables, at: i64|
                can_show(at) && #[trigger] db::changed(
                    before,
                    *db,
                    found,
                    found.set_removed(id@, at),
                    outcome,
                );
            let answer = Some((refusal.status, refusal.message@));
            assert(gave_up(before, *db, found, id@, at, outcome, answer, e));
        }
    }
    e
}

/// How an upload can go on for the database `before` when its body has been read: with
/// nothing changed if it is the body that was announced, and else it is given up.
pub open spec fn accepted(
    before: Db,
    after: Db,
    file: NewFile,
    received: Option<usize>,
    r: ApiResult<()>,
) -> bool {
    &&& after.follows(before)
    &&& before.idle() ==> after.idle()
    &&& match r {
        Ok(_) => body_refusal(file.size_bytes, received) is None && after == before,
        Err(e) => {
            let refusal = body_refusal(file.size_bytes, received);
            &&& refusal is Some
            &&& e.reports(refusal) || e.of_database()
            &&& before.conforms() ==> exists|found: Tables, at: i64, done: ApiResult<()>| #[trigger]
                gave_up(before, after, found, file.id@, at, done, refusal, e)
        },
    }
}

/// Goes on with an upload when its body has been read: it is to be stored next if it
/// is the body that was announced, and else the upload is given up.
pub fn accept_body(db: &mut Db, file: &NewFile, received: Option<usize>) -> (r: ApiResult<()>)
    ensures
        accepted(*old(db), *final(db), *file, received, r),
{
    match check_body(file.size_bytes, received) {
        Ok(_) => Ok(()),
        Err(refusal) => Err(give_up(db, file.id.as_str(), refusal)),
    }
}

/// The line that answers an upload: the URL of the link.
pub open spec fn link_line(base: Seq<char>, id: Seq<char>) -> Seq<char> {
    base + "/f/"@ + id + "\n"@
}

/// The refusal of a step towards the object store that failed.
pub open spec fn store_refusal(stage: Seq<char>, text: Seq<char>) -> Refusal {
    (StatusCode::BadGateway, "r2 "@ + stage + " failed: "@ + text)
}

/// How an upload can end for the database `before` when the object store has been
/// asked to store it: its link is opened and answered with, or, if the store failed,
/// it is given up.
pub open spec fn finished(
    before: Db,
    after: Db,
    file: NewFile,
    failure: Option<String>,
    base: Seq<char>,
    r: ApiResult<Reply>,
) -> bool {
    &&& after.follows(before)
    &&& before.idle() ==> after.idle()
    &&& match failure {
        None => {
            &&& match r {
                Ok(reply) => {
                    &&& reply.status == StatusCode::Created
                    &&& reply.body@ == link_line(base, file.id@)
                },
                Err(e) => e.of_database(),
            }
            &&& before.conforms() ==> exists|found: Tables, done: ApiResult<()>|
                #[trigger] db::changed(before, after, found, found.set_ready(file.id@), done)
                    && match done {
                    Ok(_) => r is Ok,
                    Err(failure) => r == Err::<Reply, ApiError>(failure),
                }
        },
        Some(text) => {
            let refusal = Some(store_refusal("upload"@, text@));
            r matches Err(e) && {
                &&& e.reports(refusal) || e.of_database()
                &&& before.conforms() ==> exists|found: Tables, at: i64, done: ApiResult<()>|
                    #[trigger]
                    gave_up(before, after, found, file.id@, at, done, refusal, e)
            }
        },
    }
}

/// Ends an upload when the object store has been asked to store it: the link is
/// opened and answered with, or, if the store failed, the upload is given up.
/// `failure` is the store's description of why it failed, if it did.
pub fn finish_upload(db: &mut Db, file: &NewFile, failure: Option<String>, base: &str) -> (r:
    ApiResult<Reply>)
    ensures
        finished(*old(db), *final(db), *file, failure, base@, r),
{
    match failure {
        Some(text) => {
            let refusal = ApiError::object_store("upload", text.as_str());
            Err(give_up(db, file.id.as_str(), refusal))
        },
        None => {
            db.mark_ready(file.id.as_str())?;
            let mut body = base.to_string();
            body.append("/f/");
            body.append(file.id.as_str());
            body.append("\n");
            Ok(Reply { status: StatusCode::Created, body })
        },
    }
}

/// How fetching a file from the object store can fail, with the store's description.
#[derive(Debug)]
pub enum FetchFailure {
    Request(String),
    Body(String),
}

/// Goes on with a download when the object store has been asked for the file: it is
/// to be deleted, before it is served, if this was the link's last download.
pub fn after_fetch(ticket: &DownloadTicket, failure: Option<FetchFailure>) -> (r: ApiResult<bool>)
    ensures
        match failure {
            None => r == Ok::<bool, ApiError>(ticket.delete_after),
            Some(FetchFailure::Request(text)) => r matches Err(e) && e.reports(
                Some(store_refusal("download"@, text@)),
            ),
            Some(FetchFailure::Body(text)) => r matches Err(e) && e.reports(
                Some(store_refusal("body"@, text@)),
            ),
        },
{
    match failure {
        None => Ok(ticket.delete_after),
        Some(FetchFailure::Request(text)) => Err(
            ApiError::object_store("download", text.as_str()),
        ),
        Some(FetchFailure::Body(text)) => Err(ApiError::object_store("body", text.as_str())),
    }
}

/// Decides whether an object may be deleted now: whether an operation of class A
/// could be spent on it.
pub fn may_delete(db: &mut Db, guards: &Guards) -> (r: bool)
    ensures
        final(db).follows(*old(db)),
        final(db).settled_after(*old(db)),
        r ==> final(db).idle(),
        !old(db).idle() ==> !r,
        old(db).conforms() ==> exists|found: Tables, month: Seq<char>, spent: ApiResult<bool>|
            old(db).can_find(found) && sql::is_month(month) && #[trigger] rules::reserve_outcome(
                found,
                month,
                *guards,
                spent,
                final(db)@,
            ) && r == (spent == Ok::<bool, ApiError>(true)),
{
    let spent = db.reserve_class_a(guards);
    match spent {
        Ok(spent) => spent,
        Err(_) => false,
    }
}

/// Ends the deletion of the object of the file `id`: the file is recorded as removed
/// if the object was deleted. If the record fails, a later cleanup deletes again.
pub fn finish_delete(db: &mut Db, id: &str, deleted: bool)
    ensures
        final(db).follows(*old(db)),
        old(db).idle() ==> final(db).idle(),
        !deleted ==> *final(db) == *old(db),
        deleted && old(db).conforms() ==> exists|found: Tables, at: i64, done: ApiResult<()>|
            can_show(at) && #[trigger] db::changed(
                *old(db),
                *final(db),
                found,
                found.set_removed(id@, at),
                done,
            ),
{
    if deleted {
        let _ = db.mark_removed(id);
    }
}

/// How many files one cleanup deletes at most.
pub const CLEANUP_BATCH: i64 = 100;

/// The ids and keys of the files that a cleanup is to delete now; none if the
/// database fails.
pub fn files_to_delete(db: &mut Db) -> (r: Vec<(String, String)>)
    ensures
        final(db).follows(*old(db)),
        db::looked(*old(db), *final(db), false),
        old(db).conforms() ==> exists|now: i64, listed: ApiResult<Vec<(String, String)>>|
            can_show(now) && #[trigger] rules::due_outcome(
                db::looked_at(*old(db), *final(db)),
                now,
                CLEANUP_BATCH as int,
                listed,
            ) && match listed {
                Ok(list) => r == list && db::looked(*old(db), *final(db), true),
                Err(_) => r@.len() == 0,
            },
{
    let listed = db.expired_files(CLEANUP_BATCH);
    match listed {
        Ok(list) => list,
        Err(_) => Vec::new(),
    }
}

} // verus!
