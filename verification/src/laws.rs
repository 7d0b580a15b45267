//! What holds of the records as a whole, whatever requests come in.

use vstd::prelude::*;
use axum::http::HeaderMap;
use crate::config::{Guards, Limits};
use crate::db::Db;
use crate::error::{ApiError, ApiResult, StatusCode};
use crate::rules;
use crate::rules::{class_b_refusal, stale_time, Refusal};
use crate::service;
use crate::share::{DownloadTicket, NewFile};
use crate::tables::{FileRow, Tables, UsageRow};
use crate::tables;

verus! {

impl FileRow {
    /// A file has a size, and has not been downloaded more often than it may be.
    pub open spec fn within_limits(self) -> bool {
        &&& 0 <= self.size_bytes
        &&& 0 <= self.downloads
        &&& self.downloads == 0 || self.downloads <= self.max_downloads
    }
}

impl Tables {
    /// What every request keeps: the tables are valid, the files stay below the
    /// storage guard and within their downloads, and the operations that were spent
    /// in a month, if any were, do not exceed the guards.
    pub open spec fn within(self, guards: Guards) -> bool {
        &&& self.valid()
        &&& self.live_bytes() <= guards.storage
        &&& forall|id: Seq<char>| #[trigger]
            self.files.contains_key(id) ==> self.files[id].within_limits()
        &&& forall|month: Seq<char>| #[trigger]
            self.usage.contains_key(month) ==> {
                &&& self.usage[month].class_a == 0 || self.usage[month].class_a <= guards.class_a
                &&& self.usage[month].class_b == 0 || self.usage[month].class_b <= guards.class_b
            }
    }
}

/// The total of the live bytes can be taken apart at any file.
proof fn lemma_total_live_remove(files: Map<Seq<char>, FileRow>, id: Seq<char>)
    requires
        files.dom().finite(),
        files.contains_key(id),
    ensures
        tables::total_live(files) == files[id].live_bytes() + tables::total_live(files.remove(id)),
    decreases files.dom().len(),
{
    let c = files.dom().choose();
    assert(files.dom().contains(c));
    assert(files.remove(c).dom() =~= files.dom().remove(c));
    assert(files.remove(id).dom() =~= files.dom().remove(id));
    if c != id {
        lemma_total_live_remove(files.remove(c), id);
        lemma_total_live_remove(files.remove(id), c);
        assert(files.remove(c).remove(id) =~= files.remove(id).remove(c));
    }
}

/// A new row adds its live bytes, and takes away those of the row it replaces.
pub(crate) proof fn lemma_total_live_insert(files: Map<Seq<char>, FileRow>, id: Seq<char>, row: FileRow)
    requires
        files.dom().finite(),
    ensures
        files.insert(id, row).dom().finite(),
        tables::total_live(files.insert(id, row)) == tables::total_live(files) + row.live_bytes() - (
        if files.contains_key(id) {
            files[id].live_bytes()
        } else {
            0
        }),
{
    let more = files.insert(id, row);
    assert(more.dom() =~= files.dom().insert(id));
    lemma_total_live_remove(more, id);
    if files.contains_key(id) {
        lemma_total_live_remove(files, id);
        assert(more.remove(id) =~= files.remove(id));
    } else {
        assert(more.remove(id) =~= files);
    }
}

/// Valid tables stay valid when a file is added whose id and key are not taken.
proof fn lemma_add_file_valid(t: Tables, id: Seq<char>, row: FileRow)
    requires
        t.valid(),
        !t.files.contains_key(id),
        !t.has_key(row.key),
    ensures
        t.add_file(id, row).valid(),
        t.add_file(id, row).live_bytes() == t.live_bytes() + row.live_bytes(),
{
    lemma_total_live_insert(t.files, id, row);
    let after = t.add_file(id, row);
    assert forall|i: Seq<char>, j: Seq<char>|
        after.files.contains_key(i) && after.files.contains_key(j) && i != j implies
        #[trigger] after.files[i].key != #[trigger] after.files[j].key by {
        if i == id {
            assert(t.files[j].key != row.key);
        } else if j == id {
            assert(t.files[i].key != row.key);
        } else {
            assert(t.files[i].key != t.files[j].key);
        }
    }
}

/// Valid tables stay valid when a file's row changes but keeps its key.
proof fn lemma_set_file_valid(t: Tables, id: Seq<char>, row: FileRow)
    requires
        t.valid(),
        t.files.contains_key(id),
        row.key == t.files[id].key,
    ensures
        t.set_file(id, row).valid(),
        t.set_file(id, row).live_bytes() == t.live_bytes() + row.live_bytes()
            - t.files[id].live_bytes(),
{
    lemma_total_live_insert(t.files, id, row);
    let after = t.set_file(id, row);
    assert forall|i: Seq<char>, j: Seq<char>|
        after.files.contains_key(i) && after.files.contains_key(j) && i != j implies
        #[trigger] after.files[i].key != #[trigger] after.files[j].key by {
        assert(t.files[i].key != t.files[j].key);
    }
}

/// An upload, however it ends, keeps the tables within the guards: uploads stop
/// before the limits are reached.
pub proof fn law_upload_keeps_guards(
    found: Tables,
    month: Seq<char>,
    file: NewFile,
    guards: Guards,
    r: ApiResult<()>,
    left: Tables,
)
    requires
        found.within(guards),
        file.size_bytes >= 0,
        rules::upload_outcome(found, month, file, guards, r, left),
    ensures
        left.within(guards),
{
    if left != found {
        lemma_add_file_valid(found.with_class_a(month), file.id@, file.row());
    }
}

/// A download, however it ends, keeps the tables within the guards.
pub proof fn law_download_keeps_guards(
    found: Tables,
    month: Seq<char>,
    id: Seq<char>,
    now: int,
    guards: Guards,
    r: ApiResult<DownloadTicket>,
    left: Tables,
)
    requires
        found.within(guards),
        rules::download_outcome(found, month, id, now, guards, r, left),
    ensures
        left.within(guards),
{
    if left != found {
        let counted = found.with_month(month).count_class_b(month);
        let row = FileRow {
            downloads: (found.files[id].downloads + 1) as i64,
            ..found.files[id]
        };
        lemma_set_file_valid(counted, id, row);
    }
}

/// Spending an operation of class A, however it ends, keeps the tables within the
/// guards.
pub proof fn law_reserve_keeps_guards(
    found: Tables,
    month: Seq<char>,
    guards: Guards,
    r: ApiResult<bool>,
    left: Tables,
)
    requires
        found.within(guards),
        rules::reserve_outcome(found, month, guards, r, left),
    ensures
        left.within(guards),
{
}

/// Opening a link keeps the tables within the guards.
pub proof fn law_ready_keeps_guards(
    found: Tables,
    id: Seq<char>,
    guards: Guards,
    r: ApiResult<()>,
    left: Tables,
)
    requires
        found.within(guards),
        rules::change_outcome(found, found.set_ready(id), r, left),
    ensures
        left.within(guards),
{
    if found.files.contains_key(id) {
        lemma_set_file_valid(found, id, FileRow { ready: 1, ..found.files[id] });
    }
}

/// Removing a file keeps the tables within the guards.
pub proof fn law_removal_keeps_guards(
    found: Tables,
    id: Seq<char>,
    at: i64,
    guards: Guards,
    r: ApiResult<()>,
    left: Tables,
)
    requires
        found.within(guards),
        rules::change_outcome(found, found.set_removed(id, at), r, left),
    ensures
        left.within(guards),
{
    if found.files.contains_key(id) {
        lemma_set_file_valid(found, id, FileRow { removed_at: Some(at), ..found.files[id] });
    }
}

/// Starting an upload, however it ends, keeps the tables within the guards.
pub proof fn law_start_keeps_guards(
    found: Tables,
    month: Seq<char>,
    file: NewFile,
    request: HeaderMap,
    limits: Limits,
    guards: Guards,
    r: ApiResult<NewFile>,
    left: Tables,
)
    requires
        found.within(guards),
        service::can_upload(file, request, limits),
        service::start_outcome(found, month, file, guards, r, left),
    ensures
        left.within(guards),
{
    let done: ApiResult<()> = match r {
        Ok(_) => Ok(()),
        Err(e) => Err(e),
    };
    law_upload_keeps_guards(found, month, file, guards, done, left);
}

/// Giving up an upload, however it ends, keeps the tables within the guards.
pub proof fn law_giving_up_keeps_guards(
    before: Db,
    after: Db,
    found: Tables,
    id: Seq<char>,
    at: i64,
    done: ApiResult<()>,
    refusal: Option<Refusal>,
    e: ApiError,
    guards: Guards,
)
    requires
        before.idle(),
        found.within(guards),
        service::gave_up(before, after, found, id, at, done, refusal, e),
    ensures
        after@.within(guards),
{
    law_removal_keeps_guards(found, id, at, guards, done, after@);
}

/// New records are within every guard that is not negative.
pub proof fn law_empty_within_guards(guards: Guards)
    requires
        guards.storage >= 0,
    ensures
        (Tables { files: Map::empty(), usage: Map::empty() }).within(guards),
{
    assert(Map::<Seq<char>, FileRow>::empty().dom() =~= Set::empty());
}

/// An upload is refused exactly when it would go over the storage guard, when the
/// month's operations of class A have reached their guard, or when those of class
/// B have.
pub proof fn law_upload_refused_at_guards(
    t: Tables,
    month: Seq<char>,
    file: NewFile,
    guards: Guards,
)
    ensures
        t.refuses_upload(month, file, guards) is Some <==> {
            ||| t.live_bytes() + file.size_bytes > guards.storage
            ||| t.counts(month).class_a >= guards.class_a
            ||| t.counts(month).class_b >= guards.class_b
        },
        t.refuses_upload(month, file, guards) matches Some(refusal) ==> refusal.0
            == StatusCode::ServiceUnavailable,
{
}

/// An upload that is admitted takes up its size and one operation of class A of
/// its month, and nothing else changes: no other file and no other count.
pub proof fn law_upload_effect(t: Tables, month: Seq<char>, file: NewFile, guards: Guards)
    requires
        t.valid(),
        t.has_room_for(file),
        t.refuses_upload(month, file, guards) is None,
    ensures
        ({
            let after = t.with_upload(month, file);
            &&& after.live_bytes() == t.live_bytes() + file.size_bytes
            &&& after.counts(month).class_a == t.counts(month).class_a + 1
            &&& after.counts(month).class_b == t.counts(month).class_b
            &&& after.files == t.files.insert(file.id@, file.row())
            &&& forall|other: Seq<char>|
                other != month ==> #[trigger] after.counts(other) == t.counts(other)
        }),
{
    lemma_add_file_valid(t.with_class_a(month), file.id@, file.row());
}

/// A download that is granted counts once for its file and once as an operation of
/// class B of its month, and nothing else changes.
pub proof fn law_download_effect(
    t: Tables,
    month: Seq<char>,
    id: Seq<char>,
    now: int,
    guards: Guards,
)
    requires
        t.valid(),
        t.refuses_download(month, id, now, guards) is None,
    ensures
        ({
            let after = t.with_download(month, id);
            &&& after.live_bytes() == t.live_bytes()
            &&& after.counts(month).class_a == t.counts(month).class_a
            &&& after.counts(month).class_b == t.counts(month).class_b + 1
            &&& after.files[id].downloads == t.files[id].downloads + 1
            &&& after.files == t.files.insert(
                id,
                FileRow { downloads: after.files[id].downloads, ..t.files[id] },
            )
            &&& forall|other: Seq<char>|
                other != month ==> #[trigger] after.counts(other) == t.counts(other)
        }),
{
    let counted = t.with_month(month).count_class_b(month);
    let row = FileRow { downloads: (t.files[id].downloads + 1) as i64, ..t.files[id] };
    lemma_set_file_valid(counted, id, row);
}

/// A request that is refused changes nothing: an upload that fails for another
/// reason than the database leaves the tables as they were found.
pub proof fn law_refused_upload_changes_nothing(
    found: Tables,
    month: Seq<char>,
    file: NewFile,
    guards: Guards,
    r: ApiResult<()>,
    left: Tables,
)
    requires
        rules::upload_outcome(found, month, file, guards, r, left),
        r matches Err(e) && !e.of_database(),
    ensures
        left == found,
        r matches Err(e) && e.reports(found.refuses_upload(month, file, guards)),
{
}

/// A request that is refused changes nothing: a download that fails for another
/// reason than the database leaves the tables as they were found.
pub proof fn law_refused_download_changes_nothing(
    found: Tables,
    month: Seq<char>,
    id: Seq<char>,
    now: int,
    guards: Guards,
    r: ApiResult<DownloadTicket>,
    left: Tables,
)
    requires
        rules::download_outcome(found, month, id, now, guards, r, left),
        r matches Err(e) && !e.of_database(),
    ensures
        left == found,
        r matches Err(e) && e.reports(found.refuses_download(month, id, now, guards)),
{
}

/// A link is not there before its upload is complete.
pub proof fn law_link_not_there_before_ready(t: Tables, month: Seq<char>, file: NewFile, now: int)
    ensures
        t.with_upload(month, file).refuses_link(file.id@, now) == Some(
            (StatusCode::NotFound, "link not found"@),
        ),
{
}

/// What was uploaded can be fetched: once the upload is complete, and until the
/// link expires, a download is refused only by the guard of class B, and its ticket
/// gives back the key, the name and the content type of the file.
pub proof fn law_uploaded_file_is_served(
    t: Tables,
    upload_month: Seq<char>,
    file: NewFile,
    month: Seq<char>,
    now: int,
    guards: Guards,
    r: ApiResult<DownloadTicket>,
    left: Tables,
)
    requires
        now < file.expires_at,
        0 < file.max_downloads,
        rules::download_outcome(
            t.with_upload(upload_month, file).set_ready(file.id@),
            month,
            file.id@,
            now,
            guards,
            r,
            left,
        ),
    ensures
        ({
            let ready = t.with_upload(upload_month, file).set_ready(file.id@);
            let refusal = class_b_refusal(ready.counts(month).class_b as int, guards);
            &&& ready.refuses_download(month, file.id@, now, guards) == refusal
            &&& match r {
                Ok(ticket) => {
                    &&& refusal is None
                    &&& ticket.id@ == file.id@
                    &&& ticket.key@ == file.key@
                    &&& ticket.name@ == file.name@
                    &&& ticket.content_type@ == file.content_type@
                    &&& ticket.delete_after == (file.max_downloads == 1)
                },
                Err(e) => e.of_database() || e.reports(refusal),
            }
        }),
{
}

/// The tables after a download of the file `id` in each of the given months.
pub open spec fn after_downloads(t: Tables, id: Seq<char>, months: Seq<Seq<char>>) -> Tables
    decreases months.len(),
{
    if months.len() == 0 {
        t
    } else {
        after_downloads(t, id, months.drop_last()).with_download(months.last(), id)
    }
}

/// A link serves as many downloads as its file allows and no more: after some
/// downloads it still serves, until it expires, exactly if they are fewer than
/// those that were left to it.
pub proof fn law_link_serves_its_downloads(
    t: Tables,
    id: Seq<char>,
    months: Seq<Seq<char>>,
    now: int,
)
    requires
        t.files.contains_key(id),
        t.files[id].offered(),
        now < t.files[id].expires_at,
        t.files[id].downloads + months.len() <= t.files[id].max_downloads,
    ensures
        ({
            let after = after_downloads(t, id, months);
            &&& after.files.contains_key(id)
            &&& after.files[id] == (FileRow {
                downloads: (t.files[id].downloads + months.len()) as i64,
                ..t.files[id]
            })
            &&& after.refuses_link(id, now) is None <==> t.files[id].downloads + months.len()
                < t.files[id].max_downloads
            &&& after.refuses_link(id, now) is Some ==> after.refuses_link(id, now) == Some(
                (StatusCode::Gone, "link expired"@),
            )
        }),
    decreases months.len(),
{
    if months.len() > 0 {
        law_link_serves_its_downloads(t, id, months.drop_last(), now);
    }
}

/// The ticket of a download tells that it was the last one exactly if the link has
/// ended with it, at whatever time.
pub proof fn law_last_download_is_told(
    found: Tables,
    month: Seq<char>,
    id: Seq<char>,
    now: int,
    guards: Guards,
    ticket: DownloadTicket,
    left: Tables,
)
    requires
        rules::download_outcome(found, month, id, now, guards, Ok(ticket), left),
    ensures
        ticket.delete_after <==> left.files[id].downloads >= left.files[id].max_downloads,
        ticket.delete_after ==> forall|time: int| #[trigger] left.refuses_link(id, time) == Some(
            (StatusCode::Gone, "link expired"@),
        ),
        !ticket.delete_after ==> left.refuses_link(id, now) is None,
{
}

/// Opening a link takes up no bytes.
pub proof fn law_ready_takes_up_nothing(t: Tables, id: Seq<char>)
    requires
        t.valid(),
    ensures
        t.set_ready(id).valid(),
        t.set_ready(id).live_bytes() == t.live_bytes(),
{
    if t.files.contains_key(id) {
        lemma_set_file_valid(t, id, FileRow { ready: 1, ..t.files[id] });
    }
}

/// A file that is removed frees its bytes, its link is not there any more, and it
/// is not deleted again.
pub proof fn law_removed_file_is_gone(t: Tables, id: Seq<char>, at: i64, now: int, stale: int)
    requires
        t.valid(),
        t.files.contains_key(id),
    ensures
        ({
            let after = t.set_removed(id, at);
            &&& after.live_bytes() == t.live_bytes() - t.files[id].live_bytes()
            &&& after.refuses_link(id, now) == Some((StatusCode::NotFound, "link not found"@))
            &&& !after.files[id].due(now, stale)
        }),
{
    lemma_set_file_valid(t, id, FileRow { removed_at: Some(at), ..t.files[id] });
}

/// An upload that is given up takes up no storage, and its link is not there.
pub proof fn law_given_up_upload_frees_its_bytes(
    t: Tables,
    month: Seq<char>,
    file: NewFile,
    at: i64,
    now: int,
)
    requires
        t.valid(),
        t.has_room_for(file),
    ensures
        ({
            let after = t.with_upload(month, file).set_removed(file.id@, at);
            &&& after.valid()
            &&& after.live_bytes() == t.live_bytes()
            &&& after.refuses_link(file.id@, now) == Some(
                (StatusCode::NotFound, "link not found"@),
            )
        }),
{
    lemma_add_file_valid(t.with_class_a(month), file.id@, file.row());
    let begun = t.with_upload(month, file);
    lemma_set_file_valid(begun, file.id@, FileRow { removed_at: Some(at), ..file.row() });
}

/// A link that still serves downloads is not up for deletion, and one that is
/// answered as expired is.
pub proof fn law_due_means_ended(t: Tables, id: Seq<char>, now: int, stale: int)
    requires
        t.files.contains_key(id),
    ensures
        t.refuses_link(id, now) is None ==> !t.files[id].due(now, stale),
        t.refuses_link(id, now) == Some((StatusCode::Gone, "link expired"@)) ==> t.files[id].due(
            now,
            stale,
        ),
{
    if !t.files[id].offered() {
        assert(t.refuses_link(id, now) == Some((StatusCode::NotFound, "link not found"@)));
    }
}

/// An upload that is not complete an hour after it was begun is up for deletion, and
/// one that is neither that old nor ended is not.
pub proof fn law_abandoned_upload_is_due(row: FileRow, now: i64)
    requires
        row.ready == 0,
        row.removed_at is None,
        !row.ended(now as int),
        now >= i64::MIN + 3600,
    ensures
        row.due(now as int, stale_time(now) as int) <==> row.created_at + 3600 <= now,
{
}

impl FileRow {
    /// Whether `later` can be this row, later: what was recorded of the file stays,
    /// its downloads only grow, and a file that is ready or removed stays so.
    pub open spec fn can_become(self, later: FileRow) -> bool {
        &&& later.key == self.key
        &&& later.name == self.name
        &&& later.content_type == self.content_type
        &&& later.size_bytes == self.size_bytes
        &&& later.created_at == self.created_at
        &&& later.expires_at == self.expires_at
        &&& later.max_downloads == self.max_downloads
        &&& later.downloads >= self.downloads
        &&& self.ready == 1 ==> later.ready == 1
        &&& self.removed_at is Some ==> later.removed_at is Some
    }
}

impl Tables {
    /// Whether `later` can be these tables, later: no file and no operation that was
    /// spent is forgotten.
    pub open spec fn can_become(self, later: Tables) -> bool {
        &&& forall|id: Seq<char>| #[trigger]
            self.files.contains_key(id) ==> later.files.contains_key(id)
                && self.files[id].can_become(later.files[id])
        &&& forall|month: Seq<char>|
            {
                &&& (#[trigger] later.counts(month)).class_a >= self.counts(month).class_a
                &&& later.counts(month).class_b >= self.counts(month).class_b
            }
    }
}

/// An upload, however it ends, forgets nothing.
pub proof fn law_upload_forgets_nothing(
    found: Tables,
    month: Seq<char>,
    file: NewFile,
    guards: Guards,
    r: ApiResult<()>,
    left: Tables,
)
    requires
        rules::upload_outcome(found, month, file, guards, r, left),
    ensures
        found.can_become(left),
{
}

/// A download, however it ends, forgets nothing.
pub proof fn law_download_forgets_nothing(
    found: Tables,
    month: Seq<char>,
    id: Seq<char>,
    now: int,
    guards: Guards,
    r: ApiResult<DownloadTicket>,
    left: Tables,
)
    requires
        rules::download_outcome(found, month, id, now, guards, r, left),
    ensures
        found.can_become(left),
{
}

/// Spending an operation of class A, however it ends, forgets nothing.
pub proof fn law_reserve_forgets_nothing(
    found: Tables,
    month: Seq<char>,
    guards: Guards,
    r: ApiResult<bool>,
    left: Tables,
)
    requires
        rules::reserve_outcome(found, month, guards, r, left),
    ensures
        found.can_become(left),
{
}

/// Opening a link forgets nothing.
pub proof fn law_ready_forgets_nothing(
    found: Tables,
    id: Seq<char>,
    r: ApiResult<()>,
    left: Tables,
)
    requires
        rules::change_outcome(found, found.set_ready(id), r, left),
    ensures
        found.can_become(left),
{
}

/// Removing a file forgets nothing: its row stays, marked as removed.
pub proof fn law_removal_forgets_nothing(
    found: Tables,
    id: Seq<char>,
    at: i64,
    r: ApiResult<()>,
    left: Tables,
)
    requires
        rules::change_outcome(found, found.set_removed(id, at), r, left),
    ensures
        found.can_become(left),
{
}

/// What forgets nothing step by step forgets nothing.
pub proof fn law_nothing_is_forgotten_in_turn(a: Tables, b: Tables, c: Tables)
    requires
        a.can_become(b),
        b.can_become(c),
    ensures
        a.can_become(c),
{
    assert forall|id: Seq<char>| #[trigger] a.files.contains_key(id) implies c.files.contains_key(id)
        && a.files[id].can_become(c.files[id]) by {
        assert(b.files.contains_key(id));
    }
    assert forall|month: Seq<char>|
        {
            &&& (#[trigger] c.counts(month)).class_a >= a.counts(month).class_a
            &&& c.counts(month).class_b >= a.counts(month).class_b
        } by {
        assert(b.counts(month).class_a >= a.counts(month).class_a);
    }
}

/// A link that has ended never serves again, whatever requests come in between: from
/// then on it is answered as expired or, once the file is removed, as not found.
pub proof fn law_ended_link_never_serves_again(
    t: Tables,
    id: Seq<char>,
    now: int,
    later: Tables,
    time: int,
)
    requires
        t.refuses_link(id, now) == Some((StatusCode::Gone, "link expired"@)),
        t.can_become(later),
        now <= time,
    ensures
        later.refuses_link(id, time) == (if later.files[id].removed_at is None {
            Some((StatusCode::Gone, "link expired"@))
        } else {
            Some((StatusCode::NotFound, "link not found"@))
        }),
{
    if !t.files.contains_key(id) || !t.files[id].offered() {
        assert(t.refuses_link(id, now) == Some((StatusCode::NotFound, "link not found"@)));
    }
}

/// The link of a file that was removed is never there again.
pub proof fn law_removed_link_never_comes_back(
    t: Tables,
    id: Seq<char>,
    later: Tables,
    time: int,
)
    requires
        t.files.contains_key(id),
        t.files[id].removed_at is Some,
        t.can_become(later),
    ensures
        later.refuses_link(id, time) == Some((StatusCode::NotFound, "link not found"@)),
{
}

/// A link that is open serves on, whatever requests come in between, until it
/// expires, has had its downloads, or its file is removed.
pub proof fn law_open_link_serves_on(t: Tables, id: Seq<char>, later: Tables, time: int)
    requires
        t.files.contains_key(id),
        t.files[id].offered(),
        t.can_become(later),
        time < t.files[id].expires_at,
        later.files[id].downloads < t.files[id].max_downloads,
        later.files[id].removed_at is None,
    ensures
        later.refuses_link(id, time) is None,
        later.files[id].key == t.files[id].key,
        later.files[id].name == t.files[id].name,
        later.files[id].content_type == t.files[id].content_type,
{
}

/// A month without a record has spent nothing: counting starts anew every month.
pub proof fn law_counting_starts_anew(t: Tables, month: Seq<char>)
    requires
        !t.usage.contains_key(month),
    ensures
        t.counts(month) == (UsageRow { class_a: 0, class_b: 0 }),
        t.with_class_a(month).counts(month) == (UsageRow { class_a: 1, class_b: 0 }),
{
}

} // verus!
