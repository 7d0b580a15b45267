//! The rules: which requests are refused, and what the others make of the tables.

use vstd::prelude::*;
use crate::config::Guards;
use crate::error::{ApiError, ApiResult, StatusCode};
use crate::share::{DownloadTicket, NewFile, OfferedFile};
use crate::sql;
use crate::tables::{Tables, UsageRow};

verus! {

/// A refusal: the status and the message.
pub type Refusal = (StatusCode, Seq<char>);

/// Why an upload is refused, if it is: the first guard that stands in the way.
pub open spec fn upload_refusal(storage: int, counts: UsageRow, size: int, guards: Guards) -> Option<
    Refusal,
> {
    if storage + size > guards.storage {
        Some((StatusCode::ServiceUnavailable, "upload disabled: storage guard reached"@))
    } else if counts.class_a + 1 > guards.class_a {
        Some((StatusCode::ServiceUnavailable, "upload disabled: Class A guard reached"@))
    } else if counts.class_b >= guards.class_b {
        Some((StatusCode::ServiceUnavailable, "upload disabled: Class B guard reached"@))
    } else {
        None
    }
}

/// Whether an error is one with which uploads are refused.
pub open spec fn refuses_as_upload(e: ApiError) -> bool {
    ||| e.says(StatusCode::ServiceUnavailable, "upload disabled: storage guard reached"@)
    ||| e.says(StatusCode::ServiceUnavailable, "upload disabled: Class A guard reached"@)
    ||| e.says(StatusCode::ServiceUnavailable, "upload disabled: Class B guard reached"@)
}

/// Decides whether a file of `size` bytes may be uploaded when `storage` bytes are
/// taken up and so many operations of each class have been spent.
pub fn check_upload(storage: i64, class_a: i64, class_b: i64, size: i64, guards: &Guards) -> (r:
    ApiResult<()>)
    ensures
        ({
            let counts = UsageRow { class_a, class_b };
            let refusal = upload_refusal(storage as int, counts, size as int, *guards);
            match r {
                Ok(_) => refusal is None,
                Err(e) => e.reports(refusal),
            }
        }),
{
    let total: i128 = storage as i128 + size as i128;
    if total > guards.storage as i128 {
        return Err(
            ApiError::new(
                StatusCode::ServiceUnavailable,
                "upload disabled: storage guard reached",
            ),
        );
    }
    if class_a >= guards.class_a {
        return Err(
            ApiError::new(
                StatusCode::ServiceUnavailable,
                "upload disabled: Class A guard reached",
            ),
        );
    }
    if class_b >= guards.class_b {
        return Err(
            ApiError::new(
                StatusCode::ServiceUnavailable,
                "upload disabled: Class B guard reached",
            ),
        );
    }
    Ok(())
}

/// Why a link does not serve downloads at `now`, if it does not, where `found` is
/// the file that it offers.
pub open spec fn link_refusal(found: Option<OfferedFile>, now: int) -> Option<Refusal> {
    match found {
        None => Some((StatusCode::NotFound, "link not found"@)),
        Some(file) => if file.expires_at <= now || file.downloads >= file.max_downloads {
            Some((StatusCode::Gone, "link expired"@))
        } else {
            None
        },
    }
}

/// Decides whether a link still serves downloads.
pub fn check_link(found: Option<OfferedFile>, now: i64) -> (r: ApiResult<OfferedFile>)
    ensures
        match r {
            Ok(file) => found == Some(file) && link_refusal(found, now as int) is None,
            Err(e) => e.reports(link_refusal(found, now as int)),
        },
{
    match found {
        None => Err(ApiError::new(StatusCode::NotFound, "link not found")),
        Some(file) => {
            if file.expires_at <= now || file.downloads >= file.max_downloads {
                return Err(ApiError::new(StatusCode::Gone, "link expired"));
            }
            Ok(file)
        },
    }
}

/// Why no operation of class B may be spent on a download, if so.
pub open spec fn class_b_refusal(class_b: int, guards: Guards) -> Option<Refusal> {
    if class_b + 1 > guards.class_b {
        Some((StatusCode::ServiceUnavailable, "download disabled: Class B guard reached"@))
    } else {
        None
    }
}

/// Whether an error is one with which downloads are refused.
pub open spec fn refuses_as_download(e: ApiError) -> bool {
    ||| e.says(StatusCode::NotFound, "link not found"@)
    ||| e.says(StatusCode::Gone, "link expired"@)
    ||| e.says(StatusCode::ServiceUnavailable, "download disabled: Class B guard reached"@)
}

/// Grants a download of a link that serves downloads, when so many operations of
/// class B have been spent: the file's next number of downloads, and the ticket.
pub fn grant_download(id: &str, file: OfferedFile, class_b: i64, guards: &Guards) -> (r: ApiResult<
    (i64, DownloadTicket),
>)
    requires
        file.downloads < i64::MAX,
    ensures
        match r {
            Ok((downloads, ticket)) => {
                &&& class_b_refusal(class_b as int, *guards) is None
                &&& downloads == file.downloads + 1
                &&& ticket.id@ == id@
                &&& ticket.key == file.key
                &&& ticket.name == file.name
                &&& ticket.content_type == file.content_type
                &&& ticket.delete_after == (downloads >= file.max_downloads)
            },
            Err(e) => e.reports(class_b_refusal(class_b as int, *guards)),
        },
{
    if class_b >= guards.class_b {
        return Err(
            ApiError::new(
                StatusCode::ServiceUnavailable,
                "download disabled: Class B guard reached",
            ),
        );
    }
    let next_downloads: i64 = file.downloads + 1;
    let ticket = DownloadTicket {
        id: id.to_string(),
        key: file.key,
        name: file.name,
        content_type: file.content_type,
        delete_after: next_downloads >= file.max_downloads,
    };
    Ok((next_downloads, ticket))
}

/// Decides whether one more operation of class A may be spent.
pub fn allows_class_a(class_a: i64, guards: &Guards) -> (r: bool)
    ensures
        r == (class_a + 1 <= guards.class_a),
{
    class_a < guards.class_a
}

/// An upload that was begun at or before this time and is not complete is given up
/// at `now`: an hour ago.
pub open spec fn stale_time(now: i64) -> i64 {
    now.wrapping_sub(3600)
}

impl Tables {
    /// Why an upload is refused in `month`, if it is.
    pub open spec fn refuses_upload(self, month: Seq<char>, file: NewFile, guards: Guards) -> Option<
        Refusal,
    > {
        upload_refusal(self.live_bytes(), self.counts(month), file.size_bytes as int, guards)
    }

    /// Why a link does not serve downloads at `now`, if it does not.
    pub open spec fn refuses_link(self, id: Seq<char>, now: int) -> Option<Refusal> {
        if !self.files.contains_key(id) || !self.files[id].offered() {
            Some((StatusCode::NotFound, "link not found"@))
        } else if self.files[id].ended(now) {
            Some((StatusCode::Gone, "link expired"@))
        } else {
            None
        }
    }

    /// Why a download is refused in `month` at `now`, if it is.
    pub open spec fn refuses_download(
        self,
        month: Seq<char>,
        id: Seq<char>,
        now: int,
        guards: Guards,
    ) -> Option<Refusal> {
        if self.refuses_link(id, now) is Some {
            self.refuses_link(id, now)
        } else {
            class_b_refusal(self.counts(month).class_b as int, guards)
        }
    }

    /// Whether the guard refuses another operation of class A in `month`.
    pub open spec fn refuses_class_a(self, month: Seq<char>, guards: Guards) -> bool {
        self.counts(month).class_a + 1 > guards.class_a
    }

    /// The tables once an operation of class A has been spent in `month`.
    pub open spec fn with_class_a(self, month: Seq<char>) -> Tables {
        self.with_month(month).count_class_a(month)
    }

    /// The tables once an upload has been admitted in `month`.
    pub open spec fn with_upload(self, month: Seq<char>, file: NewFile) -> Tables {
        self.with_class_a(month).add_file(file.id@, file.row())
    }

    /// The tables once a download has been granted in `month`.
    pub open spec fn with_download(self, month: Seq<char>, id: Seq<char>) -> Tables {
        self.with_month(month).count_class_b(month).set_downloads(
            id,
            (self.files[id].downloads + 1) as i64,
        )
    }

    /// Whether neither the id nor the key of the file is taken.
    pub open spec fn has_room_for(self, file: NewFile) -> bool {
        !self.files.contains_key(file.id@) && !self.has_key(file.key@)
    }
}

/// How beginning an upload can end when it finds the tables `found` in `month`.
///
/// It is refused, with nothing changed, or it spends one operation of class A and
/// adds the file. A failing database can prevent either; it then leaves the
/// tables as found, or fails to report that the upload was saved.
pub open spec fn upload_outcome(
    found: Tables,
    month: Seq<char>,
    file: NewFile,
    guards: Guards,
    r: ApiResult<()>,
    left: Tables,
) -> bool {
    let refusal = found.refuses_upload(month, file, guards);
    let admitted = {
        &&& found.valid()
        &&& refusal is None
        &&& found.has_room_for(file)
        &&& left == found.with_upload(month, file)
    };
    match r {
        Ok(_) => admitted,
        Err(e) => {
            ||| e.of_database() && (left == found || admitted)
            ||| found.valid() && e.reports(refusal) && left == found
        },
    }
}

/// How beginning a download can end when it finds the tables `found`.
///
/// It is refused, with nothing changed, or it spends one operation of class B and
/// one download of the file. A failing database can prevent either; it then
/// leaves the tables as found, or fails to report that the download was saved.
pub open spec fn download_outcome(
    found: Tables,
    month: Seq<char>,
    id: Seq<char>,
    now: int,
    guards: Guards,
    r: ApiResult<DownloadTicket>,
    left: Tables,
) -> bool {
    let refusal = found.refuses_download(month, id, now, guards);
    let granted = {
        &&& found.valid()
        &&& refusal is None
        &&& left == found.with_download(month, id)
    };
    match r {
        Ok(ticket) => granted && ticket.is_for(id, found.files[id]),
        Err(e) => {
            ||| e.of_database() && (left == found || granted)
            ||| found.valid() && e.reports(refusal) && left == found
        },
    }
}

/// How spending an operation of class A can end when it finds the tables `found`.
pub open spec fn reserve_outcome(
    found: Tables,
    month: Seq<char>,
    guards: Guards,
    r: ApiResult<bool>,
    left: Tables,
) -> bool {
    let spent = {
        &&& found.valid()
        &&& !found.refuses_class_a(month, guards)
        &&& left == found.with_class_a(month)
    };
    match r {
        Ok(true) => spent,
        Ok(false) => found.valid() && found.refuses_class_a(month, guards) && left == found,
        Err(e) => e.of_database() && (left == found || spent),
    }
}

/// How a change that nothing stands in the way of can end when it finds the
/// tables `found`: with the tables `changed`, or with a failing database.
pub open spec fn change_outcome(
    found: Tables,
    changed: Tables,
    r: ApiResult<()>,
    left: Tables,
) -> bool {
    match r {
        Ok(_) => found.valid() && left == changed,
        Err(e) => e.of_database() && (left == found || (found.valid() && left == changed)),
    }
}

/// How listing the files to be deleted can end with the tables `found`.
pub open spec fn due_outcome(
    found: Tables,
    now: i64,
    limit: int,
    r: ApiResult<Vec<(String, String)>>,
) -> bool {
    match r {
        Ok(list) => {
            &&& found.valid()
            &&& sql::lists_due(list@, found, now as int, stale_time(now) as int, limit)
        },
        Err(e) => e.of_database(),
    }
}

} // verus!
