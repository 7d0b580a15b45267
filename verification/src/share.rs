//! Files on their way in and out.

use vstd::prelude::*;
use crate::tables::FileRow;

verus! {

/// A file that is about to be uploaded.
#[derive(Debug)]
pub struct NewFile {
    pub id: String,
    pub key: String,
    pub name: String,
    pub content_type: String,
    pub size_bytes: i64,
    pub created_at: i64,
    pub expires_at: i64,
    pub max_downloads: i64,
}

impl NewFile {
    /// The row that a new file gets: not downloaded, not ready, not removed.
    pub open spec fn row(self) -> FileRow {
        FileRow {
            key: self.key@,
            name: self.name@,
            content_type: self.content_type@,
            size_bytes: self.size_bytes,
            created_at: self.created_at,
            expires_at: self.expires_at,
            downloads: 0,
            max_downloads: self.max_downloads,
            ready: 0,
            removed_at: None,
        }
    }
}

/// The columns of a file that a download needs.
#[derive(Debug)]
pub struct OfferedFile {
    pub key: String,
    pub name: String,
    pub content_type: String,
    pub expires_at: i64,
    pub downloads: i64,
    pub max_downloads: i64,
}

impl OfferedFile {
    /// Whether these are the columns of the row.
    pub open spec fn is_of(self, row: FileRow) -> bool {
        &&& self.key@ == row.key
        &&& self.name@ == row.name
        &&& self.content_type@ == row.content_type
        &&& self.expires_at == row.expires_at
        &&& self.downloads == row.downloads
        &&& self.max_downloads == row.max_downloads
    }
}

/// What is needed to serve a download that was granted.
#[derive(Debug)]
pub struct DownloadTicket {
    pub id: String,
    pub key: String,
    pub name: String,
    pub content_type: String,
    /// Whether this was the link's last download.
    pub delete_after: bool,
}

impl DownloadTicket {
    /// Whether this is the ticket for a download of the file `id` that was
    /// granted when its row was `row`.
    pub open spec fn is_for(self, id: Seq<char>, row: FileRow) -> bool {
        &&& self.id@ == id
        &&& self.key@ == row.key
        &&& self.name@ == row.name
        &&& self.content_type@ == row.content_type
        &&& self.delete_after == (row.downloads + 1 >= row.max_downloads)
    }
}

} // verus!
