//! The two tables that the service keeps, as mathematical values, and what each
//! operation makes of them.

use vstd::prelude::*;

verus! {

/// One row of the table of files, without its id.
pub struct FileRow {
    pub key: Seq<char>,
    pub name: Seq<char>,
    pub content_type: Seq<char>,
    pub size_bytes: i64,
    pub created_at: i64,
    pub expires_at: i64,
    pub downloads: i64,
    pub max_downloads: i64,
    pub ready: i64,
    pub removed_at: Option<i64>,
}

/// One row of the table of monthly operation counts, without its month.
pub struct UsageRow {
    pub class_a: i64,
    pub class_b: i64,
}

/// The table of files by id, and the table of operation counts by month.
#[verifier::ext_equal]
pub struct Tables {
    pub files: Map<Seq<char>, FileRow>,
    pub usage: Map<Seq<char>, UsageRow>,
}

impl FileRow {
    /// A file takes up storage until it is removed.
    pub open spec fn live_bytes(self) -> int {
        if self.removed_at is None {
            self.size_bytes as int
        } else {
            0
        }
    }

    /// A link can be asked for once its upload is complete and until it is removed.
    pub open spec fn offered(self) -> bool {
        self.ready == 1 && self.removed_at is None
    }

    /// A link ends at its expiry time or after its last download.
    pub open spec fn ended(self, now: int) -> bool {
        self.expires_at <= now || self.downloads >= self.max_downloads
    }

    /// A file is to be deleted when its link has ended, or when its upload was
    /// begun at `stale` or before and never completed.
    pub open spec fn due(self, now: int, stale: int) -> bool {
        &&& self.removed_at is None
        &&& self.ended(now) || (self.ready == 0 && self.created_at <= stale)
    }
}

/// The bytes that all files together take up.
pub open spec fn total_live(files: Map<Seq<char>, FileRow>) -> int
    decreases files.dom().len(),
    when files.dom().finite()
{
    if files.dom().len() == 0 {
        0
    } else {
        let id = files.dom().choose();
        files[id].live_bytes() + total_live(files.remove(id))
    }
}

impl Tables {
    /// Tables are finite, and no two files share an object key.
    pub open spec fn valid(self) -> bool {
        &&& self.files.dom().finite()
        &&& forall|i: Seq<char>, j: Seq<char>|
            self.files.contains_key(i) && self.files.contains_key(j) && i != j
                ==> #[trigger] self.files[i].key != #[trigger] self.files[j].key
    }

    /// The bytes that the files take up.
    pub open spec fn live_bytes(self) -> int {
        total_live(self.files)
    }

    /// The operation counts of a month: zero before the month has a row.
    pub open spec fn counts(self, month: Seq<char>) -> UsageRow {
        if self.usage.contains_key(month) {
            self.usage[month]
        } else {
            UsageRow { class_a: 0, class_b: 0 }
        }
    }

    pub open spec fn has_key(self, key: Seq<char>) -> bool {
        exists|id: Seq<char>| self.files.contains_key(id) && #[trigger] self.files[id].key == key
    }

    /// The month has a row; a row that was there stays as it was.
    pub open spec fn with_month(self, month: Seq<char>) -> Tables {
        Tables { usage: self.usage.insert(month, self.counts(month)), ..self }
    }

    /// One more class A operation in the month's row, if there is such a row.
    pub open spec fn count_class_a(self, month: Seq<char>) -> Tables {
        if self.usage.contains_key(month) {
            let row = self.usage[month];
            let next = UsageRow { class_a: (row.class_a + 1) as i64, ..row };
            Tables { usage: self.usage.insert(month, next), ..self }
        } else {
            self
        }
    }

    /// One more class B operation in the month's row, if there is such a row.
    pub open spec fn count_class_b(self, month: Seq<char>) -> Tables {
        if self.usage.contains_key(month) {
            let row = self.usage[month];
            let next = UsageRow { class_b: (row.class_b + 1) as i64, ..row };
            Tables { usage: self.usage.insert(month, next), ..self }
        } else {
            self
        }
    }

    /// A new row in the table of files.
    pub open spec fn add_file(self, id: Seq<char>, row: FileRow) -> Tables {
        Tables { files: self.files.insert(id, row), ..self }
    }

    /// Another row in place of the file's row, if there is such a file.
    pub open spec fn set_file(self, id: Seq<char>, row: FileRow) -> Tables {
        if self.files.contains_key(id) {
            Tables { files: self.files.insert(id, row), ..self }
        } else {
            self
        }
    }

    pub open spec fn set_downloads(self, id: Seq<char>, downloads: i64) -> Tables {
        self.set_file(id, FileRow { downloads, ..self.files[id] })
    }

    pub open spec fn set_ready(self, id: Seq<char>) -> Tables {
        self.set_file(id, FileRow { ready: 1, ..self.files[id] })
    }

    pub open spec fn set_removed(self, id: Seq<char>, at: i64) -> Tables {
        self.set_file(id, FileRow { removed_at: Some(at), ..self.files[id] })
    }
}

} // verus!
