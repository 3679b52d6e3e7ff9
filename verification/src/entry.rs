//! Plain records for one directory entry: the path as the enumeration
//! reported it, the file type, and the lazily fetched metadata.  A read
//! that failed is recorded as `None`; the renderer drops such rows.

use vstd::prelude::*;

verus! {

/// The metadata of one entry: size in bytes and the creation and
/// modification times as seconds since the Unix epoch.
#[derive(Clone, Copy, Debug, PartialEq, Eq, Structural)]
pub struct EntryMeta {
    /// Size in bytes.
    pub size: u64,
    /// Creation time, seconds since the Unix epoch.
    pub created_secs: i64,
    /// Modification time, seconds since the Unix epoch.
    pub updated_secs: i64,
}

/// One directory entry as handed to the renderer.  `is_dir` is `None` when
/// the file-type read failed, `meta` is `None` when the metadata read
/// failed.
pub struct EntryRecord {
    /// The path as the enumeration reported it.
    pub path: String,
    /// Whether the entry is a directory; `None` if the file type could not
    /// be read.
    pub is_dir: Option<bool>,
    /// The entry's metadata; `None` if it could not be read.
    pub meta: Option<EntryMeta>,
}

/// The mathematical image of an `EntryRecord`.
pub struct EntryRecordView {
    /// The path's characters.
    pub path: Seq<char>,
    /// Whether the entry is a directory, if known.
    pub is_dir: Option<bool>,
    /// The metadata, if known.
    pub meta: Option<EntryMeta>,
}

impl View for EntryRecord {
    type V = EntryRecordView;

    open spec fn view(&self) -> EntryRecordView {
        EntryRecordView { path: self.path@, is_dir: self.is_dir, meta: self.meta }
    }
}

} // verus!
