use vstd::prelude::*;
use crate::path::{FsPath, PathView};
use crate::size::{get_dir_size, saturate, files_total, WalkMeta};

verus! {

/// What the filesystem reports of one entry.
#[derive(Clone, Copy)]
pub struct EntryMeta {
    pub is_dir: bool,
    /// The length in bytes (of no meaning for a directory).
    pub len: u64,
    /// The modification time in seconds since the Unix epoch, where known.
    pub modified: Option<u64>,
}

/// One filesystem object as shown in a listing or in search results.
pub struct FileEntry {
    pub path: FsPath,
    /// For a file its length; for a directory the total of the files under it.
    pub size: u64,
    /// Modification time in seconds since the Unix epoch.
    pub modified: u64,
    pub is_dir: bool,
}

pub struct EntryView {
    pub path: PathView,
    pub size: u64,
    pub modified: u64,
    pub is_dir: bool,
}

impl View for FileEntry {
    type V = EntryView;

    open spec fn view(&self) -> EntryView {
        EntryView { path: self.path@, size: self.size, modified: self.modified, is_dir: self.is_dir }
    }
}

pub open spec fn entries_view(v: Seq<FileEntry>) -> Seq<EntryView> {
    v.map_values(|e: FileEntry| e@)
}

/// The entry for `path`: a directory is sized by the walk of its subtree, a
/// file by its length; an unknown modification time becomes `now`.
pub open spec fn entry_of(path: PathView, meta: EntryMeta, subtree: Seq<Option<WalkMeta>>, now: u64) -> EntryView {
    EntryView {
        path,
        size: if meta.is_dir {
            saturate(files_total(subtree))
        } else {
            meta.len
        },
        modified: match meta.modified {
            Some(t) => t,
            None => now,
        },
        is_dir: meta.is_dir,
    }
}

pub fn make_entry(path: FsPath, meta: EntryMeta, subtree: &Vec<Option<WalkMeta>>, now: u64) -> (r: FileEntry)
    ensures
        r@ == entry_of(path@, meta, subtree@, now),
{
    let size = if meta.is_dir {
        get_dir_size(subtree)
    } else {
        meta.len
    };
    let modified = match meta.modified {
        Some(t) => t,
        None => now,
    };
    FileEntry { path, size, modified, is_dir: meta.is_dir }
}

} // verus!
