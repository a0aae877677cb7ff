use vstd::prelude::*;
use crate::entry::{entries_view, EntryView, FileEntry};
use crate::listing::{listing_of, read_directory, ListedChild};
use crate::path::{FsPath, PathView};

verus! {

/// The state of the file browser.
pub struct FileManager {
    /// The directory being shown.
    pub current_dir: FsPath,
    /// The listing of `current_dir` as last computed.
    pub entries: Vec<FileEntry>,
    pub selected_file: Option<FsPath>,
    /// The source of the next paste; kept after pasting.
    pub clipboard: Option<FsPath>,
    /// The active filter; empty when no search is active.
    pub search_query: String,
    pub search_results: Vec<FileEntry>,
    /// When the search results were last computed, in milliseconds of a
    /// monotonic clock.
    pub last_search_time: u64,
    pub dark_mode: bool,
}

pub struct ManagerView {
    pub current_dir: PathView,
    pub entries: Seq<EntryView>,
    pub selected_file: Option<PathView>,
    pub clipboard: Option<PathView>,
    pub search_query: Seq<char>,
    pub search_results: Seq<EntryView>,
    pub last_search_time: u64,
    pub dark_mode: bool,
}

pub open spec fn opt_path(p: Option<FsPath>) -> Option<PathView> {
    match p {
        Some(q) => Some(q@),
        None => None,
    }
}

impl View for FileManager {
    type V = ManagerView;

    open spec fn view(&self) -> ManagerView {
        ManagerView {
            current_dir: self.current_dir@,
            entries: entries_view(self.entries@),
            selected_file: opt_path(self.selected_file),
            clipboard: opt_path(self.clipboard),
            search_query: self.search_query@,
            search_results: entries_view(self.search_results@),
            last_search_time: self.last_search_time,
            dark_mode: self.dark_mode,
        }
    }
}

impl ManagerView {
    /// The state after moving to `dir`, whose children are `children`.
    pub open spec fn moved_to(self, dir: PathView, children: Seq<ListedChild>, now: u64) -> ManagerView {
        ManagerView { current_dir: dir, entries: listing_of(dir, children, now), ..self }
    }

    /// The state with `entries` recomputed from `children`.
    pub open spec fn refreshed(self, children: Seq<ListedChild>, now: u64) -> ManagerView {
        self.moved_to(self.current_dir, children, now)
    }

    /// The entries the user sees: the search results while a search is
    /// active, else the listing.
    pub open spec fn visible(self) -> Seq<EntryView> {
        if self.search_query.len() == 0 {
            self.entries
        } else {
            self.search_results
        }
    }
}

impl FileManager {
    /// A browser rooted at `current_dir`, whose children are `children`, with
    /// nothing selected, an empty clipboard and no search. `now_ms` stands
    /// as the time of the last search; `wall_now` (seconds since the Unix
    /// epoch) replaces unknown modification times.
    pub fn new(current_dir: FsPath, children: &Vec<ListedChild>, now_ms: u64, wall_now: u64) -> (r: FileManager)
        ensures
            r@ == (ManagerView {
                current_dir: current_dir@,
                entries: listing_of(current_dir@, children@, wall_now),
                selected_file: None,
                clipboard: None,
                search_query: Seq::empty(),
                search_results: Seq::empty(),
                last_search_time: now_ms,
                dark_mode: false,
            }),
    {
        let entries = read_directory(&current_dir, children, wall_now);
        let r = FileManager {
            current_dir,
            entries,
            selected_file: None,
            clipboard: None,
            search_query: String::new(),
            search_results: Vec::new(),
            last_search_time: now_ms,
            dark_mode: false,
        };
        assert(entries_view(r.search_results@) =~= Seq::empty());
        r
    }

    /// Recomputes `entries` from the children of `current_dir`.
    pub fn update_entries(&mut self, children: &Vec<ListedChild>, wall_now: u64)
        ensures
            final(self)@ == old(self)@.refreshed(children@, wall_now),
    {
        self.entries = read_directory(&self.current_dir, children, wall_now);
    }

    /// Moves to `new_dir` if it is a directory, listing it from `children`;
    /// otherwise changes nothing. Returns whether the move was made.
    pub fn change_directory(&mut self, new_dir: FsPath, is_dir: bool, children: &Vec<ListedChild>, wall_now: u64) -> (r: bool)
        ensures
            r == is_dir,
            is_dir ==> final(self)@ == old(self)@.moved_to(new_dir@, children@, wall_now),
            !is_dir ==> final(self)@ == old(self)@,
    {
        if is_dir {
            self.current_dir = new_dir;
            self.update_entries(children, wall_now);
            true
        } else {
            false
        }
    }

    /// Moves to the parent of `current_dir`, listed from `children`, if it
    /// has one. Returns whether the move was made.
    pub fn navigate_up(&mut self, children: &Vec<ListedChild>, wall_now: u64) -> (r: bool)
        ensures
            r == old(self)@.current_dir.has_parent(),
            r ==> final(self)@ == old(self)@.moved_to(
                old(self)@.current_dir.parent(),
                children@,
                wall_now,
            ),
            !r ==> final(self)@ == old(self)@,
    {
        if self.current_dir.pop() {
            self.update_entries(children, wall_now);
            true
        } else {
            false
        }
    }

    /// Records the outcome of a rename inside `current_dir`: after a
    /// successful one the listing is recomputed from `children`, after a
    /// failed one nothing changes. The selection is left as it was, so a
    /// selection of the old name is stale afterwards.
    pub fn rename_file(&mut self, renamed: bool, children: &Vec<ListedChild>, wall_now: u64)
        ensures
            renamed ==> final(self)@ == old(self)@.refreshed(children@, wall_now),
            !renamed ==> final(self)@ == old(self)@,
    {
        if renamed {
            self.update_entries(children, wall_now);
        }
    }

    /// The entries the user sees.
    pub fn visible_entries(&self) -> (r: &Vec<FileEntry>)
        ensures
            entries_view(r@) == self@.visible(),
    {
        if self.search_query.as_str().is_empty() {
            &self.entries
        } else {
            &self.search_results
        }
    }
    /// Selects `path` if it is the path of one of the visible entries;
    /// otherwise changes nothing. Returns whether it was selected.
    pub fn select_file(&mut self, path: FsPath) -> (r: bool)
        ensures
            r == exists|i: int|
                0 <= i < old(self)@.visible().len() && (#[trigger] old(self)@.visible()[i]).path
                    == path@,
            r ==> final(self)@ == (ManagerView { selected_file: Some(path@), ..old(self)@ }),
            !r ==> final(self)@ == old(self)@,
    {
        let mut found = false;
        let mut i: usize = 0;
        let n = self.visible_entries().len();
        while i < n
            invariant
                n == self@.visible().len(),
                i <= n,
                found == exists|k: int| 0 <= k < i && (#[trigger] self@.visible()[k]).path == path@,
            decreases n - i,
        {
            let list = self.visible_entries();
            if list[i].path.same_as(&path) {
                assert(self@.visible()[i as int] == list@[i as int]@);
                found = true;
            } else {
                assert(self@.visible()[i as int] == list@[i as int]@);
            }
            i = i + 1;
        }
        if found {
            self.selected_file = Some(path);
        }
        found
    }

    /// Puts `path` on the clipboard, replacing what was there.
    pub fn set_clipboard(&mut self, path: FsPath)
        ensures
            final(self)@ == (ManagerView { clipboard: Some(path@), ..old(self)@ }),
    {
        self.clipboard = Some(path);
    }

    /// Replaces the search query; the results stay until the next search.
    pub fn set_search_query(&mut self, query: String)
        ensures
            final(self)@ == (ManagerView { search_query: query@, ..old(self)@ }),
    {
        self.search_query = query;
    }
}

} // verus!
