use vstd::prelude::*;
use crate::listing::{listing_of, ListedChild};
use crate::manager::{FileManager, ManagerView};
use crate::path::{names_view, FsPath, PathView};

verus! {

/// One item of a pre-order walk of a directory being copied: its names
/// relative to that directory, and whether it is a directory.
pub struct TreeItem {
    pub rel: Vec<String>,
    pub is_dir: bool,
}

/// One filesystem step of a copy.
pub enum CopyOp {
    /// Create this directory and any missing parents.
    CreateDir(FsPath),
    /// Copy the bytes of the first file to the second path.
    CopyFile(FsPath, FsPath),
}

pub enum CopyOpView {
    CreateDir(PathView),
    CopyFile(PathView, PathView),
}

impl View for CopyOp {
    type V = CopyOpView;

    open spec fn view(&self) -> CopyOpView {
        match self {
            CopyOp::CreateDir(p) => CopyOpView::CreateDir(p@),
            CopyOp::CopyFile(s, d) => CopyOpView::CopyFile(s@, d@),
        }
    }
}

pub open spec fn ops_view(v: Seq<CopyOp>) -> Seq<CopyOpView> {
    v.map_values(|o: CopyOp| o@)
}

/// The step that copies one item of the source tree to the same place
/// under the destination.
pub open spec fn item_op(source: PathView, destination: PathView, item: TreeItem) -> CopyOpView {
    let rel = names_view(item.rel@);
    if item.is_dir {
        CopyOpView::CreateDir(destination.join_all(rel))
    } else {
        CopyOpView::CopyFile(source.join_all(rel), destination.join_all(rel))
    }
}

/// The steps that copy `source` to `destination`. A file is copied in one
/// step. A directory is created at `destination`, then each item of the
/// walk `tree` of the source is recreated at the same relative place under
/// `destination`, in the walk's order: directories are created, files are
/// copied byte for byte.
pub open spec fn copy_plan(source: PathView, destination: PathView, source_is_dir: bool, tree: Seq<TreeItem>) -> Seq<CopyOpView> {
    if source_is_dir {
        seq![CopyOpView::CreateDir(destination)] + tree.map_values(
            |it: TreeItem| item_op(source, destination, it),
        )
    } else {
        seq![CopyOpView::CopyFile(source, destination)]
    }
}

/// Plans the copy of `source` to `destination`; see `copy_plan`. The caller
/// performs the steps in order, and after a step that fails goes on with
/// the next one.
pub fn copy_file(source: &FsPath, destination: &FsPath, source_is_dir: bool, tree: &Vec<TreeItem>) -> (r: Vec<CopyOp>)
    ensures
        ops_view(r@) == copy_plan(source@, destination@, source_is_dir, tree@),
{
    let mut r: Vec<CopyOp> = Vec::new();
    if !source_is_dir {
        r.push(CopyOp::CopyFile(source.clone(), destination.clone()));
        assert(ops_view(r@) =~= copy_plan(source@, destination@, source_is_dir, tree@));
        return r;
    }
    r.push(CopyOp::CreateDir(destination.clone()));
    let ghost f = |it: TreeItem| item_op(source@, destination@, it);
    let mut i: usize = 0;
    while i < tree.len()
        invariant
            i <= tree.len(),
            f == (|it: TreeItem| item_op(source@, destination@, it)),
            ops_view(r@) == seq![CopyOpView::CreateDir(destination@)] + tree@.subrange(
                0,
                i as int,
            ).map_values(f),
        decreases tree.len() - i,
    {
        let it = &tree[i];
        let target = destination.join_all(&it.rel);
        let op = if it.is_dir {
            CopyOp::CreateDir(target)
        } else {
            CopyOp::CopyFile(source.join_all(&it.rel), target)
        };
        let ghost before = r@;
        r.push(op);
        i = i + 1;
        assert(ops_view(r@) =~= ops_view(before).push(op@));
        assert(tree@.subrange(0, i as int).map_values(f) =~= tree@.subrange(0, i - 1).map_values(
            f,
        ).push(f(tree@[i - 1])));
    }
    assert(tree@.subrange(0, tree.len() as int) =~= tree@);
    r
}

/// Every item of the source tree has its step, at the same relative place
/// under the destination, and nothing else is created.
pub proof fn lemma_copy_keeps_structure(source: PathView, destination: PathView, tree: Seq<TreeItem>, i: int)
    requires
        0 <= i < tree.len(),
    ensures
        copy_plan(source, destination, true, tree).len() == tree.len() + 1,
        copy_plan(source, destination, true, tree)[i + 1] == (if tree[i].is_dir {
            CopyOpView::CreateDir(destination.join_all(names_view(tree[i].rel@)))
        } else {
            CopyOpView::CopyFile(
                source.join_all(names_view(tree[i].rel@)),
                destination.join_all(names_view(tree[i].rel@)),
            )
        }),
{
}

/// The path that `clipboard` would be pasted to in `dir`: `dir` joined with
/// the clipboard's last name.
pub open spec fn paste_target(dir: PathView, clipboard: PathView) -> Option<PathView> {
    match clipboard.file_name() {
        Some(n) => Some(dir.join(n)),
        None => None,
    }
}

/// The source and destination of a paste into `current_dir`: `None` when the
/// clipboard is empty or holds a root, which has no name to paste under.
/// The clipboard is kept, so the same source can be pasted again.
pub fn paste_file(file_manager: &FileManager) -> (r: Option<(FsPath, FsPath)>)
    ensures
        file_manager@.clipboard is None ==> r is None,
        file_manager@.clipboard matches Some(c) ==> match paste_target(
            file_manager@.current_dir,
            c,
        ) {
            Some(d) => r matches Some(p) && p.0@ == c && p.1@ == d,
            None => r is None,
        },
{
    match &file_manager.clipboard {
        Some(source) => match source.file_name() {
            Some(n) => Some((source.clone(), file_manager.current_dir.join(n))),
            None => None,
        },
        None => None,
    }
}

/// The state after deleting `path`: the listing is recomputed from
/// `children`, and the selection is cleared if it was `path`.
pub open spec fn after_delete(m: ManagerView, path: PathView, children: Seq<ListedChild>, now: u64) -> ManagerView {
    ManagerView {
        entries: listing_of(m.current_dir, children, now),
        selected_file: if m.selected_file == Some(path) {
            None
        } else {
            m.selected_file
        },
        ..m
    }
}

/// Brings the state up to date after an attempt to delete `path`, whether
/// it succeeded or not: the listing is recomputed from `children`, and a
/// selection of `path` is cleared.
pub fn delete_file(file_manager: &mut FileManager, path: &FsPath, children: &Vec<ListedChild>, wall_now: u64)
    ensures
        final(file_manager)@ == after_delete(old(file_manager)@, path@, children@, wall_now),
{
    file_manager.update_entries(children, wall_now);
    let clear = match &file_manager.selected_file {
        Some(s) => s.same_as(path),
        None => false,
    };
    if clear {
        file_manager.selected_file = None;
    }
}

/// Used and total bytes of a volume from its available and total space,
/// either of which may have failed to be read. Either failure gives
/// `(0, 0)`; so does an available space above the total, which no volume
/// reports.
pub fn get_disk_usage(available: Option<u64>, total: Option<u64>) -> (r: (u64, u64))
    ensures
        r == (match (available, total) {
            (Some(a), Some(t)) => if a <= t {
                ((t - a) as u64, t)
            } else {
                (0u64, 0u64)
            },
            _ => (0u64, 0u64),
        }),
{
    match (available, total) {
        (Some(a), Some(t)) => if a <= t {
            (t - a, t)
        } else {
            (0, 0)
        },
        _ => (0, 0),
    }
}

} // verus!
