use vstd::prelude::*;
use crate::entry::{entries_view, entry_of, make_entry, EntryMeta, EntryView, FileEntry};
use crate::path::{FsPath, PathView};
use crate::size::WalkMeta;

verus! {

/// One immediate child of a directory as the filesystem reported it: its
/// name, its metadata (`None` where reading it failed) and, for a directory,
/// a walk of everything beneath it.
pub struct ListedChild {
    pub name: String,
    pub meta: Option<EntryMeta>,
    pub subtree: Vec<Option<WalkMeta>>,
}

/// The listing of `dir`: one entry per child whose metadata could be read,
/// in the order given; the others are skipped.
pub open spec fn listing_of(dir: PathView, children: Seq<ListedChild>, now: u64) -> Seq<EntryView>
    decreases children.len(),
{
    if children.len() == 0 {
        Seq::empty()
    } else {
        let c = children.last();
        let rest = listing_of(dir, children.drop_last(), now);
        match c.meta {
            Some(m) => rest.push(entry_of(dir.join(c.name@), m, c.subtree@, now)),
            None => rest,
        }
    }
}

/// The number of children whose metadata could be read.
pub open spec fn readable_count(children: Seq<ListedChild>) -> nat
    decreases children.len(),
{
    if children.len() == 0 {
        0
    } else {
        readable_count(children.drop_last()) + if children.last().meta is Some {
            1nat
        } else {
            0nat
        }
    }
}

/// Every entry of a listing of `dir` lies directly in `dir`, and there is
/// one entry for each child that could be read.
pub proof fn lemma_listing_depth_one(dir: PathView, children: Seq<ListedChild>, now: u64)
    ensures
        listing_of(dir, children, now).len() == readable_count(children),
        forall|i: int|
            0 <= i < listing_of(dir, children, now).len() ==> {
                let p = #[trigger] listing_of(dir, children, now)[i].path;
                p.has_parent() && p.parent() == dir
            },
    decreases children.len(),
{
    if children.len() > 0 {
        lemma_listing_depth_one(dir, children.drop_last(), now);
        let c = children.last();
        assert(dir.names.push(c.name@).drop_last() =~= dir.names);
    }
}

/// Lists the immediate children of `dir` from what the filesystem reported
/// of them. Each readable child becomes an entry at `dir` joined with its
/// name; a child whose metadata could not be read is skipped.
pub fn read_directory(dir: &FsPath, children: &Vec<ListedChild>, now: u64) -> (r: Vec<FileEntry>)
    ensures
        entries_view(r@) == listing_of(dir@, children@, now),
        r@.len() == readable_count(children@),
        forall|i: int|
            0 <= i < r@.len() ==> (#[trigger] r@[i]).path@.has_parent() && r@[i].path@.parent()
                == dir@,
{
    let mut r: Vec<FileEntry> = Vec::new();
    let mut i: usize = 0;
    while i < children.len()
        invariant
            i <= children.len(),
            entries_view(r@) == listing_of(dir@, children@.subrange(0, i as int), now),
        decreases children.len() - i,
    {
        let ghost prefix = children@.subrange(0, i as int);
        let c = &children[i];
        assert(children@.subrange(0, i + 1).drop_last() =~= prefix);
        match c.meta {
            Some(m) => {
                let e = make_entry(dir.join(c.name.clone()), m, &c.subtree, now);
                let ghost before = r@;
                r.push(e);
                assert(entries_view(r@) =~= entries_view(before).push(e@));
            },
            None => {},
        }
        i = i + 1;
    }
    assert(children@.subrange(0, children.len() as int) =~= children@);
    proof {
        lemma_listing_depth_one(dir@, children@, now);
        assert forall|i: int| 0 <= i < r@.len() implies (#[trigger] r@[i]).path@.has_parent()
            && r@[i].path@.parent() == dir@ by {
            assert(entries_view(r@)[i] == r@[i]@);
            assert(listing_of(dir@, children@, now)[i].path == r@[i].path@);
        }
    }
    r
}

} // verus!
