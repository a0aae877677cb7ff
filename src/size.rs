use vstd::prelude::*;

verus! {

/// What a recursive walk learned of one item it reached: whether it is a
/// regular file, and its length in bytes.
#[derive(Clone, Copy)]
pub struct WalkMeta {
    pub is_file: bool,
    pub len: u64,
}

/// What one walk item adds to a directory's size: its length if it is a
/// regular file that could be read, else nothing.
pub open spec fn file_contribution(m: Option<WalkMeta>) -> nat {
    match m {
        Some(w) => if w.is_file {
            w.len as nat
        } else {
            0
        },
        None => 0,
    }
}

/// The sum of the lengths of the regular files among the walk's items.
pub open spec fn files_total(walk: Seq<Option<WalkMeta>>) -> nat
    decreases walk.len(),
{
    if walk.len() == 0 {
        0
    } else {
        files_total(walk.drop_last()) + file_contribution(walk.last())
    }
}

/// `n`, or the largest `u64` where `n` is larger.
pub open spec fn saturate(n: nat) -> u64 {
    if n <= u64::MAX {
        n as u64
    } else {
        u64::MAX
    }
}

/// The size of a directory from a walk of everything beneath it: the sum of
/// the lengths of its regular files at any depth. Items that could not be
/// read (`None`) and items that are not regular files add nothing. A total
/// beyond `u64::MAX` is reported as `u64::MAX`.
pub fn get_dir_size(walk: &Vec<Option<WalkMeta>>) -> (r: u64)
    ensures
        r == saturate(files_total(walk@)),
{
    let mut total: u64 = 0;
    let mut i: usize = 0;
    while i < walk.len()
        invariant
            i <= walk.len(),
            total == saturate(files_total(walk@.subrange(0, i as int))),
        decreases walk.len() - i,
    {
        let ghost prefix = walk@.subrange(0, i as int);
        let add: u64 = match walk[i] {
            Some(w) => if w.is_file {
                w.len
            } else {
                0
            },
            None => 0,
        };
        total = total.saturating_add(add);
        i = i + 1;
        assert(walk@.subrange(0, i as int).drop_last() =~= prefix);
    }
    assert(walk@.subrange(0, walk.len() as int) =~= walk@);
    total
}

} // verus!
