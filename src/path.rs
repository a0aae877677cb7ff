use vstd::prelude::*;

verus! {

/// The mathematical model of a path: its root (such as `/` or `C:\`) and the
/// sequence of names below it.
pub struct PathView {
    pub root: Seq<char>,
    pub names: Seq<Seq<char>>,
}

impl PathView {
    /// The path one level below `self`, named `name`.
    pub open spec fn join(self, name: Seq<char>) -> PathView {
        PathView { root: self.root, names: self.names.push(name) }
    }

    /// The path reached from `self` by following the names in `rel`.
    pub open spec fn join_all(self, rel: Seq<Seq<char>>) -> PathView {
        PathView { root: self.root, names: self.names + rel }
    }

    pub open spec fn has_parent(self) -> bool {
        self.names.len() > 0
    }

    pub open spec fn parent(self) -> PathView {
        PathView { root: self.root, names: self.names.drop_last() }
    }

    pub open spec fn file_name(self) -> Option<Seq<char>> {
        if self.names.len() > 0 {
            Some(self.names.last())
        } else {
            None
        }
    }

    /// The last name replaced by `name`; a root gains `name` below it.
    pub open spec fn with_file_name(self, name: Seq<char>) -> PathView {
        if self.has_parent() {
            self.parent().join(name)
        } else {
            self.join(name)
        }
    }
}

/// An absolute path, held as its root and the names below it.
pub struct FsPath {
    pub root: String,
    pub names: Vec<String>,
}

pub open spec fn names_view(names: Seq<String>) -> Seq<Seq<char>> {
    names.map_values(|s: String| s@)
}

impl View for FsPath {
    type V = PathView;

    open spec fn view(&self) -> PathView {
        PathView { root: self.root@, names: names_view(self.names@) }
    }
}

fn clone_names(names: &Vec<String>) -> (r: Vec<String>)
    ensures
        names_view(r@) == names_view(names@),
{
    let mut r: Vec<String> = Vec::new();
    let mut i: usize = 0;
    while i < names.len()
        invariant
            i <= names.len(),
            names_view(r@) == names_view(names@.subrange(0, i as int)),
        decreases names.len() - i,
    {
        r.push(names[i].clone());
        i = i + 1;
        assert(names_view(names@.subrange(0, i as int)) =~= names_view(
            names@.subrange(0, i - 1),
        ).push(names@[i - 1]@));
    }
    assert(names@.subrange(0, names.len() as int) =~= names@);
    r
}

impl Clone for FsPath {
    fn clone(&self) -> (r: Self)
        ensures
            r@ == self@,
    {
        FsPath { root: self.root.clone(), names: clone_names(&self.names) }
    }
}

impl FsPath {
    pub fn new(root: String, names: Vec<String>) -> (r: FsPath)
        ensures
            r@.root == root@,
            r@.names == names_view(names@),
    {
        FsPath { root, names }
    }

    /// The path one level below `self`, named `name`.
    pub fn join(&self, name: String) -> (r: FsPath)
        ensures
            r@ == self@.join(name@),
    {
        let mut names = clone_names(&self.names);
        let ghost before = names@;
        names.push(name);
        assert(names_view(names@) =~= names_view(before).push(name@));
        FsPath { root: self.root.clone(), names }
    }

    /// The path reached from `self` by following the names in `rel`.
    pub fn join_all(&self, rel: &Vec<String>) -> (r: FsPath)
        ensures
            r@ == self@.join_all(names_view(rel@)),
    {
        let mut r = self.clone();
        let mut i: usize = 0;
        while i < rel.len()
            invariant
                i <= rel.len(),
                r@ == self@.join_all(names_view(rel@.subrange(0, i as int))),
            decreases rel.len() - i,
        {
            r = r.join(rel[i].clone());
            i = i + 1;
            assert(names_view(rel@.subrange(0, i as int)) =~= names_view(
                rel@.subrange(0, i - 1),
            ).push(rel@[i - 1]@));
            assert(self@.names + names_view(rel@.subrange(0, i as int)) =~= (self@.names
                + names_view(rel@.subrange(0, i - 1))).push(rel@[i - 1]@));
        }
        assert(rel@.subrange(0, rel.len() as int) =~= rel@);
        r
    }

    pub fn has_parent(&self) -> (r: bool)
        ensures
            r == self@.has_parent(),
    {
        self.names.len() > 0
    }

    /// The last name of the path; `None` for a root.
    pub fn file_name(&self) -> (r: Option<String>)
        ensures
            r matches Some(n) ==> self@.file_name() == Some(n@),
            r is None <==> self@.file_name() is None,
    {
        let n = self.names.len();
        if n > 0 {
            Some(self.names[n - 1].clone())
        } else {
            None
        }
    }

    /// Removes the last name; returns whether there was one to remove.
    pub fn pop(&mut self) -> (r: bool)
        ensures
            r == old(self)@.has_parent(),
            r ==> final(self)@ == old(self)@.parent(),
            !r ==> final(self)@ == old(self)@,
    {
        if self.names.len() > 0 {
            let ghost before = self.names@;
            self.names.pop();
            assert(names_view(self.names@) =~= names_view(before).drop_last());
            true
        } else {
            false
        }
    }

    /// The parent directory, if the path is not a root.
    pub fn parent(&self) -> (r: Option<FsPath>)
        ensures
            r matches Some(p) ==> self@.has_parent() && p@ == self@.parent(),
            r is None <==> !self@.has_parent(),
    {
        let mut p = self.clone();
        if p.pop() {
            Some(p)
        } else {
            None
        }
    }

    /// The path with its last name replaced by `name`, in the same directory.
    pub fn with_file_name(&self, name: String) -> (r: FsPath)
        ensures
            r@ == self@.with_file_name(name@),
    {
        match self.parent() {
            Some(p) => p.join(name),
            None => self.join(name),
        }
    }

    /// Whether two paths are the same path.
    pub fn same_as(&self, other: &FsPath) -> (r: bool)
        ensures
            r == (self@ == other@),
    {
        if self.root != other.root || self.names.len() != other.names.len() {
            assert(self@.root != other@.root || self@.names.len() != other@.names.len());
            return false;
        }
        let mut i: usize = 0;
        while i < self.names.len()
            invariant
                i <= self.names.len(),
                self.names.len() == other.names.len(),
                self.root@ == other.root@,
                forall|k: int| 0 <= k < i ==> self.names@[k]@ == other.names@[k]@,
            decreases self.names.len() - i,
        {
            if self.names[i] != other.names[i] {
                assert(self@.names[i as int] != other@.names[i as int]);
                return false;
            }
            i = i + 1;
        }
        assert(self@.names =~= other@.names);
        true
    }
}

} // verus!
