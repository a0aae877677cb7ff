use vstd::prelude::*;
use crate::entry::{entries_view, entry_of, make_entry, EntryMeta, EntryView, FileEntry};
use crate::manager::{FileManager, ManagerView};
use crate::path::{FsPath, PathView};
use crate::size::WalkMeta;

verus! {

/// The least time between two recomputations of the search results, in
/// milliseconds.
pub const DEBOUNCE_MS: u64 = 400;

/// The lowercase form of a string, as `str::to_lowercase` gives it.
pub uninterp spec fn lower_of(s: Seq<char>) -> Seq<char>;

/// Relies on `str::to_lowercase`: the result depends on the characters of
/// `s` alone.
#[verifier::external_body]
fn lowercase(s: &String) -> (r: String)
    ensures
        r@ == lower_of(s@),
{
    s.to_lowercase()
}

/// Whether `needle` occurs as a contiguous run of `hay`.
pub open spec fn occurs_in(needle: Seq<char>, hay: Seq<char>) -> bool {
    exists|i: int|
        0 <= i && i + needle.len() <= hay.len() && #[trigger] hay.subrange(i, i + needle.len())
            == needle
}

/// Relies on `str::contains` with a string pattern: whether `needle` matches
/// a sub-slice of `hay`.
#[verifier::external_body]
fn contains_str(hay: &String, needle: &String) -> (r: bool)
    ensures
        r == occurs_in(needle@, hay@),
{
    hay.contains(needle.as_str())
}

/// Whether a lowercased name matches a lowercased query.
pub fn matches_folded(name_lower: &String, query_lower: &String) -> (r: bool)
    ensures
        r == occurs_in(query_lower@, name_lower@),
{
    contains_str(name_lower, query_lower)
}

/// Whether `query` occurs in `name`, ignoring case.
pub open spec fn name_matches_spec(name: Seq<char>, query: Seq<char>) -> bool {
    occurs_in(lower_of(query), lower_of(name))
}

/// Whether `query` occurs in `name`, ignoring case.
pub fn name_matches(name: &String, query: &String) -> (r: bool)
    ensures
        r == name_matches_spec(name@, query@),
{
    let n = lowercase(name);
    let q = lowercase(query);
    matches_folded(&n, &q)
}

/// One item reached by a recursive walk below the searched directory: its
/// path, its metadata (`None` where reading it failed) and, for a directory,
/// a walk of everything beneath it.
pub struct FoundItem {
    pub path: FsPath,
    pub meta: Option<EntryMeta>,
    pub subtree: Vec<Option<WalkMeta>>,
}

/// Whether the last name of `p` matches `query`; a root matches nothing.
pub open spec fn path_matches(p: PathView, query: Seq<char>) -> bool {
    match p.file_name() {
        Some(n) => name_matches_spec(n, query),
        None => false,
    }
}

/// The search results: one entry per readable item whose name matches
/// `query`, in the order of the walk.
pub open spec fn search_hits(items: Seq<FoundItem>, query: Seq<char>, now: u64) -> Seq<EntryView>
    decreases items.len(),
{
    if items.len() == 0 {
        Seq::empty()
    } else {
        let it = items.last();
        let rest = search_hits(items.drop_last(), query, now);
        match it.meta {
            Some(m) => if path_matches(it.path@, query) {
                rest.push(entry_of(it.path@, m, it.subtree@, now))
            } else {
                rest
            },
            None => rest,
        }
    }
}

/// The entries among `items` whose name contains `query`, ignoring case.
/// Unreadable items are skipped; `now` replaces unknown modification times.
pub fn collect_matches(items: &Vec<FoundItem>, query: &String, now: u64) -> (r: Vec<FileEntry>)
    ensures
        entries_view(r@) == search_hits(items@, query@, now),
{
    let q = lowercase(query);
    let mut r: Vec<FileEntry> = Vec::new();
    let mut i: usize = 0;
    while i < items.len()
        invariant
            i <= items.len(),
            q@ == lower_of(query@),
            entries_view(r@) == search_hits(items@.subrange(0, i as int), query@, now),
        decreases items.len() - i,
    {
        let ghost prefix = items@.subrange(0, i as int);
        let it = &items[i];
        assert(items@.subrange(0, i + 1).drop_last() =~= prefix);
        match it.meta {
            Some(m) => {
                let hit = match it.path.file_name() {
                    Some(n) => {
                        let nl = lowercase(&n);
                        matches_folded(&nl, &q)
                    },
                    None => false,
                };
                if hit {
                    let e = make_entry(it.path.clone(), m, &it.subtree, now);
                    let ghost before = r@;
                    r.push(e);
                    assert(entries_view(r@) =~= entries_view(before).push(e@));
                }
            },
            None => {},
        }
        i = i + 1;
    }
    assert(items@.subrange(0, items.len() as int) =~= items@);
    r
}

/// Whether enough time has passed since `last` for a new search at `now`.
/// A clock reading before `last` counts as no time passed.
pub open spec fn search_due(last: u64, now: u64) -> bool {
    now >= last && now - last >= DEBOUNCE_MS
}

/// The state after a search request at `now` (milliseconds) over the walk
/// `items`: inside the debounce interval nothing changes; otherwise the
/// results are recomputed and `now` becomes the time of the last search.
pub open spec fn search_step(m: ManagerView, now: u64, items: Seq<FoundItem>, wall_now: u64) -> ManagerView {
    if search_due(m.last_search_time, now) {
        ManagerView {
            search_results: search_hits(items, m.search_query, wall_now),
            last_search_time: now,
            ..m
        }
    } else {
        m
    }
}

/// Whether a search requested at `now_ms` would be carried out; the caller
/// need not walk the tree when it would not.
pub fn search_is_due(file_manager: &FileManager, now_ms: u64) -> (r: bool)
    ensures
        r == search_due(file_manager.last_search_time, now_ms),
{
    now_ms >= file_manager.last_search_time && now_ms - file_manager.last_search_time
        >= DEBOUNCE_MS
}

/// Runs the search for the current query over `items`, a walk of the tree
/// under `current_dir`, unless the last search was less than the debounce
/// interval ago. Returns whether the results were recomputed.
pub fn search_files(file_manager: &mut FileManager, now_ms: u64, items: &Vec<FoundItem>, wall_now: u64) -> (r: bool)
    ensures
        r == search_due(old(file_manager).last_search_time, now_ms),
        final(file_manager)@ == search_step(old(file_manager)@, now_ms, items@, wall_now),
{
    if !search_is_due(file_manager, now_ms) {
        return false;
    }
    file_manager.last_search_time = now_ms;
    file_manager.search_results = collect_matches(items, &file_manager.search_query, wall_now);
    true
}

/// Within the debounce interval after a search that was carried out, a
/// second request changes neither the results nor the time of the last
/// search, whatever the query has become; a request at least the interval
/// later recomputes the results for the new query.
pub proof fn lemma_debounce(
    m: ManagerView,
    t1: u64,
    items1: Seq<FoundItem>,
    query2: Seq<char>,
    t2: u64,
    items2: Seq<FoundItem>,
    wall1: u64,
    wall2: u64,
)
    requires
        search_due(m.last_search_time, t1),
        t1 <= t2,
    ensures
        ({
            let m1 = search_step(m, t1, items1, wall1);
            let m2 = search_step(ManagerView { search_query: query2, ..m1 }, t2, items2, wall2);
            &&& t2 - t1 < DEBOUNCE_MS ==> m2.search_results == m1.search_results
                && m2.last_search_time == m1.last_search_time
            &&& t2 - t1 >= DEBOUNCE_MS ==> m2.search_results == search_hits(items2, query2, wall2)
                && m2.last_search_time == t2
        }),
{
}

} // verus!
