use aimet_manager::entry::{EntryMeta, FileEntry};
use aimet_manager::listing::{read_directory, ListedChild};
use aimet_manager::manager::FileManager;
use aimet_manager::operations::{copy_file, delete_file, get_disk_usage, paste_file, CopyOp, TreeItem};
use aimet_manager::path::FsPath;
use aimet_manager::search::{collect_matches, matches_folded, name_matches, search_files, FoundItem};
use aimet_manager::size::{get_dir_size, WalkMeta};

fn path(names: &[&str]) -> FsPath {
    FsPath::new("/".to_string(), names.iter().map(|s| s.to_string()).collect())
}

fn names(p: &FsPath) -> Vec<&str> {
    p.names.iter().map(|s| s.as_str()).collect()
}

fn file_meta(len: u64) -> Option<EntryMeta> {
    Some(EntryMeta { is_dir: false, len, modified: Some(1_000) })
}

fn dir_meta() -> Option<EntryMeta> {
    Some(EntryMeta { is_dir: true, len: 4096, modified: Some(2_000) })
}

fn file(len: u64) -> Option<WalkMeta> {
    Some(WalkMeta { is_file: true, len })
}

fn dir() -> Option<WalkMeta> {
    Some(WalkMeta { is_file: false, len: 4096 })
}

fn child(name: &str, meta: Option<EntryMeta>, subtree: Vec<Option<WalkMeta>>) -> ListedChild {
    ListedChild { name: name.to_string(), meta, subtree }
}

fn found(names: &[&str], meta: Option<EntryMeta>) -> FoundItem {
    FoundItem { path: path(names), meta, subtree: Vec::new() }
}

fn home_children() -> Vec<ListedChild> {
    vec![
        child("a.txt", file_meta(10), Vec::new()),
        child("docs", dir_meta(), vec![dir(), file(5), file(7)]),
    ]
}

fn manager_at_home(now_ms: u64) -> FileManager {
    FileManager::new(path(&["home"]), &home_children(), now_ms, 99)
}

fn entry_names(v: &Vec<FileEntry>) -> Vec<String> {
    v.iter().map(|e| e.path.names.last().unwrap().clone()).collect()
}

#[test]
fn dir_size_sums_files_at_any_depth() {
    // sizes 100, 250 and 0, nested two levels deep
    let walk = vec![dir(), file(100), dir(), file(250), dir(), file(0)];
    assert_eq!(get_dir_size(&walk), 350);
}

#[test]
fn dir_size_same_when_flat() {
    let walk = vec![dir(), file(100), file(250), file(0)];
    assert_eq!(get_dir_size(&walk), 350);
}

#[test]
fn dir_size_skips_unreadable_and_non_files() {
    let walk = vec![None, dir(), file(3), Some(WalkMeta { is_file: false, len: 77 })];
    assert_eq!(get_dir_size(&walk), 3);
    assert_eq!(get_dir_size(&Vec::new()), 0);
}

#[test]
fn dir_size_saturates() {
    let walk = vec![file(u64::MAX), file(1)];
    assert_eq!(get_dir_size(&walk), u64::MAX);
}

#[test]
fn listing_is_depth_one_and_skips_unreadable() {
    let d = path(&["home", "me"]);
    let children = vec![
        child("a.txt", file_meta(12), Vec::new()),
        child("broken", None, Vec::new()),
        child("sub", dir_meta(), vec![dir(), file(100), file(250)]),
        child("b.txt", Some(EntryMeta { is_dir: false, len: 3, modified: None }), Vec::new()),
    ];
    let list = read_directory(&d, &children, 555);
    assert_eq!(list.len(), 3);
    for e in &list {
        assert!(e.path.parent().unwrap().same_as(&d));
    }
    assert_eq!(names(&list[0].path), vec!["home", "me", "a.txt"]);
    assert_eq!(list[0].size, 12);
    assert!(!list[0].is_dir);
    assert_eq!(list[1].size, 350);
    assert!(list[1].is_dir);
    assert_eq!(list[1].modified, 2_000);
    assert_eq!(list[2].modified, 555);
}

#[test]
fn search_matches_names_ignoring_case() {
    let items = vec![
        found(&["home", "foo.rs"], file_meta(1)),
        found(&["home", "sub", "BAR.RS"], file_meta(2)),
        found(&["home", "baz.txt"], file_meta(3)),
    ];
    let hits = collect_matches(&items, &"RS".to_string(), 0);
    assert_eq!(entry_names(&hits), vec!["foo.rs", "BAR.RS"]);
    let hits = collect_matches(&items, &"rs".to_string(), 0);
    assert_eq!(entry_names(&hits), vec!["foo.rs", "BAR.RS"]);
}

#[test]
fn name_match_folds_case() {
    assert!(name_matches(&"BAR.RS".to_string(), &"rs".to_string()));
    assert!(name_matches(&"foo.rs".to_string(), &"RS".to_string()));
    assert!(!name_matches(&"baz.txt".to_string(), &"rs".to_string()));
    assert!(matches_folded(&"bar.rs".to_string(), &"r.r".to_string()));
    assert!(!matches_folded(&"BAR.RS".to_string(), &"rs".to_string()));
}

#[test]
fn search_skips_unreadable_and_root() {
    let items = vec![
        FoundItem { path: path(&[]), meta: dir_meta(), subtree: Vec::new() },
        found(&["x.rs"], None),
        FoundItem { path: path(&["src.rs"]), meta: dir_meta(), subtree: vec![file(4), file(6)] },
    ];
    let hits = collect_matches(&items, &"rs".to_string(), 0);
    assert_eq!(hits.len(), 1);
    assert_eq!(hits[0].size, 10);
}

#[test]
fn search_debounces_within_interval() {
    let mut fm = manager_at_home(1_000);
    let items = vec![found(&["home", "foo.rs"], file_meta(1)), found(&["home", "a.txt"], file_meta(2))];
    fm.set_search_query("rs".to_string());
    assert!(search_files(&mut fm, 1_400, &items, 0));
    assert_eq!(fm.last_search_time, 1_400);
    assert_eq!(entry_names(&fm.search_results), vec!["foo.rs"]);
    fm.set_search_query("txt".to_string());
    assert!(!search_files(&mut fm, 1_799, &items, 0));
    assert_eq!(fm.last_search_time, 1_400);
    assert_eq!(entry_names(&fm.search_results), vec!["foo.rs"]);
    assert!(search_files(&mut fm, 1_800, &items, 0));
    assert_eq!(fm.last_search_time, 1_800);
    assert_eq!(entry_names(&fm.search_results), vec!["a.txt"]);
}

#[test]
fn search_right_after_start_is_debounced() {
    let mut fm = manager_at_home(1_000);
    fm.set_search_query("a".to_string());
    assert!(!search_files(&mut fm, 1_100, &vec![found(&["home", "a.txt"], file_meta(2))], 0));
    assert!(fm.search_results.is_empty());
}

#[test]
fn navigate_to_file_is_ignored() {
    let mut fm = manager_at_home(0);
    let accepted = fm.change_directory(path(&["home", "a.txt"]), false, &Vec::new(), 0);
    assert!(!accepted);
    assert_eq!(names(&fm.current_dir), vec!["home"]);
    assert_eq!(fm.entries.len(), 2);
}

#[test]
fn navigate_to_dir_lists_it() {
    let mut fm = manager_at_home(0);
    let children = vec![child("x", file_meta(1), Vec::new())];
    assert!(fm.change_directory(path(&["home", "docs"]), true, &children, 0));
    assert_eq!(names(&fm.current_dir), vec!["home", "docs"]);
    assert_eq!(names(&fm.entries[0].path), vec!["home", "docs", "x"]);
}

#[test]
fn navigate_up_stops_at_root() {
    let mut fm = manager_at_home(0);
    assert!(fm.navigate_up(&Vec::new(), 0));
    assert!(fm.current_dir.names.is_empty());
    assert!(fm.entries.is_empty());
    assert!(!fm.navigate_up(&home_children(), 0));
    assert!(fm.entries.is_empty());
}

#[test]
fn delete_of_selected_clears_selection() {
    let mut fm = manager_at_home(0);
    assert!(fm.select_file(path(&["home", "a.txt"])));
    let after = vec![child("docs", dir_meta(), Vec::new())];
    delete_file(&mut fm, &path(&["home", "a.txt"]), &after, 0);
    assert!(fm.selected_file.is_none());
    assert_eq!(entry_names(&fm.entries), vec!["docs"]);
}

#[test]
fn delete_of_other_keeps_selection() {
    let mut fm = manager_at_home(0);
    assert!(fm.select_file(path(&["home", "a.txt"])));
    delete_file(&mut fm, &path(&["home", "docs"]), &vec![child("a.txt", file_meta(10), Vec::new())], 0);
    assert!(fm.selected_file.unwrap().same_as(&path(&["home", "a.txt"])));
}

#[test]
fn select_refuses_unlisted_path() {
    let mut fm = manager_at_home(0);
    assert!(!fm.select_file(path(&["elsewhere"])));
    assert!(fm.selected_file.is_none());
}

#[test]
fn rename_targets_same_directory() {
    let old = path(&["home", "a.txt"]);
    let new = old.with_file_name("b.txt".to_string());
    assert_eq!(names(&new), vec!["home", "b.txt"]);
    let mut fm = manager_at_home(0);
    assert!(fm.select_file(old.clone()));
    fm.rename_file(true, &vec![child("b.txt", file_meta(10), Vec::new())], 0);
    assert_eq!(entry_names(&fm.entries), vec!["b.txt"]);
    // the selection still names the old path
    assert!(fm.selected_file.as_ref().unwrap().same_as(&old));
}

#[test]
fn failed_rename_changes_nothing() {
    let mut fm = manager_at_home(0);
    fm.rename_file(false, &Vec::new(), 0);
    assert_eq!(entry_names(&fm.entries), vec!["a.txt", "docs"]);
}

#[test]
fn copy_of_tree_keeps_relative_structure() {
    let src = path(&["src"]);
    let dst = path(&["dst"]);
    let tree = vec![
        TreeItem { rel: vec!["x.txt".to_string()], is_dir: false },
        TreeItem { rel: vec!["sub".to_string()], is_dir: true },
        TreeItem { rel: vec!["sub".to_string(), "y.txt".to_string()], is_dir: false },
    ];
    let ops = copy_file(&src, &dst, true, &tree);
    assert_eq!(ops.len(), 4);
    match &ops[0] {
        CopyOp::CreateDir(p) => assert_eq!(names(p), vec!["dst"]),
        _ => panic!("expected a directory first"),
    }
    match &ops[1] {
        CopyOp::CopyFile(s, d) => {
            assert_eq!(names(s), vec!["src", "x.txt"]);
            assert_eq!(names(d), vec!["dst", "x.txt"]);
        }
        _ => panic!("expected a file copy"),
    }
    match &ops[2] {
        CopyOp::CreateDir(p) => assert_eq!(names(p), vec!["dst", "sub"]),
        _ => panic!("expected a directory"),
    }
    match &ops[3] {
        CopyOp::CopyFile(s, d) => {
            assert_eq!(names(s), vec!["src", "sub", "y.txt"]);
            assert_eq!(names(d), vec!["dst", "sub", "y.txt"]);
        }
        _ => panic!("expected a file copy"),
    }
}

#[test]
fn copy_of_file_is_one_step() {
    let ops = copy_file(&path(&["a"]), &path(&["b"]), false, &Vec::new());
    assert_eq!(ops.len(), 1);
    assert!(matches!(&ops[0], CopyOp::CopyFile(s, d) if names(s) == vec!["a"] && names(d) == vec!["b"]));
}

#[test]
fn paste_targets_current_dir_and_keeps_clipboard() {
    let mut fm = manager_at_home(0);
    assert!(paste_file(&fm).is_none());
    fm.set_clipboard(path(&["tmp", "notes.txt"]));
    let (s, d) = paste_file(&fm).unwrap();
    assert_eq!(names(&s), vec!["tmp", "notes.txt"]);
    assert_eq!(names(&d), vec!["home", "notes.txt"]);
    assert!(paste_file(&fm).is_some());
    fm.set_clipboard(path(&[]));
    assert!(paste_file(&fm).is_none());
}

#[test]
fn disk_usage_degrades_to_zero() {
    assert_eq!(get_disk_usage(None, None), (0, 0));
    assert_eq!(get_disk_usage(Some(5), None), (0, 0));
    assert_eq!(get_disk_usage(None, Some(100)), (0, 0));
    assert_eq!(get_disk_usage(Some(30), Some(100)), (70, 100));
    assert_eq!(get_disk_usage(Some(200), Some(100)), (0, 0));
}

#[test]
fn visible_entries_follow_query() {
    let mut fm = manager_at_home(0);
    assert_eq!(fm.visible_entries().len(), 2);
    fm.set_search_query("zzz".to_string());
    assert!(search_files(&mut fm, 500, &vec![found(&["home", "a.txt"], file_meta(1))], 0));
    assert!(fm.visible_entries().is_empty());
    assert!(!fm.select_file(path(&["home", "a.txt"])));
}
