use watchrun::detector::get_last_update;
use watchrun::fstree::{mtime_or_zero, walk, FileMeta, FsTree};
use watchrun::matcher::PathChecker;

fn file(path: &str, mtime: u64) -> FsTree {
    FsTree::File(FileMeta { path: path.to_string(), mtime })
}

fn checker(patterns: &[&str]) -> PathChecker {
    PathChecker::new(patterns.iter().map(|p| p.to_string()).collect())
        .expect("patterns should compile")
}

#[test]
fn walk_visits_every_leaf_once_in_order() {
    let tree = FsTree::Dir(vec![
        file("root/a.txt", 1),
        FsTree::Dir(vec![file("root/sub/b.txt", 2), file("root/sub/c.txt", 3)]),
        FsTree::Dir(vec![]),
        file("root/d.txt", 4),
    ]);
    let visited = walk(&tree);
    let paths: Vec<&str> = visited.iter().map(|f| f.path.as_str()).collect();
    assert_eq!(
        paths,
        vec!["root/a.txt", "root/sub/b.txt", "root/sub/c.txt", "root/d.txt"]
    );
}

#[test]
fn walk_visits_a_file_root_itself_exactly_once() {
    let visited = walk(&file("just-a-file", 7));
    assert_eq!(visited.len(), 1);
    assert_eq!(visited[0].path, "just-a-file");
    assert_eq!(visited[0].mtime, 7);
}

#[test]
fn empty_root_list_yields_zero() {
    let roots: Vec<FsTree> = vec![];
    assert_eq!(get_last_update(&roots, &checker(&[])), 0);
}

#[test]
fn all_files_ignored_yields_zero() {
    let roots = vec![FsTree::Dir(vec![file("a.txt", 100), file("b.log", 200)])];
    assert_eq!(get_last_update(&roots, &checker(&["*"])), 0);
}

#[test]
fn latest_update_is_the_maximum_over_accepted_files() {
    let roots = vec![
        FsTree::Dir(vec![file("one/a.txt", 50), file("one/b.txt", 120)]),
        file("two/c.txt", 90),
    ];
    assert_eq!(get_last_update(&roots, &checker(&[])), 120);
}

#[test]
fn ignored_file_never_affects_the_result() {
    // The excluded file is the newest; its timestamp must not show.
    let roots = vec![FsTree::Dir(vec![
        file("root/a.txt", 100),
        file("root/b.log", 200),
    ])];
    assert_eq!(get_last_update(&roots, &checker(&["*.log"])), 100);
}

#[test]
fn scan_is_idempotent_without_mutation() {
    let roots = vec![FsTree::Dir(vec![
        file("root/a.txt", 100),
        FsTree::Dir(vec![file("root/sub/b.log", 200)]),
    ])];
    let c = checker(&["*.log"]);
    let first = get_last_update(&roots, &c);
    let second = get_last_update(&roots, &c);
    assert_eq!(first, second);
}

#[test]
fn unreadable_modification_time_counts_as_not_newer() {
    assert_eq!(mtime_or_zero(Some(42)), 42);
    assert_eq!(mtime_or_zero(None), 0);
}
