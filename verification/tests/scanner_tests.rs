use file_search::ScanError;
use file_search::scanner::RawEntry;
use file_search::scanner::collect_files;
use file_search::scanner::scan;
use tempfile::Builder;
use tempfile::NamedTempFile;
use tempfile::TempDir;

fn make_root() -> TempDir {
    Builder::new().tempdir().unwrap()
}

fn make_dir_in(parent: &std::path::Path, name: &str) -> TempDir {
    Builder::new().prefix(name).rand_bytes(0).tempdir_in(parent).unwrap()
}

fn make_file_in(parent: &std::path::Path, name: &str) -> NamedTempFile {
    Builder::new().prefix(name).rand_bytes(0).tempfile_in(parent).unwrap()
}

fn path_string(p: &std::path::Path) -> String {
    p.to_str().unwrap().to_string()
}

fn sorted(mut v: Vec<String>) -> Vec<String> {
    v.sort();
    v
}

#[test]
fn empty_exclusions_return_all_regular_files() {
    let root = make_root();
    let f1 = make_file_in(root.path(), "a.txt");
    let sub = make_dir_in(root.path(), "sub");
    let f2 = make_file_in(sub.path(), "b.txt");

    let got = scan(&path_string(root.path()), &vec![]).unwrap();
    let want = vec![path_string(f1.path()), path_string(f2.path())];
    assert_eq!(sorted(got), sorted(want));
}

#[test]
fn directories_themselves_are_not_emitted() {
    let root = make_root();
    let sub = make_dir_in(root.path(), "onlydir");
    let _keep_alive = &sub;

    let got = scan(&path_string(root.path()), &vec![]).unwrap();
    assert_eq!(got, Vec::<String>::new());
}

#[test]
fn excluded_directory_subtree_is_pruned() {
    let root = make_root();
    let ignored = make_dir_in(root.path(), "ignoreme");
    let hidden = make_file_in(ignored.path(), "keep.txt");
    let kept = make_file_in(root.path(), "other.txt");

    let got = scan(
        &path_string(root.path()),
        &vec![String::from("**/ignoreme")],
    )
    .unwrap();
    assert!(!got.contains(&path_string(hidden.path())));
    assert_eq!(got, vec![path_string(kept.path())]);
}

#[test]
fn pattern_union_excludes_files_matching_either() {
    let root = make_root();
    let _a = make_file_in(root.path(), "a.log");
    let _b = make_file_in(root.path(), "b.tmp");
    let c = make_file_in(root.path(), "c.txt");

    let got = scan(
        &path_string(root.path()),
        &vec![String::from("*.log"), String::from("*.tmp")],
    )
    .unwrap();
    assert_eq!(got, vec![path_string(c.path())]);
}

#[test]
fn invalid_pattern_fails_fast_before_any_traversal() {
    let err = scan(
        &String::from("/path/does/not/exist"),
        &vec![String::from("[invalid")],
    )
    .unwrap_err();
    assert_eq!(err, ScanError::PatternCompile);
}

#[test]
fn invalid_pattern_fails_even_with_readable_root() {
    let root = make_root();
    let _f = make_file_in(root.path(), "a.txt");
    let err = scan(
        &path_string(root.path()),
        &vec![String::from("[invalid")],
    )
    .unwrap_err();
    assert_eq!(err, ScanError::PatternCompile);
}

#[test]
fn missing_root_is_reported() {
    let err = scan(&String::from("/path/does/not/exist"), &vec![]).unwrap_err();
    assert_eq!(err, ScanError::RootNotFound);
}

#[test]
fn two_scans_of_an_unmodified_tree_agree() {
    let root = make_root();
    let _a = make_file_in(root.path(), "a.log");
    let _b = make_file_in(root.path(), "b.txt");
    let sub = make_dir_in(root.path(), "sub");
    let _c = make_file_in(sub.path(), "c.txt");

    let root_path = path_string(root.path());
    let patterns = vec![String::from("*.log")];
    let first = scan(&root_path, &patterns).unwrap();
    let second = scan(&root_path, &patterns).unwrap();
    assert_eq!(sorted(first), sorted(second));
}

#[test]
fn single_file_root_yields_that_file() {
    let root = make_root();
    let f = make_file_in(root.path(), "solo.txt");

    let got = scan(&path_string(f.path()), &vec![]).unwrap();
    assert_eq!(got, vec![path_string(f.path())]);
}

#[test]
fn excluded_single_file_root_yields_nothing() {
    let root = make_root();
    let f = make_file_in(root.path(), "solo.log");

    let got = scan(&path_string(f.path()), &vec![String::from("*.log")]).unwrap();
    assert_eq!(got, Vec::<String>::new());
}

#[test]
fn excluded_root_yields_nothing() {
    let root = make_root();
    let _f = make_file_in(root.path(), "a.txt");

    let root_path = path_string(root.path());
    let got = scan(&root_path, &vec![root_path.clone()]).unwrap();
    assert_eq!(got, Vec::<String>::new());
}

#[test]
fn collect_files_keeps_only_readable_regular_files() {
    let entries = vec![
        RawEntry {
            path: Some(String::from("root")),
            is_file: false,
        },
        RawEntry {
            path: Some(String::from("root/a.txt")),
            is_file: true,
        },
        RawEntry {
            path: None,
            is_file: true,
        },
        RawEntry {
            path: Some(String::from("root/sub")),
            is_file: false,
        },
        RawEntry {
            path: Some(String::from("root/sub/b.txt")),
            is_file: true,
        },
    ];
    let got = collect_files(&entries);
    assert_eq!(
        got,
        vec![String::from("root/a.txt"), String::from("root/sub/b.txt")]
    );
}

#[test]
fn collect_files_of_nothing_is_empty() {
    let got = collect_files(&vec![]);
    assert_eq!(got, Vec::<String>::new());
}
