use file_search::scanner::scan;
use tempfile::Builder;
use tempfile::NamedTempFile;
use tempfile::TempDir;

fn make_file_in(parent: &std::path::Path, name: &str) -> NamedTempFile {
    Builder::new().prefix(name).rand_bytes(0).tempfile_in(parent).unwrap()
}

fn path_string(p: &std::path::Path) -> String {
    p.to_str().unwrap().to_string()
}

#[test]
fn symlinked_directory_subtree_is_not_followed() {
    let root = Builder::new().tempdir().unwrap();
    let kept = make_file_in(root.path(), "real.txt");
    let outside: TempDir = Builder::new().tempdir().unwrap();
    let hidden = make_file_in(outside.path(), "behind_link.txt");
    symlink::symlink_dir(outside.path(), root.path().join("link")).unwrap();

    let got = scan(&path_string(root.path()), &vec![]).unwrap();
    assert_eq!(got, vec![path_string(kept.path())]);
    assert!(!got.contains(&path_string(hidden.path())));
}
