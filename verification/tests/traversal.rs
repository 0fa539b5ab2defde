use durs::ls;
use durs::ls_rec;
use durs::size;
use durs::FsError;
use durs::FsNode;

fn file(path: &str, len: u64) -> FsNode {
    FsNode::File { path: path.to_string(), len }
}

fn dir(path: &str, entries: Vec<FsNode>) -> FsNode {
    FsNode::Dir { path: path.to_string(), entries }
}

fn unreadable(path: &str) -> FsNode {
    FsNode::Unreadable { path: path.to_string() }
}

fn sorted(mut v: Vec<String>) -> Vec<String> {
    v.sort();
    v
}

fn strings(v: &[&str]) -> Vec<String> {
    v.iter().map(|s| s.to_string()).collect()
}

#[test]
fn test_size() {
    let temp_dir = dir(
        "durs_test_size",
        vec![
            file("durs_test_size/file", 4),
            dir(
                "durs_test_size/dir",
                vec![
                    file("durs_test_size/dir/other_file", 12),
                    file("durs_test_size/dir/and_another_file", 21),
                ],
            ),
        ],
    );
    assert_eq!(size(&temp_dir).unwrap(), 4 + (12 + 21));
}

#[test]
fn test_ls_dir() {
    let temp_dir = dir(
        "durs_test_ls_dir",
        vec![
            file("durs_test_ls_dir/file", 0),
            dir(
                "durs_test_ls_dir/dir",
                vec![file("durs_test_ls_dir/dir/file", 0)],
            ),
        ],
    );
    let actual = sorted(ls(&temp_dir).unwrap());
    let expected = sorted(strings(&["durs_test_ls_dir/file", "durs_test_ls_dir/dir"]));
    assert_eq!(actual, expected);
}

#[test]
fn test_ls_file() {
    let file_path = file("durs_test_ls_file/file", 0);
    let actual = ls(&file_path).unwrap();
    let expected = strings(&["durs_test_ls_file/file"]);
    assert_eq!(actual, expected);
}

#[test]
fn test_ls_rec_dir() {
    let temp_dir = dir(
        "durs_test_ls_rec_dir",
        vec![
            file("durs_test_ls_rec_dir/file", 0),
            dir(
                "durs_test_ls_rec_dir/dir",
                vec![file("durs_test_ls_rec_dir/dir/file", 0)],
            ),
        ],
    );
    let actual = sorted(ls_rec(&temp_dir).unwrap());
    let expected = sorted(strings(&[
        "durs_test_ls_rec_dir/file",
        "durs_test_ls_rec_dir/dir",
        "durs_test_ls_rec_dir/dir/file",
    ]));
    assert_eq!(actual, expected);
}

#[test]
fn test_ls_rec_file() {
    let file_path = file("durs_test_ls_rec_file/file", 0);
    let actual = ls_rec(&file_path).unwrap();
    let expected = strings(&["durs_test_ls_rec_file/file"]);
    assert_eq!(actual, expected);
}

fn scenario_root() -> FsNode {
    dir(
        "root",
        vec![
            file("root/file", 4),
            dir(
                "root/dir",
                vec![
                    file("root/dir/other_file", 12),
                    file("root/dir/and_another_file", 21),
                ],
            ),
        ],
    )
}

#[test]
fn scenario_total_size() {
    assert_eq!(size(&scenario_root()).unwrap(), 37);
}

#[test]
fn scenario_ls_sorted() {
    let actual = sorted(ls(&scenario_root()).unwrap());
    assert_eq!(actual, strings(&["root/dir", "root/file"]));
}

#[test]
fn scenario_ls_rec_sorted() {
    let actual = sorted(ls_rec(&scenario_root()).unwrap());
    assert_eq!(
        actual,
        strings(&[
            "root/dir",
            "root/dir/and_another_file",
            "root/dir/other_file",
            "root/file",
        ])
    );
}

#[test]
fn ls_rec_is_preorder_depth_first() {
    let root = dir(
        "r",
        vec![
            dir("r/a", vec![file("r/a/x", 1), dir("r/a/b", vec![file("r/a/b/y", 2)])]),
            file("r/z", 3),
        ],
    );
    let actual = ls_rec(&root).unwrap();
    assert_eq!(
        actual,
        strings(&["r/a", "r/a/x", "r/a/b", "r/a/b/y", "r/z"])
    );
}

#[test]
fn size_of_empty_file_is_zero() {
    assert_eq!(size(&file("empty", 0)).unwrap(), 0);
}

#[test]
fn size_of_nonempty_file_is_its_length() {
    assert_eq!(size(&file("data", 1234)).unwrap(), 1234);
}

#[test]
fn size_of_empty_dir_is_zero() {
    assert_eq!(size(&dir("d", vec![])).unwrap(), 0);
}

#[test]
fn operations_are_idempotent() {
    let root = scenario_root();
    assert_eq!(ls(&root), ls(&root));
    assert_eq!(ls_rec(&root), ls_rec(&root));
    assert_eq!(size(&root), size(&root));

    let bad = dir("r", vec![unreadable("r/secret")]);
    assert_eq!(ls(&bad), ls(&bad));
    assert_eq!(ls_rec(&bad), ls_rec(&bad));
    assert_eq!(size(&bad), size(&bad));
}

#[test]
fn unreadable_root_fails_every_operation() {
    let root = unreadable("gone");
    let expected = FsError::Unreadable {
        path: "gone".to_string(),
    };
    assert_eq!(ls(&root).unwrap_err(), expected);
    assert_eq!(ls_rec(&root).unwrap_err(), expected);
    assert_eq!(size(&root).unwrap_err(), expected);
}

#[test]
fn shallow_listing_does_not_inspect_children() {
    let root = dir("r", vec![file("r/ok", 1), unreadable("r/secret")]);
    let actual = sorted(ls(&root).unwrap());
    assert_eq!(actual, strings(&["r/ok", "r/secret"]));
}

#[test]
fn deep_operations_fail_on_first_unreadable_child() {
    let root = dir(
        "r",
        vec![
            dir("r/a", vec![unreadable("r/a/first")]),
            unreadable("r/second"),
        ],
    );
    let expected = FsError::Unreadable {
        path: "r/a/first".to_string(),
    };
    assert_eq!(ls_rec(&root).unwrap_err(), expected);
    assert_eq!(size(&root).unwrap_err(), expected);
}

#[test]
fn oversized_total_is_reported() {
    let root = dir(
        "r",
        vec![file("r/a", u64::MAX), file("r/b", 1)],
    );
    assert_eq!(size(&root).unwrap_err(), FsError::TooLarge);
}

#[test]
fn unreadable_is_reported_before_oversized_total() {
    let root = dir(
        "r",
        vec![
            file("r/a", u64::MAX),
            file("r/b", 1),
            unreadable("r/c"),
        ],
    );
    let expected = FsError::Unreadable {
        path: "r/c".to_string(),
    };
    assert_eq!(size(&root).unwrap_err(), expected);
}
