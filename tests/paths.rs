use iron_test::path::{file_name, join};

#[test]
fn file_name_of_plain_path() {
    assert_eq!(file_name("/tmp/file.txt"), Some("file.txt".to_owned()));
    assert_eq!(file_name("file.txt"), Some("file.txt".to_owned()));
}

#[test]
fn file_name_skips_trailing_separators_and_dots() {
    assert_eq!(file_name("/tmp/dir/"), Some("dir".to_owned()));
    assert_eq!(file_name("a/./"), Some("a".to_owned()));
    assert_eq!(file_name("/tmp//x//."), Some("x".to_owned()));
}

#[test]
fn file_name_absent() {
    assert_eq!(file_name(""), None);
    assert_eq!(file_name("/"), None);
    assert_eq!(file_name("."), None);
    assert_eq!(file_name("./"), None);
    assert_eq!(file_name("a/.."), None);
    assert_eq!(file_name(".."), None);
}

#[test]
fn file_name_keeps_non_ascii() {
    assert_eq!(file_name("/données/été.txt"), Some("été.txt".to_owned()));
}

#[test]
fn join_relative_and_absolute() {
    assert_eq!(join("/base", "a/b"), "/base/a/b");
    assert_eq!(join("/base/", "a"), "/base/a");
    assert_eq!(join("", "a"), "a");
    assert_eq!(join("/base", "/abs"), "/abs");
    assert_eq!(join("/base", ""), "/base/");
}
