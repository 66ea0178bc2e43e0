use iron_test::mock_stream::MockStream;
use iron_test::{FileBuilder, ProjectBuilder};

#[test]
fn root_is_under_test_directory() {
    let p = ProjectBuilder::with_id("demo", "/t/iron-integration-tests", "1234");
    assert_eq!(p.root(), "/t/iron-integration-tests/test-1234/demo");
    assert!(p.files().is_empty());
}

#[test]
fn fresh_project_gets_uuid_directory() {
    let p = ProjectBuilder::new("demo", "/t");
    let root = p.root();
    assert!(root.starts_with("/t/test-"));
    assert!(root.ends_with("/demo"));
    let id = &root["/t/test-".len()..root.len() - "/demo".len()];
    assert_eq!(id.len(), 36);
    for (i, c) in id.chars().enumerate() {
        if i == 8 || i == 13 || i == 18 || i == 23 {
            assert_eq!(c, '-');
        } else {
            assert!(c.is_ascii_digit() || ('a'..='f').contains(&c));
        }
    }
    let q = ProjectBuilder::new("demo", "/t");
    assert_ne!(p.root(), q.root());
}

#[test]
fn files_are_joined_to_root_in_order() {
    let p = ProjectBuilder::with_id("demo", "/t", "x")
        .file("src/lib.rs", b"fn a() {}".to_vec())
        .file("/abs/file", b"z".to_vec());
    let files = p.files();
    assert_eq!(files.len(), 2);
    assert_eq!(files[0].path(), "/t/test-x/demo/src/lib.rs");
    assert_eq!(files[0].body(), b"fn a() {}");
    assert_eq!(files[1].path(), "/abs/file");
}

#[test]
fn builders_compare_by_contents() {
    let a = ProjectBuilder::with_id("n", "/t", "1").file("f", b"x".to_vec());
    let b = ProjectBuilder::with_id("n", "/t", "1").file("f", b"x".to_vec());
    let c = ProjectBuilder::with_id("n", "/t", "1").file("f", b"y".to_vec());
    let d = ProjectBuilder::with_id("n", "/t", "2").file("f", b"x".to_vec());
    assert!(a == b);
    assert!(a != c);
    assert!(a != d);
    assert!(FileBuilder::new("p", vec![1, 2]) == FileBuilder::new("p", vec![1, 2]));
    assert!(FileBuilder::new("p", vec![1, 2]) != FileBuilder::new("p", vec![1]));
}

#[test]
fn mock_stream_holds_its_data() {
    let s = MockStream::new(vec![1u8, 2, 3]);
    let t = s.clone();
    assert_eq!(s.into_inner(), vec![1, 2, 3]);
    assert_eq!(t.into_inner(), vec![1, 2, 3]);
}
