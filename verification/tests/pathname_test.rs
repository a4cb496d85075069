use mutx::pathname::{file_name, join_path, parent_of, tail_of};

#[test]
fn test_join_path_inserts_separator() {
    assert_eq!(join_path("/a/b", "c.txt"), "/a/b/c.txt");
    assert_eq!(join_path("/a/b/", "c.txt"), "/a/b/c.txt");
    assert_eq!(join_path("", "c.txt"), "c.txt");
}

#[test]
fn test_file_name_extracts_basename() {
    assert_eq!(file_name("/a/b/c.txt").as_deref(), Some("c.txt"));
    assert_eq!(file_name("c.txt").as_deref(), Some("c.txt"));
    assert_eq!(file_name("/a/b/").as_deref(), None);
    assert_eq!(file_name("/a/b/..").as_deref(), None);
    assert_eq!(file_name("/a/b/.").as_deref(), None);
    assert_eq!(file_name("").as_deref(), None);
}

#[test]
fn test_parent_of_strips_basename() {
    assert_eq!(parent_of("/a/b/c.txt"), "/a/b");
    assert_eq!(parent_of("/c.txt"), "/");
    assert_eq!(parent_of("c.txt"), "");
}

#[test]
fn test_tail_of_takes_last_segment() {
    assert_eq!(tail_of("/a/b/c"), "c");
    assert_eq!(tail_of("abc"), "abc");
    assert_eq!(tail_of("/a/b/"), "");
}
