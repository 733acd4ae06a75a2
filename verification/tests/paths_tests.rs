use ascope::paths::{dir_form_string, extension_chars, file_name_string, join_path};

fn chars(s: &str) -> Vec<char> {
    s.chars().collect()
}

#[test]
fn file_name_of_plain_paths() {
    assert_eq!(file_name_string("/home/user/notes.txt"), "notes.txt");
    assert_eq!(file_name_string("notes.txt"), "notes.txt");
    assert_eq!(file_name_string("a//b"), "b");
}

#[test]
fn file_name_passes_over_trailing_separators_and_dots() {
    assert_eq!(file_name_string("a/b/"), "b");
    assert_eq!(file_name_string("a/b//"), "b");
    assert_eq!(file_name_string("a/b/."), "b");
    assert_eq!(file_name_string("a/./"), "a");
    assert_eq!(file_name_string("/tmp/dir/"), "dir");
}

#[test]
fn file_name_of_paths_that_name_no_entry() {
    assert_eq!(file_name_string(""), "");
    assert_eq!(file_name_string("/"), "");
    assert_eq!(file_name_string("."), "");
    assert_eq!(file_name_string("/."), "");
    assert_eq!(file_name_string("a/.."), "");
    assert_eq!(file_name_string("./."), "");
}

#[test]
fn extension_follows_the_file_name() {
    assert_eq!(extension_chars(&chars("dir/main.rs")), Some(chars("rs")));
    assert_eq!(extension_chars(&chars("dir/archive.tar.gz/")), Some(chars("gz")));
    assert_eq!(extension_chars(&chars("dir/.hidden")), None);
    assert_eq!(extension_chars(&chars("dir/Makefile")), None);
}

#[test]
fn join_then_file_name_gives_the_name() {
    assert_eq!(file_name_string(&join_path("/srv/data", "report.csv")), "report.csv");
}

#[test]
fn dir_form_drops_trailing_separators() {
    assert_eq!(dir_form_string("/tmp/"), "/tmp");
    assert_eq!(dir_form_string("/tmp//"), "/tmp");
    assert_eq!(dir_form_string("/tmp/."), "/tmp");
    assert_eq!(dir_form_string("/tmp"), "/tmp");
    assert_eq!(dir_form_string("/"), "/");
    assert_eq!(dir_form_string("//"), "/");
    assert_eq!(dir_form_string("./"), ".");
    assert_eq!(dir_form_string(""), "");
}

fn parent_of(p: &str) -> Option<String> {
    ascope::paths::parent_chars(&chars(p)).map(|v| v.into_iter().collect())
}

#[test]
fn parent_as_path_gives_it() {
    assert_eq!(parent_of("/a/b"), Some("/a".to_string()));
    assert_eq!(parent_of("/a/b/"), Some("/a".to_string()));
    assert_eq!(parent_of("a/b/."), Some("a".to_string()));
    assert_eq!(parent_of("/a"), Some("/".to_string()));
    assert_eq!(parent_of("//a"), Some("/".to_string()));
    assert_eq!(parent_of("a/./b"), Some("a".to_string()));
    assert_eq!(parent_of("./a"), Some(".".to_string()));
    assert_eq!(parent_of("a"), Some(String::new()));
    assert_eq!(parent_of("/"), None);
    assert_eq!(parent_of(""), None);
}

fn same(a: &str, b: &str) -> bool {
    ascope::paths::same_path_chars(&chars(a), &chars(b))
}

#[test]
fn paths_compare_by_components() {
    assert!(same("/a/b/", "/a/b"));
    assert!(same("a//b", "a/b"));
    assert!(same("/a/./b/.", "/a/b"));
    assert!(same("./a", "./a/"));
    assert!(!same("./a", "a"));
    assert!(!same("a/..", "a"));
    assert!(!same("/a", "a"));
    assert!(!same("", "."));
    assert!(same("//", "/"));
}
