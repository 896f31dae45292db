use webvy::file::{file_name_of, file_stem_of, rfind_char};
use webvy::processor::tera::{join_path, parent_of, with_file_name};
use webvy::strings::{contains_sub, ends_with, find_sub, starts_with, trim, trim_end_matches};

#[test]
fn substring_search_finds_the_first_occurrence() {
    assert_eq!(find_sub("a+++b+++c", "+++", 0), Some(1));
    assert_eq!(find_sub("a+++b+++c", "+++", 2), Some(5));
    assert_eq!(find_sub("a+++b", "xyz", 0), None);
    assert_eq!(find_sub("héllo wörld", "wörld", 0), Some(6));
}

#[test]
fn prefix_suffix_and_containment_checks() {
    assert!(starts_with("+++\nmatter", "+++"));
    assert!(!starts_with("-+++", "+++"));
    assert!(ends_with("posts/_index.md", "_index.md"));
    assert!(contains_sub("some_index.md", "_index"));
    assert!(!contains_sub("regular.md", "_index"));
}

#[test]
fn trimming_strips_unicode_whitespace() {
    assert_eq!(trim("  \n body text \r\n"), "body text");
    assert_eq!(trim("\n\t \r"), "");
    assert_eq!(trim("solid"), "solid");
    assert_eq!(trim("\u{00A0}\u{2003}padded\u{3000}"), "padded");
}

#[test]
fn trailing_markdown_suffixes_are_stripped_repeatedly() {
    assert_eq!(trim_end_matches("first.md", ".md"), "first");
    assert_eq!(trim_end_matches("odd.md.md", ".md"), "odd");
    assert_eq!(trim_end_matches("plain", ".md"), "plain");
}

#[test]
fn path_helpers_split_and_join_components() {
    assert_eq!(file_name_of("content/posts/a.md"), "a.md");
    assert_eq!(file_name_of("a.md"), "a.md");
    assert_eq!(file_stem_of("archive.tar.gz"), Some("archive.tar".to_string()));
    assert_eq!(file_stem_of(".hidden"), Some(".hidden".to_string()));
    assert_eq!(file_stem_of(""), None);
    assert_eq!(rfind_char("a/b/c", '/'), Some(3));
    assert_eq!(parent_of("posts/a.md"), "posts");
    assert_eq!(parent_of("a.md"), "");
    assert_eq!(with_file_name("posts/a.md", "a.html"), "posts/a.html");
    assert_eq!(with_file_name("a.md", "a.html"), "a.html");
    assert_eq!(join_path("public", "posts/a.html"), "public/posts/a.html");
    assert_eq!(join_path("public/", "a.html"), "public/a.html");
    assert_eq!(join_path("", "a.html"), "a.html");
}
