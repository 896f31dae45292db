use webvy::matterparser::Parser;

#[test]
fn extract_table_from_front_matter() {
    let test_toml = "+++\n[thing]\nkey = true+++\nOther text";

    let result = Parser::default().parse(test_toml).unwrap();

    let expected = toml::from_str("key = true").unwrap();

    assert_eq!(result.get("thing"), Some(&expected));
}

#[test]
fn extract_all_data_from_page() {
    let parser = Parser::default().with_excerpt("<!-- excerpt -->");

    let test_page = "+++\n[thing]\nkey = true+++\nOther text\n<!-- excerpt -->\nEverything else I don't want to include.\n\nA Paragraph\n";

    let expected_toml: toml::Value = toml::from_str("key = true").unwrap();
    let expected_excerpt = Some(String::from("Other text"));

    let mut result = parser.parse(test_page).unwrap();

    assert_eq!(result.take_matter().unwrap().get("thing"), Some(&expected_toml));
    assert_eq!(result.take_excerpt(), expected_excerpt);
    assert_eq!(
        result.take_content(),
        "Everything else I don't want to include.\n\nA Paragraph"
    );
}

#[test]
fn returns_none_if_unable_to_find_frontmatter() {
    let parser = Parser::default();

    let test_page = "Everything else I don't want to include.\n\nA Paragraph\n";

    let result = parser.parse(test_page);

    assert!(result.is_none());
}

#[test]
fn page_without_closing_fence_keeps_whole_page_as_content() {
    let parser = Parser::default();

    let result = parser.parse("+++\nkey = true").unwrap();

    assert!(result.excerpt().is_none());
    assert_eq!(result.content(), "+++\nkey = true");
}

#[test]
fn unparsable_front_matter_yields_no_table() {
    let parser = Parser::default();

    let mut result = parser.parse("+++\nnot [valid toml+++\nBody").unwrap();

    assert!(result.take_matter().is_none());
    assert_eq!(result.take_content(), "Body");
}

#[test]
fn content_edges_lose_unicode_whitespace() {
    let parser = Parser::default();

    let result = parser.parse("+++\n+++\n\u{00A0}Body\u{2009}\n").unwrap();

    assert_eq!(result.content(), "Body");
}

#[test]
fn excerpt_marker_absent_leaves_content_whole() {
    let parser = Parser::default().with_excerpt("<!-- more -->");

    let result = parser.parse("+++\nkey = true+++\nJust a body\n").unwrap();

    assert!(result.excerpt().is_none());
    assert_eq!(result.content(), "Just a body");
}
