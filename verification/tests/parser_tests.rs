use pathogen::parser::{strip_comments_and_normalize, strip_line_comments};

#[test]
fn test_comment_stripping() {
    let input = "\n// This is a comment\nconst value = \"not a // comment\";\n/* Multi-line\n   comment */\nconst other = 42; // Another comment\n";

    let stripped = strip_comments_and_normalize(input);
    assert!(!stripped.contains("This is a comment"));
    assert!(stripped.contains("not a // comment"));
    assert!(!stripped.contains("Multi-line"));
    assert!(!stripped.contains("Another comment"));
    assert!(stripped.contains("const value"));
    assert!(stripped.contains("const other = 42;"));
}

#[test]
fn test_line_comment_in_single_quotes_preserved() {
    assert_eq!(strip_line_comments("const u = 'a // b';"), "const u = 'a // b';");
    assert_eq!(strip_line_comments("let x = 1; // gone"), "let x = 1; ");
}

#[test]
fn test_block_comment_replaced_by_space() {
    assert_eq!(strip_line_comments("a/* mid */b"), "a b");
    assert_eq!(strip_line_comments("a/* open"), "a/* */");
}

#[test]
fn test_stripping_preserves_line_count() {
    let input = "a\n// b\nc";
    let stripped = strip_comments_and_normalize(input);
    assert_eq!(stripped, "a\n\nc");
}
