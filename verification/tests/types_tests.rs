use pathogen::types::{
    determine_primary_language, extract_file_extension, Language, MutationType,
};

#[test]
fn test_language_descriptor() {
    assert_eq!(Language::TypeScript.extension(), "ts");
    assert_eq!(Language::Rust.extension(), "rs");
    assert_eq!(Language::TypeScript.get_test_runner_command(), "bun");
    assert_eq!(Language::Rust.get_test_runner_command(), "cargo");
    assert_eq!(Language::TypeScript.get_test_args(), vec!["test"]);
    assert_eq!(Language::Rust.get_test_args(), vec!["test"]);
}

#[test]
fn test_mutation_type_descriptions() {
    assert_eq!(MutationType::ArithmeticOperator.description(), "Arithmetic operator mutation");
    assert_eq!(MutationType::BooleanLiteral.description(), "Boolean literal mutation");
    assert_eq!(MutationType::TypeAnnotation.description(), "Type annotation mutation");
}

#[test]
fn test_determine_primary_language() {
    assert_eq!(determine_primary_language(10, 0, 2), Some(Language::TypeScript));
    assert_eq!(determine_primary_language(1, 0, 5), Some(Language::Rust));
    assert_eq!(determine_primary_language(0, 3, 1), Some(Language::TypeScript));
    assert_eq!(determine_primary_language(0, 0, 0), None);
    // Ties between Rust and a script language fall to TypeScript.
    assert_eq!(determine_primary_language(3, 0, 3), Some(Language::TypeScript));
}

#[test]
fn test_extract_file_extension() {
    assert_eq!(extract_file_extension("src/a.ts").unwrap(), "ts");
    assert_eq!(extract_file_extension("src/A.TS").unwrap(), "ts");
    assert_eq!(extract_file_extension("dir.d/readme").is_none(), true);
    assert!(extract_file_extension("src/.hidden").is_none());
    assert_eq!(extract_file_extension("a/b/c.spec.RS").unwrap(), "rs");
}
