use pathogen::catalog::{find_mutation_difference, parse_mutant_filename, parse_universalmutator_file};
use pathogen::types::{Language, MutationType};

#[test]
fn test_find_mutation_difference_first_line() {
    let original = "const a = 1;\nconst b = 2;\n";
    let mutant = "const a = 1;\nconst b = 3;\n";
    let (line, orig, mutated) = find_mutation_difference(original, mutant).unwrap();
    assert_eq!(line, 2);
    assert_eq!(orig, "const b = 2;");
    assert_eq!(mutated, "const b = 3;");
}

#[test]
fn test_find_mutation_difference_trims_lines() {
    let original = "  const a = 1;\nconst b = 2;";
    let mutant = "const a = 1;\n  const b = 9;";
    let (line, orig, mutated) = find_mutation_difference(original, mutant).unwrap();
    assert_eq!(line, 2);
    assert_eq!(orig, "const b = 2;");
    assert_eq!(mutated, "const b = 9;");
}

#[test]
fn test_identical_mutant_rejected() {
    let content = "const a = 1;\nconst b = 2;\n";
    assert!(find_mutation_difference(content, content).is_none());
}

#[test]
fn test_whitespace_only_change_rejected() {
    let original = "const a = 1;\n";
    let mutant = "   const a = 1;   \n";
    assert!(find_mutation_difference(original, mutant).is_none());
}

#[test]
fn test_parse_mutant_filename() {
    assert_eq!(parse_mutant_filename("foo.mutant.3").unwrap(), "foo");
    assert_eq!(parse_mutant_filename("a.b.mutant.12").unwrap(), "a");
    assert!(parse_mutant_filename("foo.bar").is_none());
    assert!(parse_mutant_filename("foo.orig.3").is_none());
}

#[test]
fn test_parse_universalmutator_file_builds_record() {
    let original = "export const x = 1;\n";
    let mutant = "export const x = 0;\n";
    let m = parse_universalmutator_file(
        "a.mutant.1",
        "src/a.ts",
        original,
        mutant,
        7,
        Language::TypeScript,
    )
    .unwrap();
    assert_eq!(m.id, "unimut_7");
    assert_eq!(m.file, "src/a.ts");
    assert_eq!(m.line, 1);
    assert_eq!(m.column, 0);
    assert_eq!(m.original, "export const x = 1;");
    assert_eq!(m.mutated, mutant);
    assert!(matches!(m.mutation_type, MutationType::ArithmeticOperator));
    assert_eq!(m.description, "universalmutator mutation: export const x = 1; -> export const x = 0;");
}

#[test]
fn test_parse_universalmutator_file_rejects_identical() {
    let content = "export const x = 1;\n";
    assert!(parse_universalmutator_file(
        "a.mutant.1",
        "src/a.ts",
        content,
        content,
        1,
        Language::TypeScript,
    )
    .is_none());
}

#[test]
fn test_parse_universalmutator_file_rejects_bad_stem() {
    assert!(parse_universalmutator_file(
        "a.backup",
        "src/a.ts",
        "x\n",
        "y\n",
        1,
        Language::TypeScript,
    )
    .is_none());
}
