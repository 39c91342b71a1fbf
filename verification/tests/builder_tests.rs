use pathogen::builder::{MutationBuilder, MutationCandidate, MutationContext, ParsedFile, SimpleAst};
use pathogen::types::MutationType;

#[test]
fn test_mutation_builder_arithmetic() {
    let mutations = MutationBuilder::arithmetic_mutations("+");
    assert!(mutations.contains(&"-".to_string()));
    assert!(mutations.contains(&"*".to_string()));
    assert!(mutations.contains(&"/".to_string()));
}

#[test]
fn test_mutation_builder_comparison() {
    let mutations = MutationBuilder::comparison_mutations("===");
    assert!(mutations.contains(&"!==".to_string()));
    assert!(mutations.contains(&">=".to_string()));
    assert!(mutations.contains(&"<=".to_string()));
}

#[test]
fn test_mutation_builder_boolean() {
    assert_eq!(MutationBuilder::boolean_mutations("true"), vec!["false".to_string()]);
    assert_eq!(MutationBuilder::boolean_mutations("false"), vec!["true".to_string()]);
}

#[test]
fn test_number_mutations() {
    let mutations = MutationBuilder::number_mutations("5");
    assert!(mutations.contains(&"6".to_string()));
    assert!(mutations.contains(&"4".to_string()));
    assert!(mutations.contains(&"0".to_string()));
    assert!(mutations.contains(&"1".to_string()));
}

#[test]
fn test_number_mutations_negative_and_edges() {
    assert_eq!(
        MutationBuilder::number_mutations("-3"),
        vec!["-2".to_string(), "-4".to_string(), "0".to_string(), "1".to_string()]
    );
    assert_eq!(
        MutationBuilder::number_mutations("0"),
        vec!["1".to_string(), "1".to_string(), "0".to_string(), "1".to_string()]
    );
    assert_eq!(
        MutationBuilder::number_mutations("1"),
        vec!["2".to_string(), "0".to_string(), "0".to_string(), "2".to_string()]
    );
    assert!(MutationBuilder::number_mutations("abc").is_empty());
}

#[test]
fn test_logical_mutations() {
    assert_eq!(MutationBuilder::logical_mutations("&&"), vec!["||".to_string()]);
    assert_eq!(MutationBuilder::logical_mutations("||"), vec!["&&".to_string()]);
    assert_eq!(MutationBuilder::logical_mutations("!"), vec!["".to_string()]);
    assert!(MutationBuilder::logical_mutations("^").is_empty());
}

#[test]
fn test_string_mutations() {
    let mutations = MutationBuilder::string_mutations("\"hello\"");
    assert_eq!(mutations[0], "\"\"");
    assert_eq!(mutations[1], "\"mutated\"");
    assert_eq!(mutations[2], "\"helloX\"");
}

#[test]
fn test_mutation_context_positions() {
    let content = "const a = 1;\nconst b = true;\n".to_string();
    let file = ParsedFile {
        path: "src/a.ts".to_string(),
        original_content: content.clone(),
        stripped_content: content.clone(),
        ast: SimpleAst { content },
    };
    let mut ctx = MutationContext::new(&file);
    let candidate = MutationCandidate {
        start_byte: 23,
        end_byte: 27,
        original: "true".to_string(),
        mutated: "false".to_string(),
        mutation_type: "boolean_literal".to_string(),
    };
    ctx.add_mutation_from_candidate(&candidate, MutationType::BooleanLiteral);
    let mutations = ctx.into_mutations();
    assert_eq!(mutations.len(), 1);
    let m = &mutations[0];
    assert_eq!(m.id, "src/a.ts_0");
    assert_eq!(m.line, 2);
    assert_eq!(m.column, 10);
    assert_eq!(m.original, "true");
    assert_eq!(m.mutated, "false");
    assert_eq!(m.description, "Boolean literal mutation at 2:10");
}
