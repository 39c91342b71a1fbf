//! Core data model: languages, mutation records, outcomes, and statistics.

use vstd::prelude::*;

use crate::text::{chars_of, lower_str, rfind_char, rfind_in, spec_lower, string_from_chars, subvec};

verus! {

/// Programming language support.
#[derive(Debug, Clone, Copy, PartialEq, Eq, Structural)]
pub enum Language {
    TypeScript,
    Rust,
}

impl Language {
    /// Source-file extension for this language.
    pub fn extension(&self) -> (r: &'static str)
        ensures
            self is TypeScript ==> r@ == "ts"@,
            self is Rust ==> r@ == "rs"@,
    {
        match self {
            Language::TypeScript => "ts",
            Language::Rust => "rs",
        }
    }

    /// The command that runs this language's test suite.
    pub fn get_test_runner_command(&self) -> (r: &'static str)
        ensures
            self is TypeScript ==> r@ == "bun"@,
            self is Rust ==> r@ == "cargo"@,
    {
        match self {
            Language::TypeScript => "bun",
            Language::Rust => "cargo",
        }
    }

    /// The arguments handed to the test runner.
    pub fn get_test_args(&self) -> (r: Vec<&'static str>)
        ensures
            r@.len() == 1,
            r@[0]@ == "test"@,
    {
        let mut args: Vec<&'static str> = Vec::new();
        args.push("test");
        args
    }
}

/// Kinds of mutations a catalog can carry; informational for reporting.
#[derive(Debug, Clone, Copy, PartialEq, Eq, Structural)]
pub enum MutationType {
    ArithmeticOperator,
    ComparisonOperator,
    LogicalOperator,
    BooleanLiteral,
    NumberLiteral,
    StringLiteral,
    ArrayMethod,
    PropertyAccess,
    FunctionCall,
    ConditionalExpression,
    ReturnStatement,
    VariableDeclaration,
    AssignmentOperator,
    UnaryOperator,
    TypeAnnotation,
}

/// The human-readable description of a mutation kind.
pub open spec fn spec_type_description(t: MutationType) -> Seq<char> {
    match t {
        MutationType::ArithmeticOperator => "Arithmetic operator mutation"@,
        MutationType::ComparisonOperator => "Comparison operator mutation"@,
        MutationType::LogicalOperator => "Logical operator mutation"@,
        MutationType::BooleanLiteral => "Boolean literal mutation"@,
        MutationType::NumberLiteral => "Number literal mutation"@,
        MutationType::StringLiteral => "String literal mutation"@,
        MutationType::ArrayMethod => "Array method mutation"@,
        MutationType::PropertyAccess => "Property access mutation"@,
        MutationType::FunctionCall => "Function call mutation"@,
        MutationType::ConditionalExpression => "Conditional expression mutation"@,
        MutationType::ReturnStatement => "Return statement mutation"@,
        MutationType::VariableDeclaration => "Variable declaration mutation"@,
        MutationType::AssignmentOperator => "Assignment operator mutation"@,
        MutationType::UnaryOperator => "Unary operator mutation"@,
        MutationType::TypeAnnotation => "Type annotation mutation"@,
    }
}

impl MutationType {
    /// Human-readable description of this mutation kind.
    pub fn description(&self) -> (r: &'static str)
        ensures
            r@ == spec_type_description(*self),
    {
        match self {
            MutationType::ArithmeticOperator => "Arithmetic operator mutation",
            MutationType::ComparisonOperator => "Comparison operator mutation",
            MutationType::LogicalOperator => "Logical operator mutation",
            MutationType::BooleanLiteral => "Boolean literal mutation",
            MutationType::NumberLiteral => "Number literal mutation",
            MutationType::StringLiteral => "String literal mutation",
            MutationType::ArrayMethod => "Array method mutation",
            MutationType::PropertyAccess => "Property access mutation",
            MutationType::FunctionCall => "Function call mutation",
            MutationType::ConditionalExpression => "Conditional expression mutation",
            MutationType::ReturnStatement => "Return statement mutation",
            MutationType::VariableDeclaration => "Variable declaration mutation",
            MutationType::AssignmentOperator => "Assignment operator mutation",
            MutationType::UnaryOperator => "Unary operator mutation",
            MutationType::TypeAnnotation => "Type annotation mutation",
        }
    }
}

/// A single mutation to be applied: one alternative version of one file.
///
/// `mutated` holds the full mutated file contents, the unit of substitution;
/// `original` holds only the differing source line, trimmed, for reporting.
/// `span_start` and `span_end` are character offsets (kept for catalog
/// compatibility; full-content substitution ignores them).
#[derive(Debug, Clone)]
pub struct Mutation {
    pub id: String,
    pub file: String,
    pub line: usize,
    pub column: usize,
    pub span_start: u32,
    pub span_end: u32,
    pub original: String,
    pub mutated: String,
    pub mutation_type: MutationType,
    pub description: String,
    pub language: Language,
}

/// Classification of how a mutation was killed.
#[derive(Debug, Clone, Copy, PartialEq, Eq, Structural)]
pub enum KillType {
    /// Tests passed, mutation survived.
    Survived,
    /// Tests failed due to changed behavior.
    BehavioralKill,
    /// Mutation caused a compilation, syntax, or system error.
    CompileError,
}

/// Result of running one mutation test.
#[derive(Debug, Clone)]
pub struct MutationResult {
    pub mutation: Mutation,
    pub killed: bool,
    pub kill_type: KillType,
    pub test_output: String,
    pub execution_time_ms: u64,
}

/// Configuration for a mutation-testing run.
#[derive(Debug, Clone)]
pub struct MutationConfig {
    pub source_dir: String,
    pub parallel_count: usize,
    pub output_file: Option<String>,
    pub verbose: bool,
    pub dry_run: bool,
    pub no_cache: bool,
    pub language: Language,
}

/// Per-file mutation-testing statistics.
///
/// `kill_rate` is the behavioral-kill rate over viable mutations, in basis
/// points (hundredths of a percent), so `10000` means every viable mutation
/// was behaviorally killed.
#[derive(Debug, Clone)]
pub struct FileStats {
    pub file_path: String,
    pub total_mutations: usize,
    pub behavioral_kills: usize,
    pub compile_errors: usize,
    pub survived: usize,
    pub kill_rate: u64,
    pub survived_mutations: Vec<Mutation>,
}

/// Overall statistics for a mutation-testing run.
#[derive(Debug, Clone)]
pub struct MutationStats {
    pub total_mutations: usize,
    pub behavioral_kills: usize,
    pub compile_errors: usize,
    pub survived: usize,
    pub duration_ms: u64,
    pub files_tested: usize,
    pub per_file_stats: Vec<FileStats>,
}

/// Picks the primary language from counts of `ts`, `js` and `rs` files:
/// Rust when `rs` files outnumber both script kinds, TypeScript when any
/// script file exists, and none otherwise.
pub fn determine_primary_language(ts_count: usize, js_count: usize, rs_count: usize) -> (r: Option<
    Language,
>)
    ensures
        rs_count > ts_count && rs_count > js_count ==> r == Some(Language::Rust),
        !(rs_count > ts_count && rs_count > js_count) && (ts_count > 0 || js_count > 0) ==> r
            == Some(Language::TypeScript),
        !(rs_count > ts_count && rs_count > js_count) && ts_count == 0 && js_count == 0 ==> r
            is None,
{
    if rs_count > ts_count && rs_count > js_count {
        Some(Language::Rust)
    } else if ts_count > 0 || js_count > 0 {
        Some(Language::TypeScript)
    } else {
        None
    }
}

/// The extension of `path`, lowercased: the part after the last `.` of the
/// final path component, provided that dot is not the component's first
/// character.
pub open spec fn spec_file_extension(s: Seq<char>) -> Option<Seq<char>> {
    let slash = rfind_char(s, '/');
    let dot = rfind_char(s, '.');
    if dot > slash + 1 {
        Some(spec_lower(s.subrange(dot + 1, s.len() as int)))
    } else {
        None
    }
}

/// Extracts the lowercased file extension of a path string.
pub fn extract_file_extension(path: &str) -> (r: Option<String>)
    ensures
        match r {
            Some(e) => spec_file_extension(path@) == Some(e@),
            None => spec_file_extension(path@) is None,
        },
{
    let v = chars_of(path);
    let n = v.len();
    let dot_pos = rfind_in(&v, '.');
    let slash_pos = rfind_in(&v, '/');
    match dot_pos {
        None => None,
        Some(d) => {
            let after_first: bool = match slash_pos {
                None => d > 0,
                Some(sl) => d > sl && d - sl > 1,
            };
            if after_first {
                let tail = subvec(&v, d + 1, n);
                let tail_str = string_from_chars(&tail);
                Some(lower_str(tail_str.as_str()))
            } else {
                None
            }
        },
    }
}

} // verus!
