//! Mutation candidates and helpers that turn them into mutation records.

use vstd::prelude::*;
use vstd::string::*;

use crate::text::{
    is_int_string, int_string_value, i128_to_string, parse_i64, spec_decimal_of, spec_digits_of,
    spec_lines, spec_trim_char, lines_of, str_eq, subvec, chars_of, string_from_chars,
    trim_char_str, u64_to_string,
};
use crate::types::{Language, Mutation, MutationType, spec_type_description};

verus! {

/// A lightweight parse result: the stripped file content, as the
/// regex-free stand-in for a syntax tree.
#[derive(Debug, Clone)]
pub struct SimpleAst {
    pub content: String,
}

/// A mutation candidate found in the code. `start_byte` and `end_byte` are
/// character offsets into the stripped content.
#[derive(Debug, Clone)]
pub struct MutationCandidate {
    pub start_byte: usize,
    pub end_byte: usize,
    pub original: String,
    pub mutated: String,
    pub mutation_type: String,
}

/// A parsed source file with its stripped content.
#[derive(Debug)]
pub struct ParsedFile {
    pub path: String,
    pub original_content: String,
    pub stripped_content: String,
    pub ast: SimpleAst,
}

/// The deep view of a vector of strings is elementwise.
proof fn lemma_string_vec_deep_view(v: Vec<String>)
    ensures
        v.deep_view().len() == v@.len(),
        forall|i: int| 0 <= i < v@.len() ==> v.deep_view()[i] == v@[i]@,
{
    assert(v.deep_view() =~= Seq::new(v@.len(), |i: int| v@[i]@));
}

/// Appends a borrowed string to a vector of owned strings.
fn push_string(v: &mut Vec<String>, s: &str)
    ensures
        final(v)@.len() == old(v)@.len() + 1,
        forall|i: int| 0 <= i < old(v)@.len() ==> final(v)@[i] == old(v)@[i],
        final(v)@[old(v)@.len() as int]@ == s@,
{
    v.push(String::from_str(s));
}

/// What [`MutationBuilder::arithmetic_mutations`] returns for each operator.
pub open spec fn spec_arithmetic_mutations(s: Seq<char>) -> Seq<Seq<char>> {
    if s == "+"@ {
        seq!["-"@, "*"@, "/"@]
    } else if s == "-"@ {
        seq!["+"@, "*"@, "/"@]
    } else if s == "*"@ {
        seq!["+"@, "-"@, "/"@]
    } else if s == "/"@ {
        seq!["+"@, "-"@, "*"@]
    } else if s == "%"@ {
        seq!["+"@, "-"@, "*"@]
    } else {
        Seq::empty()
    }
}

/// What [`MutationBuilder::comparison_mutations`] returns for each operator.
pub open spec fn spec_comparison_mutations(s: Seq<char>) -> Seq<Seq<char>> {
    if s == "==="@ {
        seq!["!=="@, ">="@, "<="@]
    } else if s == "!=="@ {
        seq!["==="@, ">"@, "<"@]
    } else if s == ">"@ {
        seq!["<"@, ">="@, "==="@]
    } else if s == "<"@ {
        seq![">"@, "<="@, "==="@]
    } else if s == ">="@ {
        seq!["<"@, ">"@, "==="@]
    } else if s == "<="@ {
        seq![">"@, "<"@, "==="@]
    } else if s == "=="@ {
        seq!["!="@, ">"@, "<"@]
    } else if s == "!="@ {
        seq!["=="@, ">"@, "<"@]
    } else {
        Seq::empty()
    }
}

/// What [`MutationBuilder::logical_mutations`] returns for each operator.
pub open spec fn spec_logical_mutations(s: Seq<char>) -> Seq<Seq<char>> {
    if s == "&&"@ {
        seq!["||"@]
    } else if s == "||"@ {
        seq!["&&"@]
    } else if s == "!"@ {
        seq![""@]
    } else {
        Seq::empty()
    }
}

/// What [`MutationBuilder::boolean_mutations`] returns for each literal.
pub open spec fn spec_boolean_mutations(s: Seq<char>) -> Seq<Seq<char>> {
    if s == "true"@ {
        seq!["false"@]
    } else if s == "false"@ {
        seq!["true"@]
    } else {
        Seq::empty()
    }
}

/// What [`MutationBuilder::number_mutations`] returns for an integer literal.
pub open spec fn spec_number_mutations(s: Seq<char>) -> Seq<Seq<char>> {
    if is_int_string(s) && i64::MIN <= int_string_value(s) <= i64::MAX {
        let v = int_string_value(s);
        seq![
            spec_decimal_of(v + 1),
            if v != 0 {
                spec_decimal_of(v - 1)
            } else {
                "1"@
            },
            "0"@,
            if v != 1 {
                "1"@
            } else {
                "2"@
            },
        ]
    } else {
        Seq::empty()
    }
}

/// What [`MutationBuilder::string_mutations`] returns.
pub open spec fn spec_string_mutations(s: Seq<char>) -> Seq<Seq<char>> {
    seq!["\"\""@, "\"mutated\""@, "\""@ + spec_trim_char(s, '"') + "X\""@]
}

/// The character prefix of `content` up to `pos` (clamped to the length).
pub open spec fn spec_prefix_at(content: Seq<char>, pos: int) -> Seq<char> {
    if pos < content.len() {
        content.subrange(0, pos)
    } else {
        content
    }
}

/// The line count of the prefix of `content` before `pos`.
pub open spec fn spec_line_of(content: Seq<char>, pos: int) -> int {
    spec_lines(spec_prefix_at(content, pos)).len() as int
}

/// The length of the last line of the prefix of `content` before `pos`.
pub open spec fn spec_column_of(content: Seq<char>, pos: int) -> int {
    let ls = spec_lines(spec_prefix_at(content, pos));
    if ls.len() > 0 {
        ls.last().len() as int
    } else {
        0
    }
}

/// The mutation record that [`MutationContext::add_mutation_from_candidate`]
/// builds from a candidate: position derived from the stripped content,
/// identity derived from the path and a counter.
pub open spec fn spec_candidate_mutation(
    m: Mutation,
    path: Seq<char>,
    stripped: Seq<char>,
    counter: int,
    c: MutationCandidate,
    t: MutationType,
) -> bool {
    &&& m.id@ == path + "_"@ + spec_digits_of(counter)
    &&& m.file@ == path
    &&& m.line == spec_line_of(stripped, c.start_byte as int)
    &&& m.column == spec_column_of(stripped, c.start_byte as int)
    &&& m.span_start == c.start_byte as u32
    &&& m.span_end == c.end_byte as u32
    &&& m.original@ == c.original@
    &&& m.mutated@ == c.mutated@
    &&& m.mutation_type == t
    &&& m.description@ == spec_type_description(t) + " at "@ + spec_digits_of(
        spec_line_of(stripped, c.start_byte as int),
    ) + ":"@ + spec_digits_of(spec_column_of(stripped, c.start_byte as int))
    &&& m.language == Language::TypeScript
}

/// Context for generating mutations from candidates found in one file.
#[derive(Debug)]
pub struct MutationContext<'a> {
    pub file: &'a ParsedFile,
    pub mutations: Vec<Mutation>,
    pub mutation_counter: usize,
}

impl<'a> MutationContext<'a> {
    /// A fresh context for `file` with no mutations yet.
    pub fn new(file: &'a ParsedFile) -> (r: Self)
        ensures
            r.file == file,
            r.mutations@ == Seq::<Mutation>::empty(),
            r.mutation_counter == 0,
    {
        let mutations: Vec<Mutation> = Vec::new();
        proof {
            assert(mutations@ =~= Seq::<Mutation>::empty());
        }
        MutationContext { file, mutations, mutation_counter: 0 }
    }

    /// Turns a candidate into a full mutation record and collects it,
    /// deriving the line and column from the stripped file content.
    pub fn add_mutation_from_candidate(
        &mut self,
        candidate: &MutationCandidate,
        mutation_type: MutationType,
    )
        requires
            old(self).mutation_counter < usize::MAX,
            candidate.start_byte <= u32::MAX,
            candidate.end_byte <= u32::MAX,
        ensures
            final(self).file == old(self).file,
            final(self).mutation_counter == old(self).mutation_counter + 1,
            final(self).mutations@.len() == old(self).mutations@.len() + 1,
            forall|i: int|
                0 <= i < old(self).mutations@.len() ==> final(self).mutations@[i] == old(
                    self,
                ).mutations@[i],
            spec_candidate_mutation(
                final(self).mutations@.last(),
                old(self).file.path@,
                old(self).file.stripped_content@,
                old(self).mutation_counter as int,
                *candidate,
                mutation_type,
            ),
    {
        let stripped = chars_of(self.file.stripped_content.as_str());
        let cut: usize = if candidate.start_byte < stripped.len() {
            candidate.start_byte
        } else {
            stripped.len()
        };
        let prefix_chars = subvec(&stripped, 0, cut);
        let prefix = string_from_chars(&prefix_chars);
        let prefix_lines = lines_of(prefix.as_str());
        let line: usize = prefix_lines.len();
        let column: usize = if prefix_lines.len() > 0 {
            crate::text::chars_of(prefix_lines[prefix_lines.len() - 1].as_str()).len()
        } else {
            0
        };
        proof {
            assert(prefix@ == spec_prefix_at(self.file.stripped_content@, candidate.start_byte as int));
            if prefix_lines@.len() > 0 {
                assert(prefix_lines.deep_view().last() == prefix_lines@.last()@);
            }
        }

        let mut id = String::from_str(self.file.path.as_str());
        id.append("_");
        let counter_str = u64_to_string(self.mutation_counter as u64);
        id.append(counter_str.as_str());

        let mut description = String::from_str(mutation_type.description());
        description.append(" at ");
        let line_str = u64_to_string(line as u64);
        description.append(line_str.as_str());
        description.append(":");
        let column_str = u64_to_string(column as u64);
        description.append(column_str.as_str());

        let mutation = Mutation {
            id,
            file: String::from_str(self.file.path.as_str()),
            line,
            column,
            span_start: candidate.start_byte as u32,
            span_end: candidate.end_byte as u32,
            original: candidate.original.clone(),
            mutated: candidate.mutated.clone(),
            mutation_type,
            description,
            language: Language::TypeScript,
        };
        self.mutations.push(mutation);
        self.mutation_counter = self.mutation_counter + 1;
    }

    /// All mutations generated so far.
    pub fn into_mutations(self) -> (r: Vec<Mutation>)
        ensures
            r == self.mutations,
    {
        self.mutations
    }
}

/// Helper for creating specific kinds of mutations.
pub struct MutationBuilder;

impl MutationBuilder {
    /// Replacement candidates for an arithmetic operator.
    pub fn arithmetic_mutations(original: &str) -> (r: Vec<String>)
        ensures
            r.deep_view() == spec_arithmetic_mutations(original@),
    {
        let mut r: Vec<String> = Vec::new();
        if str_eq(original, "+") {
            push_string(&mut r, "-");
            push_string(&mut r, "*");
            push_string(&mut r, "/");
        } else if str_eq(original, "-") {
            push_string(&mut r, "+");
            push_string(&mut r, "*");
            push_string(&mut r, "/");
        } else if str_eq(original, "*") {
            push_string(&mut r, "+");
            push_string(&mut r, "-");
            push_string(&mut r, "/");
        } else if str_eq(original, "/") {
            push_string(&mut r, "+");
            push_string(&mut r, "-");
            push_string(&mut r, "*");
        } else if str_eq(original, "%") {
            push_string(&mut r, "+");
            push_string(&mut r, "-");
            push_string(&mut r, "*");
        }
        proof {
            lemma_string_vec_deep_view(r);
            assert(r.deep_view() =~= spec_arithmetic_mutations(original@));
        }
        r
    }

    /// Replacement candidates for a comparison operator.
    pub fn comparison_mutations(original: &str) -> (r: Vec<String>)
        ensures
            r.deep_view() == spec_comparison_mutations(original@),
    {
        let mut r: Vec<String> = Vec::new();
        if str_eq(original, "===") {
            push_string(&mut r, "!==");
            push_string(&mut r, ">=");
            push_string(&mut r, "<=");
        } else if str_eq(original, "!==") {
            push_string(&mut r, "===");
            push_string(&mut r, ">");
            push_string(&mut r, "<");
        } else if str_eq(original, ">") {
            push_string(&mut r, "<");
            push_string(&mut r, ">=");
            push_string(&mut r, "===");
        } else if str_eq(original, "<") {
            push_string(&mut r, ">");
            push_string(&mut r, "<=");
            push_string(&mut r, "===");
        } else if str_eq(original, ">=") {
            push_string(&mut r, "<");
            push_string(&mut r, ">");
            push_string(&mut r, "===");
        } else if str_eq(original, "<=") {
            push_string(&mut r, ">");
            push_string(&mut r, "<");
            push_string(&mut r, "===");
        } else if str_eq(original, "==") {
            push_string(&mut r, "!=");
            push_string(&mut r, ">");
            push_string(&mut r, "<");
        } else if str_eq(original, "!=") {
            push_string(&mut r, "==");
            push_string(&mut r, ">");
            push_string(&mut r, "<");
        }
        proof {
            lemma_string_vec_deep_view(r);
            assert(r.deep_view() =~= spec_comparison_mutations(original@));
        }
        r
    }

    /// Replacement candidates for a logical operator.
    pub fn logical_mutations(original: &str) -> (r: Vec<String>)
        ensures
            r.deep_view() == spec_logical_mutations(original@),
    {
        let mut r: Vec<String> = Vec::new();
        if str_eq(original, "&&") {
            push_string(&mut r, "||");
        } else if str_eq(original, "||") {
            push_string(&mut r, "&&");
        } else if str_eq(original, "!") {
            push_string(&mut r, "");
        }
        proof {
            lemma_string_vec_deep_view(r);
            assert(r.deep_view() =~= spec_logical_mutations(original@));
        }
        r
    }

    /// Replacement candidates for a boolean literal.
    pub fn boolean_mutations(original: &str) -> (r: Vec<String>)
        ensures
            r.deep_view() == spec_boolean_mutations(original@),
    {
        let mut r: Vec<String> = Vec::new();
        if str_eq(original, "true") {
            push_string(&mut r, "false");
        } else if str_eq(original, "false") {
            push_string(&mut r, "true");
        }
        proof {
            lemma_string_vec_deep_view(r);
            assert(r.deep_view() =~= spec_boolean_mutations(original@));
        }
        r
    }

    /// Replacement candidates for an integer literal: one above, one below,
    /// zero, and one (each adjusted when it would equal the original).
    /// Literals that are not optionally signed decimal integers in the `i64`
    /// range produce no candidates.
    pub fn number_mutations(original: &str) -> (r: Vec<String>)
        ensures
            r.deep_view() == spec_number_mutations(original@),
    {
        let mut r: Vec<String> = Vec::new();
        match parse_i64(original) {
            Some(num) => {
                let up = i128_to_string((num as i128) + 1);
                r.push(up);
                let down: String = if num != 0 {
                    i128_to_string((num as i128) - 1)
                } else {
                    String::from_str("1")
                };
                r.push(down);
                push_string(&mut r, "0");
                if num != 1 {
                    push_string(&mut r, "1");
                } else {
                    push_string(&mut r, "2");
                }
                proof {
                    lemma_string_vec_deep_view(r);
                    assert(r.deep_view() =~= spec_number_mutations(original@));
                }
            },
            None => {
                proof {
                    lemma_string_vec_deep_view(r);
                    assert(r.deep_view() =~= spec_number_mutations(original@));
                }
            },
        }
        r
    }

    /// Replacement candidates for a string literal: the empty string, a
    /// generic replacement, and the original with a character appended.
    pub fn string_mutations(original: &str) -> (r: Vec<String>)
        ensures
            r.deep_view() == spec_string_mutations(original@),
    {
        let mut r: Vec<String> = Vec::new();
        push_string(&mut r, "\"\"");
        push_string(&mut r, "\"mutated\"");
        let inner = trim_char_str(original, '"');
        let mut appended = String::from_str("\"");
        appended.append(inner.as_str());
        appended.append("X\"");
        r.push(appended);
        proof {
            lemma_string_vec_deep_view(r);
            assert(r.deep_view() =~~= spec_string_mutations(original@));
        }
        r
    }
}

} // verus!

