//! Catalog ingestion: resolving mutant files against their originals and
//! extracting the reporting-level diff.
//!
//! A catalog entry is a file named `<stem>.mutant.<n>.<ext>` whose contents
//! are the complete mutated source file. The caller reads the two files;
//! this module decides whether the pair yields a mutation record.

use vstd::prelude::*;
use vstd::string::*;

use crate::text::{
    lines_of, spec_digits_of, spec_lines, spec_split, spec_trim, split_str, str_eq, trim_str,
    u64_to_string,
};
use crate::types::{Language, Mutation, MutationType};

verus! {

/// Index of the first line (within the common length) whose trimmed form
/// differs between the two line sequences, or `-1`.
pub open spec fn spec_first_diff_line(ol: Seq<Seq<char>>, ml: Seq<Seq<char>>, i: int) -> int
    decreases ol.len() + ml.len() - 2 * i when 0 <= i
{
    if i >= ol.len() || i >= ml.len() {
        -1
    } else if spec_trim(ol[i]) != spec_trim(ml[i]) {
        i
    } else {
        spec_first_diff_line(ol, ml, i + 1)
    }
}

proof fn lemma_first_diff_line_at(ol: Seq<Seq<char>>, ml: Seq<Seq<char>>, i: int, k: int)
    requires
        0 <= i <= k,
        forall|j: int| #![trigger ol[j]] i <= j < k ==> spec_trim(ol[j]) == spec_trim(ml[j]),
        (k < ol.len() && k < ml.len() && spec_trim(ol[k]) != spec_trim(ml[k])) || ((k >= ol.len()
            || k >= ml.len()) && k == vstd::math::min(ol.len() as int, ml.len() as int)),
    ensures
        (k < ol.len() && k < ml.len()) ==> spec_first_diff_line(ol, ml, i) == k,
        (k >= ol.len() || k >= ml.len()) ==> spec_first_diff_line(ol, ml, i) == -1,
    decreases k - i,
{
    if i < k {
        lemma_first_diff_line_at(ol, ml, i + 1, k);
    }
}

/// On identical line sequences there is no differing line.
pub proof fn lemma_no_diff_on_equal(ls: Seq<Seq<char>>, i: int)
    requires
        0 <= i,
    ensures
        spec_first_diff_line(ls, ls, i) == -1,
    decreases ls.len() - i,
{
    if i < ls.len() {
        lemma_no_diff_on_equal(ls, i + 1);
    }
}

/// Finds the first line at which the two contents differ after trimming,
/// returning its 1-based number and the trimmed pair. Returns `None`, so
/// that the mutant is rejected, when no line of the common prefix differs;
/// in particular a mutant identical to its original is never emitted.
pub fn find_mutation_difference(original: &str, mutant: &str) -> (r: Option<(usize, String, String)>)
    ensures
        match r {
            Some(d) => {
                &&& spec_first_diff_line(spec_lines(original@), spec_lines(mutant@), 0) == d.0
                    - 1
                &&& d.0 >= 1
                &&& d.1@ == spec_trim(spec_lines(original@)[d.0 - 1])
                &&& d.2@ == spec_trim(spec_lines(mutant@)[d.0 - 1])
            },
            None => spec_first_diff_line(spec_lines(original@), spec_lines(mutant@), 0) == -1,
        },
        original@ == mutant@ ==> r is None,
{
    let ol = lines_of(original);
    let ml = lines_of(mutant);
    let no = ol.len();
    let nm = ml.len();
    let common: usize = if no < nm {
        no
    } else {
        nm
    };
    let mut i: usize = 0;
    while i < common
        invariant
            no == ol@.len(),
            nm == ml@.len(),
            common == vstd::math::min(no as int, nm as int),
            ol.deep_view() == spec_lines(original@),
            ml.deep_view() == spec_lines(mutant@),
            i <= common,
            forall|j: int| #![trigger ol.deep_view()[j]]
                0 <= j < i ==> spec_trim(ol.deep_view()[j]) == spec_trim(ml.deep_view()[j]),
        decreases common - i,
    {
        let ot = trim_str(ol[i].as_str());
        let mt = trim_str(ml[i].as_str());
        if !str_eq(ot.as_str(), mt.as_str()) {
            proof {
                assert(ol.deep_view()[i as int] == ol@[i as int]@);
                assert(ml.deep_view()[i as int] == ml@[i as int]@);
                lemma_first_diff_line_at(ol.deep_view(), ml.deep_view(), 0, i as int);
            }
            return Some((i + 1, ot, mt));
        }
        proof {
            assert(ol.deep_view()[i as int] == ol@[i as int]@);
            assert(ml.deep_view()[i as int] == ml@[i as int]@);
        }
        i = i + 1;
    }
    proof {
        lemma_first_diff_line_at(ol.deep_view(), ml.deep_view(), 0, common as int);
    }
    None
}

/// Parses a catalog file stem of the form `<base>.mutant.<n>`, returning the
/// base name whose original file the mutant targets.
pub fn parse_mutant_filename(stem: &str) -> (r: Option<String>)
    ensures
        ({
            let ps = spec_split(stem@, '.');
            match r {
                Some(base) => ps.len() >= 3 && ps[ps.len() - 2] == "mutant"@ && base@ == ps[0],
                None => ps.len() < 3 || ps[ps.len() - 2] != "mutant"@,
            }
        }),
{
    let parts = split_str(stem, '.');
    let n = parts.len();
    if n < 3 {
        return None;
    }
    proof {
        assert(parts.deep_view()[n - 2] == parts@[n - 2]@);
        assert(parts.deep_view()[0] == parts@[0]@);
    }
    if str_eq(parts[n - 2].as_str(), "mutant") {
        Some(parts[0].clone())
    } else {
        None
    }
}

/// The mutation record a catalog pair yields: identity from the counter,
/// position and reporting diff from the first trimmed differing line, and
/// the full mutant contents as the unit of substitution.
pub open spec fn spec_catalog_mutation(
    m: Mutation,
    original_file: Seq<char>,
    original_content: Seq<char>,
    mutant_content: Seq<char>,
    id_counter: int,
    language: Language,
) -> bool {
    let d = spec_first_diff_line(spec_lines(original_content), spec_lines(mutant_content), 0);
    &&& m.id@ == "unimut_"@ + spec_digits_of(id_counter)
    &&& m.file@ == original_file
    &&& m.line == d + 1
    &&& m.column == 0
    &&& m.span_start == 0
    &&& m.span_end == 0
    &&& m.original@ == spec_trim(spec_lines(original_content)[d])
    &&& m.mutated@ == mutant_content
    &&& m.mutation_type == MutationType::ArithmeticOperator
    &&& m.description@ == "universalmutator mutation: "@ + spec_trim(
        spec_lines(original_content)[d],
    ) + " -> "@ + spec_trim(spec_lines(mutant_content)[d])
    &&& m.language == language
}

/// Builds the mutation record for one catalog pair, or nothing when the
/// stem is not a mutant filename or no line differs after trimming.
pub fn parse_universalmutator_file(
    mutant_stem: &str,
    original_file: &str,
    original_content: &str,
    mutant_content: &str,
    id_counter: u64,
    language: Language,
) -> (r: Option<Mutation>)
    ensures
        match r {
            Some(m) => {
                let ps = spec_split(mutant_stem@, '.');
                &&& ps.len() >= 3 && ps[ps.len() - 2] == "mutant"@
                &&& spec_first_diff_line(
                    spec_lines(original_content@),
                    spec_lines(mutant_content@),
                    0,
                ) >= 0
                &&& spec_catalog_mutation(
                    m,
                    original_file@,
                    original_content@,
                    mutant_content@,
                    id_counter as int,
                    language,
                )
            },
            None => {
                let ps = spec_split(mutant_stem@, '.');
                ps.len() < 3 || ps[ps.len() - 2] != "mutant"@ || spec_first_diff_line(
                    spec_lines(original_content@),
                    spec_lines(mutant_content@),
                    0,
                ) == -1
            },
        },
        original_content@ == mutant_content@ ==> r is None,
{
    let base = parse_mutant_filename(mutant_stem);
    if base.is_none() {
        return None;
    }
    match find_mutation_difference(original_content, mutant_content) {
        None => None,
        Some((line, original_text, mutated_text)) => {
            let mut id = String::from_str("unimut_");
            let counter_str = u64_to_string(id_counter);
            id.append(counter_str.as_str());

            let mut description = String::from_str("universalmutator mutation: ");
            description.append(original_text.as_str());
            description.append(" -> ");
            description.append(mutated_text.as_str());

            let mutation = Mutation {
                id,
                file: String::from_str(original_file),
                line,
                column: 0,
                span_start: 0,
                span_end: 0,
                original: original_text,
                mutated: String::from_str(mutant_content),
                mutation_type: MutationType::ArithmeticOperator,
                description,
                language,
            };
            Some(mutation)
        },
    }
}

} // verus!
