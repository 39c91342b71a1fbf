//! The worker's per-request logic: targeted test selection, the
//! mutate/test/restore cycle over the target file, and result tagging.
//!
//! The file operations are modeled on an in-memory [`WorkFile`] so the
//! restoration guarantee is a theorem; the worker binary mirrors this flow
//! on the real scratch tree.

use vstd::prelude::*;
use vstd::string::*;

use crate::pool::{MutationRequest, TestResult};
use crate::text::{
    chars_of, rfind_char, rfind_in, spec_contains, spec_is_suffix, str_contains, str_ends_with,
    string_from_chars, subvec,
};
use crate::types::Language;

verus! {

/// The model of the one file a request may rewrite: its current contents.
#[derive(Debug)]
pub struct WorkFile {
    pub contents: String,
}

/// A token minted when a mutation is applied; it carries everything needed
/// to put the file back and must be spent on restoration before the reply.
#[derive(Debug)]
pub struct RestorationToken {
    pub file_path: String,
    pub original_content: String,
}

impl RestorationToken {
    /// The path of the file this token restores.
    pub fn file_path(&self) -> (r: &str)
        ensures
            r@ == self.file_path@,
    {
        self.file_path.as_str()
    }
}

/// Statistics about the files a safety manager guards.
#[derive(Debug)]
pub struct FileSafetyStats {
    pub files_managed: usize,
    pub temp_dir_path: String,
}

impl WorkFile {
    /// A file with the given contents.
    pub fn new(contents: String) -> (r: Self)
        ensures
            r.contents@ == contents@,
    {
        WorkFile { contents }
    }

    /// Reads the current contents.
    pub fn read(&self) -> (r: String)
        ensures
            r@ == self.contents@,
    {
        self.contents.clone()
    }

    /// Overwrites the file with the mutated contents, minting the token
    /// that restores the original.
    pub fn apply_mutation_temporarily(&mut self, file_path: &str, mutated_content: &str) -> (token:
        RestorationToken)
        ensures
            final(self).contents@ == mutated_content@,
            token.file_path@ == file_path@,
            token.original_content@ == old(self).contents@,
    {
        let original_content = self.contents.clone();
        self.contents = String::from_str(mutated_content);
        RestorationToken { file_path: String::from_str(file_path), original_content }
    }

    /// Restores the original contents, consuming the token.
    pub fn restore_file(&mut self, token: RestorationToken)
        ensures
            final(self).contents@ == token.original_content@,
    {
        self.contents = token.original_content;
    }
}

/// The output given to a mutation whose target has no test file.
pub fn no_tests_output() -> (r: String)
    ensures
        r@ == "had no matches - no test file found"@,
{
    String::from_str("had no matches - no test file found")
}

/// A TypeScript source eligible for mutation: a `.ts` file that is not
/// itself a spec file.
pub open spec fn spec_is_valid_typescript_source(f: Seq<char>) -> bool {
    spec_is_suffix(".ts"@, f) && !spec_is_suffix(".spec.ts"@, f)
}

/// Is this a mutable TypeScript source file?
pub fn is_valid_typescript_source(file: &str) -> (r: bool)
    ensures
        r == spec_is_valid_typescript_source(file@),
{
    str_ends_with(file, ".ts") && !str_ends_with(file, ".spec.ts")
}

/// The sibling spec file of a TypeScript source: `x.ts` maps to `x.spec.ts`.
pub open spec fn spec_typescript_spec_name(f: Seq<char>) -> Seq<char> {
    f.subrange(0, f.len() - 3) + ".spec.ts"@
}

/// File-system facts the worker gathered for test selection: whether the
/// conventional spec file exists, the mutated file's own source (when it
/// could be read), and whether the conventional integration test exists.
#[derive(Debug)]
pub struct TestFileProbes {
    pub spec_file_exists: bool,
    pub mutated_source: Option<String>,
    pub integration_test_exists: bool,
}

/// The targeted test file for a TypeScript mutation: the sibling spec file,
/// when the source is eligible and the spec file exists.
pub fn get_typescript_test_file(mutated_file: &str, spec_file_exists: bool) -> (r: Option<String>)
    ensures
        match r {
            Some(t) => spec_is_valid_typescript_source(mutated_file@) && spec_file_exists && t@
                == spec_typescript_spec_name(mutated_file@),
            None => !spec_is_valid_typescript_source(mutated_file@) || !spec_file_exists,
        },
{
    if !is_valid_typescript_source(mutated_file) {
        return None;
    }
    if !spec_file_exists {
        return None;
    }
    let v = chars_of(mutated_file);
    proof {
        reveal_strlit(".ts");
        assert(v@.len() >= 3);
    }
    let base = subvec(&v, 0, v.len() - 3);
    let mut t = string_from_chars(&base);
    t.append(".spec.ts");
    Some(t)
}

/// The file stem of a path: the final component without its extension.
pub open spec fn spec_file_stem(f: Seq<char>) -> Seq<char> {
    let slash = rfind_char(f, '/');
    let dot = rfind_char(f, '.');
    if dot > slash + 1 {
        f.subrange(slash + 1, dot)
    } else {
        f.subrange(slash + 1, f.len() as int)
    }
}

/// The conventional integration test of a Rust source: `tests/<stem>.rs`.
pub open spec fn spec_rust_integration_name(f: Seq<char>) -> Seq<char> {
    "tests/"@ + spec_file_stem(f) + ".rs"@
}

/// Whether a Rust source carries its own tests.
pub open spec fn spec_rust_source_has_tests(source: Seq<char>) -> bool {
    spec_contains(source, "#[cfg(test)]"@) || spec_contains(source, "#[test]"@)
}

/// The targeted test file for a Rust mutation: the mutated file itself when
/// it holds tests, else the conventional integration test when it exists.
pub fn get_rust_test_file(mutated_file: &str, probes: &TestFileProbes) -> (r: Option<String>)
    ensures
        match r {
            Some(t) => spec_is_suffix(".rs"@, mutated_file@) && ((probes.mutated_source matches
                Some(src) && spec_rust_source_has_tests(src@) && t@ == mutated_file@) || ((!(
            probes.mutated_source matches Some(src) && spec_rust_source_has_tests(src@)))
                && probes.integration_test_exists && t@ == spec_rust_integration_name(
                mutated_file@,
            ))),
            None => !spec_is_suffix(".rs"@, mutated_file@) || ((!(probes.mutated_source matches
                Some(src) && spec_rust_source_has_tests(src@)))
                && !probes.integration_test_exists),
        },
{
    if !str_ends_with(mutated_file, ".rs") {
        return None;
    }
    let has_own_tests: bool = match &probes.mutated_source {
        Some(source) => str_contains(source.as_str(), "#[cfg(test)]") || str_contains(
            source.as_str(),
            "#[test]",
        ),
        None => false,
    };
    if has_own_tests {
        return Some(String::from_str(mutated_file));
    }
    if !probes.integration_test_exists {
        return None;
    }
    let v = chars_of(mutated_file);
    let slash_pos = rfind_in(&v, '/');
    let dot_pos = rfind_in(&v, '.');
    let start: usize = match slash_pos {
        Some(sl) => sl + 1,
        None => 0,
    };
    let stop: usize = match dot_pos {
        Some(d) => {
            let after_start: bool = match slash_pos {
                Some(sl) => d > sl && d - sl > 1,
                None => d > 0,
            };
            if after_start {
                d
            } else {
                v.len()
            }
        },
        None => v.len(),
    };
    let stem = subvec(&v, start, stop);
    let mut t = String::from_str("tests/");
    let stem_str = string_from_chars(&stem);
    t.append(stem_str.as_str());
    t.append(".rs");
    Some(t)
}

/// Picks the targeted test file for a mutation by the language convention.
/// `None` maps to the `NO_TESTS` path: the mutation is treated as surviving.
pub fn get_target_test_file(mutated_file: &str, language: &Language, probes: &TestFileProbes) -> (r:
    Option<String>)
    ensures
        language is TypeScript ==> (match r {
            Some(t) => spec_is_valid_typescript_source(mutated_file@) && probes.spec_file_exists
                && t@ == spec_typescript_spec_name(mutated_file@),
            None => !spec_is_valid_typescript_source(mutated_file@)
                || !probes.spec_file_exists,
        }),
        language is Rust ==> (match r {
            Some(_) => spec_is_suffix(".rs"@, mutated_file@),
            None => !spec_is_suffix(".rs"@, mutated_file@) || ((!(probes.mutated_source matches
                Some(src) && spec_rust_source_has_tests(src@)))
                && !probes.integration_test_exists),
        }),
{
    match language {
        Language::TypeScript => get_typescript_test_file(mutated_file, probes.spec_file_exists),
        Language::Rust => get_rust_test_file(mutated_file, probes),
    }
}

/// The test run found no matching test file.
pub open spec fn spec_no_tests(out: Seq<char>) -> bool {
    spec_contains(out, "had no matches"@)
}

/// The test run reports that zero tests failed.
pub open spec fn spec_tests_passed(out: Seq<char>) -> bool {
    spec_contains(out, "0 fail"@)
}

/// What the worker replies for a test runner that exited successfully:
/// no matching tests is tagged `NO_TESTS:` and counts as survival, passing
/// tests count as survival, anything else is a kill.
pub fn handle_successful_test(output: String, execution_time_ms: u64, mutation_id: String) -> (r:
    TestResult)
    ensures
        r.execution_time_ms == execution_time_ms,
        r.mutation_id@ == mutation_id@,
        spec_no_tests(output@) ==> r.success && r.output@ == "NO_TESTS: "@ + output@,
        !spec_no_tests(output@) && spec_tests_passed(output@) ==> r.success && r.output@
            == output@,
        !spec_no_tests(output@) && !spec_tests_passed(output@) ==> !r.success && r.output@
            == output@,
{
    let has_test_matches: bool = !str_contains(output.as_str(), "had no matches");
    let tests_passed: bool = str_contains(output.as_str(), "0 fail");
    if !has_test_matches {
        let mut tagged = String::from_str("NO_TESTS: ");
        tagged.append(output.as_str());
        TestResult { success: true, output: tagged, execution_time_ms, mutation_id }
    } else if tests_passed {
        TestResult { success: true, output, execution_time_ms, mutation_id }
    } else {
        TestResult { success: false, output, execution_time_ms, mutation_id }
    }
}

/// A test-run error mentions a timeout.
pub open spec fn spec_error_timed_out(e: Seq<char>) -> bool {
    spec_contains(e, "timed out"@)
}

/// A test-run error is a spawn or output failure.
pub open spec fn spec_error_execution(e: Seq<char>) -> bool {
    spec_contains(e, "Failed to spawn"@) || spec_contains(e, "Failed to get test output"@)
}

/// What the worker replies for a failed test run: timeouts are tagged
/// `TIMEOUT:`, spawn failures `EXECUTION_ERROR:`, and any other failure is
/// the raw output of the failing run. Such a result never claims success.
pub fn handle_test_error(error: String, execution_time_ms: u64, mutation_id: String) -> (r:
    TestResult)
    ensures
        !r.success,
        r.execution_time_ms == execution_time_ms,
        r.mutation_id@ == mutation_id@,
        spec_error_timed_out(error@) ==> r.output@ == "TIMEOUT: "@ + error@,
        !spec_error_timed_out(error@) && spec_error_execution(error@) ==> r.output@
            == "EXECUTION_ERROR: "@ + error@,
        !spec_error_timed_out(error@) && !spec_error_execution(error@) ==> r.output@ == error@,
{
    if str_contains(error.as_str(), "timed out") {
        let mut tagged = String::from_str("TIMEOUT: ");
        tagged.append(error.as_str());
        TestResult { success: false, output: tagged, execution_time_ms, mutation_id }
    } else if str_contains(error.as_str(), "Failed to spawn") || str_contains(
        error.as_str(),
        "Failed to get test output",
    ) {
        let mut tagged = String::from_str("EXECUTION_ERROR: ");
        tagged.append(error.as_str());
        TestResult { success: false, output: tagged, execution_time_ms, mutation_id }
    } else {
        TestResult { success: false, output: error, execution_time_ms, mutation_id }
    }
}

/// What the reply's output reads for a given raw outcome: success output
/// is kept (tagged `NO_TESTS:` when no test file matched), failure output
/// is tagged `TIMEOUT:` or `EXECUTION_ERROR:` when it names such a cause.
pub open spec fn spec_result_output(test_output: Result<String, String>) -> Seq<char> {
    match test_output {
        Ok(out) => if spec_no_tests(out@) {
            "NO_TESTS: "@ + out@
        } else {
            out@
        },
        Err(e) => if spec_error_timed_out(e@) {
            "TIMEOUT: "@ + e@
        } else if spec_error_execution(e@) {
            "EXECUTION_ERROR: "@ + e@
        } else {
            e@
        },
    }
}

/// Folds a raw test outcome into the reply for one request.
pub fn create_test_result(
    test_output: Result<String, String>,
    execution_time_ms: u64,
    mutation_id: String,
) -> (r: TestResult)
    ensures
        r.execution_time_ms == execution_time_ms,
        r.mutation_id@ == mutation_id@,
        test_output matches Ok(out) ==> (r.success <==> (spec_no_tests(out@) || spec_tests_passed(
            out@,
        ))),
        test_output is Err ==> !r.success,
        r.output@ == spec_result_output(test_output),
{
    match test_output {
        Ok(output) => handle_successful_test(output, execution_time_ms, mutation_id),
        Err(error) => handle_test_error(error, execution_time_ms, mutation_id),
    }
}

/// One complete request/response cycle over the target file: apply the
/// mutation, let the caller's test outcome stand for the run made while the
/// mutant was in place, then restore unconditionally before replying.
///
/// Whatever the outcome — pass, failure, timeout, or spawn error — the file
/// ends the cycle with exactly its original contents.
pub fn execute_mutation(
    file: &mut WorkFile,
    request: &MutationRequest,
    test_output: Result<String, String>,
    execution_time_ms: u64,
) -> (r: TestResult)
    ensures
        final(file).contents@ == old(file).contents@,
        r.execution_time_ms == execution_time_ms,
        r.mutation_id@ == request.mutation_id@,
        test_output matches Ok(out) ==> (r.success <==> (spec_no_tests(out@) || spec_tests_passed(
            out@,
        ))),
        test_output is Err ==> !r.success,
        r.output@ == spec_result_output(test_output),
{
    let token = file.apply_mutation_temporarily(
        request.file_path.as_str(),
        request.mutated_content.as_str(),
    );
    let result = create_test_result(
        test_output,
        execution_time_ms,
        request.mutation_id.clone(),
    );
    file.restore_file(token);
    result
}

} // verus!
