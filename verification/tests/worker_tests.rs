use pathogen::pool::MutationRequest;
use pathogen::types::Language;
use pathogen::worker::{
    create_test_result, execute_mutation, get_target_test_file, handle_successful_test,
    handle_test_error, no_tests_output, TestFileProbes, WorkFile,
};

fn request_for(file_path: &str, mutated: &str) -> MutationRequest {
    MutationRequest {
        file_path: file_path.to_string(),
        mutated_content: mutated.to_string(),
        mutation_id: "unimut_1".to_string(),
        workspace_dir: "/tmp/scratch".to_string(),
        language: Language::TypeScript,
    }
}

#[test]
fn test_restoration_after_behavioral_kill() {
    // A literal flip the spec file catches: the run fails behaviorally and
    // the file still ends up byte-for-byte original.
    let original = "export const x = 1;\n";
    let mut file = WorkFile::new(original.to_string());
    let request = request_for("src/a.ts", "export const x = 0;\n");
    let outcome = Err("expect(x).toBe(1)\n1 fail".to_string());
    let result = execute_mutation(&mut file, &request, outcome, 42);
    assert!(!result.success);
    assert_eq!(result.mutation_id, "unimut_1");
    assert_eq!(result.execution_time_ms, 42);
    assert_eq!(file.contents, original);
}

#[test]
fn test_restoration_after_survival() {
    let original = "if (false) { return 1; } return 2;\n";
    let mut file = WorkFile::new(original.to_string());
    let request = request_for("src/b.ts", "if (true) { return 1; } return 2;\n");
    let outcome = Ok("2 pass 0 fail".to_string());
    let result = execute_mutation(&mut file, &request, outcome, 10);
    assert!(result.success);
    assert_eq!(file.contents, original);
}

#[test]
fn test_restoration_after_timeout_and_spawn_failure() {
    let original = "loop body\n";
    let mut file = WorkFile::new(original.to_string());
    let request = request_for("src/c.ts", "mutated loop\n");
    let result = execute_mutation(
        &mut file,
        &request,
        Err("Test timed out after 5 seconds (likely infinite loop)".to_string()),
        5000,
    );
    assert!(!result.success);
    assert!(result.output.starts_with("TIMEOUT: "));
    assert_eq!(file.contents, original);

    let result2 = execute_mutation(
        &mut file,
        &request,
        Err("Failed to spawn targeted test command: missing binary".to_string()),
        1,
    );
    assert!(!result2.success);
    assert!(result2.output.starts_with("EXECUTION_ERROR: "));
    assert_eq!(file.contents, original);
}

#[test]
fn test_no_spec_file_counts_as_survivor() {
    // Source exists, its spec file does not: the NO_TESTS path marks the
    // mutation as surviving.
    let probes = TestFileProbes {
        spec_file_exists: false,
        mutated_source: None,
        integration_test_exists: false,
    };
    let target = get_target_test_file("src/c.ts", &Language::TypeScript, &probes);
    assert!(target.is_none());

    let outcome = Ok(no_tests_output());
    let result = create_test_result(outcome, 3, "unimut_9".to_string());
    assert!(result.success);
    assert_eq!(result.output, "NO_TESTS: had no matches - no test file found");
}

#[test]
fn test_typescript_spec_selection() {
    let probes = TestFileProbes {
        spec_file_exists: true,
        mutated_source: None,
        integration_test_exists: false,
    };
    let target = get_target_test_file("src/util/math.ts", &Language::TypeScript, &probes);
    assert_eq!(target.unwrap(), "src/util/math.spec.ts");

    // A spec file is never itself a mutation target.
    let target2 = get_target_test_file("src/util/math.spec.ts", &Language::TypeScript, &probes);
    assert!(target2.is_none());
}

#[test]
fn test_rust_test_selection() {
    let with_own_tests = TestFileProbes {
        spec_file_exists: false,
        mutated_source: Some("fn f() {}\n#[cfg(test)]\nmod tests {}\n".to_string()),
        integration_test_exists: false,
    };
    let target = get_target_test_file("src/lib.rs", &Language::Rust, &with_own_tests);
    assert_eq!(target.unwrap(), "src/lib.rs");

    let with_integration = TestFileProbes {
        spec_file_exists: false,
        mutated_source: Some("fn f() {}\n".to_string()),
        integration_test_exists: true,
    };
    let target2 = get_target_test_file("src/parser.rs", &Language::Rust, &with_integration);
    assert_eq!(target2.unwrap(), "tests/parser.rs");

    let nothing = TestFileProbes {
        spec_file_exists: false,
        mutated_source: Some("fn f() {}\n".to_string()),
        integration_test_exists: false,
    };
    assert!(get_target_test_file("src/parser.rs", &Language::Rust, &nothing).is_none());
}

#[test]
fn test_successful_output_tagging() {
    let passed = handle_successful_test("ran 4 tests, 0 fail".to_string(), 1, "m".to_string());
    assert!(passed.success);
    assert_eq!(passed.output, "ran 4 tests, 0 fail");

    let failed = handle_successful_test("ran 4 tests, 1 fail".to_string(), 1, "m".to_string());
    assert!(!failed.success);

    let no_tests = handle_successful_test("had no matches".to_string(), 1, "m".to_string());
    assert!(no_tests.success);
    assert_eq!(no_tests.output, "NO_TESTS: had no matches");
}

#[test]
fn test_error_output_tagging() {
    let plain = handle_test_error("assertion failed".to_string(), 1, "m".to_string());
    assert!(!plain.success);
    assert_eq!(plain.output, "assertion failed");

    let spawn = handle_test_error("Failed to get test output: broken pipe".to_string(), 1, "m".to_string());
    assert_eq!(spawn.output, "EXECUTION_ERROR: Failed to get test output: broken pipe");
}
