use pathogen::pool::{build_mutation_result, TestResult};
use pathogen::report::{
    calculate_per_file_stats, calculate_summary_stats, detect_and_warn_issues, generate_report,
    get_coverage_grade, get_status_icon, CoverageStatus, RunWarning, SummaryStats,
};
use pathogen::types::{KillType, Language, Mutation, MutationType};

fn mutation(id: &str, file: &str) -> Mutation {
    Mutation {
        id: id.to_string(),
        file: file.to_string(),
        line: 1,
        column: 0,
        span_start: 0,
        span_end: 0,
        original: "1".to_string(),
        mutated: "0".to_string(),
        mutation_type: MutationType::NumberLiteral,
        description: "test mutation".to_string(),
        language: Language::TypeScript,
    }
}

fn result_of(id: &str, file: &str, success: bool, output: &str) -> pathogen::types::MutationResult {
    build_mutation_result(
        mutation(id, file),
        TestResult {
            success,
            output: output.to_string(),
            execution_time_ms: 4,
            mutation_id: id.to_string(),
        },
    )
}

#[test]
fn test_summary_math_excludes_compile_errors() {
    // Three viable mutations (two killed, one survivor) and one compile
    // error: the counts partition the total and the compile error leaves
    // the behavioral denominator.
    let results = vec![
        result_of("m1", "a.ts", false, "1 fail"),
        result_of("m2", "a.ts", false, "assertion failed"),
        result_of("m3", "a.ts", true, "0 fail"),
        result_of("m4", "a.ts", false, "SyntaxError: Unexpected token"),
    ];
    let stats = calculate_summary_stats(&results);
    assert_eq!(stats.total, 4);
    assert_eq!(stats.behavioral_kills, 2);
    assert_eq!(stats.compile_errors, 1);
    assert_eq!(stats.survived, 1);
    assert_eq!(stats.total, stats.survived + stats.behavioral_kills + stats.compile_errors);
    // 2 kills over 3 viable mutations: 6666 basis points.
    assert_eq!(stats.behavioral_rate, 6666);
    // 3 kills of any kind over 4 mutations: 7500 basis points.
    assert_eq!(stats.kill_rate, 7500);
}

#[test]
fn test_summary_of_empty_run() {
    let results = Vec::new();
    let stats = calculate_summary_stats(&results);
    assert_eq!(stats.total, 0);
    assert_eq!(stats.behavioral_rate, 0);
}

#[test]
fn test_per_file_stats_sorted_and_survivors_listed() {
    // The surviving mutation appears in its file's row, and the file with
    // the worse kill rate comes first.
    let results = vec![
        result_of("m1", "good.ts", false, "1 fail"),
        result_of("m2", "good.ts", false, "1 fail"),
        result_of("m3", "bad.ts", true, "0 fail"),
        result_of("m4", "bad.ts", false, "1 fail"),
    ];
    let rows = calculate_per_file_stats(&results);
    assert_eq!(rows.len(), 2);
    assert_eq!(rows[0].file_path, "bad.ts");
    assert_eq!(rows[0].kill_rate, 5000);
    assert_eq!(rows[0].survived, 1);
    assert_eq!(rows[0].survived_mutations.len(), 1);
    assert_eq!(rows[0].survived_mutations[0].id, "m3");
    assert_eq!(rows[1].file_path, "good.ts");
    assert_eq!(rows[1].kill_rate, 10000);
    assert!(rows[1].survived_mutations.is_empty());
}

#[test]
fn test_warnings() {
    let results = vec![
        result_of("m1", "a.ts", true, "NO_TESTS: had no matches - no test file found"),
        result_of("m2", "a.ts", false, "1 fail"),
    ];
    let stats = calculate_summary_stats(&results);
    let warnings = detect_and_warn_issues(&stats, &results);
    assert_eq!(warnings, vec![RunWarning::NoMatchingTests { count: 1 }]);

    let suspicious = SummaryStats {
        total: 200,
        behavioral_kills: 200,
        compile_errors: 0,
        survived: 0,
        behavioral_rate: 10000,
        kill_rate: 10000,
    };
    let none: Vec<pathogen::types::MutationResult> = Vec::new();
    let warnings2 = detect_and_warn_issues(&suspicious, &none);
    assert_eq!(warnings2, vec![RunWarning::SuspiciousKillRate]);
}

#[test]
fn test_timeout_warning_threshold() {
    let mut results = Vec::new();
    for i in 0..20 {
        results.push(result_of(&format!("m{}", i), "a.ts", false, "1 fail"));
    }
    results.push(result_of("t1", "a.ts", false, "TIMEOUT: test timed out"));
    results.push(result_of("t2", "a.ts", false, "TIMEOUT: test timed out"));
    let stats = calculate_summary_stats(&results);
    let warnings = detect_and_warn_issues(&stats, &results);
    assert!(warnings.contains(&RunWarning::Timeouts { count: 2 }));
}

#[test]
fn test_status_icon_thresholds() {
    assert_eq!(get_status_icon(10000), CoverageStatus::Green);
    assert_eq!(get_status_icon(9500), CoverageStatus::Green);
    assert_eq!(get_status_icon(9499), CoverageStatus::Yellow);
    assert_eq!(get_status_icon(8000), CoverageStatus::Yellow);
    assert_eq!(get_status_icon(7999), CoverageStatus::Red);
}

#[test]
fn test_coverage_grade_thresholds() {
    assert_eq!(get_coverage_grade(9600), "Excellent");
    assert_eq!(get_coverage_grade(9000), "Good");
    assert_eq!(get_coverage_grade(7000), "Moderate");
    assert_eq!(get_coverage_grade(1000), "Needs improvement");
}

#[test]
fn test_generate_report_assembles_stats() {
    let results = vec![
        result_of("m1", "a.ts", false, "1 fail"),
        result_of("m2", "b.ts", true, "0 fail"),
    ];
    let stats = generate_report(&results, 1234, 2);
    assert_eq!(stats.total_mutations, 2);
    assert_eq!(stats.behavioral_kills, 1);
    assert_eq!(stats.survived, 1);
    assert_eq!(stats.compile_errors, 0);
    assert_eq!(stats.duration_ms, 1234);
    assert_eq!(stats.files_tested, 2);
    assert_eq!(stats.per_file_stats.len(), 2);
}
