use pathogen::pool::{
    build_mutation_result, classify_kill_type, is_compilation_error, is_compile_error,
    is_system_error, run_mutations, worker_binary_candidates, MutationRequest, TestResult,
    WorkerPool, WorkerProcess, WorkerReply,
};
use pathogen::types::{KillType, Language, Mutation, MutationType};

fn mutation(id: &str, file: &str) -> Mutation {
    Mutation {
        id: id.to_string(),
        file: file.to_string(),
        line: 1,
        column: 0,
        span_start: 0,
        span_end: 0,
        original: "1".to_string(),
        mutated: "0".to_string(),
        mutation_type: MutationType::NumberLiteral,
        description: "test mutation".to_string(),
        language: Language::TypeScript,
    }
}

fn result_reply(success: bool, output: &str, id: &str) -> WorkerReply {
    WorkerReply::Result(TestResult {
        success,
        output: output.to_string(),
        execution_time_ms: 5,
        mutation_id: id.to_string(),
    })
}

#[test]
fn test_classification_cases() {
    let survived = TestResult {
        success: true,
        output: "0 fail".to_string(),
        execution_time_ms: 1,
        mutation_id: "m".to_string(),
    };
    assert_eq!(classify_kill_type(&survived), KillType::Survived);

    let behavioral = TestResult {
        success: false,
        output: "expected 2 but got 1".to_string(),
        execution_time_ms: 1,
        mutation_id: "m".to_string(),
    };
    assert_eq!(classify_kill_type(&behavioral), KillType::BehavioralKill);

    let syntax = TestResult {
        success: false,
        output: "SyntaxError: Unexpected token '}'".to_string(),
        execution_time_ms: 1,
        mutation_id: "m".to_string(),
    };
    assert_eq!(classify_kill_type(&syntax), KillType::CompileError);

    let timeout = TestResult {
        success: false,
        output: "TIMEOUT: killed after ceiling".to_string(),
        execution_time_ms: 1,
        mutation_id: "m".to_string(),
    };
    assert_eq!(classify_kill_type(&timeout), KillType::CompileError);
}

#[test]
fn test_system_and_compilation_patterns() {
    assert!(is_system_error("TIMEOUT: slow"));
    assert!(is_system_error("FILE_ERROR: missing"));
    assert!(is_system_error("EXECUTION_ERROR: spawn"));
    assert!(!is_system_error("plain failure TIMEOUT:"));

    assert!(is_compilation_error("error TS2304: Cannot find name"));
    assert!(is_compilation_error("ReferenceError: x is not defined"));
    assert!(is_compilation_error("property does not exist on type"));
    assert!(!is_compilation_error("expected 5 but got 6"));
}

#[test]
fn test_compile_error_detection() {
    assert!(is_compile_error("error TS2304: Cannot find name 'foo'"));
    assert!(is_compile_error("SyntaxError: Unexpected token"));
    assert!(is_compile_error("Cannot resolve module"));

    assert!(!is_compile_error("Test failed: expected 5 but got 6"));
    assert!(!is_compile_error("AssertionError: Values are not equal"));
}

#[test]
fn test_worker_health_policy() {
    let worker = WorkerProcess::new(0, 1000);
    assert!(worker.is_healthy(1000));
    assert!(worker.is_healthy(1000 + 29_999));
    assert!(!worker.is_healthy(1000 + 30_000));

    let mut tired = WorkerProcess::new(1, 0);
    tired.executions = 50;
    assert!(!tired.is_healthy(0));
    tired.executions = 49;
    assert!(tired.is_healthy(0));

    let mut dead = WorkerProcess::new(2, 0);
    dead.shutdown();
    assert!(!dead.is_healthy(0));
}

#[test]
fn test_pool_timeout_kills_worker() {
    // An infinite-loop mutant: the pool ceiling fires, the result lands in
    // the compile-error bucket with a TIMEOUT tag, and the worker is not
    // returned to the deque.
    let mut pool = WorkerPool::new(1, "/tmp/scratch".to_string(), 0);
    assert_eq!(pool.available_workers.len(), 1);
    let m = mutation("unimut_5", "src/a.ts");
    let request = pool.create_mutation_request(&m);
    let result = pool.execute_mutation(&request, WorkerReply::TimedOut, 0).unwrap();
    assert!(!result.success);
    assert!(result.output.starts_with("TIMEOUT:"));
    assert_eq!(result.execution_time_ms, 10_000);
    assert_eq!(result.mutation_id, "unimut_5");
    assert_eq!(classify_kill_type(&result), KillType::CompileError);
    assert_eq!(pool.available_workers.len(), 0);
    assert_eq!(pool.busy_count, 0);

    // The next acquire replaces the killed worker with a fresh one.
    let replacement = pool.get_worker(1);
    assert_eq!(replacement.id, 1);
    pool.return_worker(replacement, 1);
    assert_eq!(pool.available_workers.len() + pool.busy_count, 1);
}

#[test]
fn test_pool_invariant_and_recycling() {
    // Feed 200 mutants through a pool of 4 workers in waves of 4, with the
    // clock advancing 2400 ms per wave. Age-based recycling must bring at
    // least ceil(200 / 50) * 4 - 4 = 12 replacement workers into existence
    // beyond the initial 4.
    let pool_size = 4;
    let mut pool = WorkerPool::new(pool_size, "/tmp/scratch".to_string(), 0);
    let m = mutation("unimut_1", "src/a.ts");
    let request = pool.create_mutation_request(&m);
    let mut executed = 0u64;
    for wave in 0..50u64 {
        let now = 2400 * wave;
        let mut in_flight = Vec::new();
        for _ in 0..pool_size {
            assert!(pool.available_workers.len() + pool.busy_count <= pool.pool_size);
            in_flight.push(pool.get_worker(now));
        }
        for mut worker in in_flight {
            let reply = result_reply(true, "0 fail", "unimut_1");
            let outcome = worker.execute_mutation(&request, reply);
            assert!(outcome.is_ok());
            executed += 1;
            pool.return_worker(worker, now);
        }
        assert!(pool.available_workers.len() + pool.busy_count <= pool.pool_size);
        assert_eq!(pool.busy_count, 0);
    }
    assert_eq!(executed, 200);
    assert!(pool.next_worker_id >= 12 + 4);
}

#[test]
fn test_run_mutations_classifies_stream() {
    let mut pool = WorkerPool::new(2, "/tmp/scratch".to_string(), 0);
    let mutations = vec![
        mutation("m1", "src/a.ts"),
        mutation("m2", "src/b.ts"),
        mutation("m3", "src/b.ts"),
        mutation("m4", "src/c.ts"),
    ];
    let replies = vec![
        result_reply(false, "expected 1 but got 0\n1 fail", "m1"),
        result_reply(true, "0 fail", "m2"),
        result_reply(false, "SyntaxError: Unexpected token", "m3"),
        WorkerReply::TimedOut,
    ];
    let results = run_mutations(&mut pool, mutations, &replies, 0).unwrap();
    assert_eq!(results.len(), 4);
    assert_eq!(results[0].kill_type, KillType::BehavioralKill);
    assert!(results[0].killed);
    assert_eq!(results[1].kill_type, KillType::Survived);
    assert!(!results[1].killed);
    assert_eq!(results[2].kill_type, KillType::CompileError);
    assert_eq!(results[3].kill_type, KillType::CompileError);
    assert!(results[3].test_output.starts_with("TIMEOUT:"));
    assert_eq!(pool.busy_count, 0);
}

#[test]
fn test_run_mutations_aborts_on_worker_error() {
    let mut pool = WorkerPool::new(1, "/tmp/scratch".to_string(), 0);
    let mutations = vec![mutation("m1", "src/a.ts"), mutation("m2", "src/a.ts")];
    let replies = vec![
        WorkerReply::Errored("Failed to parse request".to_string()),
        result_reply(true, "0 fail", "m2"),
    ];
    assert!(run_mutations(&mut pool, mutations, &replies, 0).is_err());
}

#[test]
fn test_build_mutation_result_carries_fields() {
    let m = mutation("m9", "src/z.ts");
    let t = TestResult {
        success: false,
        output: "1 fail".to_string(),
        execution_time_ms: 77,
        mutation_id: "m9".to_string(),
    };
    let r = build_mutation_result(m, t);
    assert_eq!(r.mutation.id, "m9");
    assert_eq!(r.kill_type, KillType::BehavioralKill);
    assert!(r.killed);
    assert_eq!(r.test_output, "1 fail");
    assert_eq!(r.execution_time_ms, 77);
}

#[test]
fn test_worker_binary_candidates() {
    let candidates = worker_binary_candidates("/opt/bin");
    assert_eq!(candidates.len(), 7);
    assert_eq!(candidates[0], "/opt/bin/pathogen-worker");
    assert_eq!(candidates[2], "/opt/bin/../target/release/pathogen-worker");
    assert_eq!(candidates[6], "pathogen-worker");
}

#[test]
fn test_create_mutation_request_fields() {
    let pool = WorkerPool::new(1, "/scratch/ws".to_string(), 0);
    let m = mutation("m1", "src/a.ts");
    let request: MutationRequest = pool.create_mutation_request(&m);
    assert_eq!(request.file_path, "src/a.ts");
    assert_eq!(request.mutated_content, "0");
    assert_eq!(request.mutation_id, "m1");
    assert_eq!(request.workspace_dir, "/scratch/ws");
}
