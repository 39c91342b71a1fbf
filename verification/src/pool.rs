//! The worker pool: wire types for the parent/worker protocol, the pool's
//! bookkeeping with health-based recycling, and outcome classification.
//!
//! The pool here is the decision core of the orchestrator: real process
//! spawning and stdio I/O live outside the library, which is handed each
//! worker's reply as a [`WorkerReply`] value.

use vstd::prelude::*;
use vstd::string::*;

use crate::text::{lower_str, spec_contains, spec_is_prefix, spec_lower, str_contains, str_starts_with};
use crate::types::{KillType, Language, Mutation, MutationResult};

verus! {

/// A worker is recycled once it reaches this age.
pub const WORKER_MAX_AGE_MS: u64 = 30000;

/// A worker is recycled once it has served this many requests.
pub const WORKER_MAX_EXECUTIONS: u64 = 50;

/// The pool's hard ceiling on one request/response round trip.
pub const POOL_REQUEST_TIMEOUT_MS: u64 = 10000;

/// One mutation request on the wire, parent to worker.
#[derive(Debug, Clone)]
pub struct MutationRequest {
    pub file_path: String,
    pub mutated_content: String,
    pub mutation_id: String,
    pub workspace_dir: String,
    pub language: Language,
}

/// One test result on the wire, worker to parent. `success` means the test
/// suite passed with the mutant in place, i.e. the mutation survived.
#[derive(Debug, Clone)]
pub struct TestResult {
    pub success: bool,
    pub output: String,
    pub execution_time_ms: u64,
    pub mutation_id: String,
}

/// Messages from the parent to a worker.
#[derive(Debug)]
pub enum WorkerMessage {
    MutationRequest(MutationRequest),
    Shutdown,
}

/// Messages from a worker to the parent.
#[derive(Debug)]
pub enum WorkerResponse {
    TestResult(TestResult),
    Ready,
    Shutdown,
    Error(String),
}

/// The parent's view of one IPC round trip: a parsed result, a worker-side
/// error, or no reply within the pool's ceiling.
#[derive(Debug, Clone)]
pub enum WorkerReply {
    Result(TestResult),
    Errored(String),
    TimedOut,
}

/// The pool's failure cases.
#[derive(Debug, Clone)]
pub enum PoolError {
    /// The worker reported an error or an unexpected message.
    WorkerError(String),
}

/// The output is tagged as a system-level failure: a pool or test timeout,
/// a file error, or a spawn failure.
pub open spec fn spec_is_system_error(out: Seq<char>) -> bool {
    ||| spec_is_prefix("TIMEOUT:"@, out)
    ||| spec_is_prefix("FILE_ERROR:"@, out)
    ||| spec_is_prefix("EXECUTION_ERROR:"@, out)
}

/// Does the output carry a system-error tag?
pub fn is_system_error(output: &str) -> (r: bool)
    ensures
        r == spec_is_system_error(output@),
{
    str_starts_with(output, "TIMEOUT:") || str_starts_with(output, "FILE_ERROR:")
        || str_starts_with(output, "EXECUTION_ERROR:")
}

/// The output matches a syntactic, type, or resolution error pattern.
pub open spec fn spec_is_compilation_error(out: Seq<char>) -> bool {
    ||| spec_contains(out, "compilation"@)
    ||| spec_contains(out, "syntax"@)
    ||| spec_contains(out, "SyntaxError"@)
    ||| spec_contains(out, "TypeError"@)
    ||| spec_contains(out, "ReferenceError"@)
    ||| spec_contains(out, "error TS"@)
    ||| spec_contains(out, "cannot resolve"@)
    ||| spec_contains(out, "cannot find module"@)
    ||| spec_contains(out, "property does not exist"@)
}

/// Does the output match a compile-error pattern?
pub fn is_compilation_error(output: &str) -> (r: bool)
    ensures
        r == spec_is_compilation_error(output@),
{
    str_contains(output, "compilation") || str_contains(output, "syntax") || str_contains(
        output,
        "SyntaxError",
    ) || str_contains(output, "TypeError") || str_contains(output, "ReferenceError")
        || str_contains(output, "error TS") || str_contains(output, "cannot resolve")
        || str_contains(output, "cannot find module") || str_contains(
        output,
        "property does not exist",
    )
}

/// The lowercased output mentions a TypeScript compiler error.
pub fn is_typescript_error(error_lower: &str) -> (r: bool)
    ensures
        r == spec_contains(error_lower@, "error ts"@),
{
    str_contains(error_lower, "error ts")
}

/// The lowercased output mentions a JavaScript syntax error.
pub fn is_javascript_syntax_error(error_lower: &str) -> (r: bool)
    ensures
        r == (spec_contains(error_lower@, "syntaxerror"@) || spec_contains(
            error_lower@,
            "unexpected token"@,
        ) || spec_contains(error_lower@, "unexpected end of input"@)),
{
    str_contains(error_lower, "syntaxerror") || str_contains(error_lower, "unexpected token")
        || str_contains(error_lower, "unexpected end of input")
}

/// The lowercased output mentions a module-resolution failure.
pub fn is_module_error(error_lower: &str) -> (r: bool)
    ensures
        r == (spec_contains(error_lower@, "cannot resolve"@) || spec_contains(
            error_lower@,
            "module not found"@,
        ) || spec_contains(error_lower@, "cannot find module"@)),
{
    str_contains(error_lower, "cannot resolve") || str_contains(error_lower, "module not found")
        || str_contains(error_lower, "cannot find module")
}

/// The lowercased output mentions a type error.
pub fn is_type_error(error_lower: &str) -> (r: bool)
    ensures
        r == (spec_contains(error_lower@, "type error"@) || spec_contains(
            error_lower@,
            "property does not exist"@,
        ) || spec_contains(error_lower@, "cannot be used as an index type"@)),
{
    str_contains(error_lower, "type error") || str_contains(
        error_lower,
        "property does not exist",
    ) || str_contains(error_lower, "cannot be used as an index type")
}

/// The lowercased output mentions a parse or resolution failure at runtime.
pub fn is_runtime_parse_error(error_lower: &str) -> (r: bool)
    ensures
        r == (spec_contains(error_lower@, "failed to resolve"@) || spec_contains(
            error_lower@,
            "parse error"@,
        )),
{
    str_contains(error_lower, "failed to resolve") || str_contains(error_lower, "parse error")
}

/// The lowercased output mentions a general build failure.
pub fn is_build_error(error_lower: &str) -> (r: bool)
    ensures
        r == (spec_contains(error_lower@, "compilation failed"@) || spec_contains(
            error_lower@,
            "build failed"@,
        )),
{
    str_contains(error_lower, "compilation failed") || str_contains(error_lower, "build failed")
}

/// A failed test run looks like a compile error rather than a behavioral
/// difference: its output, lowercased, matches one of the compiler, syntax,
/// module, type, parse or build failure patterns.
pub open spec fn spec_is_compile_error(out: Seq<char>) -> bool {
    let l = spec_lower(out);
    ||| spec_contains(l, "error ts"@)
    ||| spec_contains(l, "syntaxerror"@)
    ||| spec_contains(l, "unexpected token"@)
    ||| spec_contains(l, "unexpected end of input"@)
    ||| spec_contains(l, "cannot resolve"@)
    ||| spec_contains(l, "module not found"@)
    ||| spec_contains(l, "cannot find module"@)
    ||| spec_contains(l, "type error"@)
    ||| spec_contains(l, "property does not exist"@)
    ||| spec_contains(l, "cannot be used as an index type"@)
    ||| spec_contains(l, "failed to resolve"@)
    ||| spec_contains(l, "parse error"@)
    ||| spec_contains(l, "compilation failed"@)
    ||| spec_contains(l, "build failed"@)
}

/// Is this failing test output a compilation error rather than a
/// behavioral kill? Matching is case-insensitive over ASCII.
pub fn is_compile_error(error_output: &str) -> (r: bool)
    ensures
        r == spec_is_compile_error(error_output@),
{
    let lower = lower_str(error_output);
    is_typescript_error(lower.as_str()) || is_javascript_syntax_error(lower.as_str())
        || is_module_error(lower.as_str()) || is_type_error(lower.as_str())
        || is_runtime_parse_error(lower.as_str()) || is_build_error(lower.as_str())
}

/// How a test result is classified: survival on success, the compile-error
/// bucket for system errors and compile-failure patterns (equally
/// non-diagnostic of test quality), and a behavioral kill otherwise.
pub open spec fn spec_classify(success: bool, out: Seq<char>) -> KillType {
    if success {
        KillType::Survived
    } else if spec_is_system_error(out) || spec_is_compilation_error(out) {
        KillType::CompileError
    } else {
        KillType::BehavioralKill
    }
}

/// Classifies one test result.
pub fn classify_kill_type(test_result: &TestResult) -> (r: KillType)
    ensures
        r == spec_classify(test_result.success, test_result.output@),
{
    if test_result.success {
        return KillType::Survived;
    }
    if is_system_error(test_result.output.as_str()) || is_compilation_error(
        test_result.output.as_str(),
    ) {
        KillType::CompileError
    } else {
        KillType::BehavioralKill
    }
}

/// Classification is a function of the result's success flag and output
/// bytes alone: two results that agree there are classified alike,
/// whatever their timing or identity fields say.
pub proof fn lemma_classification_deterministic(a: TestResult, b: TestResult)
    requires
        a.success == b.success,
        a.output@ == b.output@,
    ensures
        spec_classify(a.success, a.output@) == spec_classify(b.success, b.output@),
{
}

/// The model of one worker process: identity, age, request count, and
/// whether the child is still running.
#[derive(Debug, Clone, Copy)]
pub struct WorkerProcess {
    pub id: u64,
    pub created_at_ms: u64,
    pub executions: u64,
    pub alive: bool,
}

/// A worker is healthy while its child runs, it is younger than
/// [`WORKER_MAX_AGE_MS`], and it has served fewer than
/// [`WORKER_MAX_EXECUTIONS`] requests.
pub open spec fn spec_worker_healthy(w: WorkerProcess, now_ms: u64) -> bool {
    &&& w.alive
    &&& w.created_at_ms <= now_ms
    &&& now_ms - w.created_at_ms < WORKER_MAX_AGE_MS
    &&& w.executions < WORKER_MAX_EXECUTIONS
}

impl WorkerProcess {
    /// A fresh worker spawned at `now_ms`.
    pub fn new(id: u64, now_ms: u64) -> (r: Self)
        ensures
            r.id == id,
            r.created_at_ms == now_ms,
            r.executions == 0,
            r.alive,
            spec_worker_healthy(r, now_ms),
    {
        WorkerProcess { id, created_at_ms: now_ms, executions: 0, alive: true }
    }

    /// The recycling policy: healthy while young, under the execution cap,
    /// and still running.
    pub fn is_healthy(&self, now_ms: u64) -> (r: bool)
        ensures
            r == spec_worker_healthy(*self, now_ms),
    {
        self.alive && self.created_at_ms <= now_ms && now_ms - self.created_at_ms
            < WORKER_MAX_AGE_MS && self.executions < WORKER_MAX_EXECUTIONS
    }

    /// Ends this worker's child process.
    pub fn shutdown(&mut self)
        ensures
            final(self).id == old(self).id,
            final(self).created_at_ms == old(self).created_at_ms,
            final(self).executions == old(self).executions,
            !final(self).alive,
    {
        self.alive = false;
    }

    /// One request served by this worker: a parsed result counts as an
    /// execution, a timeout kills the child and yields the synthetic
    /// `TIMEOUT:` result, and a worker-side error is handed back as such.
    pub fn execute_mutation(&mut self, request: &MutationRequest, reply: WorkerReply) -> (r:
        Result<TestResult, PoolError>)
        requires
            old(self).executions < u64::MAX,
        ensures
            final(self).id == old(self).id,
            final(self).created_at_ms == old(self).created_at_ms,
            match reply {
                WorkerReply::Result(res) => r == Ok::<TestResult, PoolError>(res)
                    && final(self).executions == old(self).executions + 1 && final(self).alive
                    == old(self).alive,
                WorkerReply::Errored(_) => r is Err && final(self).executions == old(self).executions && final(self).alive == old(self).alive,
                WorkerReply::TimedOut => {
                    &&& !final(self).alive
                    &&& final(self).executions == old(self).executions
                    &&& r matches Ok(res) && spec_timeout_result(res, request.mutation_id@)
                },
            },
    {
        match reply {
            WorkerReply::Result(res) => {
                self.executions = self.executions + 1;
                Ok(res)
            },
            WorkerReply::Errored(message) => Err(PoolError::WorkerError(message)),
            WorkerReply::TimedOut => {
                self.alive = false;
                let output = String::from_str(
                    "TIMEOUT: Worker timeout after 10 seconds (likely infinite loop mutation)",
                );
                Ok(
                    TestResult {
                        success: false,
                        output,
                        execution_time_ms: POOL_REQUEST_TIMEOUT_MS,
                        mutation_id: String::from_str(request.mutation_id.as_str()),
                    },
                )
            },
        }
    }
}

/// The synthetic result the pool fabricates when its request ceiling fires.
pub open spec fn spec_timeout_result(res: TestResult, mutation_id: Seq<char>) -> bool {
    &&& !res.success
    &&& res.output@ == "TIMEOUT: Worker timeout after 10 seconds (likely infinite loop mutation)"@
    &&& res.execution_time_ms == POOL_REQUEST_TIMEOUT_MS
    &&& res.mutation_id@ == mutation_id
}

/// The pool: a deque of available workers, a count of outstanding permits,
/// and the scratch workspace every worker runs in.
#[derive(Debug)]
pub struct WorkerPool {
    pub pool_size: usize,
    pub available_workers: Vec<WorkerProcess>,
    pub busy_count: usize,
    pub next_worker_id: u64,
    pub workspace_dir: String,
}

impl WorkerPool {
    /// The pool invariant: available and busy workers never exceed the
    /// configured size.
    pub open spec fn wf(self) -> bool {
        self.available_workers@.len() + self.busy_count <= self.pool_size
    }

    /// A pool of `pool_size` fresh workers over `workspace_dir`.
    pub fn new(pool_size: usize, workspace_dir: String, now_ms: u64) -> (r: Self)
        requires
            pool_size >= 1,
            pool_size <= u64::MAX,
        ensures
            r.wf(),
            r.pool_size == pool_size,
            r.busy_count == 0,
            r.next_worker_id == pool_size,
            r.available_workers@.len() == pool_size,
            forall|i: int|
                0 <= i < pool_size ==> spec_worker_healthy(
                    #[trigger] r.available_workers@[i],
                    now_ms,
                ),
            r.workspace_dir == workspace_dir,
    {
        let mut available_workers: Vec<WorkerProcess> = Vec::new();
        let mut i: usize = 0;
        while i < pool_size
            invariant
                i <= pool_size,
                pool_size <= u64::MAX,
                available_workers@.len() == i,
                forall|k: int|
                    0 <= k < i ==> spec_worker_healthy(
                        #[trigger] available_workers@[k],
                        now_ms,
                    ),
            decreases pool_size - i,
        {
            available_workers.push(WorkerProcess::new(i as u64, now_ms));
            i = i + 1;
        }
        WorkerPool {
            pool_size,
            available_workers,
            busy_count: 0,
            next_worker_id: pool_size as u64,
            workspace_dir,
        }
    }

    /// The acquired worker was the front-most healthy one: everything
    /// before it in the deque was unhealthy and discarded, everything after
    /// it is still queued.
    pub open spec fn spec_popped_first_healthy(
        pre: Seq<WorkerProcess>,
        post: Seq<WorkerProcess>,
        r: WorkerProcess,
        now_ms: u64,
    ) -> bool {
        exists|j: int|
            #![trigger pre[j]]
            {
                &&& 0 <= j < pre.len()
                &&& (forall|k: int| 0 <= k < j ==> !spec_worker_healthy(#[trigger] pre[k], now_ms))
                &&& spec_worker_healthy(pre[j], now_ms)
                &&& r == pre[j]
                &&& post == pre.subrange(j + 1, pre.len() as int)
            }
    }

    /// Takes the front-most healthy worker, shutting down every unhealthy
    /// worker popped on the way; spawns a replacement when none is left.
    pub fn get_worker(&mut self, now_ms: u64) -> (r: WorkerProcess)
        requires
            old(self).wf(),
            old(self).busy_count < old(self).pool_size,
            old(self).next_worker_id < u64::MAX,
        ensures
            final(self).wf(),
            final(self).pool_size == old(self).pool_size,
            final(self).workspace_dir == old(self).workspace_dir,
            final(self).busy_count == old(self).busy_count + 1,
            spec_worker_healthy(r, now_ms),
            old(self).next_worker_id <= final(self).next_worker_id,
            final(self).next_worker_id <= old(self).next_worker_id + 1,
            final(self).next_worker_id == old(self).next_worker_id + 1 ==> (r.id
                == old(self).next_worker_id && r.executions == 0 && r.created_at_ms == now_ms
                && final(self).available_workers@.len() == 0 && (forall|k: int|
                0 <= k < old(self).available_workers@.len() ==> !spec_worker_healthy(
                    #[trigger] old(self).available_workers@[k],
                    now_ms,
                ))),
            final(self).next_worker_id == old(self).next_worker_id
                ==> Self::spec_popped_first_healthy(
                old(self).available_workers@,
                final(self).available_workers@,
                r,
                now_ms,
            ),
            final(self).available_workers@.len() <= old(self).available_workers@.len(),
    {
        let ghost pre_av = self.available_workers@;
        let pre_av_len: usize = self.available_workers.len();
        let mut dropped: usize = 0;
        loop
            invariant_except_break
                self.wf(),
                self.pool_size == old(self).pool_size,
                self.workspace_dir == old(self).workspace_dir,
                self.busy_count == old(self).busy_count,
                self.busy_count < self.pool_size,
                self.next_worker_id == old(self).next_worker_id,
                old(self).next_worker_id < u64::MAX,
                pre_av == old(self).available_workers@,
                pre_av_len == pre_av.len(),
                dropped <= pre_av.len(),
                self.available_workers@ == pre_av.subrange(dropped as int, pre_av.len() as int),
                forall|k: int|
                    0 <= k < dropped ==> !spec_worker_healthy(#[trigger] pre_av[k], now_ms),
            ensures
                self.wf(),
                self.pool_size == old(self).pool_size,
                self.workspace_dir == old(self).workspace_dir,
                self.busy_count == old(self).busy_count,
                self.next_worker_id == old(self).next_worker_id,
                self.available_workers@.len() == 0,
                pre_av == old(self).available_workers@,
                forall|k: int|
                    0 <= k < pre_av.len() ==> !spec_worker_healthy(#[trigger] pre_av[k], now_ms),
            decreases self.available_workers@.len(),
        {
            if self.available_workers.len() == 0 {
                proof {
                    assert(pre_av.subrange(dropped as int, pre_av.len() as int).len() == 0);
                }
                break;
            }
            let mut worker = self.available_workers.remove(0);
            proof {
                assert(worker == pre_av[dropped as int]);
                assert(self.available_workers@ =~= pre_av.subrange(
                    dropped + 1,
                    pre_av.len() as int,
                ));
            }
            if worker.is_healthy(now_ms) {
                self.busy_count = self.busy_count + 1;
                proof {
                    assert(Self::spec_popped_first_healthy(
                        pre_av,
                        self.available_workers@,
                        worker,
                        now_ms,
                    ));
                }
                return worker;
            }
            worker.shutdown();
            dropped = dropped + 1;
        }
        let fresh = WorkerProcess::new(self.next_worker_id, now_ms);
        self.next_worker_id = self.next_worker_id + 1;
        self.busy_count = self.busy_count + 1;
        fresh
    }

    /// Hands a worker back: a healthy worker rejoins the deque, an
    /// unhealthy one is shut down. Either way the permit is released, so
    /// no handle is ever leaked.
    pub fn return_worker(&mut self, worker: WorkerProcess, now_ms: u64)
        requires
            old(self).wf(),
            old(self).busy_count >= 1,
        ensures
            final(self).wf(),
            final(self).pool_size == old(self).pool_size,
            final(self).workspace_dir == old(self).workspace_dir,
            final(self).next_worker_id == old(self).next_worker_id,
            final(self).busy_count == old(self).busy_count - 1,
            spec_worker_healthy(worker, now_ms) ==> final(self).available_workers@ == old(self).available_workers@.push(worker),
            !spec_worker_healthy(worker, now_ms) ==> final(self).available_workers@ == old(self).available_workers@,
    {
        let mut worker = worker;
        if worker.is_healthy(now_ms) {
            self.available_workers.push(worker);
        } else {
            worker.shutdown();
        }
        self.busy_count = self.busy_count - 1;
    }

    /// Builds the wire request for one mutation over this pool's workspace.
    pub fn create_mutation_request(&self, mutation: &Mutation) -> (r: MutationRequest)
        ensures
            r.file_path@ == mutation.file@,
            r.mutated_content@ == mutation.mutated@,
            r.mutation_id@ == mutation.id@,
            r.workspace_dir@ == self.workspace_dir@,
            r.language == mutation.language,
    {
        MutationRequest {
            file_path: String::from_str(mutation.file.as_str()),
            mutated_content: String::from_str(mutation.mutated.as_str()),
            mutation_id: String::from_str(mutation.id.as_str()),
            workspace_dir: String::from_str(self.workspace_dir.as_str()),
            language: mutation.language,
        }
    }

    /// One full dispatch through the pool: acquire a worker, serve the
    /// request with the given reply, then return the worker — except after
    /// a pool timeout, where the worker is killed and not returned.
    pub fn execute_mutation(&mut self, request: &MutationRequest, reply: WorkerReply, now_ms: u64)
        -> (r: Result<TestResult, PoolError>)
        requires
            old(self).wf(),
            old(self).busy_count < old(self).pool_size,
            old(self).next_worker_id < u64::MAX,
        ensures
            final(self).wf(),
            final(self).pool_size == old(self).pool_size,
            final(self).workspace_dir == old(self).workspace_dir,
            final(self).busy_count == old(self).busy_count,
            old(self).next_worker_id <= final(self).next_worker_id,
            final(self).next_worker_id <= old(self).next_worker_id + 1,
            match reply {
                WorkerReply::Result(res) => r == Ok::<TestResult, PoolError>(res),
                WorkerReply::Errored(_) => r is Err,
                WorkerReply::TimedOut => r matches Ok(res) && spec_timeout_result(
                    res,
                    request.mutation_id@,
                ),
            },
    {
        let mut worker = self.get_worker(now_ms);
        let result = worker.execute_mutation(request, reply);
        self.return_worker(worker, now_ms);
        result
    }

    /// Shuts down every pooled worker.
    pub fn shutdown(&mut self)
        ensures
            final(self).available_workers@.len() == 0,
            final(self).busy_count == old(self).busy_count,
            final(self).pool_size == old(self).pool_size,
    {
        self.available_workers = Vec::new();
    }
}

/// Pairs a mutation with its test result, classifying the kill.
pub fn build_mutation_result(mutation: Mutation, test_result: TestResult) -> (r: MutationResult)
    ensures
        r.mutation == mutation,
        r.kill_type == spec_classify(test_result.success, test_result.output@),
        r.killed == (r.kill_type != KillType::Survived),
        r.test_output@ == test_result.output@,
        r.execution_time_ms == test_result.execution_time_ms,
{
    let kill_type = classify_kill_type(&test_result);
    let killed: bool = match kill_type {
        KillType::Survived => false,
        _ => true,
    };
    MutationResult {
        mutation,
        killed,
        kill_type,
        test_output: test_result.output,
        execution_time_ms: test_result.execution_time_ms,
    }
}

/// The synthetic pool-timeout output is tagged as a system error, so a
/// timed-out mutation lands in the compile-error bucket, excluded from the
/// behavioral-kill rate.
pub proof fn lemma_timeout_is_compile_error()
    ensures
        spec_classify(
            false,
            "TIMEOUT: Worker timeout after 10 seconds (likely infinite loop mutation)"@,
        ) == KillType::CompileError,
{
    reveal_strlit("TIMEOUT: Worker timeout after 10 seconds (likely infinite loop mutation)");
    reveal_strlit("TIMEOUT:");
    assert(spec_is_prefix(
        "TIMEOUT:"@,
        "TIMEOUT: Worker timeout after 10 seconds (likely infinite loop mutation)"@,
    ));
}

/// What one dispatched mutation's outcome looks like, as a function of the
/// reply the pool saw for it.
pub open spec fn spec_dispatch_outcome(
    result: MutationResult,
    mutation: Mutation,
    reply: WorkerReply,
) -> bool {
    &&& result.mutation == mutation
    &&& result.killed == (result.kill_type != KillType::Survived)
    &&& match reply {
        WorkerReply::Result(res) => result.kill_type == spec_classify(res.success, res.output@)
            && result.test_output@ == res.output@ && result.execution_time_ms
            == res.execution_time_ms,
        WorkerReply::TimedOut => result.kill_type == spec_classify(
            false,
            "TIMEOUT: Worker timeout after 10 seconds (likely infinite loop mutation)"@,
        ) && result.test_output@
            == "TIMEOUT: Worker timeout after 10 seconds (likely infinite loop mutation)"@
            && result.execution_time_ms == POOL_REQUEST_TIMEOUT_MS,
        WorkerReply::Errored(_) => false,
    }
}

/// A field-wise copy of a test result.
fn clone_test_result(r: &TestResult) -> (c: TestResult)
    ensures
        c == *r,
{
    TestResult {
        success: r.success,
        output: r.output.clone(),
        execution_time_ms: r.execution_time_ms,
        mutation_id: r.mutation_id.clone(),
    }
}

/// A field-wise copy of a worker reply.
fn clone_reply(r: &WorkerReply) -> (c: WorkerReply)
    ensures
        c == *r,
{
    match r {
        WorkerReply::Result(res) => WorkerReply::Result(clone_test_result(res)),
        WorkerReply::Errored(message) => WorkerReply::Errored(message.clone()),
        WorkerReply::TimedOut => WorkerReply::TimedOut,
    }
}

/// Drives a whole mutation stream through the pool. The caller supplies one
/// reply per mutation (the outcome of the IPC round trip it performed);
/// the first worker-side error aborts the run, as the dispatcher does.
pub fn run_mutations(
    pool: &mut WorkerPool,
    mutations: Vec<Mutation>,
    replies: &Vec<WorkerReply>,
    now_ms: u64,
) -> (r: Result<Vec<MutationResult>, PoolError>)
    requires
        old(pool).wf(),
        old(pool).busy_count == 0,
        old(pool).pool_size >= 1,
        mutations@.len() == replies@.len(),
        old(pool).next_worker_id + mutations@.len() < u64::MAX,
    ensures
        final(pool).wf(),
        final(pool).busy_count == 0,
        final(pool).pool_size == old(pool).pool_size,
        final(pool).workspace_dir == old(pool).workspace_dir,
        r matches Ok(results) ==> results@.len() == mutations@.len() && (forall|i: int|
            0 <= i < results@.len() ==> spec_dispatch_outcome(
                #[trigger] results@[i],
                mutations@[i],
                replies@[i],
            )),
        r is Err ==> exists|i: int|
            0 <= i < replies@.len() && (#[trigger] replies@[i]) matches WorkerReply::Errored(_),
{
    let total = mutations.len();
    let ghost all_mutations = mutations@;
    let mut results: Vec<MutationResult> = Vec::new();
    let mut rest_mutations = mutations;
    let mut i: usize = 0;
    while i < total
        invariant
            total == replies@.len(),
            total == all_mutations.len(),
            rest_mutations@ == all_mutations.subrange(i as int, total as int),
            pool.wf(),
            pool.busy_count == 0,
            pool.pool_size == old(pool).pool_size,
            pool.workspace_dir == old(pool).workspace_dir,
            pool.pool_size >= 1,
            pool.next_worker_id + (total - i) < u64::MAX,
            i <= total,
            results@.len() == i,
            forall|k: int|
                0 <= k < i ==> spec_dispatch_outcome(
                    #[trigger] results@[k],
                    all_mutations[k],
                    replies@[k],
                ),
        decreases total - i,
    {
        let mutation = rest_mutations.remove(0);
        let reply = clone_reply(&replies[i]);
        proof {
            assert(mutation == all_mutations[i as int]);
            assert(rest_mutations@ =~= all_mutations.subrange(i + 1, total as int));
        }
        let request = pool.create_mutation_request(&mutation);
        match pool.execute_mutation(&request, reply, now_ms) {
            Ok(test_result) => {
                let result = build_mutation_result(mutation, test_result);
                results.push(result);
            },
            Err(e) => {
                proof {
                    assert((#[trigger] replies@[i as int]) matches WorkerReply::Errored(_));
                }
                return Err(e);
            },
        }
        i = i + 1;
    }
    Ok(results)
}

/// The candidate file-system locations of the worker binary, tried in
/// order: beside the parent executable, under the adjacent Cargo target
/// directories, and finally the bare name for a lookup on the search path.
pub fn worker_binary_candidates(exe_dir: &str) -> (r: Vec<String>)
    ensures
        r.deep_view() == seq![
            exe_dir@ + "/pathogen-worker"@,
            exe_dir@ + "/pathogen-worker.exe"@,
            exe_dir@ + "/../target/release/pathogen-worker"@,
            exe_dir@ + "/../target/debug/pathogen-worker"@,
            exe_dir@ + "/../target/release/pathogen-worker.exe"@,
            exe_dir@ + "/../target/debug/pathogen-worker.exe"@,
            "pathogen-worker"@,
        ],
{
    let mut r: Vec<String> = Vec::new();
    let mut p0 = String::from_str(exe_dir);
    p0.append("/pathogen-worker");
    r.push(p0);
    let mut p1 = String::from_str(exe_dir);
    p1.append("/pathogen-worker.exe");
    r.push(p1);
    let mut p2 = String::from_str(exe_dir);
    p2.append("/../target/release/pathogen-worker");
    r.push(p2);
    let mut p3 = String::from_str(exe_dir);
    p3.append("/../target/debug/pathogen-worker");
    r.push(p3);
    let mut p4 = String::from_str(exe_dir);
    p4.append("/../target/release/pathogen-worker.exe");
    r.push(p4);
    let mut p5 = String::from_str(exe_dir);
    p5.append("/../target/debug/pathogen-worker.exe");
    r.push(p5);
    let p6 = String::from_str("pathogen-worker");
    r.push(p6);
    proof {
        assert(r.deep_view() =~= seq![
            exe_dir@ + "/pathogen-worker"@,
            exe_dir@ + "/pathogen-worker.exe"@,
            exe_dir@ + "/../target/release/pathogen-worker"@,
            exe_dir@ + "/../target/debug/pathogen-worker"@,
            exe_dir@ + "/../target/release/pathogen-worker.exe"@,
            exe_dir@ + "/../target/debug/pathogen-worker.exe"@,
            "pathogen-worker"@,
        ]);
    }
    r
}

} // verus!
