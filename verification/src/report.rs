//! Report aggregation: global and per-file statistics, rates over viable
//! mutations, and run warnings.
//!
//! Rates are carried in basis points (hundredths of a percent) so that the
//! arithmetic stays exact.

use vstd::prelude::*;
use vstd::string::*;

use crate::text::{spec_contains, str_contains, str_eq};
use crate::types::{FileStats, KillType, Mutation, MutationResult, MutationStats};

verus! {

/// How many results in `rs` carry the kill classification `t`.
pub open spec fn count_kill_type(rs: Seq<MutationResult>, t: KillType) -> int
    decreases rs.len(),
{
    if rs.len() == 0 {
        0
    } else {
        count_kill_type(rs.drop_last(), t) + if rs.last().kill_type == t {
            1int
        } else {
            0int
        }
    }
}

/// Every result lands in exactly one bucket, so the three counts add up to
/// the total: `total == survived + behavioral_kills + compile_errors`.
pub proof fn lemma_kill_counts_sum(rs: Seq<MutationResult>)
    ensures
        count_kill_type(rs, KillType::Survived) + count_kill_type(rs, KillType::BehavioralKill)
            + count_kill_type(rs, KillType::CompileError) == rs.len(),
        count_kill_type(rs, KillType::Survived) >= 0,
        count_kill_type(rs, KillType::BehavioralKill) >= 0,
        count_kill_type(rs, KillType::CompileError) >= 0,
    decreases rs.len(),
{
    if rs.len() > 0 {
        lemma_kill_counts_sum(rs.drop_last());
    }
}

/// Summary statistics for a whole run.
#[derive(Debug, Clone)]
pub struct SummaryStats {
    pub total: usize,
    pub behavioral_kills: usize,
    pub compile_errors: usize,
    pub survived: usize,
    /// Behavioral kills per 10,000 viable (non-compile-error) mutations.
    pub behavioral_rate: u64,
    /// Kills of any kind per 10,000 mutations.
    pub kill_rate: u64,
}

/// The behavioral-kill rate in basis points: kills over viable mutations,
/// where viable means total minus compile errors.
pub open spec fn spec_rate_bp(kills: int, viable: int) -> int {
    kills * 10000 / (if viable > 0 {
        viable
    } else {
        1
    })
}

proof fn lemma_rate_bp_bounded(kills: int, viable: int)
    requires
        0 <= kills <= viable,
    ensures
        0 <= spec_rate_bp(kills, viable) <= 10000,
{
    if viable > 0 {
        assert(kills * 10000 <= viable * 10000) by (nonlinear_arith)
            requires
                kills <= viable,
        ;
        assert(kills * 10000 >= 0) by (nonlinear_arith)
            requires
                kills >= 0,
        ;
        assert(kills * 10000 / viable <= viable * 10000 / viable) by (nonlinear_arith)
            requires
                viable > 0,
                kills * 10000 <= viable * 10000,
        ;
        assert(viable * 10000 / viable == 10000) by (nonlinear_arith)
            requires
                viable > 0,
        ;
        assert(kills * 10000 / viable >= 0) by (nonlinear_arith)
            requires
                viable > 0,
                kills * 10000 >= 0,
        ;
    }
}

/// Counts one kill classification across a result list.
fn count_results(results: &Vec<MutationResult>, t: KillType) -> (r: usize)
    ensures
        r == count_kill_type(results@, t),
        r <= results@.len(),
{
    let n = results.len();
    let mut count: usize = 0;
    let mut i: usize = 0;
    while i < n
        invariant
            n == results@.len(),
            i <= n,
            count == count_kill_type(results@.subrange(0, i as int), t),
            count <= i,
        decreases n - i,
    {
        let ghost prefix = results@.subrange(0, i as int);
        if results[i].kill_type == t {
            count = count + 1;
        }
        i = i + 1;
        proof {
            assert(results@.subrange(0, i as int).drop_last() =~= prefix);
        }
    }
    proof {
        assert(results@.subrange(0, n as int) =~= results@);
    }
    count
}

/// Aggregates a run's results. The counts partition the total exactly, and
/// the behavioral rate is taken over viable mutations only: compile-failing
/// mutants are non-diagnostic and excluded from the quality ratio.
pub fn calculate_summary_stats(results: &Vec<MutationResult>) -> (r: SummaryStats)
    ensures
        r.total == results@.len(),
        r.behavioral_kills == count_kill_type(results@, KillType::BehavioralKill),
        r.compile_errors == count_kill_type(results@, KillType::CompileError),
        r.survived == count_kill_type(results@, KillType::Survived),
        r.total == r.survived + r.behavioral_kills + r.compile_errors,
        r.behavioral_rate == spec_rate_bp(
            r.behavioral_kills as int,
            r.total - r.compile_errors,
        ),
        r.kill_rate == spec_rate_bp(r.behavioral_kills + r.compile_errors as int, r.total as int),
{
    let total = results.len();
    let behavioral_kills = count_results(results, KillType::BehavioralKill);
    let compile_errors = count_results(results, KillType::CompileError);
    let survived = count_results(results, KillType::Survived);
    proof {
        lemma_kill_counts_sum(results@);
    }
    let viable: usize = total - compile_errors;
    let behavioral_rate: u64 = rate_bp(behavioral_kills, viable);
    let kill_rate: u64 = rate_bp(behavioral_kills + compile_errors, total);
    SummaryStats { total, behavioral_kills, compile_errors, survived, behavioral_rate, kill_rate }
}

/// Computes a rate in basis points.
fn rate_bp(kills: usize, viable: usize) -> (r: u64)
    requires
        kills <= viable,
    ensures
        r == spec_rate_bp(kills as int, viable as int),
        r <= 10000,
{
    proof {
        lemma_rate_bp_bounded(kills as int, viable as int);
    }
    if viable > 0 {
        ((kills as u128) * 10000 / (viable as u128)) as u64
    } else {
        0
    }
}

/// A field-wise copy of a mutation record.
pub fn clone_mutation(m: &Mutation) -> (c: Mutation)
    ensures
        c == *m,
{
    Mutation {
        id: m.id.clone(),
        file: m.file.clone(),
        line: m.line,
        column: m.column,
        span_start: m.span_start,
        span_end: m.span_end,
        original: m.original.clone(),
        mutated: m.mutated.clone(),
        mutation_type: m.mutation_type,
        description: m.description.clone(),
        language: m.language,
    }
}

/// A field-wise copy of a mutation result.
pub fn clone_mutation_result(r: &MutationResult) -> (c: MutationResult)
    ensures
        c == *r,
{
    MutationResult {
        mutation: clone_mutation(&r.mutation),
        killed: r.killed,
        kill_type: r.kill_type,
        test_output: r.test_output.clone(),
        execution_time_ms: r.execution_time_ms,
    }
}

/// The mutations of the surviving results, in order.
pub open spec fn spec_survivors(rs: Seq<MutationResult>) -> Seq<Mutation>
    decreases rs.len(),
{
    if rs.len() == 0 {
        Seq::empty()
    } else if rs.last().kill_type == KillType::Survived {
        spec_survivors(rs.drop_last()).push(rs.last().mutation)
    } else {
        spec_survivors(rs.drop_last())
    }
}

/// The statistics [`build_file_stats`] derives for one file's results.
pub open spec fn spec_file_stats_ok(fs: FileStats, rs: Seq<MutationResult>) -> bool {
    &&& fs.total_mutations == rs.len()
    &&& fs.behavioral_kills == count_kill_type(rs, KillType::BehavioralKill)
    &&& fs.compile_errors == count_kill_type(rs, KillType::CompileError)
    &&& fs.survived == count_kill_type(rs, KillType::Survived)
    &&& fs.kill_rate == spec_rate_bp(fs.behavioral_kills as int, rs.len() - fs.compile_errors)
    &&& fs.survived_mutations@ == spec_survivors(rs)
}

/// Builds the statistics for a single file: counts, the behavioral kill
/// rate over the file's viable mutations, and the surviving mutations.
pub fn build_file_stats(file_path: String, file_results: &Vec<MutationResult>) -> (r: FileStats)
    ensures
        r.file_path@ == file_path@,
        spec_file_stats_ok(r, file_results@),
{
    let total_mutations = file_results.len();
    let behavioral_kills = count_results(file_results, KillType::BehavioralKill);
    let compile_errors = count_results(file_results, KillType::CompileError);
    let survived = count_results(file_results, KillType::Survived);
    proof {
        lemma_kill_counts_sum(file_results@);
    }
    let kill_rate: u64 = rate_bp(behavioral_kills, total_mutations - compile_errors);
    let mut survived_mutations: Vec<Mutation> = Vec::new();
    let mut i: usize = 0;
    while i < total_mutations
        invariant
            total_mutations == file_results@.len(),
            i <= total_mutations,
            survived_mutations@ == spec_survivors(file_results@.subrange(0, i as int)),
        decreases total_mutations - i,
    {
        let ghost prefix = file_results@.subrange(0, i as int);
        if file_results[i].kill_type == KillType::Survived {
            survived_mutations.push(clone_mutation(&file_results[i].mutation));
        }
        i = i + 1;
        proof {
            assert(file_results@.subrange(0, i as int).drop_last() =~= prefix);
        }
    }
    proof {
        assert(file_results@.subrange(0, total_mutations as int) =~= file_results@);
    }
    FileStats {
        file_path,
        total_mutations,
        behavioral_kills,
        compile_errors,
        survived,
        kill_rate,
        survived_mutations,
    }
}

/// The results that target one file, in order.
pub open spec fn spec_results_for(rs: Seq<MutationResult>, path: Seq<char>) -> Seq<MutationResult>
    decreases rs.len(),
{
    if rs.len() == 0 {
        Seq::empty()
    } else if rs.last().mutation.file@ == path {
        spec_results_for(rs.drop_last(), path).push(rs.last())
    } else {
        spec_results_for(rs.drop_last(), path)
    }
}

/// One row of the per-file report is sound for the whole run: it carries
/// exactly the statistics of the results that target its file.
#[verifier::opaque]
pub open spec fn spec_file_row_ok(fs: FileStats, rs: Seq<MutationResult>) -> bool {
    spec_file_stats_ok(fs, spec_results_for(rs, fs.file_path@))
}

/// No results target a path that never occurs in the list.
proof fn lemma_results_for_absent(rs: Seq<MutationResult>, path: Seq<char>)
    requires
        forall|k: int| 0 <= k < rs.len() ==> (#[trigger] rs[k]).mutation.file@ != path,
    ensures
        spec_results_for(rs, path) =~= Seq::<MutationResult>::empty(),
    decreases rs.len(),
{
    if rs.len() > 0 {
        lemma_results_for_absent(rs.drop_last(), path);
    }
}

/// The bucket paths are pairwise distinct.
pub open spec fn spec_distinct_paths(paths: Seq<String>) -> bool {
    forall|p: int, q: int| 0 <= p < q < paths.len() ==> paths[p]@ != paths[q]@
}

/// Every result's file has a bucket path.
pub open spec fn spec_paths_cover(paths: Seq<String>, rs: Seq<MutationResult>) -> bool {
    forall|k: int|
        0 <= k < rs.len() ==> exists|j: int|
            0 <= j < paths.len() && (#[trigger] paths[j])@ == (#[trigger] rs[k]).mutation.file@
}

/// Each bucket holds exactly its path's results.
pub open spec fn spec_buckets_ok(
    paths: Seq<String>,
    buckets: Seq<Vec<MutationResult>>,
    rs: Seq<MutationResult>,
) -> bool {
    forall|j: int|
        0 <= j < buckets.len() ==> (#[trigger] buckets[j])@ == spec_results_for(rs, paths[j]@)
}

/// Splits a run's results into one bucket per distinct target file.
fn group_results(results: &Vec<MutationResult>) -> (r: (Vec<String>, Vec<Vec<MutationResult>>))
    ensures
        r.0@.len() == r.1@.len(),
        spec_distinct_paths(r.0@),
        spec_buckets_ok(r.0@, r.1@, results@),
        spec_paths_cover(r.0@, results@),
{
    let n = results.len();
    let mut paths: Vec<String> = Vec::new();
    let mut buckets: Vec<Vec<MutationResult>> = Vec::new();
    let mut i: usize = 0;
    while i < n
        invariant
            n == results@.len(),
            i <= n,
            paths@.len() == buckets@.len(),
            spec_distinct_paths(paths@),
            spec_buckets_ok(paths@, buckets@, results@.subrange(0, i as int)),
            spec_paths_cover(paths@, results@.subrange(0, i as int)),
        decreases n - i,
    {
        let ghost prefix = results@.subrange(0, i as int);
        let ghost old_paths = paths@;
        let current = clone_mutation_result(&results[i]);
        let m = paths.len();
        let mut found: bool = false;
        let mut found_idx: usize = 0;
        let mut t: usize = 0;
        while t < m && !found
            invariant
                m == paths@.len(),
                t <= m,
                !found ==> forall|u: int|
                    0 <= u < t ==> (#[trigger] paths@[u])@ != current.mutation.file@,
                found ==> found_idx < m && paths@[found_idx as int]@ == current.mutation.file@,
            decreases m - t + (if found {
                0int
            } else {
                1int
            }),
        {
            if str_eq(paths[t].as_str(), current.mutation.file.as_str()) {
                found = true;
                found_idx = t;
            } else {
                t = t + 1;
            }
        }
        proof {
            assert(results@.subrange(0, i + 1).drop_last() =~= prefix);
            assert(results@.subrange(0, i + 1).last() == results@[i as int]);
        }
        if found {
            let j = found_idx;
            let ghost pre_buckets = buckets@;
            let mut bucket = buckets.remove(j);
            bucket.push(current);
            buckets.insert(j, bucket);
            proof {
                assert(buckets@ =~= pre_buckets.update(j as int, bucket));
                assert forall|j2: int| 0 <= j2 < buckets@.len() implies (#[trigger] buckets@[
                    j2])@ == spec_results_for(results@.subrange(0, i + 1), paths@[j2]@) by {
                    if j2 == j {
                        assert(bucket@ == pre_buckets[j as int]@.push(results@[i as int]));
                        assert(buckets@[j2]@ == spec_results_for(prefix, paths@[j2]@).push(
                            results@[i as int],
                        ));
                    } else {
                        assert(buckets@[j2] == pre_buckets[j2]);
                        assert(paths@[j2]@ != results@[i as int].mutation.file@);
                    }
                }
                assert(spec_buckets_ok(paths@, buckets@, results@.subrange(0, i + 1)));
                assert(paths@[j as int]@ == results@[i as int].mutation.file@);
            }
        } else {
            proof {
                assert(forall|u: int|
                    0 <= u < paths@.len() ==> (#[trigger] paths@[u])@ != current.mutation.file@);
            }
            let mut bucket: Vec<MutationResult> = Vec::new();
            bucket.push(current);
            let path_copy = results[i].mutation.file.clone();
            paths.push(path_copy);
            buckets.push(bucket);
            proof {
                assert forall|j2: int| 0 <= j2 < buckets@.len() implies (#[trigger] buckets@[
                    j2])@ == spec_results_for(results@.subrange(0, i + 1), paths@[j2]@) by {
                    if j2 == buckets@.len() - 1 {
                        assert(spec_results_for(prefix, paths@[j2]@) =~= Seq::empty()) by {
                            lemma_results_for_absent(prefix, paths@[j2]@);
                        }
                    } else {
                        assert(paths@[j2]@ != results@[i as int].mutation.file@);
                    }
                }
                assert(spec_buckets_ok(paths@, buckets@, results@.subrange(0, i + 1)));
                assert(spec_distinct_paths(paths@));
                assert(paths@[paths@.len() - 1]@ == results@[i as int].mutation.file@);
            }
        }
        proof {
            assert forall|k: int| 0 <= k <= i implies exists|j2: int|
                0 <= j2 < paths@.len() && (#[trigger] paths@[j2])@ == (#[trigger] results@[
                k]).mutation.file@ by {
                if k < i {
                    assert(spec_paths_cover(old_paths, prefix));
                    let w = choose|j2: int|
                        0 <= j2 < old_paths.len() && (#[trigger] old_paths[j2])@ == prefix[
                        k].mutation.file@;
                    assert(paths@[w]@ == results@[k].mutation.file@);
                }
            }
            assert(spec_paths_cover(paths@, results@.subrange(0, i + 1)));
        }
        i = i + 1;
    }
    proof {
        assert(results@.subrange(0, n as int) =~= results@);
    }
    let pair = (paths, buckets);
    pair
}

/// Each report row belongs to its bucket path and carries its statistics.
pub open spec fn spec_rows_match_buckets(
    rows: Seq<FileStats>,
    paths: Seq<String>,
    buckets: Seq<Vec<MutationResult>>,
) -> bool {
    forall|j: int|
        0 <= j < rows.len() ==> (#[trigger] rows[j]).file_path@ == paths[j]@
            && spec_file_stats_ok(rows[j], buckets[j]@)
}

/// Builds one statistics row per bucket.
fn build_rows(paths: &Vec<String>, buckets: &Vec<Vec<MutationResult>>) -> (r: Vec<FileStats>)
    requires
        paths@.len() == buckets@.len(),
    ensures
        r@.len() == paths@.len(),
        spec_rows_match_buckets(r@, paths@, buckets@),
{
    let groups = paths.len();
    let mut rows: Vec<FileStats> = Vec::new();
    let mut g: usize = 0;
    while g < groups
        invariant
            groups == paths@.len(),
            paths@.len() == buckets@.len(),
            g <= groups,
            rows@.len() == g,
            spec_rows_match_buckets(rows@, paths@, buckets@),
        decreases groups - g,
    {
        let row = build_file_stats(paths[g].clone(), &buckets[g]);
        rows.push(row);
        g = g + 1;
        proof {
            assert(spec_rows_match_buckets(rows@, paths@, buckets@));
        }
    }
    rows
}

/// The rows are ordered by kill rate, worst first.
pub open spec fn spec_rows_sorted(rows: Seq<FileStats>) -> bool {
    forall|i: int, j: int| 0 <= i < j < rows.len() ==> rows[i].kill_rate <= rows[j].kill_rate
}

/// Every row is sound for the run.
pub open spec fn spec_rows_ok(rows: Seq<FileStats>, rs: Seq<MutationResult>) -> bool {
    forall|i: int| 0 <= i < rows.len() ==> spec_file_row_ok(#[trigger] rows[i], rs)
}

/// No two rows report the same file.
pub open spec fn spec_rows_distinct(rows: Seq<FileStats>) -> bool {
    forall|i: int, j: int| 0 <= i < j < rows.len() ==> rows[i].file_path@ != rows[j].file_path@
}



/// Every row index below `s` occurs in `idx`.
pub open spec fn spec_covers_upto(idx: Seq<usize>, s: int) -> bool {
    forall|v: int| 0 <= v < s ==> #[trigger] idx.contains(v as usize)
}

/// Computes a sort order for the given rates: a permutation of the row
/// indices along which the rates ascend.
#[verifier::rlimit(60)]
fn sort_indices(rates: &Vec<u64>) -> (idx: Vec<usize>)
    ensures
        idx@.len() == rates@.len(),
        forall|i: int| 0 <= i < idx@.len() ==> (#[trigger] idx@[i]) < rates@.len(),
        forall|i: int, j: int|
            0 <= i < j < idx@.len() ==> rates@[#[trigger] idx@[i] as int] <= rates@[
                #[trigger] idx@[j] as int],
        forall|i: int, j: int| 0 <= i < j < idx@.len() ==> idx@[i] != idx@[j],
        spec_covers_upto(idx@, rates@.len() as int),
{
    let n = rates.len();
    let mut idx: Vec<usize> = Vec::new();
    let mut s: usize = 0;
    while s < n
        invariant
            n == rates@.len(),
            s <= n,
            idx@.len() == s,
            forall|i: int| 0 <= i < idx@.len() ==> (#[trigger] idx@[i]) < n,
            forall|i: int, j: int|
                0 <= i < j < idx@.len() ==> rates@[#[trigger] idx@[i] as int] <= rates@[
                    #[trigger] idx@[j] as int],
            forall|i: int, j: int| 0 <= i < j < idx@.len() ==> idx@[i] != idx@[j],
            forall|i: int| 0 <= i < idx@.len() ==> (#[trigger] idx@[i]) < s,
            spec_covers_upto(idx@, s as int),
        decreases n - s,
    {
        let key = rates[s];
        let cur = idx.len();
        let mut p: usize = 0;
        while p < cur && rates[idx[p]] <= key
            invariant
                cur == idx@.len(),
                n == rates@.len(),
                p <= cur,
                forall|i: int| 0 <= i < idx@.len() ==> (#[trigger] idx@[i]) < n,
                forall|u: int| 0 <= u < p ==> rates@[#[trigger] idx@[u] as int] <= key,
            decreases cur - p,
        {
            p = p + 1;
        }
        let ghost pre_idx = idx@;
        proof {
            assert(spec_covers_upto(pre_idx, s as int));
        }
        idx.insert(p, s);
        proof {
            assert forall|u: int| 0 <= u < idx@.len() implies #[trigger] idx@[u] == (if u < p {
                pre_idx[u]
            } else if u == p {
                s as usize
            } else {
                pre_idx[u - 1]
            }) by {}
            assert forall|v: int| 0 <= v < s + 1 implies #[trigger] idx@.contains(
                v as usize,
            ) by {
                if v == s {
                    assert(idx@[p as int] == v as usize);
                } else {
                    assert(pre_idx.contains(v as usize));
                    let w = choose|i: int| 0 <= i < pre_idx.len() && pre_idx[i] == v as usize;
                    if w < p {
                        assert(idx@[w] == v as usize);
                    } else {
                        assert(idx@[w + 1] == v as usize);
                    }
                }
            }
            assert(spec_covers_upto(idx@, s + 1));
        }
        s = s + 1;
    }
    idx
}

/// Some row reports the given file.
pub open spec fn spec_has_row_for(rows: Seq<FileStats>, path: Seq<char>) -> bool {
    exists|i: int| 0 <= i < rows.len() && (#[trigger] rows[i]).file_path@ == path
}

/// Every tested file has a row in the report.
pub open spec fn spec_report_complete(rows: Seq<FileStats>, rs: Seq<MutationResult>) -> bool {
    forall|k: int|
        0 <= k < rs.len() ==> spec_has_row_for(rows, (#[trigger] rs[k]).mutation.file@)
}

/// Groups a run's results by target file and returns one row per file,
/// sorted by kill rate ascending so the files needing the most attention
/// come first. Every tested file has exactly one row, and each row carries
/// exactly the statistics of the results that target its file.
#[verifier::rlimit(60)]
pub fn calculate_per_file_stats(results: &Vec<MutationResult>) -> (r: Vec<FileStats>)
    ensures
        spec_rows_sorted(r@),
        spec_rows_ok(r@, results@),
        spec_rows_distinct(r@),
        spec_report_complete(r@, results@),
{
    let (paths, buckets) = group_results(results);
    let rows = build_rows(&paths, &buckets);
    proof {
        assert forall|j: int| 0 <= j < rows@.len() implies spec_file_row_ok(
            #[trigger] rows@[j],
            results@,
        ) by {
            reveal(spec_file_row_ok);
            assert(buckets@[j]@ == spec_results_for(results@, paths@[j]@));
            assert(rows@[j].file_path@ == paths@[j]@);
        }
    }
    let groups = rows.len();
    let mut rates: Vec<u64> = Vec::new();
    let mut g: usize = 0;
    while g < groups
        invariant
            groups == rows@.len(),
            g <= groups,
            rates@.len() == g,
            forall|a: int| 0 <= a < g ==> (#[trigger] rates@[a]) == rows@[a].kill_rate,
        decreases groups - g,
    {
        rates.push(rows[g].kill_rate);
        g = g + 1;
    }
    let order = sort_indices(&rates);
    let mut out: Vec<FileStats> = Vec::new();
    let mut t: usize = 0;
    while t < groups
        invariant
            groups == rows@.len(),
            rows@.len() == paths@.len(),
            rates@.len() == groups,
            order@.len() == groups,
            forall|a: int| 0 <= a < groups ==> (#[trigger] rates@[a]) == rows@[a].kill_rate,
            forall|a: int| 0 <= a < order@.len() ==> (#[trigger] order@[a]) < groups,
            forall|a: int, b: int|
                0 <= a < b < order@.len() ==> rates@[#[trigger] order@[a] as int] <= rates@[
                    #[trigger] order@[b] as int],
            forall|a: int, b: int| 0 <= a < b < order@.len() ==> order@[a] != order@[b],
            spec_covers_upto(order@, groups as int),
            spec_distinct_paths(paths@),
            spec_paths_cover(paths@, results@),
            forall|j: int|
                0 <= j < rows@.len() ==> (#[trigger] rows@[j]).file_path@ == paths@[j]@,
            forall|j: int| 0 <= j < rows@.len() ==> spec_file_row_ok(#[trigger] rows@[j], results@),
            t <= groups,
            out@.len() == t,
            forall|a: int|
                0 <= a < t ==> (#[trigger] out@[a]).kill_rate == rates@[order@[a] as int],
            forall|a: int|
                0 <= a < t ==> (#[trigger] out@[a]).file_path@ == paths@[order@[a] as int]@,
            forall|a: int| 0 <= a < t ==> spec_file_row_ok(#[trigger] out@[a], results@),
        decreases groups - t,
    {
        let src_row: usize = order[t];
        let copied = clone_file_stats(&rows[src_row]);
        proof {
            assert(spec_file_row_ok(rows@[src_row as int], results@));
            assert(spec_file_row_ok(copied, results@)) by {
                reveal(spec_file_row_ok);
            }
        }
        out.push(copied);
        t = t + 1;
    }
    proof {
        assert forall|i: int, j: int| 0 <= i < j < out@.len() implies out@[i].kill_rate
            <= out@[j].kill_rate by {
            assert(out@[i].kill_rate == rates@[order@[i] as int]);
            assert(out@[j].kill_rate == rates@[order@[j] as int]);
        }
        assert(spec_rows_sorted(out@));
        assert(spec_rows_ok(out@, results@));
        assert forall|i: int, j: int| 0 <= i < j < out@.len() implies out@[i].file_path@
            != out@[j].file_path@ by {
            assert(order@[i] != order@[j]);
            let a = order@[i] as int;
            let b = order@[j] as int;
            if a < b {
                assert(paths@[a]@ != paths@[b]@);
            } else {
                assert(paths@[b]@ != paths@[a]@);
            }
        }
        assert(spec_rows_distinct(out@));
        assert forall|k: int| 0 <= k < results@.len() implies spec_has_row_for(
            out@,
            (#[trigger] results@[k]).mutation.file@,
        ) by {
            let j = choose|j: int|
                0 <= j < paths@.len() && (#[trigger] paths@[j])@ == results@[k].mutation.file@;
            assert(order@.contains(j as usize));
            let a = choose|a: int| 0 <= a < order@.len() && (#[trigger] order@[a]) == j as usize;
            assert(0 <= a < order@.len() && order@[a] == j as usize);
            assert(paths@.len() == rows@.len());
            assert(vstd::std_specs::vec::spec_vec_len(&paths) == paths@.len()) by {
                broadcast use vstd::std_specs::vec::axiom_spec_len;
            }
            assert(j == j as usize as int);
            assert(0 <= a < out@.len());
            assert(out@[a].file_path@ == paths@[order@[a] as int]@);
            assert(order@[a] as int == j);
            assert(out@[a].file_path@ == paths@[j]@);
            assert(spec_has_row_for(out@, paths@[j]@));
            assert(spec_has_row_for(out@, results@[k].mutation.file@));
        }
        assert(spec_report_complete(out@, results@));
    }
    out
}

/// Assembles the overall run statistics: the global counts and the
/// sorted per-file rows.
pub fn generate_report(
    results: &Vec<MutationResult>,
    duration_ms: u64,
    files_tested: usize,
) -> (r: MutationStats)
    ensures
        r.total_mutations == results@.len(),
        r.behavioral_kills == count_kill_type(results@, KillType::BehavioralKill),
        r.compile_errors == count_kill_type(results@, KillType::CompileError),
        r.survived == count_kill_type(results@, KillType::Survived),
        r.total_mutations == r.survived + r.behavioral_kills + r.compile_errors,
        r.duration_ms == duration_ms,
        r.files_tested == files_tested,
        spec_rows_sorted(r.per_file_stats@),
        spec_rows_ok(r.per_file_stats@, results@),
        spec_rows_distinct(r.per_file_stats@),
        spec_report_complete(r.per_file_stats@, results@),
{
    let summary = calculate_summary_stats(results);
    let per_file_stats = calculate_per_file_stats(results);
    MutationStats {
        total_mutations: summary.total,
        behavioral_kills: summary.behavioral_kills,
        compile_errors: summary.compile_errors,
        survived: summary.survived,
        duration_ms,
        files_tested,
        per_file_stats,
    }
}

/// A field-wise copy of a per-file row.
pub fn clone_file_stats(fs: &FileStats) -> (c: FileStats)
    ensures
        c.file_path == fs.file_path,
        c.total_mutations == fs.total_mutations,
        c.behavioral_kills == fs.behavioral_kills,
        c.compile_errors == fs.compile_errors,
        c.survived == fs.survived,
        c.kill_rate == fs.kill_rate,
        c.survived_mutations@ == fs.survived_mutations@,
{
    let mut survived_mutations: Vec<Mutation> = Vec::new();
    let k = fs.survived_mutations.len();
    let mut i: usize = 0;
    while i < k
        invariant
            k == fs.survived_mutations@.len(),
            i <= k,
            survived_mutations@ == fs.survived_mutations@.subrange(0, i as int),
        decreases k - i,
    {
        survived_mutations.push(clone_mutation(&fs.survived_mutations[i]));
        i = i + 1;
        assert(survived_mutations@ =~= fs.survived_mutations@.subrange(0, i as int));
    }
    proof {
        assert(survived_mutations@ =~= fs.survived_mutations@);
    }
    FileStats {
        file_path: fs.file_path.clone(),
        total_mutations: fs.total_mutations,
        behavioral_kills: fs.behavioral_kills,
        compile_errors: fs.compile_errors,
        survived: fs.survived,
        kill_rate: fs.kill_rate,
        survived_mutations,
    }
}

/// The traffic-light rating of a file's kill rate.
#[derive(Debug, Clone, Copy, PartialEq, Eq, Structural)]
pub enum CoverageStatus {
    Green,
    Yellow,
    Red,
}

/// Rates a file: green at or above 95%, yellow at or above 80%, red below.
pub fn get_status_icon(kill_rate: u64) -> (r: CoverageStatus)
    ensures
        kill_rate >= 9500 ==> r == CoverageStatus::Green,
        8000 <= kill_rate < 9500 ==> r == CoverageStatus::Yellow,
        kill_rate < 8000 ==> r == CoverageStatus::Red,
{
    if kill_rate >= 9500 {
        CoverageStatus::Green
    } else if kill_rate >= 8000 {
        CoverageStatus::Yellow
    } else {
        CoverageStatus::Red
    }
}

/// Grades a run by its behavioral kill rate.
pub fn get_coverage_grade(behavioral_rate: u64) -> (r: &'static str)
    ensures
        behavioral_rate >= 9500 ==> r@ == "Excellent"@,
        8000 <= behavioral_rate < 9500 ==> r@ == "Good"@,
        6000 <= behavioral_rate < 8000 ==> r@ == "Moderate"@,
        behavioral_rate < 6000 ==> r@ == "Needs improvement"@,
{
    if behavioral_rate >= 9500 {
        "Excellent"
    } else if behavioral_rate >= 8000 {
        "Good"
    } else if behavioral_rate >= 6000 {
        "Moderate"
    } else {
        "Needs improvement"
    }
}

/// A condition worth surfacing to the user after a run.
#[derive(Debug, Clone, Copy, PartialEq, Eq, Structural)]
pub enum RunWarning {
    /// The behavioral kill rate is suspiciously close to perfect on a
    /// large run; test detection may be broken.
    SuspiciousKillRate,
    /// Some mutations found no matching test file.
    NoMatchingTests { count: usize },
    /// More than one mutation in twenty timed out.
    Timeouts { count: usize },
}

/// How many results mention that no test file matched.
pub open spec fn count_no_match_outputs(rs: Seq<MutationResult>) -> int
    decreases rs.len(),
{
    if rs.len() == 0 {
        0
    } else {
        count_no_match_outputs(rs.drop_last()) + if spec_contains(
            rs.last().test_output@,
            "had no matches"@,
        ) {
            1int
        } else {
            0int
        }
    }
}

/// How many results mention a timeout.
pub open spec fn count_timeout_outputs(rs: Seq<MutationResult>) -> int
    decreases rs.len(),
{
    if rs.len() == 0 {
        0
    } else {
        count_timeout_outputs(rs.drop_last()) + if spec_contains(
            rs.last().test_output@,
            "timeout"@,
        ) || spec_contains(rs.last().test_output@, "timed out"@) {
            1int
        } else {
            0int
        }
    }
}

/// The warnings a run deserves, in display order.
pub open spec fn spec_run_warnings(stats: SummaryStats, rs: Seq<MutationResult>) -> Seq<
    RunWarning,
> {
    let base = Seq::<RunWarning>::empty();
    let with_suspicious: Seq<RunWarning> = if stats.behavioral_rate >= 9950 && stats.total > 100 {
        base.push(RunWarning::SuspiciousKillRate)
    } else {
        base
    };
    let nmc = count_no_match_outputs(rs);
    let with_no_match: Seq<RunWarning> = if nmc > 0 {
        with_suspicious.push(RunWarning::NoMatchingTests { count: nmc as usize })
    } else {
        with_suspicious
    };
    let toc = count_timeout_outputs(rs);
    if toc > stats.total as int / 20 {
        with_no_match.push(RunWarning::Timeouts { count: toc as usize })
    } else {
        with_no_match
    }
}

/// Detects the conditions the reporter warns about: a suspiciously perfect
/// kill rate on a large run, mutations with no matching test file, and an
/// excessive share of timeouts.
pub fn detect_and_warn_issues(stats: &SummaryStats, results: &Vec<MutationResult>) -> (r: Vec<
    RunWarning,
>)
    requires
        results@.len() <= usize::MAX,
    ensures
        r@ == spec_run_warnings(*stats, results@),
{
    let n = results.len();
    let mut warnings: Vec<RunWarning> = Vec::new();
    if stats.behavioral_rate >= 9950 && stats.total > 100 {
        warnings.push(RunWarning::SuspiciousKillRate);
    }
    let mut no_matches_count: usize = 0;
    let mut timeout_count: usize = 0;
    let mut i: usize = 0;
    while i < n
        invariant
            n == results@.len(),
            i <= n,
            no_matches_count == count_no_match_outputs(results@.subrange(0, i as int)),
            timeout_count == count_timeout_outputs(results@.subrange(0, i as int)),
            no_matches_count <= i,
            timeout_count <= i,
        decreases n - i,
    {
        let ghost prefix = results@.subrange(0, i as int);
        if str_contains(results[i].test_output.as_str(), "had no matches") {
            no_matches_count = no_matches_count + 1;
        }
        if str_contains(results[i].test_output.as_str(), "timeout") || str_contains(
            results[i].test_output.as_str(),
            "timed out",
        ) {
            timeout_count = timeout_count + 1;
        }
        i = i + 1;
        proof {
            assert(results@.subrange(0, i as int).drop_last() =~= prefix);
        }
    }
    proof {
        assert(results@.subrange(0, n as int) =~= results@);
    }
    if no_matches_count > 0 {
        warnings.push(RunWarning::NoMatchingTests { count: no_matches_count });
    }
    if timeout_count > stats.total / 20 {
        warnings.push(RunWarning::Timeouts { count: timeout_count });
    }
    proof {
        assert(warnings@ =~= spec_run_warnings(*stats, results@));
    }
    warnings
}

} // verus!
