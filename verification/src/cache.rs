//! Content hashing and cache bookkeeping values.

use std::hash::{Hash, Hasher};

use vstd::prelude::*;

verus! {

/// Fast hash of file contents, used to key cached test results within a
/// single run.
#[derive(Debug, Clone, Copy, PartialEq, Eq, Hash, Structural)]
pub struct ContentHash(pub u64);

impl ContentHash {
    /// Hashes file contents.
    ///
    /// Relies on `ahash::AHasher::default` and the `Hash` implementation of
    /// `str`: the default hasher uses keys fixed for the process, so equal
    /// contents hash equal within one run. The keys are generated anew each
    /// process, so nothing is promised about the value itself.
    #[verifier::external_body]
    pub fn from_content(content: &str) -> ContentHash {
        let mut hasher = ahash::AHasher::default();
        content.hash(&mut hasher);
        ContentHash(hasher.finish())
    }
}

/// A cached test result, stamped with the time it was stored.
#[derive(Debug, Clone)]
pub struct CachedTestResult {
    pub success: bool,
    pub output: String,
    pub cached_at_ms: u64,
    pub execution_time_ms: u64,
}

impl CachedTestResult {
    /// A cached entry is stale once its age exceeds `max_age_ms`; an entry
    /// stamped in the future (a clock that went backwards) is treated as
    /// stale too.
    pub fn is_stale(&self, max_age_ms: u64, now_ms: u64) -> (r: bool)
        ensures
            r == if now_ms >= self.cached_at_ms {
                now_ms - self.cached_at_ms > max_age_ms
            } else {
                true
            },
    {
        if now_ms >= self.cached_at_ms {
            now_ms - self.cached_at_ms > max_age_ms
        } else {
            true
        }
    }
}

/// Cache sizes, for diagnostics.
#[derive(Debug, Clone)]
pub struct CacheStats {
    pub baseline_cache_size: usize,
    pub mutation_cache_size: usize,
    pub content_hash_cache_size: usize,
}

/// Batch operations over many file contents.
pub struct BatchProcessor;

impl BatchProcessor {
    /// Hashes a batch of contents, one hash per entry.
    pub fn batch_hash_contents(contents: &Vec<String>) -> (r: Vec<ContentHash>)
        ensures
            r@.len() == contents@.len(),
    {
        let n = contents.len();
        let mut r: Vec<ContentHash> = Vec::new();
        let mut i: usize = 0;
        while i < n
            invariant
                n == contents@.len(),
                i <= n,
                r@.len() == i,
            decreases n - i,
        {
            r.push(ContentHash::from_content(contents[i].as_str()));
            i = i + 1;
        }
        r
    }
}

} // verus!
