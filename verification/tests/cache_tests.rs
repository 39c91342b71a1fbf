use pathogen::cache::{BatchProcessor, CachedTestResult, ContentHash};

#[test]
fn test_content_hash_deterministic_within_process() {
    let a = ContentHash::from_content("const x = 1;");
    let b = ContentHash::from_content("const x = 1;");
    let c = ContentHash::from_content("const x = 2;");
    assert_eq!(a, b);
    assert_ne!(a, c);
}

#[test]
fn test_cached_result_staleness() {
    let entry = CachedTestResult {
        success: true,
        output: "0 fail".to_string(),
        cached_at_ms: 1000,
        execution_time_ms: 5,
    };
    assert!(!entry.is_stale(300, 1200));
    assert!(entry.is_stale(300, 1400));
    // A timestamp in the future counts as stale.
    assert!(entry.is_stale(300, 500));
}

#[test]
fn test_batch_hash_contents() {
    let contents = vec!["a".to_string(), "b".to_string(), "a".to_string()];
    let hashes = BatchProcessor::batch_hash_contents(&contents);
    assert_eq!(hashes.len(), 3);
    assert_eq!(hashes[0], hashes[2]);
}
