//! The concurrent quality store: batch coalescing, cache TTL, the
//! parallel processor and the streaming analyzer.

use gdk::errors::GdkError;
use gdk::performance::{
    ConcurrentThreadManager, ParallelCommitProcessor, StreamingAnalyzer, ThreadUpdate,
    TrendDirection,
};
use gdk::{CommitNode, ConvergenceMetrics, ThreadColor};

fn update(path: &str, score: u32) -> ThreadUpdate {
    ThreadUpdate {
        file_path: path.to_string(),
        lint_score: score,
        type_check_score: score,
        test_coverage: score,
        functionality_score: score,
    }
}

fn commit(hash: &str, health: u32) -> CommitNode {
    CommitNode {
        id: 1,
        hash: hash.to_string(),
        parent_hashes: vec![],
        message: "step".to_string(),
        timestamp: 0,
        file_threads: vec![],
        health_score: health,
        convergence_metrics: ConvergenceMetrics {
            attempts: 1,
            successful_builds: 1,
            test_pass_rate: health,
            quality_trend: vec![],
            is_converged: false,
        },
    }
}

/// Two updates to one path within a flush window: after the flush the
/// stored record reflects only the later one.
#[test]
fn test_batch_last_write_wins() {
    let mut m = ConcurrentThreadManager::new();
    let mut updates = Vec::new();
    // Fill the buffer to the flush size of fifty, with the contested
    // path updated twice, in order: low then high.
    for i in 0..48 {
        updates.push(update(&format!("src/f{}.rs", i), 5000));
    }
    updates.push(update("src/hot.rs", 2000));
    updates.push(update("src/hot.rs", 9000));
    m.update_threads_batch(&updates).unwrap();

    // The flush happened (the buffer reached fifty) and the last write
    // won: the record derives the colour of the high scores.
    assert_eq!(m.get_thread_cached("src/hot.rs"), Some(ThreadColor::Green));
    assert_eq!(m.get_thread_cached("src/f0.rs"), Some(ThreadColor::Yellow));
    assert_eq!(m.get_thread_cached("src/absent.rs"), None);
}

/// A fresh cache entry answers reads; at sixty seconds it expires; a
/// write invalidates it immediately, whatever its age.
#[test]
fn test_cache_ttl_behavior() {
    let mut m = ConcurrentThreadManager::new();
    let mut updates = Vec::new();
    for i in 0..49 {
        updates.push(update(&format!("src/f{}.rs", i), 5000));
    }
    updates.push(update("src/hot.rs", 9000));
    m.update_threads_batch(&updates).unwrap();

    // First read populates the cache at time zero.
    assert_eq!(
        m.get_thread_cached_at("src/hot.rs", 0),
        Some(ThreadColor::Green)
    );
    // Within sixty seconds the cache answers.
    assert_eq!(
        m.get_thread_cached_at("src/hot.rs", 59_999),
        Some(ThreadColor::Green)
    );
    // At sixty seconds the entry has expired and the canonical record
    // answers (and repopulates the cache).
    assert_eq!(
        m.get_thread_cached_at("src/hot.rs", 60_000),
        Some(ThreadColor::Green)
    );

    // A write to the path invalidates its entry immediately: the next
    // read falls through to the canonical map even at the same instant.
    let one = vec![update("src/hot.rs", 2000)];
    m.update_threads_batch(&one).unwrap();
    let stats = m.get_stats();
    assert!(stats.cached_entries <= 1);
}

/// The stats report the stored and cached counts.
#[test]
fn test_store_stats() {
    let mut m = ConcurrentThreadManager::new();
    let mut updates = Vec::new();
    for i in 0..50 {
        updates.push(update(&format!("src/f{}.rs", i), 5000));
    }
    m.update_threads_batch(&updates).unwrap();
    let stats = m.get_stats();
    assert_eq!(stats.active_threads, 50);
    assert!(stats.cache_hit_ratio <= 10000);
}

/// Parallel processing preserves the input order and every result.
#[test]
fn test_process_commits_parallel_order() {
    let mut p = ParallelCommitProcessor::new();
    let commits: Vec<CommitNode> = (0..100).map(|i| commit(&format!("r{}", i), i as u32)).collect();
    let out = p
        .process_commits_parallel(&commits, |c: &CommitNode| Ok(c.health_score * 2))
        .unwrap();
    assert_eq!(out.len(), 100);
    for (i, v) in out.iter().enumerate() {
        assert_eq!(*v, (i as u32) * 2);
    }
    assert_eq!(p.get_metrics().commits_processed, 100);
}

/// One failing revision fails the whole batch with no partial results.
#[test]
fn test_process_commits_parallel_fails_whole() {
    let mut p = ParallelCommitProcessor::new();
    let commits: Vec<CommitNode> = (0..10).map(|i| commit(&format!("r{}", i), i as u32)).collect();
    let out: Result<Vec<u32>, GdkError> = p.process_commits_parallel(&commits, |c: &CommitNode| {
        if c.health_score == 7 {
            Err(GdkError::ThreadError {
                file_path: "x".to_string(),
                operation: "score".to_string(),
                thread_id: 0,
                details: "failed".to_string(),
            })
        } else {
            Ok(c.health_score)
        }
    });
    assert!(out.is_err());
}

/// The chunk size derives from the workload, the processors and the
/// cache ratio, clamped to its band.
#[test]
fn test_chunk_sizing() {
    // 1000 items over 4 processors: base 62, scaled down to 49 with a
    // cold cache and up to 93 with a warm one.
    assert_eq!(ParallelCommitProcessor::chunk_size_for(1000, 4, 0), 49);
    assert_eq!(ParallelCommitProcessor::chunk_size_for(1000, 4, 9000), 93);
    // Tiny workloads clamp to one; huge ones to a thousand.
    assert_eq!(ParallelCommitProcessor::chunk_size_for(1, 64, 0), 1);
    assert_eq!(ParallelCommitProcessor::chunk_size_for(10_000_000, 1, 9000), 1000);
}

/// Counters reset to zero.
#[test]
fn test_processor_reset() {
    let mut p = ParallelCommitProcessor::new();
    let commits: Vec<CommitNode> = (0..5).map(|i| commit(&format!("r{}", i), i as u32)).collect();
    p.process_commits_parallel(&commits, |c: &CommitNode| Ok(c.health_score)).unwrap();
    assert_eq!(p.get_metrics().commits_processed, 5);
    p.reset();
    assert_eq!(p.get_metrics().commits_processed, 0);
}

/// The streaming analyzer keeps exact mean and sample variance and
/// classifies the short-term trend.
#[test]
fn test_stream_processing() {
    let mut a = StreamingAnalyzer::new(32);
    let r1 = a.process_commit_streaming(&commit("r0", 8000)).unwrap();
    assert_eq!(r1.sample_count, 1);
    assert_eq!(r1.current_avg, 8000);
    assert_eq!(r1.current_variance, 0);
    assert!(r1.is_stable);
    assert_eq!(r1.trend_direction, TrendDirection::Insufficient);

    let _ = a.process_commit_streaming(&commit("r1", 9000)).unwrap();
    let r3 = a.process_commit_streaming(&commit("r2", 10000)).unwrap();
    assert_eq!(r3.sample_count, 3);
    // Mean of 0.8, 0.9 and 1.0.
    assert_eq!(r3.current_avg, 9000);
    // Sample variance: (3 * 245e6 - 27000^2) / (3 * 2 * 10000) = 100.
    assert_eq!(r3.current_variance, 100);
    assert!(r3.is_stable);
    assert_eq!(r3.trend_direction, TrendDirection::Improving);
}

/// A sliding window beyond its capacity drops the oldest sample.
#[test]
fn test_stream_window_and_degrading() {
    let mut a = StreamingAnalyzer::new(4);
    for h in [9000u32, 9000, 5000, 4000] {
        let _ = a.process_commit_streaming(&commit("r", h)).unwrap();
    }
    let r = a.process_commit_streaming(&commit("r", 3000)).unwrap();
    // The window holds 9000, 5000, 4000, 3000: clearly degrading.
    assert_eq!(r.trend_direction, TrendDirection::Degrading);
    assert_eq!(r.sample_count, 5);
}
