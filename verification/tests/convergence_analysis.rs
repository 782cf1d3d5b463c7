//! The convergence analyzer: factors, weighted confidence, gating,
//! recommendations and prediction.

use gdk::convergence::{snapshot_of_history, ConvergenceAnalyzer, ConvergenceFactors, Recommendation};
use gdk::{CommitNode, ConvergenceMetrics, FileThread, ThreadColor};

fn commit(hash: &str, health: u32, pass_rate: u32, builds: u32, attempts: u32) -> CommitNode {
    CommitNode {
        id: 1,
        hash: hash.to_string(),
        parent_hashes: vec![],
        message: "step".to_string(),
        timestamp: 0,
        file_threads: vec![],
        health_score: health,
        convergence_metrics: ConvergenceMetrics {
            attempts,
            successful_builds: builds,
            test_pass_rate: pass_rate,
            quality_trend: vec![],
            is_converged: false,
        },
    }
}

fn thread(path: &str, color: ThreadColor) -> FileThread {
    FileThread {
        file_path: path.to_string(),
        thread_id: 7,
        color_status: color,
        lint_score: 9000,
        type_check_score: 9000,
        test_coverage: 9000,
        functionality_score: 9000,
        history: vec![],
    }
}

/// An empty history yields the fixed zero result with the lone
/// no-history advisory, never an error.
#[test]
fn test_empty_history_analysis() {
    let analyzer = ConvergenceAnalyzer::new();
    let result = analyzer.analyze_convergence(&vec![]).unwrap();
    assert!(!result.is_converged);
    assert_eq!(result.confidence_score, 0);
    assert_eq!(result.convergence_factors.quality_stability, 0);
    assert_eq!(result.convergence_factors.thread_health_ratio, 0);
    assert_eq!(result.recommendations, vec![Recommendation::NoHistory]);
}

/// A steady, healthy history converges with full stability.
#[test]
fn test_stable_history_converges() {
    let analyzer = ConvergenceAnalyzer::new();
    let mut history = Vec::new();
    for i in 0..5 {
        let mut c = commit(&format!("r{}", i), 9000, 9000, 1, 1);
        c.file_threads = vec![
            thread("a.rs", ThreadColor::Green),
            thread("b.rs", ThreadColor::LightGreen),
        ];
        history.push(c);
    }
    let result = analyzer.analyze_convergence(&history).unwrap();
    let f = &result.convergence_factors;
    // Zero variance and a high mean: full stability.
    assert_eq!(f.quality_stability, 10000);
    // Both files healthy.
    assert_eq!(f.thread_health_ratio, 10000);
    // Every revision passes the threshold.
    assert_eq!(f.test_pass_consistency, 10000);
    // Every attempt built.
    assert_eq!(f.build_success_rate, 10000);
    // Flat history: no positive slope.
    assert_eq!(f.trend_improvement, 0);
    // Confidence: 0.30 + 0.25 + 0.20 + 0.15 + 0 = 0.90.
    assert_eq!(result.confidence_score, 9000);
    assert!(result.is_converged);
}

/// The weighted confidence of all-ones factors is one, of all-zeros
/// zero, and of the first factor alone its weight of 0.30.
#[test]
fn test_weighted_confidence_arithmetic() {
    let analyzer = ConvergenceAnalyzer::new();
    let ones = ConvergenceFactors {
        quality_stability: 10000,
        thread_health_ratio: 10000,
        test_pass_consistency: 10000,
        build_success_rate: 10000,
        trend_improvement: 10000,
    };
    let (_, c) = analyzer.determine_convergence(&ones);
    assert_eq!(c, 10000);

    let zeros = ConvergenceFactors {
        quality_stability: 0,
        thread_health_ratio: 0,
        test_pass_consistency: 0,
        build_success_rate: 0,
        trend_improvement: 0,
    };
    let (_, c) = analyzer.determine_convergence(&zeros);
    assert_eq!(c, 0);

    let first_only = ConvergenceFactors {
        quality_stability: 10000,
        thread_health_ratio: 0,
        test_pass_consistency: 0,
        build_success_rate: 0,
        trend_improvement: 0,
    };
    let (_, c) = analyzer.determine_convergence(&first_only);
    assert_eq!(c, 3000);
}

/// A zero health ratio blocks convergence whatever the other factors.
#[test]
fn test_convergence_gating() {
    let analyzer = ConvergenceAnalyzer::new();
    let f = ConvergenceFactors {
        quality_stability: 10000,
        thread_health_ratio: 0,
        test_pass_consistency: 10000,
        build_success_rate: 10000,
        trend_improvement: 10000,
    };
    let (converged, confidence) = analyzer.determine_convergence(&f);
    // The other four factors carry 0.70 of the weight.
    assert_eq!(confidence, 7500);
    assert!(!converged);
}

/// The health ratio collapses to zero below the configured minimum.
#[test]
fn test_health_ratio_hard_gate() {
    let analyzer = ConvergenceAnalyzer::new();
    let mut c = commit("r0", 9000, 9000, 1, 1);
    c.file_threads = vec![
        thread("a.rs", ThreadColor::Green),
        thread("b.rs", ThreadColor::Red),
        thread("c.rs", ThreadColor::Red),
    ];
    let history = vec![c];
    // One healthy of three is below the 0.7 minimum: the factor is zero,
    // not a third.
    let f = analyzer.calculate_thread_health_ratio(&history);
    assert_eq!(f, 0);
}

/// The stability factor is an all-or-nothing cliff on the mean.
#[test]
fn test_stability_cliff_on_low_mean() {
    let analyzer = ConvergenceAnalyzer::new();
    // Zero variance but mean below the 0.8 threshold: stability zero.
    let history: Vec<CommitNode> = (0..5).map(|i| commit(&format!("r{}", i), 7000, 9000, 1, 1)).collect();
    assert_eq!(analyzer.calculate_quality_stability(&history), 0);
}

/// Red files in the latest revision appear in the advisories with their
/// count and up to three paths.
#[test]
fn test_red_file_recommendations() {
    let analyzer = ConvergenceAnalyzer::new();
    let mut c = commit("r0", 2000, 2000, 0, 1);
    c.file_threads = vec![
        thread("a.rs", ThreadColor::Red),
        thread("b.rs", ThreadColor::Red),
        thread("c.rs", ThreadColor::Red),
        thread("d.rs", ThreadColor::Red),
    ];
    let history = vec![c];
    let result = analyzer.analyze_convergence(&history).unwrap();
    let red = result
        .recommendations
        .iter()
        .find_map(|r| match r {
            Recommendation::RedFiles { count, files } => Some((*count, files.clone())),
            _ => None,
        })
        .expect("red files advisory expected");
    assert_eq!(red.0, 4);
    assert_eq!(red.1, vec!["a.rs".to_string(), "b.rs".to_string(), "c.rs".to_string()]);
    let msg = Recommendation::RedFiles { count: red.0, files: red.1 }.message();
    assert_eq!(msg, "Critical: 4 files have red status: a.rs, b.rs, c.rs");
}

/// A healthy analysis carries the single on-track advisory.
#[test]
fn test_on_track_recommendation() {
    let analyzer = ConvergenceAnalyzer::new();
    // Early strong improvement, then a steady healthy plateau: every
    // factor clears its advisory threshold.
    let healths = [0u32, 1000, 2000, 3000, 4000, 9000, 9000, 9000, 9000, 9000];
    let mut history = Vec::new();
    for (i, &h) in healths.iter().enumerate() {
        let mut c = commit(&format!("r{}", i), h, 9000, 1, 1);
        c.file_threads = vec![thread("a.rs", ThreadColor::Green)];
        history.push(c);
    }
    let result = analyzer.analyze_convergence(&history).unwrap();
    assert_eq!(result.recommendations.len(), 1);
    assert_eq!(
        result.recommendations[0].message(),
        "System appears to be converging well. Continue current approach."
    );
}

/// The advisory for a low health share names the actual and target
/// percentages.
#[test]
fn test_low_health_message() {
    let r = Recommendation::LowHealthRatio { ratio: 0, target: 7000 };
    assert_eq!(
        r.message(),
        "Only 0.0% of threads are healthy. Target: 70.0%. Focus on improving failing files."
    );
}

/// Prediction needs at least three revisions.
#[test]
fn test_prediction_needs_history() {
    let analyzer = ConvergenceAnalyzer::new();
    let history = vec![commit("r0", 5000, 5000, 1, 1), commit("r1", 6000, 5000, 1, 1)];
    assert_eq!(analyzer.predict_convergence_time(&history).unwrap(), None);
}

/// A rising history predicts the iterations to the threshold.
#[test]
fn test_prediction_improving() {
    let analyzer = ConvergenceAnalyzer::new();
    // Healths 5000, 6000, 7000: rate (7000 - 5000) / 3, remaining 1000.
    let history = vec![
        commit("r0", 5000, 5000, 1, 1),
        commit("r1", 6000, 5000, 1, 1),
        commit("r2", 7000, 5000, 1, 1),
    ];
    // remaining = 8000 - 7000 = 1000; rate = 2000 / 3; prediction is the
    // rounded-up quotient: 1000 * 3 / 2000 = 1.5, so 2.
    assert_eq!(analyzer.predict_convergence_time(&history).unwrap(), Some(2));
}

/// No improvement means no prediction; a met threshold predicts zero.
#[test]
fn test_prediction_edges() {
    let analyzer = ConvergenceAnalyzer::new();
    let flat = vec![
        commit("r0", 5000, 5000, 1, 1),
        commit("r1", 5000, 5000, 1, 1),
        commit("r2", 5000, 5000, 1, 1),
    ];
    assert_eq!(analyzer.predict_convergence_time(&flat).unwrap(), None);

    let done = vec![
        commit("r0", 8000, 5000, 1, 1),
        commit("r1", 8500, 5000, 1, 1),
        commit("r2", 9000, 5000, 1, 1),
    ];
    assert_eq!(analyzer.predict_convergence_time(&done).unwrap(), Some(0));
}

/// A positive least-squares slope raises the trend factor.
#[test]
fn test_trend_improvement_positive() {
    let analyzer = ConvergenceAnalyzer::new();
    let history: Vec<CommitNode> =
        (0..10).map(|i| commit(&format!("r{}", i), 1000 * i as u32, 5000, 1, 1)).collect();
    // Health rises by 1000 per step: the slope is exactly 1000 units.
    assert_eq!(analyzer.calculate_trend_improvement(&history), 1000);
}

/// The per-revision snapshot: trailing window newest first, counts,
/// window mean and the monotone convergence flag.
#[test]
fn test_snapshot_of_history() {
    let empty = snapshot_of_history(&vec![]);
    assert_eq!(empty.attempts, 0);
    assert!(empty.quality_trend.is_empty());
    assert_eq!(empty.test_pass_rate, 0);
    assert_eq!(empty.successful_builds, 0);
    assert!(!empty.is_converged);

    // Chronologically declining health: the newest-first window is
    // nondecreasing and the three newest average above 0.8.
    let healths = [9000u32, 8600, 8400];
    let history: Vec<CommitNode> = healths
        .iter()
        .enumerate()
        .map(|(i, &h)| commit(&format!("r{}", i), h, h, 1, 1))
        .collect();
    let m = snapshot_of_history(&history);
    assert_eq!(m.attempts, 3);
    assert_eq!(m.quality_trend, vec![8400, 8600, 9000]);
    // All three window entries lie above 0.7.
    assert_eq!(m.successful_builds, 3);
    // Mean of the window.
    assert_eq!(m.test_pass_rate, (8400 + 8600 + 9000) / 3);
    assert!(m.is_converged);

    // Chronologically improving health breaks the newest-first monotone
    // rule, so the flag stays off.
    let rising: Vec<CommitNode> = [8400u32, 8600, 9000]
        .iter()
        .enumerate()
        .map(|(i, &h)| commit(&format!("s{}", i), h, h, 1, 1))
        .collect();
    let m = snapshot_of_history(&rising);
    assert_eq!(m.quality_trend, vec![9000, 8600, 8400]);
    assert!(!m.is_converged);

    // Only the last ten revisions enter the window.
    let long: Vec<CommitNode> = (0..15)
        .map(|i| commit(&format!("t{}", i), 1000 * (i as u32 % 10), 5000, 1, 1))
        .collect();
    let m = snapshot_of_history(&long);
    assert_eq!(m.attempts, 15);
    assert_eq!(m.quality_trend.len(), 10);
    assert_eq!(m.quality_trend[0], 4000);
}
