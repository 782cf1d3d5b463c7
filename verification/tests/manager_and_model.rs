//! The thread manager, the data model, the error kinds, the validator
//! suite and the visualization helpers.

use gdk::errors::{FsErrorKind, GdkError, GitErrorKind};
use gdk::threads::{ColorRules, ThreadManager};
use gdk::validation::{count_occurrences, ValidationSuite, ValidatorResult};
use gdk::visualization::{
    build_tree_nodes, AsciiStyle, TreeVisualization, TreeVisualizer, VisualizationConfig,
};
use gdk::{
    decimal_string, CommitNode, ConvergenceMetrics, FileThread, ThreadColor, ThreadMetrics,
    ThreadState,
};

/// Convergence snapshots carry their counters and trend unchanged.
#[test]
fn test_convergence_metrics() {
    let metrics = ConvergenceMetrics {
        attempts: 10,
        successful_builds: 7,
        test_pass_rate: 8500,
        quality_trend: vec![6000, 7000, 7500, 8000, 8500],
        is_converged: true,
    };

    assert!(metrics.is_converged);
    assert_eq!(metrics.attempts, 10);
    assert_eq!(metrics.successful_builds, 7);
    assert_eq!(metrics.test_pass_rate, 8500);

    let trend = &metrics.quality_trend;
    assert!(trend.len() > 0);
    assert!(trend.first().unwrap() < trend.last().unwrap());
}

/// Thread metrics hold their measurements unchanged.
#[test]
fn test_thread_metrics() {
    let metrics = ThreadMetrics {
        lines_added: 50,
        lines_removed: 10,
        complexity_delta: 1500,
        quality_score: 8500,
    };

    assert_eq!(metrics.lines_added, 50);
    assert_eq!(metrics.lines_removed, 10);
    assert_eq!(metrics.complexity_delta, 1500);
    assert_eq!(metrics.quality_score, 8500);
    assert!(metrics.quality_score <= 10000);
}

/// A file thread holds its identity, scores and colour.
#[test]
fn test_file_thread() {
    let thread_id: u128 = 0x1234_5678_9abc_def0;
    let thread = FileThread {
        file_path: "src/lib.rs".to_string(),
        thread_id,
        color_status: ThreadColor::Green,
        lint_score: 9500,
        type_check_score: 10000,
        test_coverage: 8800,
        functionality_score: 9200,
        history: vec![],
    };

    assert_eq!(thread.file_path, "src/lib.rs");
    assert_eq!(thread.thread_id, thread_id);
    assert_eq!(thread.color_status, ThreadColor::Green);
    assert!(thread.lint_score <= 10000);
    assert!(thread.type_check_score <= 10000);
    assert!(thread.test_coverage <= 10000);
    assert!(thread.functionality_score <= 10000);
}

/// A commit node holds its identity, parents and snapshot.
#[test]
fn test_commit_node() {
    let commit_id: u128 = 42;
    let commit_hash = "abc123def456".to_string();
    let timestamp = 1234567890;

    let commit = CommitNode {
        id: commit_id,
        hash: commit_hash.clone(),
        parent_hashes: vec!["parent123".to_string()],
        message: "Test commit".to_string(),
        timestamp,
        file_threads: vec![],
        health_score: 8500,
        convergence_metrics: ConvergenceMetrics {
            attempts: 1,
            successful_builds: 1,
            test_pass_rate: 10000,
            quality_trend: vec![8500],
            is_converged: true,
        },
    };

    assert_eq!(commit.id, commit_id);
    assert_eq!(commit.hash, commit_hash);
    assert_eq!(commit.parent_hashes.len(), 1);
    assert_eq!(commit.message, "Test commit");
    assert_eq!(commit.timestamp, timestamp);
    assert!(commit.health_score <= 10000);
    assert!(commit.convergence_metrics.is_converged);
}

/// Error categories and retry policies per kind.
#[test]
fn test_error_categories() {
    let errors = vec![
        (
            GdkError::git_error("test".to_string(), GitErrorKind::Other),
            "git",
            false,
        ),
        (
            GdkError::validation_error("lint".to_string(), "rule".to_string(), "details".to_string()),
            "validation",
            false,
        ),
        (
            GdkError::convergence_error("reason".to_string(), 10, 7000, 8000),
            "convergence",
            true,
        ),
        (
            GdkError::configuration_error("setting".to_string(), "message".to_string(), None),
            "configuration",
            false,
        ),
    ];

    for (error, expected_category, expected_recoverable) in errors {
        assert_eq!(error.category(), expected_category);
        assert_eq!(error.is_recoverable(), expected_recoverable);
    }
}

/// Errors keep their context fields.
#[test]
fn test_error_context() {
    let git_error = GdkError::git_error("commit operation".to_string(), GitErrorKind::Other);

    match git_error {
        GdkError::GitError { operation, kind } => {
            assert_eq!(operation, "commit operation");
            assert_eq!(kind, GitErrorKind::Other);
        }
        _ => panic!("Expected GitError variant"),
    }

    let convergence_error = GdkError::convergence_error("timeout".to_string(), 50, 7500, 9000);

    match convergence_error {
        GdkError::ConvergenceError {
            reason,
            iterations,
            last_score,
            threshold,
        } => {
            assert_eq!(reason, "timeout");
            assert_eq!(iterations, 50);
            assert_eq!(last_score, 7500);
            assert_eq!(threshold, 9000);
        }
        _ => panic!("Expected ConvergenceError variant"),
    }
}

/// Retry policy per kind: transient git locks and timeout-class file
/// errors retry; the rest of those categories do not.
#[test]
fn test_error_handling() {
    let git_error = GdkError::git_error("test operation".to_string(), GitErrorKind::Other);
    assert_eq!(git_error.category(), "git");
    assert!(!git_error.is_recoverable());

    let locked = GdkError::git_error("push".to_string(), GitErrorKind::Locked);
    assert!(locked.is_recoverable());

    let fs_denied = GdkError::file_system_error(
        "/tmp/x".to_string(),
        "write".to_string(),
        FsErrorKind::PermissionDenied,
    );
    assert!(fs_denied.is_recoverable());
    let fs_other = GdkError::file_system_error(
        "/tmp/x".to_string(),
        "write".to_string(),
        FsErrorKind::Other,
    );
    assert!(!fs_other.is_recoverable());

    let validation_error = GdkError::validation_error(
        "lint".to_string(),
        "style_check".to_string(),
        "Missing documentation".to_string(),
    );
    assert_eq!(validation_error.category(), "validation");
    assert!(!validation_error.is_recoverable());

    let convergence_error =
        GdkError::convergence_error("Failed to meet threshold".to_string(), 10, 7000, 8000);
    assert_eq!(convergence_error.category(), "convergence");
    assert!(convergence_error.is_recoverable());
}

/// A thread state snapshot keeps its diff and measurements.
#[test]
fn test_thread_state_history() {
    let state = ThreadState {
        commit_hash: "abc123".to_string(),
        diff_content: "+added line\n-removed line".to_string(),
        metrics: ThreadMetrics {
            lines_added: 1,
            lines_removed: 1,
            complexity_delta: 0,
            quality_score: 8000,
        },
        timestamp: 1234567890,
    };

    assert_eq!(state.commit_hash, "abc123");
    assert!(state.diff_content.contains("+added line"));
    assert!(state.diff_content.contains("-removed line"));
    assert_eq!(state.metrics.lines_added, 1);
    assert_eq!(state.metrics.lines_removed, 1);
    assert_eq!(state.timestamp, 1234567890);
}

/// The model types are safe to share and copy between threads.
#[test]
fn test_data_structure_traits() {
    fn assert_send<T: Send>() {}
    fn assert_sync<T: Sync>() {}

    assert_send::<ThreadColor>();
    assert_sync::<ThreadColor>();

    assert_send::<ThreadMetrics>();
    assert_sync::<ThreadMetrics>();

    assert_send::<ConvergenceMetrics>();
    assert_sync::<ConvergenceMetrics>();

    let color = ThreadColor::Green;
    let cloned = color.clone();
    assert_eq!(color, cloned);

    let debug_str = format!("{:?}", ThreadColor::Green);
    assert!(debug_str.contains("Green"));
}

/// Thread creation, quality updates and the derived colour.
#[test]
fn test_manager_thread_lifecycle() {
    let mut m = ThreadManager::new();
    let t = m.create_thread("src/lib.rs", "c0").unwrap();
    assert_eq!(t.file_path, "src/lib.rs");
    assert_eq!(t.color_status, ThreadColor::Red);
    assert_eq!(t.history.len(), 1);
    assert_eq!(m.active_threads.len(), 1);

    m.update_thread_quality("src/lib.rs", 9500, 9500, 9500, 9500).unwrap();
    assert_eq!(m.active_threads[0].color_status, ThreadColor::Green);
    assert_eq!(m.active_threads[0].lint_score, 9500);

    // An update to an unknown path fails with a thread error.
    let err = m.update_thread_quality("missing.rs", 1, 1, 1, 1).unwrap_err();
    assert_eq!(err.category(), "thread");

    // Re-creating a path replaces the record, not duplicates it.
    m.create_thread("src/lib.rs", "c1").unwrap();
    assert_eq!(m.active_threads.len(), 1);
    assert_eq!(m.active_threads[0].color_status, ThreadColor::Red);
}

/// The configured rules weight the colour derivation.
#[test]
fn test_rules_weighted_color() {
    let m = ThreadManager::new();
    assert_eq!(m.color_rules, ColorRules::default());
    // Equal quarter weights: the weighted score is the mean.
    assert_eq!(m.calculate_thread_color(9000, 9000, 9000, 9000), ThreadColor::Green);
    assert_eq!(m.calculate_thread_color(9000, 9000, 9000, 8000), ThreadColor::LightGreen);
    assert_eq!(m.calculate_thread_color(0, 0, 0, 0), ThreadColor::Red);
}

/// History entries append with eviction beyond fifty, and the trend
/// reads newest first.
#[test]
fn test_thread_history_and_trend() {
    let mut m = ThreadManager::new();
    m.create_thread("a.rs", "c0").unwrap();
    for i in 0..5 {
        m.add_thread_state(
            "a.rs",
            &format!("c{}", i + 1),
            "",
            ThreadMetrics {
                lines_added: 1,
                lines_removed: 0,
                complexity_delta: 0,
                quality_score: 5000 + i * 1000,
            },
        )
        .unwrap();
    }
    let trend = m.get_thread_health_trend("a.rs", 3).unwrap();
    assert_eq!(trend, vec![9000, 8000, 7000]);

    for i in 0..60 {
        m.add_thread_state(
            "a.rs",
            &format!("d{}", i),
            "",
            ThreadMetrics {
                lines_added: 0,
                lines_removed: 0,
                complexity_delta: 0,
                quality_score: 1000,
            },
        )
        .unwrap();
    }
    assert_eq!(m.active_threads[0].history.len(), 50);
}

/// Snapshots capture and restore the active threads.
#[test]
fn test_snapshot_roundtrip() {
    let mut m = ThreadManager::new();
    m.create_thread("a.rs", "c0").unwrap();
    m.update_thread_quality("a.rs", 9000, 9000, 9000, 9000).unwrap();
    let id = m.create_snapshot("c0").unwrap();

    m.update_thread_quality("a.rs", 1000, 1000, 1000, 1000).unwrap();
    assert_eq!(m.active_threads[0].color_status, ThreadColor::Red);

    m.restore_from_snapshot(id).unwrap();
    assert_eq!(m.active_threads[0].color_status, ThreadColor::Green);

    let err = m.restore_from_snapshot(0xdead).unwrap_err();
    assert_eq!(err.category(), "validation");
}

/// Statistics count colours and average the latest qualities.
#[test]
fn test_manager_statistics() {
    let mut m = ThreadManager::new();
    m.create_thread("a.rs", "c0").unwrap();
    m.create_thread("b.rs", "c0").unwrap();
    m.update_thread_quality("a.rs", 9500, 9500, 9500, 9500).unwrap();
    let stats = m.get_thread_statistics();
    assert_eq!(stats.total_threads, 2);
    assert_eq!(stats.green_threads, 1);
    assert_eq!(stats.red_threads, 1);
    let greens = m.get_threads_by_color(ThreadColor::Green);
    assert_eq!(greens.len(), 1);
    assert_eq!(greens[0].file_path, "a.rs");
}

/// Per-file convergence needs a full window of high, steady scores.
#[test]
fn test_thread_convergence_window() {
    let mut m = ThreadManager::new();
    m.create_thread("a.rs", "c0").unwrap();
    for i in 0..4 {
        m.add_thread_state(
            "a.rs",
            &format!("c{}", i),
            "",
            ThreadMetrics {
                lines_added: 0,
                lines_removed: 0,
                complexity_delta: 0,
                quality_score: 9000,
            },
        )
        .unwrap();
    }
    // The initial creation state scores zero, so a window of five is
    // not uniformly high; a window of four is.
    assert!(m.analyze_thread_convergence("a.rs", 4).unwrap());
    assert!(!m.analyze_thread_convergence("a.rs", 5).unwrap());
    assert!(!m.analyze_thread_convergence("a.rs", 6).unwrap());
}

/// Decimal rendering of counters.
#[test]
fn test_decimal_rendering() {
    assert_eq!(decimal_string(0), "0");
    assert_eq!(decimal_string(7), "7");
    assert_eq!(decimal_string(42), "42");
    assert_eq!(decimal_string(10000), "10000");
    assert_eq!(decimal_string(4294967295), "4294967295");
}

/// Non-overlapping substring counting over validator output.
#[test]
fn test_count_occurrences() {
    assert_eq!(count_occurrences("warning: a\nwarning: b\n", "warning:"), 2);
    assert_eq!(count_occurrences("error: x", "warning:"), 0);
    assert_eq!(count_occurrences("aaaa", "aa"), 2);
    assert_eq!(count_occurrences("", "x"), 0);
}

/// The standard suite and its summary.
#[test]
fn test_rust_default_suite() {
    let suite = ValidationSuite::rust_default("./repo");
    let summary = suite.get_validator_summary();
    assert_eq!(summary.total_validators, 5);
    assert_eq!(summary.required_validators, 2);
    assert_eq!(summary.total_weight, 10000);
    assert_eq!(summary.validator_names[0], "cargo_check");
    assert_eq!(summary.validator_names[2], "cargo_test");
}

/// Validator scores from observed output counts.
#[test]
fn test_validator_scoring() {
    // A clean exit always scores one.
    assert_eq!(
        ValidationSuite::calculate_validator_score("anything", 0, 9, 9, None, true, 9),
        10000
    );
    // The lint validator loses a tenth per warning, everything on errors.
    assert_eq!(
        ValidationSuite::calculate_validator_score("cargo_clippy", 1, 3, 0, None, false, 0),
        7000
    );
    assert_eq!(
        ValidationSuite::calculate_validator_score("cargo_clippy", 1, 0, 2, None, false, 0),
        0
    );
    // The test validator scores its pass fraction.
    assert_eq!(
        ValidationSuite::calculate_validator_score("cargo_test", 1, 0, 0, Some((3, 4)), false, 0),
        7500
    );
    // The audit validator loses a fifth per vulnerability.
    assert_eq!(
        ValidationSuite::calculate_validator_score("cargo_audit", 1, 0, 0, None, true, 2),
        6000
    );
    // Anything else is pass/fail by exit code.
    assert_eq!(
        ValidationSuite::calculate_validator_score("cargo_fmt", 1, 0, 0, None, false, 0),
        0
    );
}

fn validator_result(name: &str, passed: bool, score: u32) -> ValidatorResult {
    ValidatorResult {
        name: name.to_string(),
        passed,
        score,
        output: String::new(),
        error_output: String::new(),
        execution_time_ms: 1,
        exit_code: if passed { 0 } else { 1 },
    }
}

/// Aggregation weights the scores and enforces the required validators.
#[test]
fn test_suite_aggregation() {
    let suite = ValidationSuite::rust_default("./repo");
    let all_pass = vec![
        validator_result("cargo_check", true, 10000),
        validator_result("cargo_clippy", true, 10000),
        validator_result("cargo_test", true, 10000),
        validator_result("cargo_fmt", true, 10000),
        validator_result("cargo_audit", true, 10000),
    ];
    let r = suite.evaluate_results(all_pass, 5);
    assert_eq!(r.overall_score, 10000);
    assert!(r.passed);
    assert_eq!(r.recommendations.len(), 1);

    let required_failed = vec![
        validator_result("cargo_check", false, 0),
        validator_result("cargo_clippy", true, 10000),
        validator_result("cargo_test", true, 10000),
        validator_result("cargo_fmt", true, 10000),
        validator_result("cargo_audit", true, 10000),
    ];
    let r = suite.evaluate_results(required_failed, 5);
    // 0.25 of the weight scored zero.
    assert_eq!(r.overall_score, 7500);
    assert!(!r.passed);
    assert_eq!(r.recommendations.len(), 1);
    assert_eq!(
        r.recommendations[0],
        "Fix issues reported by the cargo_check validator."
    );
}

/// Message truncation keeps short messages and cuts long ones with dots.
#[test]
fn test_truncate_message() {
    let v = TreeVisualizer::new(VisualizationConfig {
        max_message_length: 10,
        ..VisualizationConfig::default()
    });
    assert_eq!(v.truncate_message("short"), "short");
    assert_eq!(v.truncate_message("exactly 10"), "exactly 10");
    assert_eq!(v.truncate_message("a much longer message"), "a much ...");
}

/// Tree nodes derive short hashes, merge flags and spiral markers.
#[test]
fn test_build_tree_nodes() {
    let v = TreeVisualizer::new(VisualizationConfig::default());
    let mut c1 = CommitNode {
        id: 1,
        hash: "abcdef012345".to_string(),
        parent_hashes: vec!["p1".to_string(), "p2".to_string()],
        message: "Infinite monkey attempt 3".to_string(),
        timestamp: 5,
        file_threads: vec![],
        health_score: 9000,
        convergence_metrics: ConvergenceMetrics {
            attempts: 1,
            successful_builds: 1,
            test_pass_rate: 9000,
            quality_trend: vec![],
            is_converged: false,
        },
    };
    c1.file_threads.push(FileThread {
        file_path: "a.rs".to_string(),
        thread_id: 1,
        color_status: ThreadColor::Green,
        lint_score: 9000,
        type_check_score: 9000,
        test_coverage: 9000,
        functionality_score: 9000,
        history: vec![],
    });
    let nodes = build_tree_nodes(&v, &vec![c1]);
    assert_eq!(nodes.len(), 1);
    assert_eq!(nodes[0].short_hash, "abcdef01");
    assert!(nodes[0].is_merge);
    assert!(nodes[0].is_spiral);
    assert_eq!(nodes[0].thread_colors.len(), 1);

    let tree = TreeVisualization {
        nodes,
        root_nodes: vec![],
        max_depth: 0,
        total_commits: 1,
    };
    let stats = v.calculate_health_statistics(&tree);
    assert_eq!(stats.total_commits, 1);
    assert_eq!(stats.healthy_commits, 1);
    assert_eq!(stats.average_health, 9000);
}

/// The aggregate health of a thread set is the mean functionality.
#[test]
fn test_health_score_of() {
    let mut threads = Vec::new();
    for (i, f) in [8000u32, 9000, 10000].iter().enumerate() {
        threads.push(FileThread {
            file_path: format!("f{}.rs", i),
            thread_id: i as u128,
            color_status: ThreadColor::Green,
            lint_score: 0,
            type_check_score: 0,
            test_coverage: 0,
            functionality_score: *f,
            history: vec![],
        });
    }
    assert_eq!(gdk::health_score_of(&threads), 9000);
    assert_eq!(gdk::health_score_of(&Vec::new()), 0);
}

/// Sample data generation yields the requested shape.
#[test]
fn test_generate_sample_tree() {
    let commits = gdk::visualization::generate_sample_tree(10, 2);
    // Half the revisions form the trunk; the rest split over branches.
    assert_eq!(commits.len(), 9);
    assert!(commits.iter().all(|c| c.file_threads.len() == 3));
    let empty = gdk::visualization::generate_sample_tree(0, 0);
    assert!(empty.is_empty());
}

/// The style and config variants exist and compare.
#[test]
fn test_visualization_config() {
    let c = VisualizationConfig::default();
    assert_eq!(c.max_message_length, 50);
    assert_eq!(c.ascii_style, AsciiStyle::Unicode);
    assert!(c.show_health_scores && c.show_thread_colors && !c.show_timestamps);
}
