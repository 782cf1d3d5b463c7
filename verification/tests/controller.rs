//! The workflow controller: sessions, checkpoint stacking, the bounded
//! retry loop, the commit gate asymmetry, advisories and statistics.

use gdk::agent::{ActionType, AgentWorkflowController};
use gdk::errors::GdkError;
use gdk::{
    CommitNode, ConvergenceMetrics, GitWorkflow, RevertMetadata, RevertPoint,
};

/// An in-memory revision backend: it records created revisions and hard
/// resets, and reports a configurable convergence verdict.
struct MockWorkflow {
    current: String,
    created: Vec<String>,
    resets: Vec<String>,
    counter: u32,
    pass_rate: u32,
    converged: bool,
    gate_pass: bool,
}

impl MockWorkflow {
    fn new() -> MockWorkflow {
        MockWorkflow {
            current: "r0".to_string(),
            created: vec!["r0".to_string()],
            resets: vec![],
            counter: 0,
            pass_rate: 0,
            converged: false,
            gate_pass: true,
        }
    }

    fn metrics(&self) -> ConvergenceMetrics {
        ConvergenceMetrics {
            attempts: self.counter,
            successful_builds: 0,
            test_pass_rate: self.pass_rate,
            quality_trend: vec![],
            is_converged: self.converged,
        }
    }
}

impl GitWorkflow for MockWorkflow {
    fn create_commit_node(&mut self, message: &str) -> Result<CommitNode, GdkError> {
        self.counter += 1;
        let hash = format!("rev{}", self.counter);
        self.created.push(hash.clone());
        self.current = hash.clone();
        Ok(CommitNode {
            id: self.counter as u128,
            hash,
            parent_hashes: vec![],
            message: message.to_string(),
            timestamp: 0,
            file_threads: vec![],
            health_score: self.pass_rate,
            convergence_metrics: self.metrics(),
        })
    }

    fn create_revert_point(&mut self, reason: &str) -> Result<RevertPoint, GdkError> {
        Ok(RevertPoint {
            commit_hash: self.current.clone(),
            branch_name: "main".to_string(),
            snapshot_id: 99,
            file_states: vec![],
            metadata: RevertMetadata {
                reason: reason.to_string(),
                agent_id: "system".to_string(),
                timestamp: 0,
                convergence_state: self.metrics(),
            },
        })
    }

    fn revert_to_point(&mut self, point: &RevertPoint) -> Result<(), GdkError> {
        self.resets.push(point.commit_hash.clone());
        self.current = point.commit_hash.clone();
        Ok(())
    }

    fn analyze_convergence(&self) -> Result<ConvergenceMetrics, GdkError> {
        Ok(self.metrics())
    }

    fn update_thread_colors(&mut self) -> Result<(), GdkError> {
        Ok(())
    }

    fn validate_ci_cd(&self, _commit_hash: &str) -> Result<bool, GdkError> {
        Ok(self.gate_pass)
    }
}

fn point(hash: &str) -> RevertPoint {
    RevertPoint {
        commit_hash: hash.to_string(),
        branch_name: "main".to_string(),
        snapshot_id: 1,
        file_states: vec![],
        metadata: RevertMetadata {
            reason: "test".to_string(),
            agent_id: "a".to_string(),
            timestamp: 0,
            convergence_state: ConvergenceMetrics {
                attempts: 0,
                successful_builds: 0,
                test_pass_rate: 0,
                quality_trend: vec![],
                is_converged: false,
            },
        },
    }
}

/// Starting a session creates a fresh state with the default budget.
#[test]
fn test_session_lifecycle() {
    let mut c = AgentWorkflowController::new(MockWorkflow::new());
    let id = c.start_agent_session("agent-1").unwrap();
    assert_eq!(c.active_sessions.len(), 1);
    let s = &c.active_sessions[0];
    assert_eq!(s.session_id, id);
    assert_eq!(s.agent_id, "agent-1");
    assert_eq!(s.workflow, "gdk-workflow");
    assert_eq!(s.spiral_attempts, 0);
    assert_eq!(s.max_spiral_attempts, 100);
    assert!(s.current_commit.is_none());
    assert!(s.revert_stack.is_empty());

    // Starting again replaces the session outright.
    c.active_sessions[0].spiral_attempts = 42;
    c.start_agent_session("agent-1").unwrap();
    assert_eq!(c.active_sessions.len(), 1);
    assert_eq!(c.active_sessions[0].spiral_attempts, 0);
}

/// Checkpoints pop strictly last-in first-out: A, B, C come back as C,
/// then B; a pop beyond the stack fails naming the agent.
#[test]
fn test_checkpoint_lifo_law() {
    let mut c = AgentWorkflowController::new(MockWorkflow::new());
    c.start_agent_session("agent-1").unwrap();
    c.active_sessions[0].revert_stack.push(point("A"));
    c.active_sessions[0].revert_stack.push(point("B"));
    c.active_sessions[0].revert_stack.push(point("C"));

    c.revert_to_last_checkpoint("agent-1").unwrap();
    assert_eq!(c.active_sessions[0].current_commit.as_deref(), Some("C"));
    c.revert_to_last_checkpoint("agent-1").unwrap();
    assert_eq!(c.active_sessions[0].current_commit.as_deref(), Some("B"));
    assert_eq!(c.active_sessions[0].revert_stack.len(), 1);
    c.revert_to_last_checkpoint("agent-1").unwrap();
    assert_eq!(c.active_sessions[0].current_commit.as_deref(), Some("A"));

    // The fourth pop finds the stack empty and names the agent.
    let err = c.revert_to_last_checkpoint("agent-1").unwrap_err();
    match err {
        GdkError::ValidationError { rule, details, .. } => {
            assert_eq!(rule, "revert_stack");
            assert_eq!(details, "no checkpoints to revert to for agent agent-1");
        }
        other => panic!("unexpected error: {:?}", other),
    }
}

/// With a budget of N and a scorer that never satisfies the condition,
/// the loop fails after exactly N + 1 counter increments, carries the
/// last observed score, and the anchor stays on the stack.
#[test]
fn test_loop_termination_law() {
    let mut workflow = MockWorkflow::new();
    workflow.pass_rate = 4000;
    let mut c = AgentWorkflowController::new(workflow);
    c.start_agent_session("agent-1").unwrap();
    c.active_sessions[0].max_spiral_attempts = 3;

    let err = c
        .execute_infinite_monkey_workflow("agent-1", 8000)
        .unwrap_err();
    match err {
        GdkError::ConvergenceError {
            iterations,
            last_score,
            threshold,
            ..
        } => {
            assert_eq!(iterations, 4);
            // The last appended snapshot's pass rate, not a constant.
            assert_eq!(last_score, 4000);
            assert_eq!(threshold, 8000);
        }
        other => panic!("unexpected error: {:?}", other),
    }
    assert_eq!(c.active_sessions[0].spiral_attempts, 4);
    // The anchor checkpoint remains; failure does not pop it.
    assert_eq!(c.active_sessions[0].revert_stack.len(), 1);
    assert_eq!(c.active_sessions[0].revert_stack[0].commit_hash, "r0");
}

/// Before any iteration completes, the exhaustion error reports a zero
/// score.
#[test]
fn test_loop_exhaustion_without_iterations() {
    let mut workflow = MockWorkflow::new();
    workflow.pass_rate = 4000;
    let mut c = AgentWorkflowController::new(workflow);
    c.start_agent_session("agent-1").unwrap();
    c.active_sessions[0].max_spiral_attempts = 0;
    let err = c
        .execute_infinite_monkey_workflow("agent-1", 8000)
        .unwrap_err();
    match err {
        GdkError::ConvergenceError {
            iterations,
            last_score,
            ..
        } => {
            assert_eq!(iterations, 1);
            assert_eq!(last_score, 0);
        }
        other => panic!("unexpected error: {:?}", other),
    }
}

/// Every failed attempt restarts from the same anchor, and the created
/// revision stays readable as the session's current revision.
#[test]
fn test_anchor_revert_scenario() {
    let mut c = AgentWorkflowController::new(MockWorkflow::new());
    c.start_agent_session("agent-1").unwrap();
    c.active_sessions[0].max_spiral_attempts = 1;

    // One failing iteration: the revision is created, scored below the
    // target, and the working state is hard-reset to the anchor.
    let err = c.execute_infinite_monkey_workflow("agent-1", 8000);
    assert!(err.is_err());

    // The backend was reset to the anchor revision, not left at the new one.
    assert_eq!(c.workflow.current, "r0");
    assert_eq!(c.workflow.resets, vec!["r0".to_string()]);
    // The failed revision was created and remains in history.
    assert!(c.workflow.created.contains(&"rev1".to_string()));
    // The session still reads the revision of the last attempt.
    assert_eq!(
        c.active_sessions[0].current_commit.as_deref(),
        Some("rev1")
    );
}

/// A satisfied scorer ends the loop with the created revision.
#[test]
fn test_loop_success() {
    let mut workflow = MockWorkflow::new();
    workflow.pass_rate = 9000;
    workflow.converged = true;
    let mut c = AgentWorkflowController::new(workflow);
    c.start_agent_session("agent-1").unwrap();
    let node = c.execute_infinite_monkey_workflow("agent-1", 8000).unwrap();
    assert_eq!(node.hash, "rev1");
    assert_eq!(c.active_sessions[0].spiral_attempts, 1);
    let last = c.active_sessions[0].convergence_history.last().unwrap();
    assert!(last.is_converged);
    assert!(last.test_pass_rate >= 8000);
}

/// A failed CI gate reports an error, records both log entries as
/// failed, and still leaves the created revision in history.
#[test]
fn test_validate_and_commit_asymmetry() {
    let mut workflow = MockWorkflow::new();
    workflow.gate_pass = false;
    let mut c = AgentWorkflowController::new(workflow);
    c.start_agent_session("agent-1").unwrap();

    let err = c.validate_and_commit("agent-1", "risky change").unwrap_err();
    match &err {
        GdkError::CiCdGateError { revision } => assert_eq!(revision, "rev1"),
        other => panic!("unexpected error: {:?}", other),
    }
    // The rejection counts as a validation failure and is final.
    assert_eq!(err.category(), "validation");
    assert!(!err.is_recoverable());
    // The revision was created and is retrievable from history.
    assert!(c.workflow.created.contains(&"rev1".to_string()));
    // No rollback happened.
    assert!(c.workflow.resets.is_empty());
    // Both actions were recorded as failed.
    assert_eq!(c.action_history.len(), 2);
    assert_eq!(c.action_history[0].action_type, ActionType::CiCdValidation);
    assert!(!c.action_history[0].success);
    assert_eq!(c.action_history[1].action_type, ActionType::QualityValidation);
    assert!(!c.action_history[1].success);
}

/// A passing gate commits, updates the session and records successes.
#[test]
fn test_validate_and_commit_success() {
    let mut c = AgentWorkflowController::new(MockWorkflow::new());
    c.start_agent_session("agent-1").unwrap();
    let node = c.validate_and_commit("agent-1", "good change").unwrap();
    assert_eq!(node.hash, "rev1");
    assert_eq!(node.message, "good change");
    assert_eq!(
        c.active_sessions[0].current_commit.as_deref(),
        Some("rev1")
    );
    assert_eq!(c.action_history.len(), 2);
    assert!(c.action_history[0].success && c.action_history[1].success);
}

/// The advisory follows the session state: converged, low pass rate,
/// past half the budget, else continue.
#[test]
fn test_suggest_next_action() {
    let mut c = AgentWorkflowController::new(MockWorkflow::new());
    c.start_agent_session("agent-1").unwrap();
    assert_eq!(
        c.suggest_next_action("agent-1").unwrap(),
        "CONTINUE: Execute next iteration of infinite monkey workflow"
    );

    c.active_sessions[0].convergence_history.push(ConvergenceMetrics {
        attempts: 1,
        successful_builds: 1,
        test_pass_rate: 2000,
        quality_trend: vec![],
        is_converged: false,
    });
    assert_eq!(
        c.suggest_next_action("agent-1").unwrap(),
        "REVERT: Test pass rate is low, consider reverting to last checkpoint"
    );

    c.active_sessions[0].convergence_history.push(ConvergenceMetrics {
        attempts: 1,
        successful_builds: 1,
        test_pass_rate: 9000,
        quality_trend: vec![],
        is_converged: true,
    });
    assert_eq!(
        c.suggest_next_action("agent-1").unwrap(),
        "CONVERGED: Consider creating a new spiral branch for further exploration"
    );

    c.active_sessions[0].convergence_history.push(ConvergenceMetrics {
        attempts: 60,
        successful_builds: 1,
        test_pass_rate: 9000,
        quality_trend: vec![],
        is_converged: false,
    });
    c.active_sessions[0].spiral_attempts = 60;
    assert_eq!(
        c.suggest_next_action("agent-1").unwrap(),
        "CHECKPOINT: Create a revert point before continuing"
    );

    assert!(c.suggest_next_action("nobody").is_err());
}

/// Statistics derive from the log and session without recomputation.
#[test]
fn test_agent_statistics() {
    let mut c = AgentWorkflowController::new(MockWorkflow::new());
    c.start_agent_session("agent-1").unwrap();
    c.validate_and_commit("agent-1", "one").unwrap();
    c.create_spiral_checkpoint("agent-1", "before risk").unwrap();

    let stats = c.get_agent_statistics("agent-1").unwrap();
    assert_eq!(stats.agent_id, "agent-1");
    assert_eq!(stats.total_actions, 3);
    assert_eq!(stats.success_rate, 10000);
    assert_eq!(stats.revert_points_used, 1);
    assert!(c.get_agent_statistics("nobody").is_err());
}

/// Checkpoint creation pushes the backend's point, makes its revision
/// the session's current one, and records the action.
#[test]
fn test_create_spiral_checkpoint() {
    let mut c = AgentWorkflowController::new(MockWorkflow::new());
    c.start_agent_session("agent-1").unwrap();
    let p = c.create_spiral_checkpoint("agent-1", "exploring").unwrap();
    assert_eq!(p.commit_hash, "r0");
    assert_eq!(p.metadata.reason, "exploring");
    assert_eq!(c.active_sessions[0].revert_stack.len(), 1);
    assert_eq!(c.active_sessions[0].revert_stack[0].commit_hash, "r0");
    assert_eq!(c.active_sessions[0].current_commit.as_deref(), Some("r0"));
    assert_eq!(c.action_history.len(), 1);
    assert_eq!(c.action_history[0].action_type, ActionType::RevertToPoint);
    assert!(c.action_history[0].success);
}

/// A status query appends the snapshot to the session history.
#[test]
fn test_get_convergence_status() {
    let mut workflow = MockWorkflow::new();
    workflow.pass_rate = 4000;
    let mut c = AgentWorkflowController::new(workflow);
    c.start_agent_session("agent-1").unwrap();
    let m = c.get_convergence_status("agent-1").unwrap();
    assert_eq!(m.test_pass_rate, 4000);
    assert_eq!(c.active_sessions[0].convergence_history.len(), 1);
    assert_eq!(c.action_history.len(), 1);
    assert_eq!(c.action_history[0].action_type, ActionType::ConvergenceCheck);
}

/// The standalone retry loop reports exhaustion with the budget and
/// the fixed threshold, after reverting between attempts.
#[test]
fn test_standalone_iteration_loop() {
    let mut workflow = MockWorkflow::new();
    let err = gdk::agent::infinite_monkey_iteration(&mut workflow, 2).unwrap_err();
    match err {
        GdkError::ConvergenceError {
            iterations,
            threshold,
            ..
        } => {
            assert_eq!(iterations, 2);
            assert_eq!(threshold, 8000);
        }
        other => panic!("unexpected error: {:?}", other),
    }
    // Two revisions were attempted; one revert between them.
    assert_eq!(workflow.counter, 2);
    assert_eq!(workflow.resets.len(), 1);

    let mut converging = MockWorkflow::new();
    converging.converged = true;
    let node = gdk::agent::infinite_monkey_iteration(&mut converging, 5).unwrap();
    assert_eq!(node.hash, "rev1");
}

/// Operations on an unknown agent fail with an agent error.
#[test]
fn test_unknown_agent_errors() {
    let mut c = AgentWorkflowController::new(MockWorkflow::new());
    let err = c.execute_infinite_monkey_workflow("ghost", 8000).unwrap_err();
    assert_eq!(err.category(), "agent");
    let err = c.revert_to_last_checkpoint("ghost").unwrap_err();
    assert_eq!(err.category(), "agent");
}
