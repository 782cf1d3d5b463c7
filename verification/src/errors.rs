//! Error kinds for every operation of the library.
//!
//! Each error carries plain context fields (the offending agent, path or
//! rule, and the numbers a caller needs to decide on a retry). Causes from
//! outside backends are folded into a small kind enum per category, so that
//! retryability is a pure function of the error value.

use vstd::prelude::*;

verus! {

/// What a revision-control backend reported; only a transient lock is
/// worth a retry.
#[derive(Debug, Clone, Copy, PartialEq, Eq, Structural)]
pub enum GitErrorKind {
    /// The backend reported transient lock contention.
    Locked,
    /// Any other backend failure (bad revision id, corrupt state, ...).
    Other,
}

/// What the operating system reported for a file operation; permission and
/// timeout classes are worth a retry.
#[derive(Debug, Clone, Copy, PartialEq, Eq, Structural)]
pub enum FsErrorKind {
    /// Permission was denied.
    PermissionDenied,
    /// The operation timed out.
    TimedOut,
    /// Any other I/O failure.
    Other,
}

/// Error type for all library operations.
#[derive(Debug, Clone, PartialEq)]
pub enum GdkError {
    /// A revision-control operation failed.
    GitError { operation: String, kind: GitErrorKind },
    /// A file system operation failed.
    FileSystemError { path: String, message: String, kind: FsErrorKind },
    /// A validation rule was violated.
    ValidationError { rule: String, context: String, details: String },
    /// The convergence loop exhausted its attempt budget. Carries the
    /// attempt count, the last observed score and the target, so a caller
    /// can decide whether to retry with a larger budget.
    ConvergenceError { reason: String, iterations: u32, last_score: u32, threshold: u32 },
    /// The external CI check rejected the named revision during a
    /// quality-gated commit. The revision itself is kept, never rolled
    /// back. Only the library's own commit path builds this value:
    /// capability backends never return it.
    CiCdGateError { revision: String },
    /// A per-file quality operation failed.
    ThreadError { file_path: String, operation: String, thread_id: u128, details: String },
    /// An agent-level operation failed (most often: session not found).
    AgentError { agent_id: String, operation: String, session_id: Option<u128>, context: String },
    /// Persisted data could not be read back.
    SerializationError { format: String, context: String, details: String },
    /// A tunable was configured with an invalid value.
    ConfigurationError { setting: String, message: String, suggested_fix: Option<String> },
    /// A rendering export failed.
    VisualizationError { format: String, operation: String, node_count: usize, details: String },
}

impl GdkError {
    /// Build a revision-control error with operation context.
    pub fn git_error(operation: String, kind: GitErrorKind) -> (e: GdkError)
        ensures
            e == (GdkError::GitError { operation, kind }),
    {
        GdkError::GitError { operation, kind }
    }

    /// Build a file system error with path context.
    pub fn file_system_error(path: String, message: String, kind: FsErrorKind) -> (e: GdkError)
        ensures
            e == (GdkError::FileSystemError { path, message, kind }),
    {
        GdkError::FileSystemError { path, message, kind }
    }

    /// Build a validation error with rule and context.
    pub fn validation_error(rule: String, context: String, details: String) -> (e: GdkError)
        ensures
            e == (GdkError::ValidationError { rule, context, details }),
    {
        GdkError::ValidationError { rule, context, details }
    }

    /// Build the commit gate's rejection of a revision.
    pub fn ci_gate_error(revision: String) -> (e: GdkError)
        ensures
            e == (GdkError::CiCdGateError { revision }),
    {
        GdkError::CiCdGateError { revision }
    }

    /// Build a convergence error with full diagnostic context.
    pub fn convergence_error(reason: String, iterations: u32, last_score: u32, threshold: u32) -> (
        e: GdkError)
        ensures
            e == (GdkError::ConvergenceError { reason, iterations, last_score, threshold }),
    {
        GdkError::ConvergenceError { reason, iterations, last_score, threshold }
    }

    /// Build a per-file thread error.
    pub fn thread_error(file_path: String, operation: String, thread_id: u128, details: String)
        -> (e: GdkError)
        ensures
            e == (GdkError::ThreadError { file_path, operation, thread_id, details }),
    {
        GdkError::ThreadError { file_path, operation, thread_id, details }
    }

    /// Build an agent workflow error.
    pub fn agent_error(
        agent_id: String,
        operation: String,
        session_id: Option<u128>,
        context: String,
    ) -> (e: GdkError)
        ensures
            e == (GdkError::AgentError { agent_id, operation, session_id, context }),
    {
        GdkError::AgentError { agent_id, operation, session_id, context }
    }

    /// Build a configuration error, optionally with a suggested fix.
    pub fn configuration_error(setting: String, message: String, suggested_fix: Option<String>)
        -> (e: GdkError)
        ensures
            e == (GdkError::ConfigurationError { setting, message, suggested_fix }),
    {
        GdkError::ConfigurationError { setting, message, suggested_fix }
    }

    /// The error's category name, for metrics and logging.
    pub fn category(&self) -> (c: &'static str)
        ensures
            self is GitError ==> c@ == "git"@,
            self is FileSystemError ==> c@ == "filesystem"@,
            self is ValidationError ==> c@ == "validation"@,
            self is ConvergenceError ==> c@ == "convergence"@,
            self is CiCdGateError ==> c@ == "validation"@,
            self is ThreadError ==> c@ == "thread"@,
            self is AgentError ==> c@ == "agent"@,
            self is SerializationError ==> c@ == "serialization"@,
            self is ConfigurationError ==> c@ == "configuration"@,
            self is VisualizationError ==> c@ == "visualization"@,
    {
        match self {
            GdkError::GitError { .. } => "git",
            GdkError::FileSystemError { .. } => "filesystem",
            GdkError::ValidationError { .. } => "validation",
            GdkError::ConvergenceError { .. } => "convergence",
            GdkError::CiCdGateError { .. } => "validation",
            GdkError::ThreadError { .. } => "thread",
            GdkError::AgentError { .. } => "agent",
            GdkError::SerializationError { .. } => "serialization",
            GdkError::ConfigurationError { .. } => "configuration",
            GdkError::VisualizationError { .. } => "visualization",
        }
    }

    /// Whether retrying the failed operation can succeed without a code or
    /// configuration fix.
    pub fn is_recoverable(&self) -> (r: bool)
        ensures
            r == spec_is_recoverable(*self),
    {
        match self {
            GdkError::GitError { kind, .. } => matches!(kind, GitErrorKind::Locked),
            GdkError::FileSystemError { kind, .. } => matches!(
                kind,
                FsErrorKind::PermissionDenied | FsErrorKind::TimedOut
            ),
            GdkError::ValidationError { .. } => false,
            GdkError::ConvergenceError { .. } => true,
            GdkError::CiCdGateError { .. } => false,
            GdkError::ThreadError { .. } => true,
            GdkError::AgentError { .. } => true,
            GdkError::SerializationError { .. } => false,
            GdkError::ConfigurationError { .. } => false,
            GdkError::VisualizationError { .. } => true,
        }
    }
}

/// Retry policy per category: revision-control only on a transient lock,
/// file system only on permission or timeout, convergence, thread, agent
/// and visualization always, the rest never.
pub open spec fn spec_is_recoverable(e: GdkError) -> bool {
    match e {
        GdkError::GitError { kind, .. } => kind is Locked,
        GdkError::FileSystemError { kind, .. } => kind is PermissionDenied || kind is TimedOut,
        GdkError::ValidationError { .. } => false,
        GdkError::ConvergenceError { .. } => true,
        GdkError::CiCdGateError { .. } => false,
        GdkError::ThreadError { .. } => true,
        GdkError::AgentError { .. } => true,
        GdkError::SerializationError { .. } => false,
        GdkError::ConfigurationError { .. } => false,
        GdkError::VisualizationError { .. } => true,
    }
}

/// Result type alias for library operations.
pub type GdkResult<T> = Result<T, GdkError>;

} // verus!
