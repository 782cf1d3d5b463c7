//! Quality-tracked revision workflow library.
//!
//! The library models an agent-driven revision workflow: per-file quality
//! threads with a five-level colour classification, a convergence analyzer
//! over revision history, a checkpoint stack with a bounded-retry loop, and
//! a batching quality store with a TTL read cache.
//!
//! All quality scores are fixed-point fractions of one: a score `s` stands
//! for the real value `s / SCORE_SCALE`, so `10000` is `1.0` and `9000` is
//! `0.9`. Callers are trusted to hand in scores already clamped to
//! `[0, SCORE_SCALE]`.

use vstd::prelude::*;

pub mod agent;
pub mod convergence;
pub mod errors;
pub mod performance;
pub mod quality_metrics;
pub mod threads;
pub mod validation;
pub mod visualization;
mod platform;

verus! {

use crate::errors::{GdkError, GdkResult};

/// Fixed-point denominator for quality scores: `SCORE_SCALE` stands for `1.0`.
pub const SCORE_SCALE: u32 = 10000;

/// Visual quality indicator, ordered `Red < Orange < Yellow < LightGreen < Green`.
#[derive(Debug, Clone, Copy, PartialEq, Eq, Hash, Structural)]
pub enum ThreadColor {
    /// Critical issues present (mean below 0.3).
    Red,
    /// Major issues that need attention (mean in [0.3, 0.5)).
    Orange,
    /// Minor issues, generally acceptable (mean in [0.5, 0.7)).
    Yellow,
    /// Good quality with room for improvement (mean in [0.7, 0.9)).
    LightGreen,
    /// Excellent quality (mean at least 0.9).
    Green,
}

/// The colour assigned to four scores whose sum is `sum4` (four times the mean),
/// using the fixed breakpoints 0.9 / 0.7 / 0.5 / 0.3 on the mean.
pub open spec fn color_of_score_sum(sum4: int) -> ThreadColor {
    if sum4 >= 36000 {
        ThreadColor::Green
    } else if sum4 >= 28000 {
        ThreadColor::LightGreen
    } else if sum4 >= 20000 {
        ThreadColor::Yellow
    } else if sum4 >= 12000 {
        ThreadColor::Orange
    } else {
        ThreadColor::Red
    }
}

/// The fixed discrete score of each colour.
pub open spec fn spec_discrete_score(c: ThreadColor) -> u32 {
    match c {
        ThreadColor::Green => 10000,
        ThreadColor::LightGreen => 8000,
        ThreadColor::Yellow => 6000,
        ThreadColor::Orange => 4000,
        ThreadColor::Red => 2000,
    }
}

impl ThreadColor {
    /// Classify four quality scores by the unweighted mean of the four.
    /// The result depends on the inputs only through their sum.
    pub fn from_scores(lint: u32, type_check: u32, test_coverage: u32, functionality: u32) -> (c:
        ThreadColor)
        ensures
            c == color_of_score_sum(lint + type_check + test_coverage + functionality),
    {
        let sum: u64 = lint as u64 + type_check as u64 + test_coverage as u64 + functionality
            as u64;
        if sum >= 36000 {
            ThreadColor::Green
        } else if sum >= 28000 {
            ThreadColor::LightGreen
        } else if sum >= 20000 {
            ThreadColor::Yellow
        } else if sum >= 12000 {
            ThreadColor::Orange
        } else {
            ThreadColor::Red
        }
    }

    /// The discrete score of this colour: one of 0.2, 0.4, 0.6, 0.8 or 1.0
    /// in fixed point.
    pub fn to_score(&self) -> (s: u32)
        ensures
            s == spec_discrete_score(*self),
            s == 2000 || s == 4000 || s == 6000 || s == 8000 || s == 10000,
    {
        match self {
            ThreadColor::Green => 10000,
            ThreadColor::LightGreen => 8000,
            ThreadColor::Yellow => 6000,
            ThreadColor::Orange => 4000,
            ThreadColor::Red => 2000,
        }
    }
}

impl ThreadColor {
    /// Human-readable label with the colour's marker, in place of a
    /// `Display` impl.
    pub fn label(&self) -> (l: String)
        ensures
            *self is Red ==> l@ == "🔴 Red"@,
            *self is Orange ==> l@ == "🟠 Orange"@,
            *self is Yellow ==> l@ == "🟡 Yellow"@,
            *self is LightGreen ==> l@ == "🟢 Light Green"@,
            *self is Green ==> l@ == "💚 Green"@,
    {
        match self {
            ThreadColor::Red => String::from_str("🔴 Red"),
            ThreadColor::Orange => String::from_str("🟠 Orange"),
            ThreadColor::Yellow => String::from_str("🟡 Yellow"),
            ThreadColor::LightGreen => String::from_str("🟢 Light Green"),
            ThreadColor::Green => String::from_str("💚 Green"),
        }
    }
}

/// Per-revision measurements of one file's change.
#[derive(Debug, Clone, Copy, PartialEq, Eq, Structural)]
pub struct ThreadMetrics {
    pub lines_added: u32,
    pub lines_removed: u32,
    /// Change in complexity, a fixed-point fraction that may be negative.
    pub complexity_delta: i64,
    /// Overall quality score of the state, in `[0, SCORE_SCALE]`.
    pub quality_score: u32,
}

/// One snapshot in a file thread's history.
#[derive(Debug, PartialEq)]
pub struct ThreadState {
    pub commit_hash: String,
    pub diff_content: String,
    pub metrics: ThreadMetrics,
    pub timestamp: u64,
}

/// Quality tracking record for one file: four scores, the derived colour,
/// and an append-only history of snapshots.
#[derive(Debug, PartialEq)]
pub struct FileThread {
    pub file_path: String,
    pub thread_id: u128,
    pub color_status: ThreadColor,
    pub lint_score: u32,
    pub type_check_score: u32,
    pub test_coverage: u32,
    pub functionality_score: u32,
    pub history: Vec<ThreadState>,
}

/// Convergence snapshot attached to a revision: attempt counts, test pass
/// rate and a bounded trailing window of health scores.
#[derive(Debug, PartialEq)]
pub struct ConvergenceMetrics {
    pub attempts: u32,
    pub successful_builds: u32,
    /// Test pass rate in `[0, SCORE_SCALE]`.
    pub test_pass_rate: u32,
    /// Trailing window of health scores, newest first.
    pub quality_trend: Vec<u32>,
    pub is_converged: bool,
}

/// A recorded revision annotated with per-file quality threads, an
/// aggregate health score and a convergence snapshot.
#[derive(Debug, PartialEq)]
pub struct CommitNode {
    /// Generated unique identifier of this node.
    pub id: u128,
    /// Revision identifier in the backend (a commit hash).
    pub hash: String,
    pub parent_hashes: Vec<String>,
    pub message: String,
    pub timestamp: u64,
    /// Quality threads of the files touched in this revision.
    pub file_threads: Vec<FileThread>,
    /// Mean of the functionality scores across the file threads.
    pub health_score: u32,
    pub convergence_metrics: ConvergenceMetrics,
}

/// A saved rollback point: revision and branch identifiers plus the
/// convergence state in effect when it was taken. Immutable once created.
#[derive(Debug, PartialEq)]
pub struct RevertPoint {
    pub commit_hash: String,
    pub branch_name: String,
    pub snapshot_id: u128,
    pub file_states: Vec<FileSnapshot>,
    pub metadata: RevertMetadata,
}

/// Captured state of one file inside a revert point.
#[derive(Debug, PartialEq)]
pub struct FileSnapshot {
    pub content_hash: String,
    pub thread_state: FileThread,
    pub dependencies: Vec<String>,
}

/// Why, by whom and when a revert point was taken.
#[derive(Debug, PartialEq)]
pub struct RevertMetadata {
    pub reason: String,
    pub agent_id: String,
    pub timestamp: u64,
    pub convergence_state: ConvergenceMetrics,
}

impl Clone for ThreadState {
    /// An exact copy.
    fn clone(&self) -> (res: Self)
        ensures
            res == *self,
    {
        ThreadState {
            commit_hash: self.commit_hash.clone(),
            diff_content: self.diff_content.clone(),
            metrics: self.metrics,
            timestamp: self.timestamp,
        }
    }
}

/// An element-wise exact copy of a vector whose element type clones
/// exactly.
pub(crate) fn clone_vec_exact<T: Clone>(v: &Vec<T>) -> (res: Vec<T>)
    requires
        forall|a: T, b: T| cloned::<T>(a, b) ==> a == b,
    ensures
        res@ == v@,
{
    let res = v.clone();
    proof {
        assert forall|i: int| 0 <= i < v@.len() implies res@[i] == v@[i] by {
            assert(cloned::<T>(v[i], res[i]));
        }
        assert(res@ =~= v@);
    }
    res
}

/// Field-wise equality of two threads; the history vector is compared
/// by its contents.
pub open spec fn eq_thread(a: FileThread, b: FileThread) -> bool {
    &&& a.file_path == b.file_path
    &&& a.thread_id == b.thread_id
    &&& a.color_status == b.color_status
    &&& a.lint_score == b.lint_score
    &&& a.type_check_score == b.type_check_score
    &&& a.test_coverage == b.test_coverage
    &&& a.functionality_score == b.functionality_score
    &&& a.history@ == b.history@
}

/// Field-wise equality of two convergence snapshots; the trend vector is
/// compared by its contents.
pub open spec fn eq_convergence(a: ConvergenceMetrics, b: ConvergenceMetrics) -> bool {
    &&& a.attempts == b.attempts
    &&& a.successful_builds == b.successful_builds
    &&& a.test_pass_rate == b.test_pass_rate
    &&& a.quality_trend@ == b.quality_trend@
    &&& a.is_converged == b.is_converged
}

/// Field-wise equality of two revision nodes; vectors are compared by
/// their contents, threads field by field.
pub open spec fn eq_commit(a: CommitNode, b: CommitNode) -> bool {
    &&& a.id == b.id
    &&& a.hash == b.hash
    &&& a.parent_hashes@ == b.parent_hashes@
    &&& a.message == b.message
    &&& a.timestamp == b.timestamp
    &&& a.file_threads@.len() == b.file_threads@.len()
    &&& forall|i: int|
        0 <= i < a.file_threads@.len() ==> eq_thread(
            #[trigger] a.file_threads@[i],
            b.file_threads@[i],
        )
    &&& a.health_score == b.health_score
    &&& eq_convergence(a.convergence_metrics, b.convergence_metrics)
}

/// Field-wise equality of two file snapshots.
pub open spec fn eq_file_snapshot(a: FileSnapshot, b: FileSnapshot) -> bool {
    &&& a.content_hash == b.content_hash
    &&& eq_thread(a.thread_state, b.thread_state)
    &&& a.dependencies@ == b.dependencies@
}

/// Field-wise equality of two revert metadata records.
pub open spec fn eq_revert_metadata(a: RevertMetadata, b: RevertMetadata) -> bool {
    &&& a.reason == b.reason
    &&& a.agent_id == b.agent_id
    &&& a.timestamp == b.timestamp
    &&& eq_convergence(a.convergence_state, b.convergence_state)
}

/// Field-wise equality of two revert points.
pub open spec fn eq_revert_point(a: RevertPoint, b: RevertPoint) -> bool {
    &&& a.commit_hash == b.commit_hash
    &&& a.branch_name == b.branch_name
    &&& a.snapshot_id == b.snapshot_id
    &&& a.file_states@.len() == b.file_states@.len()
    &&& forall|i: int|
        0 <= i < a.file_states@.len() ==> eq_file_snapshot(
            #[trigger] a.file_states@[i],
            b.file_states@[i],
        )
    &&& eq_revert_metadata(a.metadata, b.metadata)
}

impl Clone for FileThread {
    /// A copy equal field by field.
    fn clone(&self) -> (res: Self)
        ensures
            eq_thread(res, *self),
    {
        FileThread {
            file_path: self.file_path.clone(),
            thread_id: self.thread_id,
            color_status: self.color_status,
            lint_score: self.lint_score,
            type_check_score: self.type_check_score,
            test_coverage: self.test_coverage,
            functionality_score: self.functionality_score,
            history: clone_vec_exact(&self.history),
        }
    }
}

/// An element-wise copy of a thread vector.
pub fn clone_threads(v: &Vec<FileThread>) -> (res: Vec<FileThread>)
    ensures
        res@.len() == v@.len(),
        forall|i: int| 0 <= i < v@.len() ==> eq_thread(#[trigger] res@[i], v@[i]),
{
    let mut res: Vec<FileThread> = Vec::new();
    let n = v.len();
    let mut i: usize = 0;
    while i < n
        invariant
            0 <= i <= n,
            n == v@.len(),
            res@.len() == i,
            forall|j: int| 0 <= j < i ==> eq_thread(#[trigger] res@[j], v@[j]),
        decreases n - i,
    {
        res.push(v[i].clone());
        i = i + 1;
    }
    res
}

impl Clone for ConvergenceMetrics {
    /// A copy equal field by field.
    fn clone(&self) -> (res: Self)
        ensures
            eq_convergence(res, *self),
    {
        ConvergenceMetrics {
            attempts: self.attempts,
            successful_builds: self.successful_builds,
            test_pass_rate: self.test_pass_rate,
            quality_trend: clone_vec_exact(&self.quality_trend),
            is_converged: self.is_converged,
        }
    }
}

impl Clone for CommitNode {
    /// A copy equal field by field.
    fn clone(&self) -> (res: Self)
        ensures
            eq_commit(res, *self),
    {
        CommitNode {
            id: self.id,
            hash: self.hash.clone(),
            parent_hashes: clone_vec_exact(&self.parent_hashes),
            message: self.message.clone(),
            timestamp: self.timestamp,
            file_threads: clone_threads(&self.file_threads),
            health_score: self.health_score,
            convergence_metrics: self.convergence_metrics.clone(),
        }
    }
}

impl Clone for FileSnapshot {
    /// A copy equal field by field.
    fn clone(&self) -> (res: Self)
        ensures
            eq_file_snapshot(res, *self),
    {
        FileSnapshot {
            content_hash: self.content_hash.clone(),
            thread_state: self.thread_state.clone(),
            dependencies: clone_vec_exact(&self.dependencies),
        }
    }
}

impl Clone for RevertMetadata {
    /// A copy equal field by field.
    fn clone(&self) -> (res: Self)
        ensures
            eq_revert_metadata(res, *self),
    {
        RevertMetadata {
            reason: self.reason.clone(),
            agent_id: self.agent_id.clone(),
            timestamp: self.timestamp,
            convergence_state: self.convergence_state.clone(),
        }
    }
}

impl Clone for RevertPoint {
    /// A copy equal field by field.
    fn clone(&self) -> (res: Self)
        ensures
            eq_revert_point(res, *self),
    {
        let mut states: Vec<FileSnapshot> = Vec::new();
        let n = self.file_states.len();
        let mut i: usize = 0;
        while i < n
            invariant
                0 <= i <= n,
                n == self.file_states@.len(),
                states@.len() == i,
                forall|j: int|
                    0 <= j < i ==> eq_file_snapshot(#[trigger] states@[j], self.file_states@[j]),
            decreases n - i,
        {
            states.push(self.file_states[i].clone());
            i = i + 1;
        }
        RevertPoint {
            commit_hash: self.commit_hash.clone(),
            branch_name: self.branch_name.clone(),
            snapshot_id: self.snapshot_id,
            file_states: states,
            metadata: self.metadata.clone(),
        }
    }
}


/// Aggregate health of a revision's threads: the mean of their
/// functionality scores, zero without threads.
pub open spec fn spec_health_score(s: Seq<FileThread>) -> int {
    if s.len() == 0 {
        0
    } else {
        crate::quality_metrics::sum_functionality(s) / s.len() as int
    }
}

/// The aggregate health score of a revision's threads (see
/// [`spec_health_score`]).
pub fn health_score_of(threads: &Vec<FileThread>) -> (h: u32)
    requires
        forall|i: int|
            0 <= i < threads@.len() ==> (#[trigger] threads@[i]).functionality_score
                <= SCORE_SCALE,
    ensures
        h == spec_health_score(threads@),
        h <= SCORE_SCALE,
{
    let n = threads.len();
    if n == 0 {
        return 0;
    }
    let mut i: usize = 0;
    let mut total: u128 = 0;
    while i < n
        invariant
            0 <= i <= n,
            n == threads@.len(),
            forall|k: int|
                0 <= k < threads@.len() ==> (#[trigger] threads@[k]).functionality_score
                    <= SCORE_SCALE,
            total == crate::quality_metrics::sum_functionality(threads@.subrange(0, i as int)),
            total <= (i as int) * (SCORE_SCALE as int),
        decreases n - i,
    {
        proof {
            assert(threads@.subrange(0, i + 1).drop_last() =~= threads@.subrange(0, i as int));
            assert(threads@.subrange(0, i + 1).last() == threads@[i as int]);
        }
        total = total + threads[i].functionality_score as u128;
        i = i + 1;
    }
    proof {
        assert(threads@.subrange(0, n as int) == threads@);
        vstd::arithmetic::div_mod::lemma_div_is_ordered(total as int, (n as int) * (SCORE_SCALE
            as int), n as int);
        vstd::arithmetic::div_mod::lemma_div_multiples_vanish(SCORE_SCALE as int, n as int);
    }
    (total / n as u128) as u32
}

/// Capability interface over the revision-control backend and the external
/// check runners. The library's loops decide; an implementation performs
/// the repository work. Two obligations bind every implementation: a
/// created revision carries the caller's message (and a rollback point the
/// caller's reason), and backend failures never use the convergence or
/// CI-gate error variants — those two are reserved for the library's own
/// retry loop and commit gate, so their verdicts stay recognizable.
pub trait GitWorkflow {
    /// Materialize the working state as a new revision, annotated with
    /// quality scores per changed file, under the given message.
    fn create_commit_node(&mut self, message: &str) -> (r: GdkResult<CommitNode>)
        ensures
            r matches Ok(c) ==> c.message@ == message@,
            r matches Err(e) ==> !(e is ConvergenceError) && !(e is CiCdGateError),
    ;

    /// Capture the current revision and branch as a rollback point,
    /// recorded under the given reason.
    fn create_revert_point(&mut self, reason: &str) -> (r: GdkResult<RevertPoint>)
        ensures
            r matches Ok(p) ==> p.metadata.reason@ == reason@,
            r matches Err(e) ==> !(e is ConvergenceError) && !(e is CiCdGateError),
    ;

    /// Hard-reset the working state to the given rollback point.
    fn revert_to_point(&mut self, point: &RevertPoint) -> (r: GdkResult<()>)
        ensures
            r matches Err(e) ==> !(e is ConvergenceError) && !(e is CiCdGateError),
    ;

    /// Compute the convergence snapshot of the accumulated history.
    fn analyze_convergence(&self) -> (r: GdkResult<ConvergenceMetrics>)
        ensures
            r matches Err(e) ==> !(e is ConvergenceError) && !(e is CiCdGateError),
    ;

    /// Refresh the derived colour of every known quality thread.
    fn update_thread_colors(&mut self) -> (r: GdkResult<()>)
        ensures
            r matches Err(e) ==> !(e is ConvergenceError) && !(e is CiCdGateError),
    ;

    /// Run the external CI gate on a revision; `Ok(true)` reports
    /// success.
    fn validate_ci_cd(&self, commit_hash: &str) -> (r: GdkResult<bool>)
        ensures
            r matches Err(e) ==> !(e is ConvergenceError) && !(e is CiCdGateError),
    ;
}

/// The decimal digit character for a value below ten.
pub open spec fn digit_char(d: int) -> char {
    if d == 0 {
        '0'
    } else if d == 1 {
        '1'
    } else if d == 2 {
        '2'
    } else if d == 3 {
        '3'
    } else if d == 4 {
        '4'
    } else if d == 5 {
        '5'
    } else if d == 6 {
        '6'
    } else if d == 7 {
        '7'
    } else if d == 8 {
        '8'
    } else {
        '9'
    }
}

/// The decimal digit sequence of a nonnegative number, most significant
/// digit first.
pub open spec fn spec_decimal(n: int) -> Seq<char>
    decreases n,
{
    if n < 10 {
        seq![digit_char(n)]
    } else {
        spec_decimal(n / 10) + seq![digit_char(n % 10)]
    }
}

/// Append the character of one decimal digit to a string.
fn append_digit(s: &mut String, d: u32)
    requires
        d < 10,
    ensures
        final(s)@ == old(s)@ + seq![digit_char(d as int)],
{
    let t: &str = match d {
        0 => "0",
        1 => "1",
        2 => "2",
        3 => "3",
        4 => "4",
        5 => "5",
        6 => "6",
        7 => "7",
        8 => "8",
        _ => "9",
    };
    proof {
        reveal_strlit("0");
        reveal_strlit("1");
        reveal_strlit("2");
        reveal_strlit("3");
        reveal_strlit("4");
        reveal_strlit("5");
        reveal_strlit("6");
        reveal_strlit("7");
        reveal_strlit("8");
        reveal_strlit("9");
        assert(t@ =~= seq![digit_char(d as int)]);
    }
    s.append(t);
}

/// Render a number as its decimal digits.
pub fn decimal_string(n: u32) -> (s: String)
    ensures
        s@ == spec_decimal(n as int),
    decreases n,
{
    if n < 10 {
        let mut s = String::new();
        append_digit(&mut s, n);
        s
    } else {
        let mut s = decimal_string(n / 10);
        append_digit(&mut s, n % 10);
        s
    }
}

/// Raising every one of the four scores never lowers the discrete score of
/// the resulting colour: classification is monotonic.
pub proof fn lemma_classification_monotonic(
    l1: u32,
    t1: u32,
    c1: u32,
    f1: u32,
    l2: u32,
    t2: u32,
    c2: u32,
    f2: u32,
)
    requires
        l1 <= l2,
        t1 <= t2,
        c1 <= c2,
        f1 <= f2,
    ensures
        spec_discrete_score(color_of_score_sum(l1 + t1 + c1 + f1)) <= spec_discrete_score(
            color_of_score_sum(l2 + t2 + c2 + f2),
        ),
{
}

} // verus!
