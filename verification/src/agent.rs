//! Agent session management and the bounded-retry convergence loop.
//!
//! One controller owns the sessions of any number of agents, an
//! append-only action log, and a revision-control capability
//! ([`crate::GitWorkflow`]). Sessions are held in a vector keyed by agent
//! id; the well-formedness invariant keeps the ids unique. Advancing two
//! sessions' loops concurrently requires one controller per agent: a
//! controller is a single-owner value.

use vstd::prelude::*;

use crate::errors::{GdkError, GdkResult};
use crate::platform;
use crate::{
    eq_convergence, eq_revert_point, CommitNode, ConvergenceMetrics, GitWorkflow, RevertPoint,
    SCORE_SCALE,
};

verus! {

/// One agent's workflow state: the current revision, the checkpoint
/// stack, the convergence history and the bounded attempt counter.
#[derive(Debug, PartialEq)]
pub struct AgentSession {
    pub session_id: u128,
    pub agent_id: String,
    /// Workflow type identifier.
    pub workflow: String,
    pub start_time: u64,
    /// The revision the agent currently works on; absent before the
    /// first revision.
    pub current_commit: Option<String>,
    /// Strict LIFO stack of rollback points.
    pub revert_stack: Vec<RevertPoint>,
    /// One convergence snapshot per completed loop iteration or status
    /// query, append-only.
    pub convergence_history: Vec<ConvergenceMetrics>,
    /// Monotonically increasing attempt counter.
    pub spiral_attempts: u32,
    /// Attempt budget of the convergence loop.
    pub max_spiral_attempts: u32,
}

/// The kinds of recorded agent actions.
#[derive(Debug, Clone, Copy, PartialEq, Eq, Structural)]
pub enum ActionType {
    /// Create a new revision with quality analysis.
    CommitCreate,
    /// Restore the repository to a previous checkpoint.
    RevertToPoint,
    /// Create an experimental branch for risky changes.
    SpiralBranch,
    /// Analyze convergence metrics.
    ConvergenceCheck,
    /// Run the quality validators.
    QualityValidation,
    /// Validate through the external CI gate.
    CiCdValidation,
    /// One complete iteration of the convergence loop.
    InfiniteMonkeyIteration,
}

/// One immutable log entry: what an agent did, between which revisions,
/// and whether it succeeded.
#[derive(Debug, PartialEq)]
pub struct AgentAction {
    pub action_id: u128,
    pub agent_id: String,
    pub action_type: ActionType,
    pub timestamp: u64,
    pub commit_before: Option<String>,
    pub commit_after: Option<String>,
    pub success: bool,
    /// Free-form metadata pairs.
    pub metadata: Vec<(String, String)>,
}

/// Statistics derived from one agent's log and session.
#[derive(Debug, PartialEq)]
pub struct AgentStatistics {
    pub agent_id: String,
    pub total_actions: usize,
    /// Share of successful actions, in `[0, SCORE_SCALE]`.
    pub success_rate: u32,
    pub spiral_attempts: u32,
    pub convergence_state: ConvergenceMetrics,
    pub revert_points_used: usize,
}

/// Multi-agent workflow controller over a revision-control capability.
#[derive(Debug)]
pub struct AgentWorkflowController<T> {
    /// The revision-control and check-runner capability.
    pub workflow: T,
    /// Active sessions; their agent ids are unique (see [`Self::wf`]).
    pub active_sessions: Vec<AgentSession>,
    /// Append-only log of all completed actions.
    pub action_history: Vec<AgentAction>,
}

/// Whether every agent id occurs at most once.
pub open spec fn agents_unique(s: Seq<AgentSession>) -> bool {
    forall|i: int, j: int|
        0 <= i < j < s.len() ==> (#[trigger] s[i].agent_id@) != (#[trigger] s[j].agent_id@)
}

/// The index of the session of the given agent, if one exists.
pub open spec fn spec_find_session(s: Seq<AgentSession>, id: Seq<char>) -> Option<int> {
    if exists|i: int| 0 <= i < s.len() && #[trigger] s[i].agent_id@ == id {
        Some(choose|i: int| 0 <= i < s.len() && #[trigger] s[i].agent_id@ == id)
    } else {
        None
    }
}

/// Number of log entries recorded for one agent.
pub open spec fn count_agent_actions(s: Seq<AgentAction>, id: Seq<char>) -> int
    decreases s.len(),
{
    if s.len() == 0 {
        0
    } else {
        count_agent_actions(s.drop_last(), id) + if s.last().agent_id@ == id {
            1int
        } else {
            0int
        }
    }
}

/// Number of successful log entries recorded for one agent.
pub open spec fn count_agent_successes(s: Seq<AgentAction>, id: Seq<char>) -> int
    decreases s.len(),
{
    if s.len() == 0 {
        0
    } else {
        count_agent_successes(s.drop_last(), id) + if s.last().agent_id@ == id
            && s.last().success {
            1int
        } else {
            0int
        }
    }
}

/// The advisory the controller gives for a session state: branch out
/// after convergence, revert on a low pass rate, checkpoint past half the
/// attempt budget, else continue.
pub open spec fn spec_suggestion(s: AgentSession) -> Seq<char> {
    if s.convergence_history@.len() > 0 {
        let last = s.convergence_history@.last();
        if last.is_converged {
            "CONVERGED: Consider creating a new spiral branch for further exploration"@
        } else if last.test_pass_rate < 5000 {
            "REVERT: Test pass rate is low, consider reverting to last checkpoint"@
        } else if s.spiral_attempts > s.max_spiral_attempts / 2 {
            "CHECKPOINT: Create a revert point before continuing"@
        } else {
            "CONTINUE: Execute next iteration of infinite monkey workflow"@
        }
    } else {
        "CONTINUE: Execute next iteration of infinite monkey workflow"@
    }
}

/// The attempt counter after one more attempt; it saturates rather than
/// wrap.
pub open spec fn spec_next_attempts(a: int) -> int {
    if a >= 0xffffffff {
        0xffffffff
    } else {
        a + 1
    }
}

/// The attempt counter at which a loop started at `a0` with budget `max`
/// reports exhaustion.
pub open spec fn spec_exhausted_attempts(a0: int, max: int) -> int {
    if a0 >= max {
        spec_next_attempts(a0)
    } else if max < 0xffffffff {
        max + 1
    } else {
        0xffffffff
    }
}

impl<T: GitWorkflow> AgentWorkflowController<T> {
    /// Unique agent ids across the active sessions.
    pub open spec fn wf(&self) -> bool {
        agents_unique(self.active_sessions@)
    }

    /// A controller over the given capability, without sessions.
    pub fn new(workflow: T) -> (c: Self)
        ensures
            c.active_sessions@.len() == 0,
            c.action_history@.len() == 0,
            c.workflow == workflow,
            c.wf(),
    {
        AgentWorkflowController { workflow, active_sessions: Vec::new(), action_history: Vec::new() }
    }

    /// The index of the agent's session, scanning in order.
    fn find_session_index(&self, agent_id: &str) -> (r: Option<usize>)
        requires
            self.wf(),
        ensures
            r matches Some(i) ==> 0 <= i < self.active_sessions@.len()
                && self.active_sessions@[i as int].agent_id@ == agent_id@ && spec_find_session(
                self.active_sessions@,
                agent_id@,
            ) == Some(i as int),
            r is None ==> spec_find_session(self.active_sessions@, agent_id@) is None,
    {
        let needle = String::from_str(agent_id);
        let n = self.active_sessions.len();
        let mut i: usize = 0;
        while i < n
            invariant
                0 <= i <= n,
                n == self.active_sessions@.len(),
                needle@ == agent_id@,
                agents_unique(self.active_sessions@),
                forall|j: int|
                    0 <= j < i ==> (#[trigger] self.active_sessions@[j].agent_id@) != agent_id@,
            decreases n - i,
        {
            if self.active_sessions[i].agent_id == needle {
                return Some(i);
            }
            i = i + 1;
        }
        None
    }

    /// Start a session for an agent: empty stacks, attempt counter zero,
    /// a default budget of one hundred attempts. A prior session of the
    /// same agent is replaced outright. Returns the session identifier.
    pub fn start_agent_session(&mut self, agent_id: &str) -> (r: GdkResult<u128>)
        requires
            old(self).wf(),
        ensures
            final(self).wf(),
            final(self).action_history == old(self).action_history,
            final(self).workflow == old(self).workflow,
            r is Ok,
            r matches Ok(id) ==> {
                let found = spec_find_session(final(self).active_sessions@, agent_id@);
                &&& found is Some
                &&& {
                    let s = final(self).active_sessions@[found->0];
                    &&& s.session_id == id
                    &&& s.agent_id@ == agent_id@
                    &&& s.workflow@ == "gdk-workflow"@
                    &&& s.current_commit is None
                    &&& s.revert_stack@.len() == 0
                    &&& s.convergence_history@.len() == 0
                    &&& s.spiral_attempts == 0
                    &&& s.max_spiral_attempts == 100
                }
                &&& (spec_find_session(old(self).active_sessions@, agent_id@) is None ==> {
                    &&& final(self).active_sessions@.len() == old(self).active_sessions@.len() + 1
                    &&& forall|k: int|
                        0 <= k < old(self).active_sessions@.len()
                            ==> #[trigger] final(self).active_sessions@[k] == old(
                            self,
                        ).active_sessions@[k]
                })
                &&& (spec_find_session(old(self).active_sessions@, agent_id@) matches Some(i)
                    ==> {
                    &&& final(self).active_sessions@.len() == old(self).active_sessions@.len()
                    &&& forall|k: int|
                        0 <= k < old(self).active_sessions@.len() && k != i
                            ==> #[trigger] final(self).active_sessions@[k] == old(
                            self,
                        ).active_sessions@[k]
                })
            },
    {
        let session_id = platform::fresh_id();
        let session = AgentSession {
            session_id,
            agent_id: String::from_str(agent_id),
            workflow: String::from_str("gdk-workflow"),
            start_time: platform::unix_now_secs(),
            current_commit: None,
            revert_stack: Vec::new(),
            convergence_history: Vec::new(),
            spiral_attempts: 0,
            max_spiral_attempts: 100,
        };
        match self.find_session_index(agent_id) {
            Some(i) => {
                self.active_sessions.set(i, session);
                proof {
                    let s = self.active_sessions@;
                    assert(forall|k: int|
                        0 <= k < s.len() && k != i ==> #[trigger] s[k] == old(
                            self,
                        ).active_sessions@[k]);
                    assert(agents_unique(s));
                    assert(s[i as int].agent_id@ == agent_id@);
                    assert(forall|j: int|
                        0 <= j < s.len() && (#[trigger] s[j].agent_id@) == agent_id@ ==> j
                            == i as int);
                    assert(spec_find_session(s, agent_id@) == Some(i as int));
                }
                Ok(session_id)
            },
            None => {
                self.active_sessions.push(session);
                proof {
                    let s = self.active_sessions@;
                    assert(forall|k: int|
                        0 <= k < s.len() - 1 ==> #[trigger] s[k] == old(self).active_sessions@[k]);
                    assert(forall|k: int|
                        0 <= k < s.len() - 1 ==> (#[trigger] s[k].agent_id@) != agent_id@);
                    assert(agents_unique(s));
                    assert(s[s.len() - 1].agent_id@ == agent_id@);
                    assert(forall|j: int|
                        0 <= j < s.len() && (#[trigger] s[j].agent_id@) == agent_id@ ==> j == s.len()
                            - 1);
                    assert(spec_find_session(s, agent_id@) == Some(s.len() - 1));
                }
                Ok(session_id)
            },
        }
    }

    /// The next-action advisory for an agent (see [`spec_suggestion`]).
    /// No side effects. Fails exactly when the agent has no session.
    pub fn suggest_next_action(&self, agent_id: &str) -> (r: GdkResult<String>)
        requires
            self.wf(),
        ensures
            r is Ok <==> spec_find_session(self.active_sessions@, agent_id@) is Some,
            r matches Err(e) ==> e is AgentError,
            r matches Ok(s) ==> s@ == spec_suggestion(
                self.active_sessions@[spec_find_session(self.active_sessions@, agent_id@)->0],
            ),
    {
        match self.find_session_index(agent_id) {
            None => Err(
                GdkError::agent_error(
                    String::from_str(agent_id),
                    String::from_str("suggest_next_action"),
                    None,
                    String::from_str("no active session for this agent"),
                ),
            ),
            Some(i) => {
                let session = &self.active_sessions[i];
                let n = session.convergence_history.len();
                if n > 0 {
                    let last = &session.convergence_history[n - 1];
                    proof {
                        assert(session.convergence_history@.last()
                            == session.convergence_history@[n - 1]);
                    }
                    if last.is_converged {
                        return Ok(
                            String::from_str(
                                "CONVERGED: Consider creating a new spiral branch for further exploration",
                            ),
                        );
                    }
                    if last.test_pass_rate < 5000 {
                        return Ok(
                            String::from_str(
                                "REVERT: Test pass rate is low, consider reverting to last checkpoint",
                            ),
                        );
                    }
                    if session.spiral_attempts > session.max_spiral_attempts / 2 {
                        return Ok(
                            String::from_str("CHECKPOINT: Create a revert point before continuing"),
                        );
                    }
                }
                Ok(String::from_str("CONTINUE: Execute next iteration of infinite monkey workflow"))
            },
        }
    }

    /// Statistics for one agent: action counts and success share from the
    /// log, attempt counter and stack depth from the session, and the
    /// latest convergence snapshot (zeroed when none was recorded).
    /// Fails exactly when the agent has no session.
    pub fn get_agent_statistics(&self, agent_id: &str) -> (r: GdkResult<AgentStatistics>)
        requires
            self.wf(),
        ensures
            r is Ok <==> spec_find_session(self.active_sessions@, agent_id@) is Some,
            r matches Err(e) ==> e is AgentError,
            r matches Ok(st) ==> {
                let s = self.active_sessions@[spec_find_session(
                    self.active_sessions@,
                    agent_id@,
                )->0];
                let total = count_agent_actions(self.action_history@, agent_id@);
                let succ = count_agent_successes(self.action_history@, agent_id@);
                &&& st.agent_id@ == agent_id@
                &&& st.total_actions == total
                &&& st.success_rate == if total == 0 {
                    0int
                } else {
                    succ * SCORE_SCALE / total
                }
                &&& st.spiral_attempts == s.spiral_attempts
                &&& st.revert_points_used == s.revert_stack@.len()
                &&& (s.convergence_history@.len() > 0 ==> eq_convergence(
                    st.convergence_state,
                    s.convergence_history@.last(),
                ))
                &&& (s.convergence_history@.len() == 0 ==> st.convergence_state.attempts == 0
                    && st.convergence_state.successful_builds == 0
                    && st.convergence_state.test_pass_rate == 0
                    && st.convergence_state.quality_trend@.len() == 0
                    && st.convergence_state.is_converged == false)
            },
    {
        match self.find_session_index(agent_id) {
            None => Err(
                GdkError::agent_error(
                    String::from_str(agent_id),
                    String::from_str("get_agent_statistics"),
                    None,
                    String::from_str("no active session for this agent"),
                ),
            ),
            Some(i) => {
                let session = &self.active_sessions[i];
                let needle = String::from_str(agent_id);
                let n = self.action_history.len();
                let mut k: usize = 0;
                let mut total: usize = 0;
                let mut succ: usize = 0;
                while k < n
                    invariant
                        0 <= k <= n,
                        n == self.action_history@.len(),
                        needle@ == agent_id@,
                        total == count_agent_actions(
                            self.action_history@.subrange(0, k as int),
                            agent_id@,
                        ),
                        succ == count_agent_successes(
                            self.action_history@.subrange(0, k as int),
                            agent_id@,
                        ),
                        succ <= total <= k,
                    decreases n - k,
                {
                    proof {
                        assert(self.action_history@.subrange(0, k + 1).drop_last()
                            =~= self.action_history@.subrange(0, k as int));
                        assert(self.action_history@.subrange(0, k + 1).last()
                            == self.action_history@[k as int]);
                    }
                    let a = &self.action_history[k];
                    if a.agent_id == needle {
                        total = total + 1;
                        if a.success {
                            succ = succ + 1;
                        }
                    }
                    k = k + 1;
                }
                proof {
                    assert(self.action_history@.subrange(0, n as int) == self.action_history@);
                }
                let success_rate: u32 = if total == 0 {
                    0
                } else {
                    proof {
                        assert((succ as int) * (SCORE_SCALE as int) <= (total as int) * (
                        SCORE_SCALE as int)) by (nonlinear_arith)
                            requires
                                0 <= succ as int <= total as int,
                        ;
                        vstd::arithmetic::div_mod::lemma_div_is_ordered((succ as int) * (SCORE_SCALE
                            as int), (total as int) * (SCORE_SCALE as int), total as int);
                        vstd::arithmetic::div_mod::lemma_div_multiples_vanish(SCORE_SCALE as int,
                            total as int);
                    }
                    ((succ as u128) * (SCORE_SCALE as u128) / (total as u128)) as u32
                };
                let hn = session.convergence_history.len();
                let convergence_state: ConvergenceMetrics = if hn > 0 {
                    proof {
                        assert(session.convergence_history@.last()
                            == session.convergence_history@[hn - 1]);
                    }
                    session.convergence_history[hn - 1].clone()
                } else {
                    ConvergenceMetrics {
                        attempts: 0,
                        successful_builds: 0,
                        test_pass_rate: 0,
                        quality_trend: Vec::new(),
                        is_converged: false,
                    }
                };
                Ok(
                    AgentStatistics {
                        agent_id: needle,
                        total_actions: total,
                        success_rate,
                        spiral_attempts: session.spiral_attempts,
                        convergence_state,
                        revert_points_used: session.revert_stack.len(),
                    },
                )
            },
        }
    }

    /// Build (but do not record) an action entry for an agent, carrying
    /// the session's current revision. Fails exactly when the agent has
    /// no session.
    fn log_action(&self, agent_id: &str, action_type: ActionType) -> (r: GdkResult<AgentAction>)
        requires
            self.wf(),
        ensures
            r is Ok <==> spec_find_session(self.active_sessions@, agent_id@) is Some,
            r matches Err(e) ==> e is AgentError,
            r matches Ok(a) ==> {
                let s = self.active_sessions@[spec_find_session(
                    self.active_sessions@,
                    agent_id@,
                )->0];
                &&& a.agent_id@ == agent_id@
                &&& a.action_type == action_type
                &&& a.commit_before == s.current_commit
                &&& a.commit_after is None
                &&& a.success == false
                &&& a.metadata@.len() == 0
            },
    {
        match self.find_session_index(agent_id) {
            None => Err(
                GdkError::agent_error(
                    String::from_str(agent_id),
                    String::from_str("log_action"),
                    None,
                    String::from_str("no active session for this agent"),
                ),
            ),
            Some(i) => {
                let session = &self.active_sessions[i];
                let commit_before: Option<String> = match &session.current_commit {
                    None => None,
                    Some(h) => Some(h.clone()),
                };
                Ok(
                    AgentAction {
                        action_id: platform::fresh_id(),
                        agent_id: String::from_str(agent_id),
                        action_type,
                        timestamp: platform::unix_now_secs(),
                        commit_before,
                        commit_after: None,
                        success: false,
                        metadata: Vec::new(),
                    },
                )
            },
        }
    }

    /// Record a completed action in the log, with its outcome and the
    /// revision it produced. Never fails; sessions are untouched.
    fn complete_action(&mut self, action: &AgentAction, success: bool, commit_after: Option<&str>)
        -> (r: GdkResult<()>)
        ensures
            final(self).active_sessions == old(self).active_sessions,
            final(self).workflow == old(self).workflow,
            r is Ok,
            final(self).action_history@.len() == old(self).action_history@.len() + 1,
            final(self).action_history@.subrange(0, old(self).action_history@.len() as int) == old(
                self,
            ).action_history@,
            ({
                let rec = final(self).action_history@.last();
                &&& rec.action_id == action.action_id
                &&& rec.agent_id == action.agent_id
                &&& rec.action_type == action.action_type
                &&& rec.timestamp == action.timestamp
                &&& rec.commit_before == action.commit_before
                &&& rec.success == success
                &&& rec.metadata@ == action.metadata@
                &&& (commit_after is None ==> rec.commit_after is None)
                &&& (commit_after matches Some(h) ==> rec.commit_after matches Some(h2) && h2@
                    == h@)
            }),
    {
        let commit_after_owned: Option<String> = match commit_after {
            None => None,
            Some(h) => Some(String::from_str(h)),
        };
        let mut metadata: Vec<(String, String)> = Vec::new();
        let mut k: usize = 0;
        while k < action.metadata.len()
            invariant
                0 <= k <= action.metadata@.len(),
                metadata@.len() == k,
                forall|j: int| 0 <= j < k ==> #[trigger] metadata@[j] == action.metadata@[j],
            decreases action.metadata@.len() - k,
        {
            let pair = &action.metadata[k];
            metadata.push((pair.0.clone(), pair.1.clone()));
            k = k + 1;
        }
        proof {
            assert(metadata@ =~= action.metadata@);
        }
        let completed = AgentAction {
            action_id: action.action_id,
            agent_id: action.agent_id.clone(),
            action_type: action.action_type,
            timestamp: action.timestamp,
            commit_before: match &action.commit_before {
                None => None,
                Some(h) => Some(h.clone()),
            },
            commit_after: commit_after_owned,
            success,
            metadata,
        };
        self.action_history.push(completed);
        proof {
            assert(final(self).action_history@.subrange(0, old(self).action_history@.len() as int)
                =~= old(self).action_history@);
        }
        Ok(())
    }

    /// Create a rollback checkpoint for an agent: ask the backend for a
    /// revert point, push it onto the agent's stack, make its revision
    /// the session's current one, and record the action. Fails when the
    /// agent has no session or the backend fails; in either case the
    /// sessions and the log are untouched.
    pub fn create_spiral_checkpoint(&mut self, agent_id: &str, reason: &str) -> (r: GdkResult<
        RevertPoint,
    >)
        requires
            old(self).wf(),
        ensures
            final(self).wf(),
            spec_find_session(old(self).active_sessions@, agent_id@) is None ==> r is Err
                && final(self).active_sessions == old(self).active_sessions && final(self).action_history == old(self).action_history,
            r is Err ==> final(self).active_sessions == old(self).active_sessions && final(self).action_history == old(self).action_history,
            r matches Ok(p) ==> {
                let found = spec_find_session(old(self).active_sessions@, agent_id@);
                &&& found matches Some(i)
                &&& {
                    let s0 = old(self).active_sessions@[i];
                    let s1 = final(self).active_sessions@[i];
                    &&& final(self).active_sessions@.len() == old(self).active_sessions@.len()
                    &&& forall|k: int|
                        0 <= k < old(self).active_sessions@.len() && k != i
                            ==> #[trigger] final(self).active_sessions@[k] == old(
                            self,
                        ).active_sessions@[k]
                    &&& s1.agent_id == s0.agent_id
                    &&& s1.session_id == s0.session_id
                    &&& s1.current_commit == Some(p.commit_hash)
                    &&& s1.convergence_history@ == s0.convergence_history@
                    &&& s1.spiral_attempts == s0.spiral_attempts
                    &&& s1.max_spiral_attempts == s0.max_spiral_attempts
                    &&& s1.revert_stack@.len() == s0.revert_stack@.len() + 1
                    &&& s1.revert_stack@.subrange(0, s0.revert_stack@.len() as int)
                        == s0.revert_stack@
                    &&& eq_revert_point(s1.revert_stack@.last(), p)
                    &&& p.metadata.reason@ == reason@
                }
                &&& final(self).action_history@.len() == old(self).action_history@.len() + 1
                &&& final(self).action_history@.subrange(
                    0,
                    old(self).action_history@.len() as int,
                ) == old(self).action_history@
                &&& {
                    let rec = final(self).action_history@.last();
                    &&& rec.agent_id@ == agent_id@
                    &&& rec.action_type == ActionType::RevertToPoint
                    &&& rec.success == true
                    &&& rec.commit_after matches Some(h) && h@ == p.commit_hash@
                }
            },
    {
        let action = match self.log_action(agent_id, ActionType::RevertToPoint) {
            Ok(a) => a,
            Err(e) => {
                return Err(e);
            },
        };
        let point = match self.workflow.create_revert_point(reason) {
            Ok(p) => p,
            Err(e) => {
                return Err(e);
            },
        };
        let idx = match self.find_session_index(agent_id) {
            Some(i) => i,
            None => {
                return Err(
                    GdkError::agent_error(
                        String::from_str(agent_id),
                        String::from_str("create_spiral_checkpoint"),
                        None,
                        String::from_str("no active session for this agent"),
                    ),
                );
            },
        };
        let copy = point.clone();
        let ghost gcopy = copy;
        {
            let sess = &mut self.active_sessions[idx];
            sess.revert_stack.push(copy);
        }
        {
            let sess = &mut self.active_sessions[idx];
            sess.current_commit = Some(point.commit_hash.clone());
        }
        proof {
            let s = self.active_sessions@;
            let o = old(self).active_sessions@;
            assert(forall|k: int| 0 <= k < s.len() && k != idx ==> #[trigger] s[k] == o[k]);
            assert(agents_unique(s));
            assert(s[idx as int].revert_stack@ == o[idx as int].revert_stack@.push(gcopy));
            assert(s[idx as int].revert_stack@.subrange(
                0,
                o[idx as int].revert_stack@.len() as int,
            ) =~= o[idx as int].revert_stack@);
            assert(eq_revert_point(gcopy, point));
        }
        match self.complete_action(&action, true, Some(point.commit_hash.as_str())) {
            Ok(()) => {},
            Err(e) => {
                return Err(e);
            },
        }
        proof {
            assert(agents_unique(self.active_sessions@));
            assert(self.active_sessions@[idx as int].revert_stack@.subrange(
                0,
                old(self).active_sessions@[idx as int].revert_stack@.len() as int,
            ) =~= old(self).active_sessions@[idx as int].revert_stack@);
        }
        Ok(point)
    }

    /// Pop the agent's most recent checkpoint, hard-reset the working
    /// state to it, and record the action. With an empty stack the call
    /// fails naming the agent, and nothing changes.
    pub fn revert_to_last_checkpoint(&mut self, agent_id: &str) -> (r: GdkResult<()>)
        requires
            old(self).wf(),
        ensures
            final(self).wf(),
            spec_find_session(old(self).active_sessions@, agent_id@) is None ==> r is Err && final(self).active_sessions == old(self).active_sessions && final(self).action_history == old(
                self,
            ).action_history,
            ({
                let found = spec_find_session(old(self).active_sessions@, agent_id@);
                found matches Some(i) ==> old(
                    self,
                ).active_sessions@[i].revert_stack@.len() == 0 ==> {
                    &&& r matches Err(e)
                    &&& (r matches Err(e) ==> e matches GdkError::ValidationError {
                        rule,
                        context,
                        details,
                    } && rule@ == "revert_stack"@ && details@
                        == "no checkpoints to revert to for agent "@ + agent_id@)
                    &&& final(self).active_sessions == old(self).active_sessions
                    &&& final(self).action_history == old(self).action_history
                }
            }),
            ({
                let found = spec_find_session(old(self).active_sessions@, agent_id@);
                found matches Some(i) ==> old(self).active_sessions@[i].revert_stack@.len() > 0
                    ==> {
                    let s0 = old(self).active_sessions@[i];
                    let s1 = final(self).active_sessions@[i];
                    &&& final(self).active_sessions@.len() == old(self).active_sessions@.len()
                    &&& forall|k: int|
                        0 <= k < old(self).active_sessions@.len() && k != i
                            ==> #[trigger] final(self).active_sessions@[k] == old(
                            self,
                        ).active_sessions@[k]
                    &&& s1.revert_stack@ == s0.revert_stack@.drop_last()
                    &&& s1.agent_id == s0.agent_id
                    &&& s1.max_spiral_attempts == s0.max_spiral_attempts
                    &&& s1.spiral_attempts == s0.spiral_attempts
                    &&& s1.convergence_history@ == s0.convergence_history@
                    &&& (r is Ok ==> {
                        &&& s1.current_commit matches Some(h) && h@
                            == s0.revert_stack@.last().commit_hash@
                        &&& final(self).action_history@.len() == old(
                            self,
                        ).action_history@.len() + 1
                        &&& final(self).action_history@.subrange(
                            0,
                            old(self).action_history@.len() as int,
                        ) == old(self).action_history@
                        &&& {
                            let rec = final(self).action_history@.last();
                            &&& rec.agent_id@ == agent_id@
                            &&& rec.action_type == ActionType::RevertToPoint
                            &&& rec.success == true
                            &&& rec.commit_after matches Some(h) && h@
                                == s0.revert_stack@.last().commit_hash@
                        }
                    })
                    &&& (r is Err ==> s1.current_commit == s0.current_commit)
                }
            }),
    {
        let idx = match self.find_session_index(agent_id) {
            Some(i) => i,
            None => {
                return Err(
                    GdkError::agent_error(
                        String::from_str(agent_id),
                        String::from_str("revert_to_last_checkpoint"),
                        None,
                        String::from_str("no active session for this agent"),
                    ),
                );
            },
        };
        if self.active_sessions[idx].revert_stack.len() == 0 {
            let mut details = String::from_str("no checkpoints to revert to for agent ");
            details.append(agent_id);
            return Err(
                GdkError::validation_error(
                    String::from_str("revert_stack"),
                    String::from_str("revert_to_last_checkpoint"),
                    details,
                ),
            );
        }
        let action = match self.log_action(agent_id, ActionType::RevertToPoint) {
            Ok(a) => a,
            Err(e) => {
                return Err(e);
            },
        };
        let point = {
            let sess = &mut self.active_sessions[idx];
            let p = sess.revert_stack.pop().unwrap();
            p
        };
        proof {
            assert(agents_unique(self.active_sessions@));
        }
        match self.workflow.revert_to_point(&point) {
            Ok(()) => {},
            Err(e) => {
                return Err(e);
            },
        }
        {
            let sess = &mut self.active_sessions[idx];
            sess.current_commit = Some(point.commit_hash.clone());
        }
        proof {
            assert(agents_unique(self.active_sessions@));
        }
        match self.complete_action(&action, true, Some(point.commit_hash.as_str())) {
            Ok(()) => {},
            Err(e) => {
                return Err(e);
            },
        }
        Ok(())
    }

    /// Refresh thread colours, create a revision, then run the external
    /// CI gate on it. A rejection is reported as [`GdkError::CiCdGateError`]
    /// naming the revision, and exactly then both log records are marked
    /// unsuccessful; the already-created revision is deliberately not
    /// rolled back, so repository history keeps the rejected attempt.
    pub fn validate_and_commit(&mut self, agent_id: &str, message: &str) -> (r: GdkResult<
        CommitNode,
    >)
        requires
            old(self).wf(),
        ensures
            final(self).wf(),
            final(self).active_sessions@.len() == old(self).active_sessions@.len(),
            spec_find_session(old(self).active_sessions@, agent_id@) is None ==> r is Err && final(self).active_sessions == old(self).active_sessions && final(self).action_history == old(
                self,
            ).action_history,
            r matches Ok(c) ==> {
                let found = spec_find_session(old(self).active_sessions@, agent_id@);
                &&& found matches Some(i)
                &&& {
                    let s0 = old(self).active_sessions@[i];
                    let s1 = final(self).active_sessions@[i];
                    let n0 = old(self).action_history@.len() as int;
                    &&& forall|k: int|
                        0 <= k < old(self).active_sessions@.len() && k != i
                            ==> #[trigger] final(self).active_sessions@[k] == old(
                            self,
                        ).active_sessions@[k]
                    &&& s1.current_commit matches Some(h) && h@ == c.hash@
                    &&& s1.revert_stack@ == s0.revert_stack@
                    &&& s1.convergence_history@ == s0.convergence_history@
                    &&& s1.spiral_attempts == s0.spiral_attempts
                    &&& s1.max_spiral_attempts == s0.max_spiral_attempts
                    &&& s1.agent_id == s0.agent_id
                    &&& final(self).action_history@.len() == n0 + 2
                    &&& final(self).action_history@.subrange(0, n0) == old(self).action_history@
                    &&& final(self).action_history@[n0].action_type == ActionType::CiCdValidation
                    &&& final(self).action_history@[n0].success == true
                    &&& (final(self).action_history@[n0].commit_after matches Some(h) && h@
                        == c.hash@)
                    &&& final(self).action_history@[n0 + 1].action_type
                        == ActionType::QualityValidation
                    &&& final(self).action_history@[n0 + 1].success == true
                    &&& (final(self).action_history@[n0 + 1].commit_after matches Some(h) && h@
                        == c.hash@)
                }
            },
            r matches Ok(c) ==> c.message@ == message@,
            r matches Err(e) ==> {
                let n0 = old(self).action_history@.len() as int;
                &&& final(self).active_sessions == old(self).active_sessions
                &&& (e matches GdkError::CiCdGateError { revision } ==> {
                    &&& final(self).action_history@.len() == n0 + 2
                    &&& final(self).action_history@.subrange(0, n0) == old(self).action_history@
                    &&& final(self).action_history@[n0].action_type == ActionType::CiCdValidation
                    &&& final(self).action_history@[n0].success == false
                    &&& (final(self).action_history@[n0].commit_after matches Some(h) && h@
                        == revision@)
                    &&& final(self).action_history@[n0 + 1].action_type
                        == ActionType::QualityValidation
                    &&& final(self).action_history@[n0 + 1].success == false
                    &&& (final(self).action_history@[n0 + 1].commit_after matches Some(h) && h@
                        == revision@)
                })
                &&& (!(e is CiCdGateError) ==> final(self).action_history == old(
                    self,
                ).action_history)
            },
    {
        let action = match self.log_action(agent_id, ActionType::QualityValidation) {
            Ok(a) => a,
            Err(e) => {
                return Err(e);
            },
        };
        match self.workflow.update_thread_colors() {
            Ok(()) => {},
            Err(e) => {
                return Err(e);
            },
        }
        let commit_node = match self.workflow.create_commit_node(message) {
            Ok(c) => c,
            Err(e) => {
                return Err(e);
            },
        };
        let ci_action = match self.log_action(agent_id, ActionType::CiCdValidation) {
            Ok(a) => a,
            Err(e) => {
                return Err(e);
            },
        };
        let ci_success = match self.workflow.validate_ci_cd(commit_node.hash.as_str()) {
            Ok(b) => b,
            Err(e) => {
                return Err(e);
            },
        };
        if !ci_success {
            match self.complete_action(&ci_action, false, Some(commit_node.hash.as_str())) {
                Ok(()) => {},
                Err(e) => {
                    return Err(e);
                },
            }
            match self.complete_action(&action, false, Some(commit_node.hash.as_str())) {
                Ok(()) => {},
                Err(e) => {
                    return Err(e);
                },
            }
            proof {
                assert(final(self).action_history@.subrange(
                    0,
                    old(self).action_history@.len() as int,
                ) =~= old(self).action_history@);
            }
            return Err(GdkError::ci_gate_error(commit_node.hash.clone()));
        }
        let idx = match self.find_session_index(agent_id) {
            Some(i) => i,
            None => {
                return Err(
                    GdkError::agent_error(
                        String::from_str(agent_id),
                        String::from_str("validate_and_commit"),
                        None,
                        String::from_str("no active session for this agent"),
                    ),
                );
            },
        };
        {
            let sess = &mut self.active_sessions[idx];
            sess.current_commit = Some(commit_node.hash.clone());
        }
        proof {
            assert(agents_unique(self.active_sessions@));
        }
        match self.complete_action(&ci_action, true, Some(commit_node.hash.as_str())) {
            Ok(()) => {},
            Err(e) => {
                return Err(e);
            },
        }
        match self.complete_action(&action, true, Some(commit_node.hash.as_str())) {
            Ok(()) => {},
            Err(e) => {
                return Err(e);
            },
        }
        proof {
            assert(final(self).action_history@.subrange(0, old(self).action_history@.len() as int)
                =~= old(self).action_history@);
        }
        Ok(commit_node)
    }

    /// Analyze convergence through the backend, append the snapshot to
    /// the session history, and record the action. Fails when the agent
    /// has no session or the backend fails, leaving sessions and log
    /// untouched.
    pub fn get_convergence_status(&mut self, agent_id: &str) -> (r: GdkResult<ConvergenceMetrics>)
        requires
            old(self).wf(),
        ensures
            final(self).wf(),
            r is Err ==> final(self).active_sessions == old(self).active_sessions && final(self).action_history == old(self).action_history,
            spec_find_session(old(self).active_sessions@, agent_id@) is None ==> r is Err,
            r matches Ok(m) ==> {
                let found = spec_find_session(old(self).active_sessions@, agent_id@);
                &&& found matches Some(i)
                &&& {
                    let s0 = old(self).active_sessions@[i];
                    let s1 = final(self).active_sessions@[i];
                    let n0 = old(self).action_history@.len() as int;
                    &&& final(self).active_sessions@.len() == old(self).active_sessions@.len()
                    &&& forall|k: int|
                        0 <= k < old(self).active_sessions@.len() && k != i
                            ==> #[trigger] final(self).active_sessions@[k] == old(
                            self,
                        ).active_sessions@[k]
                    &&& s1.convergence_history@.len() == s0.convergence_history@.len() + 1
                    &&& s1.convergence_history@.subrange(0, s0.convergence_history@.len() as int)
                        == s0.convergence_history@
                    &&& eq_convergence(s1.convergence_history@.last(), m)
                    &&& s1.revert_stack@ == s0.revert_stack@
                    &&& s1.current_commit == s0.current_commit
                    &&& s1.spiral_attempts == s0.spiral_attempts
                    &&& s1.max_spiral_attempts == s0.max_spiral_attempts
                    &&& s1.agent_id == s0.agent_id
                    &&& final(self).action_history@.len() == n0 + 1
                    &&& final(self).action_history@.subrange(0, n0) == old(self).action_history@
                    &&& final(self).action_history@[n0].action_type
                        == ActionType::ConvergenceCheck
                    &&& final(self).action_history@[n0].success == true
                    &&& final(self).action_history@[n0].commit_after is None
                }
            },
    {
        let action = match self.log_action(agent_id, ActionType::ConvergenceCheck) {
            Ok(a) => a,
            Err(e) => {
                return Err(e);
            },
        };
        let convergence = match self.workflow.analyze_convergence() {
            Ok(m) => m,
            Err(e) => {
                return Err(e);
            },
        };
        let idx = match self.find_session_index(agent_id) {
            Some(i) => i,
            None => {
                return Err(
                    GdkError::agent_error(
                        String::from_str(agent_id),
                        String::from_str("get_convergence_status"),
                        None,
                        String::from_str("no active session for this agent"),
                    ),
                );
            },
        };
        let copy = convergence.clone();
        let ghost gcopy = copy;
        {
            let sess = &mut self.active_sessions[idx];
            sess.convergence_history.push(copy);
        }
        proof {
            assert(agents_unique(self.active_sessions@));
            assert(self.active_sessions@[idx as int].convergence_history@.subrange(
                0,
                old(self).active_sessions@[idx as int].convergence_history@.len() as int,
            ) =~= old(self).active_sessions@[idx as int].convergence_history@);
        }
        match self.complete_action(&action, true, None) {
            Ok(()) => {},
            Err(e) => {
                return Err(e);
            },
        }
        proof {
            assert(final(self).action_history@.subrange(0, old(self).action_history@.len() as int)
                =~= old(self).action_history@);
        }
        Ok(convergence)
    }

    /// The bounded-retry convergence loop. An anchor checkpoint is pushed
    /// first; each attempt then creates a revision, appends its
    /// convergence snapshot to the session, and either succeeds (pass
    /// rate at least the target, and converged) or hard-reverts to the
    /// same anchor and retries. Exhausting the attempt budget is the
    /// designed terminal failure: it is reported as a convergence error
    /// carrying the attempt count, the last appended snapshot's pass rate
    /// (zero when no iteration completed) and the target, and the anchor
    /// remains on the stack.
    pub fn execute_infinite_monkey_workflow(&mut self, agent_id: &str, target_convergence: u32)
        -> (r: GdkResult<CommitNode>)
        requires
            old(self).wf(),
        ensures
            final(self).wf(),
            spec_find_session(old(self).active_sessions@, agent_id@) is None ==> r is Err && final(self).active_sessions == old(self).active_sessions,
            r matches Err(e) ==> (e matches GdkError::ConvergenceError {
                iterations,
                last_score,
                threshold,
                ..
            } ==> {
                let found = spec_find_session(old(self).active_sessions@, agent_id@);
                &&& found matches Some(i)
                &&& {
                    let s0 = old(self).active_sessions@[i];
                    let s1 = final(self).active_sessions@[i];
                    &&& final(self).active_sessions@.len() == old(self).active_sessions@.len()
                    &&& forall|k: int|
                        0 <= k < old(self).active_sessions@.len() && k != i
                            ==> #[trigger] final(self).active_sessions@[k] == old(
                            self,
                        ).active_sessions@[k]
                    &&& s1.agent_id == s0.agent_id
                    &&& s1.max_spiral_attempts == s0.max_spiral_attempts
                    &&& s1.spiral_attempts == spec_exhausted_attempts(
                        s0.spiral_attempts as int,
                        s0.max_spiral_attempts as int,
                    )
                    &&& iterations == s1.spiral_attempts
                    &&& s1.convergence_history@.len() >= s0.convergence_history@.len()
                    &&& s1.convergence_history@.subrange(
                        0,
                        s0.convergence_history@.len() as int,
                    ) == s0.convergence_history@
                    &&& last_score == (if s1.convergence_history@.len()
                        == s0.convergence_history@.len() {
                        0int
                    } else {
                        s1.convergence_history@.last().test_pass_rate as int
                    })
                    &&& threshold == target_convergence
                    &&& s1.revert_stack@.len() == s0.revert_stack@.len() + 1
                    &&& s1.revert_stack@.subrange(0, s0.revert_stack@.len() as int)
                        == s0.revert_stack@
                }
            }),
            r matches Ok(c) ==> {
                let found = spec_find_session(old(self).active_sessions@, agent_id@);
                &&& found matches Some(i)
                &&& {
                    let s0 = old(self).active_sessions@[i];
                    let s1 = final(self).active_sessions@[i];
                    &&& s1.convergence_history@.len() > s0.convergence_history@.len()
                    &&& s1.convergence_history@.subrange(
                        0,
                        s0.convergence_history@.len() as int,
                    ) == s0.convergence_history@
                    &&& s1.convergence_history@.last().test_pass_rate >= target_convergence
                    &&& s1.convergence_history@.last().is_converged
                    &&& s1.current_commit matches Some(h) && h@ == c.hash@
                    &&& s1.spiral_attempts <= s1.max_spiral_attempts
                    &&& s1.revert_stack@.len() == s0.revert_stack@.len() + 1
                    &&& s1.revert_stack@.subrange(0, s0.revert_stack@.len() as int)
                        == s0.revert_stack@
                }
            },
    {
        let anchor = match self.workflow.create_revert_point("infinite_monkey_start") {
            Ok(p) => p,
            Err(e) => {
                return Err(e);
            },
        };
        let idx = match self.find_session_index(agent_id) {
            Some(i) => i,
            None => {
                return Err(
                    GdkError::agent_error(
                        String::from_str(agent_id),
                        String::from_str("execute_infinite_monkey_workflow"),
                        None,
                        String::from_str("no active session for this agent"),
                    ),
                );
            },
        };
        let anchor_copy = anchor.clone();
        {
            let sess = &mut self.active_sessions[idx];
            sess.revert_stack.push(anchor_copy);
        }
        proof {
            assert(agents_unique(self.active_sessions@));
            assert(self.active_sessions@[idx as int].revert_stack@.subrange(
                0,
                old(self).active_sessions@[idx as int].revert_stack@.len() as int,
            ) =~= old(self).active_sessions@[idx as int].revert_stack@);
        }
        let mut last_score: u32 = 0;
        loop
            invariant
                old(self).wf(),
                self.wf(),
                spec_find_session(old(self).active_sessions@, agent_id@) == Some(idx as int),
                0 <= idx < self.active_sessions@.len(),
                self.active_sessions@.len() == old(self).active_sessions@.len(),
                forall|k: int|
                    0 <= k < old(self).active_sessions@.len() && k != idx
                        ==> #[trigger] self.active_sessions@[k] == old(self).active_sessions@[k],
                self.active_sessions@[idx as int].agent_id@ == agent_id@,
                self.active_sessions@[idx as int].agent_id == old(
                    self,
                ).active_sessions@[idx as int].agent_id,
                self.active_sessions@[idx as int].max_spiral_attempts == old(
                    self,
                ).active_sessions@[idx as int].max_spiral_attempts,
                self.active_sessions@[idx as int].revert_stack@.len() == old(
                    self,
                ).active_sessions@[idx as int].revert_stack@.len() + 1,
                self.active_sessions@[idx as int].revert_stack@.subrange(
                    0,
                    old(self).active_sessions@[idx as int].revert_stack@.len() as int,
                ) == old(self).active_sessions@[idx as int].revert_stack@,
                self.active_sessions@[idx as int].spiral_attempts == old(
                    self,
                ).active_sessions@[idx as int].spiral_attempts || (old(
                    self,
                ).active_sessions@[idx as int].spiral_attempts < old(
                    self,
                ).active_sessions@[idx as int].max_spiral_attempts
                    && self.active_sessions@[idx as int].spiral_attempts <= old(
                    self,
                ).active_sessions@[idx as int].max_spiral_attempts),
                self.active_sessions@[idx as int].convergence_history@.len() >= old(
                    self,
                ).active_sessions@[idx as int].convergence_history@.len(),
                self.active_sessions@[idx as int].convergence_history@.subrange(
                    0,
                    old(self).active_sessions@[idx as int].convergence_history@.len() as int,
                ) == old(self).active_sessions@[idx as int].convergence_history@,
                last_score == (if self.active_sessions@[idx as int].convergence_history@.len()
                    == old(self).active_sessions@[idx as int].convergence_history@.len() {
                    0int
                } else {
                    self.active_sessions@[idx as int].convergence_history@.last().test_pass_rate
                        as int
                }),
            decreases 0x100000000int - self.active_sessions@[idx as int].spiral_attempts,
        {
            let att = self.active_sessions[idx].spiral_attempts;
            let max = self.active_sessions[idx].max_spiral_attempts;
            // A saturated counter counts as an exhausted budget.
            if att == 0xffffffffu32 {
                return Err(
                    GdkError::convergence_error(
                        String::from_str("maximum spiral attempts reached without convergence"),
                        att,
                        last_score,
                        target_convergence,
                    ),
                );
            }
            let new_att = att + 1;
            {
                let sess = &mut self.active_sessions[idx];
                sess.spiral_attempts = new_att;
            }
            proof {
                assert(agents_unique(self.active_sessions@));
            }
            if new_att > max {
                return Err(
                    GdkError::convergence_error(
                        String::from_str("maximum spiral attempts reached without convergence"),
                        new_att,
                        last_score,
                        target_convergence,
                    ),
                );
            }
            let action = match self.log_action(agent_id, ActionType::InfiniteMonkeyIteration) {
                Ok(a) => a,
                Err(e) => {
                    return Err(e);
                },
            };
            let mut message = String::from_str("Infinite monkey attempt ");
            let num = crate::decimal_string(new_att);
            message.append(num.as_str());
            let commit_node = match self.workflow.create_commit_node(message.as_str()) {
                Ok(c) => c,
                Err(e) => {
                    return Err(e);
                },
            };
            {
                let sess = &mut self.active_sessions[idx];
                sess.current_commit = Some(commit_node.hash.clone());
            }
            proof {
                assert(agents_unique(self.active_sessions@));
            }
            let convergence = match self.workflow.analyze_convergence() {
                Ok(m) => m,
                Err(e) => {
                    return Err(e);
                },
            };
            let copy = convergence.clone();
            let ghost gcopy = copy;
            {
                let sess = &mut self.active_sessions[idx];
                sess.convergence_history.push(copy);
            }
            last_score = convergence.test_pass_rate;
            proof {
                assert(agents_unique(self.active_sessions@));
                assert(self.active_sessions@[idx as int].convergence_history@.last() == gcopy);
                assert(self.active_sessions@[idx as int].convergence_history@.subrange(
                    0,
                    old(self).active_sessions@[idx as int].convergence_history@.len() as int,
                ) =~= old(self).active_sessions@[idx as int].convergence_history@);
            }
            match self.complete_action(&action, true, Some(commit_node.hash.as_str())) {
                Ok(()) => {},
                Err(e) => {
                    return Err(e);
                },
            }
            if convergence.test_pass_rate >= target_convergence && convergence.is_converged {
                return Ok(commit_node);
            }
            match self.workflow.revert_to_point(&anchor) {
                Ok(()) => {},
                Err(e) => {
                    return Err(e);
                },
            }
        }
    }

}


/// Standalone bounded-retry loop over a revision-control capability,
/// without session bookkeeping: try up to `max_attempts` revisions, and
/// between failed attempts hard-revert to the anchor taken at the start.
/// Exhaustion is reported as a convergence error carrying the attempt
/// budget, the last observed health score and the fixed 0.8 threshold.
pub fn infinite_monkey_iteration<T: GitWorkflow>(workflow: &mut T, max_attempts: u32) -> (r:
    GdkResult<CommitNode>)
    ensures
        r matches Err(e) ==> (e matches GdkError::ConvergenceError {
            iterations,
            threshold,
            ..
        } ==> iterations == max_attempts && threshold == 8000),
{
    let anchor = match workflow.create_revert_point("infinite_monkey_start") {
        Ok(p) => p,
        Err(e) => {
            return Err(e);
        },
    };
    let mut done: u32 = 0;
    let mut last_score: u32 = 0;
    while done < max_attempts
        invariant
            done <= max_attempts,
        decreases max_attempts - done,
    {
        let attempt = done + 1;
        let mut message = String::from_str("Iteration attempt ");
        let num = crate::decimal_string(attempt);
        message.append(num.as_str());
        let node = match workflow.create_commit_node(message.as_str()) {
            Ok(n) => n,
            Err(e) => {
                return Err(e);
            },
        };
        last_score = node.health_score;
        let convergence = match workflow.analyze_convergence() {
            Ok(m) => m,
            Err(e) => {
                return Err(e);
            },
        };
        if convergence.is_converged {
            return Ok(node);
        }
        if attempt < max_attempts {
            match workflow.revert_to_point(&anchor) {
                Ok(()) => {},
                Err(e) => {
                    return Err(e);
                },
            }
        }
        done = attempt;
    }
    Err(
        GdkError::convergence_error(
            String::from_str("maximum iterations reached without convergence"),
            max_attempts,
            last_score,
            8000,
        ),
    )
}

/// The checkpoint stack is strictly last-in first-out: after pushing
/// points `a`, `b` and `c`, the first pop yields `c`, the second yields
/// `b`, and what remains is the original stack with `a` on top. (A pop on
/// an empty stack is an error that names the agent: see
/// [`AgentWorkflowController::revert_to_last_checkpoint`].)
pub proof fn lemma_checkpoint_lifo(
    s: Seq<RevertPoint>,
    a: RevertPoint,
    b: RevertPoint,
    c: RevertPoint,
)
    ensures
        s.push(a).push(b).push(c).last() == c,
        s.push(a).push(b).push(c).drop_last() == s.push(a).push(b),
        s.push(a).push(b).last() == b,
        s.push(a).push(b).drop_last() == s.push(a),
        s.push(a).last() == a,
{
    assert(s.push(a).push(b).push(c).drop_last() =~= s.push(a).push(b));
    assert(s.push(a).push(b).drop_last() =~= s.push(a));
}

} // verus!