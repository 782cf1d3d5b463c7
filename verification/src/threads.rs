//! Per-file quality thread management: a keyed store of [`FileThread`]
//! records with configurable colour rules, capped history snapshots and
//! derived statistics.
//!
//! Threads are held in a vector keyed by file path; the well-formedness
//! invariant [`ThreadManager::wf`] keeps the paths unique, so the vector
//! behaves as a map.

use vstd::prelude::*;

use crate::errors::{GdkError, GdkResult};
use crate::platform;
use crate::{clone_vec_exact, eq_thread, FileThread, ThreadColor, ThreadMetrics, ThreadState, SCORE_SCALE};

verus! {

/// Thresholds and weights for deriving a colour from four scores. The
/// weights are fixed-point fractions that should sum to one.
#[derive(Debug, Clone, PartialEq, Eq, Structural)]
pub struct ColorRules {
    pub green_threshold: u32,
    pub light_green_threshold: u32,
    pub yellow_threshold: u32,
    pub orange_threshold: u32,
    pub weight_lint: u32,
    pub weight_type_check: u32,
    pub weight_test_coverage: u32,
    pub weight_functionality: u32,
}

impl Default for ColorRules {
    /// The default rules: thresholds 0.9 / 0.7 / 0.5 / 0.3 and equal
    /// weights of one quarter.
    fn default() -> (r: ColorRules)
        ensures
            r == ColorRules::spec_default(),
    {
        ColorRules {
            green_threshold: 9000,
            light_green_threshold: 7000,
            yellow_threshold: 5000,
            orange_threshold: 3000,
            weight_lint: 2500,
            weight_type_check: 2500,
            weight_test_coverage: 2500,
            weight_functionality: 2500,
        }
    }
}

impl ColorRules {
    /// The default rule set.
    pub open spec fn spec_default() -> ColorRules {
        ColorRules {
            green_threshold: 9000,
            light_green_threshold: 7000,
            yellow_threshold: 5000,
            orange_threshold: 3000,
            weight_lint: 2500,
            weight_type_check: 2500,
            weight_test_coverage: 2500,
            weight_functionality: 2500,
        }
    }
}

/// The weighted score of four quality scores under a rule set, in units
/// of the scale.
pub open spec fn spec_weighted_score(r: ColorRules, lint: int, tc: int, cov: int, f: int) -> int {
    (lint * r.weight_lint + tc * r.weight_type_check + cov * r.weight_test_coverage + f
        * r.weight_functionality) / (SCORE_SCALE as int)
}

/// The colour a rule set assigns to a weighted score.
pub open spec fn spec_rules_color(r: ColorRules, ws: int) -> ThreadColor {
    if ws >= r.green_threshold {
        ThreadColor::Green
    } else if ws >= r.light_green_threshold {
        ThreadColor::LightGreen
    } else if ws >= r.yellow_threshold {
        ThreadColor::Yellow
    } else if ws >= r.orange_threshold {
        ThreadColor::Orange
    } else {
        ThreadColor::Red
    }
}

/// A point-in-time copy of every active thread with the overall health at
/// that moment.
#[derive(Debug, Clone, PartialEq)]
pub struct ThreadSnapshot {
    pub snapshot_id: u128,
    pub timestamp: u64,
    pub commit_hash: String,
    pub threads: Vec<FileThread>,
    pub overall_health: u32,
}

/// Counts of active threads per colour.
#[derive(Debug, Clone, Copy, PartialEq, Eq, Structural)]
pub struct ColorDistribution {
    pub red: usize,
    pub orange: usize,
    pub yellow: usize,
    pub light_green: usize,
    pub green: usize,
}

/// Aggregate statistics over the active threads.
#[derive(Debug, Clone, Copy, PartialEq, Eq, Structural)]
pub struct ThreadStatistics {
    pub total_threads: usize,
    pub red_threads: usize,
    pub orange_threads: usize,
    pub yellow_threads: usize,
    pub light_green_threads: usize,
    pub green_threads: usize,
    pub overall_health: u32,
    pub average_quality: u32,
}

/// Keyed store of file threads with colour rules and capped snapshots.
#[derive(Debug, Clone, PartialEq)]
pub struct ThreadManager {
    /// The active threads; their file paths are unique (see [`Self::wf`]).
    pub active_threads: Vec<FileThread>,
    /// Snapshot history, capped at one hundred entries, oldest evicted.
    pub thread_history: Vec<ThreadSnapshot>,
    /// The rules for deriving colours.
    pub color_rules: ColorRules,
}

/// Whether every file path occurs at most once.
pub open spec fn paths_unique(s: Seq<FileThread>) -> bool {
    forall|i: int, j: int|
        0 <= i < j < s.len() ==> (#[trigger] s[i].file_path@) != (#[trigger] s[j].file_path@)
}

/// The index of the thread with the given path, if one exists.
pub open spec fn spec_find(s: Seq<FileThread>, p: Seq<char>) -> Option<int> {
    if exists|i: int| 0 <= i < s.len() && #[trigger] s[i].file_path@ == p {
        Some(choose|i: int| 0 <= i < s.len() && #[trigger] s[i].file_path@ == p)
    } else {
        None
    }
}

/// The latest quality score of one thread, zero without history.
pub open spec fn latest_quality(t: FileThread) -> int {
    if t.history@.len() == 0 {
        0
    } else {
        t.history@.last().metrics.quality_score as int
    }
}

/// Sum of the latest quality scores over a set of threads.
pub open spec fn sum_latest_quality(s: Seq<FileThread>) -> int
    decreases s.len(),
{
    if s.len() == 0 {
        0
    } else {
        sum_latest_quality(s.drop_last()) + latest_quality(s.last())
    }
}

/// Number of threads with the given colour.
pub open spec fn count_color(s: Seq<FileThread>, c: ThreadColor) -> int
    decreases s.len(),
{
    if s.len() == 0 {
        0
    } else {
        count_color(s.drop_last(), c) + if s.last().color_status == c {
            1int
        } else {
            0int
        }
    }
}

/// Number of threads that have at least one history entry.
pub open spec fn count_with_history(s: Seq<FileThread>) -> int
    decreases s.len(),
{
    if s.len() == 0 {
        0
    } else {
        count_with_history(s.drop_last()) + if s.last().history@.len() > 0 {
            1int
        } else {
            0int
        }
    }
}

/// The threads with the given colour, in order.
pub open spec fn threads_with_color(s: Seq<FileThread>, c: ThreadColor) -> Seq<FileThread>
    decreases s.len(),
{
    if s.len() == 0 {
        Seq::empty()
    } else {
        threads_with_color(s.drop_last(), c) + if s.last().color_status == c {
            seq![s.last()]
        } else {
            Seq::empty()
        }
    }
}

/// The overall health of a set of threads: the mean of the latest quality
/// scores, zero when there are no threads. Meaningful for scores within
/// the scale.
pub open spec fn spec_overall_health(s: Seq<FileThread>) -> int {
    if s.len() == 0 {
        0
    } else {
        sum_latest_quality(s) / (s.len() as int)
    }
}

impl ThreadManager {
    /// Well-formedness: thread paths unique, quality scores in history
    /// within the scale.
    pub open spec fn wf(&self) -> bool {
        &&& paths_unique(self.active_threads@)
        &&& forall|i: int|
            0 <= i < self.active_threads@.len() ==> wf_thread(
                #[trigger] self.active_threads@[i],
            )
        &&& forall|i: int|
            0 <= i < self.thread_history@.len() ==> #[trigger] wf_snapshot(
                self.thread_history@[i],
            )
    }

    /// An empty manager with the default colour rules.
    pub fn new() -> (m: ThreadManager)
        ensures
            m.active_threads@.len() == 0,
            m.thread_history@.len() == 0,
            m.color_rules == ColorRules::spec_default(),
            m.wf(),
    {
        ThreadManager {
            active_threads: Vec::new(),
            thread_history: Vec::new(),
            color_rules: ColorRules::default(),
        }
    }

    /// The index of the thread for a path, scanning in order.
    fn find_index(&self, file_path: &str) -> (r: Option<usize>)
        requires
            paths_unique(self.active_threads@),
        ensures
            r matches Some(i) ==> 0 <= i < self.active_threads@.len()
                && self.active_threads@[i as int].file_path@ == file_path@ && spec_find(
                self.active_threads@,
                file_path@,
            ) == Some(i as int),
            r is None ==> spec_find(self.active_threads@, file_path@) is None,
    {
        let needle = String::from_str(file_path);
        let n = self.active_threads.len();
        let mut i: usize = 0;
        while i < n
            invariant
                0 <= i <= n,
                n == self.active_threads@.len(),
                needle@ == file_path@,
                paths_unique(self.active_threads@),
                forall|j: int|
                    0 <= j < i ==> (#[trigger] self.active_threads@[j].file_path@) != file_path@,
            decreases n - i,
        {
            if self.active_threads[i].file_path == needle {
                return Some(i);
            }
            i = i + 1;
        }
        None
    }

    /// Create (or replace) the thread for a file: red status, zero
    /// scores, and a single initial history entry for the given revision.
    /// Returns a copy of the created thread. Never fails.
    pub fn create_thread(&mut self, file_path: &str, commit_hash: &str) -> (r: GdkResult<
        FileThread,
    >)
        requires
            old(self).wf(),
        ensures
            final(self).wf(),
            final(self).thread_history == old(self).thread_history,
            final(self).color_rules == old(self).color_rules,
            r is Ok,
            r matches Ok(t) ==> {
                &&& t.file_path@ == file_path@
                &&& t.color_status is Red
                &&& t.lint_score == 0 && t.type_check_score == 0 && t.test_coverage == 0
                    && t.functionality_score == 0
                &&& t.history@.len() == 1
                &&& t.history@[0].commit_hash@ == commit_hash@
                &&& t.history@[0].diff_content@.len() == 0
                &&& t.history@[0].metrics == (ThreadMetrics {
                    lines_added: 0u32,
                    lines_removed: 0u32,
                    complexity_delta: 0i64,
                    quality_score: 0u32,
                })
                &&& (spec_find(old(self).active_threads@, file_path@) is None ==> {
                    &&& final(self).active_threads@.len() == old(self).active_threads@.len() + 1
                    &&& forall|k: int|
                        0 <= k < old(self).active_threads@.len()
                            ==> #[trigger] final(self).active_threads@[k] == old(
                            self,
                        ).active_threads@[k]
                    &&& eq_thread(final(self).active_threads@.last(), t)
                })
                &&& (spec_find(old(self).active_threads@, file_path@) matches Some(i) ==> {
                    &&& final(self).active_threads@.len() == old(self).active_threads@.len()
                    &&& forall|k: int|
                        0 <= k < old(self).active_threads@.len() && k != i
                            ==> #[trigger] final(self).active_threads@[k] == old(
                            self,
                        ).active_threads@[k]
                    &&& eq_thread(final(self).active_threads@[i], t)
                })
            },
    {
        let state = ThreadState {
            commit_hash: String::from_str(commit_hash),
            diff_content: String::new(),
            metrics: ThreadMetrics {
                lines_added: 0,
                lines_removed: 0,
                complexity_delta: 0,
                quality_score: 0,
            },
            timestamp: platform::unix_now_secs(),
        };
        let mut history: Vec<ThreadState> = Vec::new();
        history.push(state);
        let thread = FileThread {
            file_path: String::from_str(file_path),
            thread_id: platform::fresh_id(),
            color_status: ThreadColor::Red,
            lint_score: 0,
            type_check_score: 0,
            test_coverage: 0,
            functionality_score: 0,
            history,
        };
        proof {
            assert(wf_thread(thread));
        }
        let ret = thread.clone();
        match self.find_index(file_path) {
            Some(i) => {
                self.active_threads.set(i, thread);
                proof {
                    let s = self.active_threads@;
                    assert(forall|k: int|
                        0 <= k < s.len() && k != i ==> #[trigger] s[k] == old(
                            self,
                        ).active_threads@[k]);
                    assert(paths_unique(s));
                    assert(self.wf());
                }
                Ok(ret)
            },
            None => {
                self.active_threads.push(thread);
                proof {
                    let s = self.active_threads@;
                    assert(forall|k: int|
                        0 <= k < s.len() - 1 ==> #[trigger] s[k] == old(self).active_threads@[k]);
                    assert(forall|k: int|
                        0 <= k < s.len() - 1 ==> (#[trigger] s[k].file_path@) != file_path@);
                    assert(paths_unique(s));
                    assert(self.wf());
                }
                Ok(ret)
            },
        }
    }

    /// The colour the configured rules assign to four scores, by their
    /// weighted sum.
    pub fn calculate_thread_color(&self, lint: u32, type_check: u32, test_coverage: u32,
        functionality: u32) -> (c: ThreadColor)
        ensures
            c == spec_rules_color(
                self.color_rules,
                spec_weighted_score(
                    self.color_rules,
                    lint as int,
                    type_check as int,
                    test_coverage as int,
                    functionality as int,
                ),
            ),
    {
        proof {
            assert(0 <= (lint as int) * (self.color_rules.weight_lint as int)
                <= 0x100000000int * 0x100000000int) by (nonlinear_arith)
                requires
                    0 <= lint as int <= 0x100000000int,
                    0 <= self.color_rules.weight_lint as int <= 0x100000000int,
            ;
            assert(0 <= (type_check as int) * (self.color_rules.weight_type_check as int)
                <= 0x100000000int * 0x100000000int) by (nonlinear_arith)
                requires
                    0 <= type_check as int <= 0x100000000int,
                    0 <= self.color_rules.weight_type_check as int <= 0x100000000int,
            ;
            assert(0 <= (test_coverage as int) * (self.color_rules.weight_test_coverage as int)
                <= 0x100000000int * 0x100000000int) by (nonlinear_arith)
                requires
                    0 <= test_coverage as int <= 0x100000000int,
                    0 <= self.color_rules.weight_test_coverage as int <= 0x100000000int,
            ;
            assert(0 <= (functionality as int) * (self.color_rules.weight_functionality as int)
                <= 0x100000000int * 0x100000000int) by (nonlinear_arith)
                requires
                    0 <= functionality as int <= 0x100000000int,
                    0 <= self.color_rules.weight_functionality as int <= 0x100000000int,
            ;
        }
        let weighted: u128 = (lint as u128) * (self.color_rules.weight_lint as u128)
            + (type_check as u128) * (self.color_rules.weight_type_check as u128)
            + (test_coverage as u128) * (self.color_rules.weight_test_coverage as u128)
            + (functionality as u128) * (self.color_rules.weight_functionality as u128);
        let ws = weighted / (SCORE_SCALE as u128);
        if ws >= self.color_rules.green_threshold as u128 {
            ThreadColor::Green
        } else if ws >= self.color_rules.light_green_threshold as u128 {
            ThreadColor::LightGreen
        } else if ws >= self.color_rules.yellow_threshold as u128 {
            ThreadColor::Yellow
        } else if ws >= self.color_rules.orange_threshold as u128 {
            ThreadColor::Orange
        } else {
            ThreadColor::Red
        }
    }

    /// Store four fresh scores for a file's thread and re-derive its
    /// colour under the configured rules. Fails exactly when no thread
    /// exists for the path.
    pub fn update_thread_quality(&mut self, file_path: &str, lint: u32, type_check: u32,
        test_coverage: u32, functionality: u32) -> (r: GdkResult<()>)
        requires
            old(self).wf(),
            lint <= SCORE_SCALE,
            type_check <= SCORE_SCALE,
            test_coverage <= SCORE_SCALE,
            functionality <= SCORE_SCALE,
        ensures
            final(self).wf(),
            final(self).thread_history == old(self).thread_history,
            final(self).color_rules == old(self).color_rules,
            r is Ok <==> spec_find(old(self).active_threads@, file_path@) is Some,
            r matches Err(e) ==> *final(self) == *old(self) && e is ThreadError,
            r is Ok ==> {
                let i = spec_find(old(self).active_threads@, file_path@)->0;
                let t0 = old(self).active_threads@[i];
                let t1 = final(self).active_threads@[i];
                &&& final(self).active_threads@.len() == old(self).active_threads@.len()
                &&& forall|k: int|
                    0 <= k < old(self).active_threads@.len() && k != i
                        ==> #[trigger] final(self).active_threads@[k] == old(
                        self,
                    ).active_threads@[k]
                &&& t1.file_path == t0.file_path
                &&& t1.thread_id == t0.thread_id
                &&& t1.history@ == t0.history@
                &&& t1.lint_score == lint
                &&& t1.type_check_score == type_check
                &&& t1.test_coverage == test_coverage
                &&& t1.functionality_score == functionality
                &&& t1.color_status == spec_rules_color(
                    old(self).color_rules,
                    spec_weighted_score(
                        old(self).color_rules,
                        lint as int,
                        type_check as int,
                        test_coverage as int,
                        functionality as int,
                    ),
                )
            },
    {
        let color = self.calculate_thread_color(lint, type_check, test_coverage, functionality);
        match self.find_index(file_path) {
            None => Err(
                GdkError::thread_error(
                    String::from_str(file_path),
                    String::from_str("update quality: thread not found"),
                    0,
                    String::from_str("no active thread for this file"),
                ),
            ),
            Some(i) => {
                let t0 = &self.active_threads[i];
                let updated = FileThread {
                    file_path: t0.file_path.clone(),
                    thread_id: t0.thread_id,
                    color_status: color,
                    lint_score: lint,
                    type_check_score: type_check,
                    test_coverage: test_coverage,
                    functionality_score: functionality,
                    history: clone_vec_exact(&t0.history),
                };
                self.active_threads.set(i, updated);
                proof {
                    let s = self.active_threads@;
                    assert(forall|k: int|
                        0 <= k < s.len() && k != i ==> #[trigger] s[k] == old(
                            self,
                        ).active_threads@[k]);
                    assert(paths_unique(s));
                    assert(wf_thread(s[i as int]));
                    assert(self.wf());
                }
                Ok(())
            },
        }
    }

    /// Append one history entry to a file's thread, evicting the oldest
    /// entries beyond fifty. Fails exactly when no thread exists for the
    /// path.
    pub fn add_thread_state(&mut self, file_path: &str, commit_hash: &str, diff_content: &str,
        metrics: ThreadMetrics) -> (r: GdkResult<()>)
        requires
            old(self).wf(),
            metrics.quality_score <= SCORE_SCALE,
        ensures
            final(self).wf(),
            final(self).thread_history == old(self).thread_history,
            final(self).color_rules == old(self).color_rules,
            r is Ok <==> spec_find(old(self).active_threads@, file_path@) is Some,
            r matches Err(e) ==> *final(self) == *old(self) && e is ThreadError,
            r is Ok ==> {
                let i = spec_find(old(self).active_threads@, file_path@)->0;
                let t0 = old(self).active_threads@[i];
                let t1 = final(self).active_threads@[i];
                let h = t0.history@;
                let h2 = t1.history@;
                let st = h2.last();
                &&& final(self).active_threads@.len() == old(self).active_threads@.len()
                &&& forall|k: int|
                    0 <= k < old(self).active_threads@.len() && k != i
                        ==> #[trigger] final(self).active_threads@[k] == old(
                        self,
                    ).active_threads@[k]
                &&& t1.file_path == t0.file_path
                &&& t1.thread_id == t0.thread_id
                &&& t1.color_status == t0.color_status
                &&& t1.lint_score == t0.lint_score
                &&& t1.type_check_score == t0.type_check_score
                &&& t1.test_coverage == t0.test_coverage
                &&& t1.functionality_score == t0.functionality_score
                &&& st.commit_hash@ == commit_hash@
                &&& st.diff_content@ == diff_content@
                &&& st.metrics == metrics
                &&& (h.len() < 50 ==> h2.len() == h.len() + 1 && h2.subrange(0, h.len() as int)
                    == h)
                &&& (h.len() >= 50 ==> h2.len() == 50 && h2.subrange(0, 49) == h.subrange(
                    h.len() - 49,
                    h.len() as int,
                ))
            },
    {
        match self.find_index(file_path) {
            None => Err(
                GdkError::thread_error(
                    String::from_str(file_path),
                    String::from_str("add state: thread not found"),
                    0,
                    String::from_str("no active thread for this file"),
                ),
            ),
            Some(i) => {
                let state = ThreadState {
                    commit_hash: String::from_str(commit_hash),
                    diff_content: String::from_str(diff_content),
                    metrics,
                    timestamp: platform::unix_now_secs(),
                };
                let t0 = &self.active_threads[i];
                let mut history = clone_vec_exact(&t0.history);
                history.push(state);
                // Keep only the last fifty states to bound growth.
                if history.len() > 50 {
                    let mut kept: Vec<ThreadState> = Vec::new();
                    let start = history.len() - 50;
                    let mut j = start;
                    while j < history.len()
                        invariant
                            start <= j <= history@.len(),
                            start == history@.len() - 50,
                            kept@ == history@.subrange(start as int, j as int),
                        decreases history@.len() - j,
                    {
                        kept.push(history[j].clone());
                        proof {
                            assert(kept@ =~= history@.subrange(start as int, j + 1));
                        }
                        j = j + 1;
                    }
                    proof {
                        assert(kept@ == history@.subrange(start as int, history@.len() as int));
                    }
                    history = kept;
                }
                let updated = FileThread {
                    file_path: t0.file_path.clone(),
                    thread_id: t0.thread_id,
                    color_status: t0.color_status,
                    lint_score: t0.lint_score,
                    type_check_score: t0.type_check_score,
                    test_coverage: t0.test_coverage,
                    functionality_score: t0.functionality_score,
                    history,
                };
                self.active_threads.set(i, updated);
                proof {
                    let s = self.active_threads@;
                    assert(forall|k: int|
                        0 <= k < s.len() && k != i ==> #[trigger] s[k] == old(
                            self,
                        ).active_threads@[k]);
                    assert(paths_unique(s));
                    assert(wf_thread(s[i as int]));
                    assert(self.wf());
                    let h = old(self).active_threads@[i as int].history@;
                    let h2 = s[i as int].history@;
                    if h.len() < 50 {
                        assert(h2.subrange(0, h.len() as int) =~= h);
                    } else {
                        assert(h2.subrange(0, 49) =~= h.subrange(h.len() - 49, h.len() as int));
                    }
                }
                Ok(())
            },
        }
    }

    /// The most recent quality scores of a file's thread, newest first,
    /// at most `window_size` of them. Fails exactly when no thread exists
    /// for the path.
    pub fn get_thread_health_trend(&self, file_path: &str, window_size: usize) -> (r: GdkResult<
        Vec<u32>,
    >)
        requires
            paths_unique(self.active_threads@),
        ensures
            r is Ok <==> spec_find(self.active_threads@, file_path@) is Some,
            r matches Err(e) ==> e is ThreadError,
            r matches Ok(v) ==> {
                let t = self.active_threads@[spec_find(self.active_threads@, file_path@)->0];
                let h = t.history@;
                &&& v@.len() == if h.len() <= window_size {
                    h.len() as int
                } else {
                    window_size as int
                }
                &&& forall|j: int|
                    0 <= j < v@.len() ==> #[trigger] v@[j] == h[h.len() - 1 - j].metrics.quality_score
            },
    {
        match self.find_index(file_path) {
            None => Err(
                GdkError::thread_error(
                    String::from_str(file_path),
                    String::from_str("health trend: thread not found"),
                    0,
                    String::from_str("no active thread for this file"),
                ),
            ),
            Some(i) => {
                let t = &self.active_threads[i];
                let len = t.history.len();
                let n = if len <= window_size {
                    len
                } else {
                    window_size
                };
                let mut v: Vec<u32> = Vec::new();
                let mut j: usize = 0;
                while j < n
                    invariant
                        0 <= j <= n,
                        n <= len,
                        len == t.history@.len(),
                        v@.len() == j,
                        forall|k: int|
                            0 <= k < j ==> #[trigger] v@[k] == t.history@[len - 1
                                - k].metrics.quality_score,
                    decreases n - j,
                {
                    v.push(t.history[len - 1 - j].metrics.quality_score);
                    j = j + 1;
                }
                Ok(v)
            },
        }
    }

    /// The mean of the latest quality scores over all active threads,
    /// zero without threads.
    pub fn get_overall_health(&self) -> (h: u32)
        requires
            self.wf(),
        ensures
            h == spec_overall_health(self.active_threads@),
            h <= SCORE_SCALE,
    {
        let n = self.active_threads.len();
        if n == 0 {
            return 0;
        }
        let mut i: usize = 0;
        let mut total: u128 = 0;
        while i < n
            invariant
                0 <= i <= n,
                n == self.active_threads@.len(),
                self.wf(),
                total == sum_latest_quality(self.active_threads@.subrange(0, i as int)),
                total <= (i as int) * (SCORE_SCALE as int),
            decreases n - i,
        {
            proof {
                assert(self.active_threads@.subrange(0, i + 1).drop_last()
                    =~= self.active_threads@.subrange(0, i as int));
                assert(self.active_threads@.subrange(0, i + 1).last()
                    == self.active_threads@[i as int]);
                assert(wf_thread(self.active_threads@[i as int]));
            }
            let t = &self.active_threads[i];
            let q: u32 = if t.history.len() == 0 {
                0
            } else {
                t.history[t.history.len() - 1].metrics.quality_score
            };
            total = total + q as u128;
            i = i + 1;
        }
        proof {
            assert(self.active_threads@.subrange(0, n as int) == self.active_threads@);
            vstd::arithmetic::div_mod::lemma_div_is_ordered(total as int, (n as int) * (SCORE_SCALE
                as int), n as int);
            vstd::arithmetic::div_mod::lemma_div_multiples_vanish(SCORE_SCALE as int, n as int);
        }
        (total / (n as u128)) as u32
    }

    /// How many active threads hold each colour.
    pub fn get_color_distribution(&self) -> (d: ColorDistribution)
        ensures
            d.red == count_color(self.active_threads@, ThreadColor::Red),
            d.orange == count_color(self.active_threads@, ThreadColor::Orange),
            d.yellow == count_color(self.active_threads@, ThreadColor::Yellow),
            d.light_green == count_color(self.active_threads@, ThreadColor::LightGreen),
            d.green == count_color(self.active_threads@, ThreadColor::Green),
    {
        let n = self.active_threads.len();
        let mut d = ColorDistribution { red: 0, orange: 0, yellow: 0, light_green: 0, green: 0 };
        let mut i: usize = 0;
        while i < n
            invariant
                0 <= i <= n,
                n == self.active_threads@.len(),
                d.red == count_color(self.active_threads@.subrange(0, i as int), ThreadColor::Red),
                d.orange == count_color(
                    self.active_threads@.subrange(0, i as int),
                    ThreadColor::Orange,
                ),
                d.yellow == count_color(
                    self.active_threads@.subrange(0, i as int),
                    ThreadColor::Yellow,
                ),
                d.light_green == count_color(
                    self.active_threads@.subrange(0, i as int),
                    ThreadColor::LightGreen,
                ),
                d.green == count_color(
                    self.active_threads@.subrange(0, i as int),
                    ThreadColor::Green,
                ),
                d.red <= i && d.orange <= i && d.yellow <= i && d.light_green <= i && d.green <= i,
            decreases n - i,
        {
            proof {
                assert(self.active_threads@.subrange(0, i + 1).drop_last()
                    =~= self.active_threads@.subrange(0, i as int));
                assert(self.active_threads@.subrange(0, i + 1).last()
                    == self.active_threads@[i as int]);
            }
            match self.active_threads[i].color_status {
                ThreadColor::Red => { d.red = d.red + 1; },
                ThreadColor::Orange => { d.orange = d.orange + 1; },
                ThreadColor::Yellow => { d.yellow = d.yellow + 1; },
                ThreadColor::LightGreen => { d.light_green = d.light_green + 1; },
                ThreadColor::Green => { d.green = d.green + 1; },
            }
            i = i + 1;
        }
        proof {
            assert(self.active_threads@.subrange(0, n as int) == self.active_threads@);
        }
        d
    }

    /// Record a snapshot of every active thread under a fresh identifier,
    /// evicting the oldest snapshots beyond one hundred. Returns the
    /// snapshot identifier. Never fails.
    pub fn create_snapshot(&mut self, commit_hash: &str) -> (r: GdkResult<u128>)
        requires
            old(self).wf(),
        ensures
            final(self).wf(),
            final(self).active_threads == old(self).active_threads,
            final(self).color_rules == old(self).color_rules,
            r is Ok,
            r matches Ok(id) ==> {
                let hist = old(self).thread_history@;
                let hist2 = final(self).thread_history@;
                let sn = hist2.last();
                &&& sn.snapshot_id == id
                &&& sn.commit_hash@ == commit_hash@
                &&& sn.overall_health == spec_overall_health(old(self).active_threads@)
                &&& sn.threads@.len() == old(self).active_threads@.len()
                &&& forall|j: int|
                    0 <= j < sn.threads@.len() ==> eq_thread(
                        #[trigger] sn.threads@[j],
                        old(self).active_threads@[j],
                    )
                &&& (hist.len() < 100 ==> hist2.len() == hist.len() + 1 && hist2.subrange(
                    0,
                    hist.len() as int,
                ) == hist)
                &&& (hist.len() >= 100 ==> hist2.len() == 100 && hist2.subrange(0, 99)
                    == hist.subrange(hist.len() - 99, hist.len() as int))
            },
    {
        let overall = self.get_overall_health();
        let id = platform::fresh_id();
        let snapshot = ThreadSnapshot {
            snapshot_id: id,
            timestamp: platform::unix_now_secs(),
            commit_hash: String::from_str(commit_hash),
            threads: crate::clone_threads(&self.active_threads),
            overall_health: overall,
        };
        proof {
            assert(paths_unique(snapshot.threads@));
            assert(wf_snapshot(snapshot));
        }
        self.thread_history.push(snapshot);
        // Keep only the last one hundred snapshots.
        let ghost pushed = self.thread_history@;
        proof {
            assert(pushed.subrange(0, pushed.len() as int) =~= pushed);
        }
        while self.thread_history.len() > 100
            invariant
                self.thread_history@.len() >= 1,
                self.thread_history@.len() <= pushed.len(),
                self.thread_history@.len() >= 100 || self.thread_history@ == pushed,
                self.thread_history@ == pushed.subrange(
                    pushed.len() - self.thread_history@.len(),
                    pushed.len() as int,
                ),
                self.active_threads == old(self).active_threads,
                self.color_rules == old(self).color_rules,
            decreases self.thread_history@.len(),
        {
            let ghost prev = self.thread_history@;
            self.thread_history.remove(0);
            proof {
                assert(self.thread_history@ =~= prev.subrange(1, prev.len() as int));
                assert(self.thread_history@ =~= pushed.subrange(
                    pushed.len() - self.thread_history@.len(),
                    pushed.len() as int,
                ));
            }
        }
        proof {
            let hist = old(self).thread_history@;
            let hist2 = self.thread_history@;
            if hist.len() < 100 {
                assert(hist2 == pushed);
                assert(hist2.subrange(0, hist.len() as int) =~= hist);
            } else {
                assert(hist2.len() == 100);
                assert(hist2.subrange(0, 99) =~= hist.subrange(hist.len() - 99, hist.len() as int));
            }
            assert forall|k: int| 0 <= k < hist2.len() implies #[trigger] wf_snapshot(
                hist2[k],
            ) by {
                assert(hist2[k] == pushed[pushed.len() - hist2.len() + k]);
                if pushed.len() - hist2.len() + k < hist.len() {
                    assert(wf_snapshot(hist[pushed.len() - hist2.len() + k]));
                }
            }
            assert(self.wf());
        }
        Ok(id)
    }

    /// Replace the active threads with those of the first stored snapshot
    /// bearing the given identifier. Fails exactly when no snapshot
    /// matches.
    pub fn restore_from_snapshot(&mut self, snapshot_id: u128) -> (r: GdkResult<()>)
        requires
            old(self).wf(),
        ensures
            final(self).wf(),
            final(self).thread_history == old(self).thread_history,
            final(self).color_rules == old(self).color_rules,
            r is Ok <==> exists|i: int|
                0 <= i < old(self).thread_history@.len() && (#[trigger] old(
                    self,
                ).thread_history@[i]).snapshot_id == snapshot_id,
            r matches Err(e) ==> *final(self) == *old(self) && e is ValidationError,
            r is Ok ==> exists|i: int|
                {
                    &&& 0 <= i < old(self).thread_history@.len()
                    &&& (#[trigger] old(self).thread_history@[i]).snapshot_id == snapshot_id
                    &&& forall|j: int|
                        0 <= j < i ==> (#[trigger] old(self).thread_history@[j]).snapshot_id
                            != snapshot_id
                    &&& final(self).active_threads@.len() == old(
                        self,
                    ).thread_history@[i].threads@.len()
                    &&& forall|j: int|
                        0 <= j < final(self).active_threads@.len() ==> eq_thread(
                            #[trigger] final(self).active_threads@[j],
                            old(self).thread_history@[i].threads@[j],
                        )
                },
    {
        let n = self.thread_history.len();
        let mut i: usize = 0;
        while i < n
            invariant
                0 <= i <= n,
                n == self.thread_history@.len(),
                *self == *old(self),
                old(self).wf(),
                forall|j: int|
                    0 <= j < i ==> (#[trigger] self.thread_history@[j]).snapshot_id != snapshot_id,
            decreases n - i,
        {
            if self.thread_history[i].snapshot_id == snapshot_id {
                let restored = crate::clone_threads(&self.thread_history[i].threads);
                proof {
                    let sn = old(self).thread_history@[i as int];
                    assert(wf_snapshot(sn));
                    assert forall|a: int, b: int| 0 <= a < b < restored@.len() implies (
                    #[trigger] restored@[a].file_path@) != (#[trigger] restored@[b].file_path@) by {
                        assert(eq_thread(restored@[a], sn.threads@[a]));
                        assert(eq_thread(restored@[b], sn.threads@[b]));
                    }
                    assert forall|a: int| 0 <= a < restored@.len() implies wf_thread(
                        #[trigger] restored@[a],
                    ) by {
                        assert(eq_thread(restored@[a], sn.threads@[a]));
                        assert(wf_thread(sn.threads@[a]));
                    }
                }
                self.active_threads = restored;
                proof {
                    assert(self.wf());
                }
                return Ok(());
            }
            i = i + 1;
        }
        Err(
            GdkError::validation_error(
                String::from_str("snapshot_lookup"),
                String::from_str("restore from snapshot"),
                String::from_str("no snapshot with the requested identifier"),
            ),
        )
    }

    /// Copies of the active threads holding the given colour, in order.
    pub fn get_threads_by_color(&self, color: ThreadColor) -> (v: Vec<FileThread>)
        ensures
            v@.len() == threads_with_color(self.active_threads@, color).len(),
            forall|j: int|
                0 <= j < v@.len() ==> eq_thread(
                    #[trigger] v@[j],
                    threads_with_color(self.active_threads@, color)[j],
                ),
    {
        let n = self.active_threads.len();
        let mut v: Vec<FileThread> = Vec::new();
        let mut i: usize = 0;
        while i < n
            invariant
                0 <= i <= n,
                n == self.active_threads@.len(),
                v@.len() == threads_with_color(
                    self.active_threads@.subrange(0, i as int),
                    color,
                ).len(),
                forall|j: int|
                    0 <= j < v@.len() ==> eq_thread(
                        #[trigger] v@[j],
                        threads_with_color(self.active_threads@.subrange(0, i as int), color)[j],
                    ),
            decreases n - i,
        {
            proof {
                assert(self.active_threads@.subrange(0, i + 1).drop_last()
                    =~= self.active_threads@.subrange(0, i as int));
                assert(self.active_threads@.subrange(0, i + 1).last()
                    == self.active_threads@[i as int]);
            }
            let t = &self.active_threads[i];
            if t.color_status == color {
                v.push(t.clone());
            }
            i = i + 1;
        }
        proof {
            assert(self.active_threads@.subrange(0, n as int) == self.active_threads@);
        }
        v
    }

    /// Whether one file's recent history shows convergence: at least
    /// `window_size` entries, every windowed score at least 0.8, and a
    /// windowed score variance strictly below 0.01 (see
    /// [`spec_thread_convergence`]). Fails exactly when no thread exists
    /// for the path.
    pub fn analyze_thread_convergence(&self, file_path: &str, window_size: usize) -> (r: GdkResult<
        bool,
    >)
        requires
            self.wf(),
            window_size <= 100000,
        ensures
            r is Ok <==> spec_find(self.active_threads@, file_path@) is Some,
            r matches Err(e) ==> e is ThreadError,
            r matches Ok(b) ==> b == spec_thread_convergence(
                self.active_threads@[spec_find(self.active_threads@, file_path@)->0],
                window_size as int,
            ),
    {
        match self.find_index(file_path) {
            None => Err(
                GdkError::thread_error(
                    String::from_str(file_path),
                    String::from_str("analyze convergence: thread not found"),
                    0,
                    String::from_str("no active thread for this file"),
                ),
            ),
            Some(ti) => {
                let t = &self.active_threads[ti];
                proof {
                    assert(wf_thread(self.active_threads@[ti as int]));
                }
                let len = t.history.len();
                if len < window_size {
                    return Ok(false);
                }
                let n = window_size;
                let start = len - n;
                let ghost w = t.history@.subrange(start as int, len as int);
                let mut i = start;
                let mut m: u64 = 0;
                let mut ok = true;
                while i < len
                    invariant
                        start <= i <= len,
                        len == t.history@.len(),
                        n == len - start,
                        n <= 100000,
                        wf_thread(*t),
                        w == t.history@.subrange(start as int, len as int),
                        m == sum_quality(t.history@.subrange(start as int, i as int)),
                        m <= (i - start) * (SCORE_SCALE as int),
                        ok == all_pass(t.history@.subrange(start as int, i as int), 8000),
                    decreases len - i,
                {
                    proof {
                        assert(t.history@.subrange(start as int, i + 1).drop_last()
                            =~= t.history@.subrange(start as int, i as int));
                        assert(t.history@.subrange(start as int, i + 1).last()
                            == t.history@[i as int]);
                        assert(forall|k: int|
                            0 <= k < i + 1 - start ==> #[trigger] t.history@.subrange(
                                start as int,
                                i + 1,
                            )[k] == t.history@[start + k]);
                    }
                    let q = t.history[i].metrics.quality_score;
                    if q < 8000 {
                        ok = false;
                    }
                    m = m + q as u64;
                    i = i + 1;
                }
                proof {
                    assert(t.history@.subrange(start as int, len as int) == w);
                }
                if !ok {
                    return Ok(false);
                }
                let mut i = start;
                let mut ssq: u128 = 0;
                while i < len
                    invariant
                        start <= i <= len,
                        len == t.history@.len(),
                        n == len - start,
                        n <= 100000,
                        wf_thread(*t),
                        w == t.history@.subrange(start as int, len as int),
                        m == sum_quality(w),
                        m <= n * (SCORE_SCALE as int),
                        ssq == sum_sq_dev_q(t.history@.subrange(start as int, i as int), n as int,
                            m as int),
                        ssq <= (i - start) * 0xde0b6b3a7640000u128,
                    decreases len - i,
                {
                    proof {
                        assert(t.history@.subrange(start as int, i + 1).drop_last()
                            =~= t.history@.subrange(start as int, i as int));
                        assert(t.history@.subrange(start as int, i + 1).last()
                            == t.history@[i as int]);
                        assert(wf_thread(*t));
                        assert(t.history@[i as int].metrics.quality_score <= SCORE_SCALE);
                    }
                    let q = t.history[i].metrics.quality_score;
                    proof {
                        assert(0 <= (n as int) * (q as int) <= 1000000000int) by (nonlinear_arith)
                            requires
                                0 <= q as int <= 10000int,
                                0 <= n as int <= 100000int,
                        ;
                    }
                    let d: i128 = (n as i128) * (q as i128) - (m as i128);
                    proof {
                        assert(-1000000000int <= d as int <= 1000000000int);
                        assert(0 <= (d as int) * (d as int) <= 0xde0b6b3a7640000int)
                            by (nonlinear_arith)
                            requires
                                -1000000000int <= d as int <= 1000000000int,
                        ;
                    }
                    ssq = ssq + (d * d) as u128;
                    i = i + 1;
                }
                proof {
                    assert(t.history@.subrange(start as int, len as int) == w);
                    assert(0 <= (n as int) * (n as int) * (n as int) <= 0x38d7ea4c68000int)
                        by (nonlinear_arith)
                        requires
                            0 <= n as int <= 100000int,
                    ;
                    assert(100int * (SCORE_SCALE as int) * ((n as int) * (n as int) * (n as int))
                        == 100int * (SCORE_SCALE as int) * (n as int) * (n as int) * (n as int))
                        by (nonlinear_arith);
                }
                let nn = n as u128;
                proof {
                    assert(0 <= (nn as int) * (nn as int) <= 0x2540be400int) by (nonlinear_arith)
                        requires
                            0 <= nn as int <= 100000int,
                    ;
                    assert(0 <= (nn as int) * (nn as int) * (nn as int) <= 0x38d7ea4c68000int)
                        by (nonlinear_arith)
                        requires
                            0 <= nn as int <= 100000int,
                    ;
                }
                let bound = 100u128 * (SCORE_SCALE as u128) * (nn * nn * nn);
                Ok(ssq < bound)
            },
        }
    }

    /// Aggregate statistics: totals per colour, overall health, and the
    /// mean latest quality over the threads that have history.
    pub fn get_thread_statistics(&self) -> (s: ThreadStatistics)
        requires
            self.wf(),
        ensures
            s.total_threads == self.active_threads@.len(),
            s.red_threads == count_color(self.active_threads@, ThreadColor::Red),
            s.orange_threads == count_color(self.active_threads@, ThreadColor::Orange),
            s.yellow_threads == count_color(self.active_threads@, ThreadColor::Yellow),
            s.light_green_threads == count_color(self.active_threads@, ThreadColor::LightGreen),
            s.green_threads == count_color(self.active_threads@, ThreadColor::Green),
            s.overall_health == spec_overall_health(self.active_threads@),
            s.average_quality == if count_with_history(self.active_threads@) == 0 {
                0int
            } else {
                sum_latest_quality(self.active_threads@) / count_with_history(
                    self.active_threads@,
                )
            },
    {
        let d = self.get_color_distribution();
        let overall = self.get_overall_health();
        let n = self.active_threads.len();
        let mut i: usize = 0;
        let mut cnt: usize = 0;
        let mut total: u128 = 0;
        while i < n
            invariant
                0 <= i <= n,
                n == self.active_threads@.len(),
                self.wf(),
                cnt == count_with_history(self.active_threads@.subrange(0, i as int)),
                total == sum_latest_quality(self.active_threads@.subrange(0, i as int)),
                cnt <= i,
                total <= (cnt as int) * (SCORE_SCALE as int),
            decreases n - i,
        {
            proof {
                assert(self.active_threads@.subrange(0, i + 1).drop_last()
                    =~= self.active_threads@.subrange(0, i as int));
                assert(self.active_threads@.subrange(0, i + 1).last()
                    == self.active_threads@[i as int]);
                assert(wf_thread(self.active_threads@[i as int]));
            }
            let t = &self.active_threads[i];
            if t.history.len() > 0 {
                cnt = cnt + 1;
                total = total + t.history[t.history.len() - 1].metrics.quality_score as u128;
            }
            i = i + 1;
        }
        proof {
            assert(self.active_threads@.subrange(0, n as int) == self.active_threads@);
        }
        let avg: u32 = if cnt == 0 {
            0
        } else {
            proof {
                vstd::arithmetic::div_mod::lemma_div_is_ordered(total as int, (cnt as int) * (
                SCORE_SCALE as int), cnt as int);
                vstd::arithmetic::div_mod::lemma_div_multiples_vanish(SCORE_SCALE as int,
                    cnt as int);
            }
            (total / (cnt as u128)) as u32
        };
        ThreadStatistics {
            total_threads: n,
            red_threads: d.red,
            orange_threads: d.orange,
            yellow_threads: d.yellow,
            light_green_threads: d.light_green,
            green_threads: d.green,
            overall_health: overall,
            average_quality: avg,
        }
    }
}

/// Well-formedness of one thread: its stored scores lie within the scale.
pub open spec fn wf_thread(t: FileThread) -> bool {
    &&& t.lint_score <= SCORE_SCALE
    &&& t.type_check_score <= SCORE_SCALE
    &&& t.test_coverage <= SCORE_SCALE
    &&& t.functionality_score <= SCORE_SCALE
    &&& forall|i: int|
        0 <= i < t.history@.len() ==> (#[trigger] t.history@[i]).metrics.quality_score
            <= SCORE_SCALE
}


impl Default for ThreadManager {
    /// An empty manager with the default colour rules.
    fn default() -> (m: ThreadManager)
        ensures
            m.active_threads@.len() == 0,
            m.thread_history@.len() == 0,
            m.color_rules == ColorRules::spec_default(),
            m.wf(),
    {
        ThreadManager::new()
    }
}

/// Well-formedness of one snapshot: its captured threads have unique
/// paths and in-scale scores.
pub open spec fn wf_snapshot(s: ThreadSnapshot) -> bool {
    &&& paths_unique(s.threads@)
    &&& forall|i: int| 0 <= i < s.threads@.len() ==> wf_thread(#[trigger] s.threads@[i])
}

/// Whether every windowed score reaches the threshold.
pub open spec fn all_pass(s: Seq<ThreadState>, th: int) -> bool {
    forall|i: int| 0 <= i < s.len() ==> (#[trigger] s[i]).metrics.quality_score >= th
}

/// Sum of the quality scores of a window of states.
pub open spec fn sum_quality(s: Seq<ThreadState>) -> int
    decreases s.len(),
{
    if s.len() == 0 {
        0
    } else {
        sum_quality(s.drop_last()) + s.last().metrics.quality_score
    }
}

/// Sum of squared deviations of windowed quality scores, scaled by the
/// window length (as in [`crate::convergence::sum_sq_dev`]).
pub open spec fn sum_sq_dev_q(s: Seq<ThreadState>, n: int, m: int) -> int
    decreases s.len(),
{
    if s.len() == 0 {
        0
    } else {
        sum_sq_dev_q(s.drop_last(), n, m) + (n * s.last().metrics.quality_score - m) * (n
            * s.last().metrics.quality_score - m)
    }
}

/// Whether one thread's recent history shows convergence: a full window,
/// every windowed score at least 0.8, and a windowed population variance
/// strictly below 0.01.
pub open spec fn spec_thread_convergence(t: FileThread, w: int) -> bool {
    if t.history@.len() < w {
        false
    } else {
        let win = t.history@.subrange(t.history@.len() - w, t.history@.len() as int);
        if !all_pass(win, 8000) {
            false
        } else {
            sum_sq_dev_q(win, w, sum_quality(win)) < 100 * (SCORE_SCALE as int) * w * w * w
        }
    }
}

} // verus!
