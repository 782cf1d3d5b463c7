//! Convergence analysis over an ordered revision history.
//!
//! Five independent factors are computed from the history, combined by
//! fixed weights into a confidence score, and gated into a boolean
//! convergence decision:
//!
//! - quality stability (weight 0.30): variance analysis of health scores,
//! - thread health ratio (weight 0.25): share of green / light-green files,
//! - test pass consistency (weight 0.20): share of revisions whose stored
//!   pass rate meets the threshold,
//! - build success rate (weight 0.15): successful builds over attempts,
//! - trend improvement (weight 0.10): least-squares slope of health scores.
//!
//! All factors, thresholds and the confidence score are fixed-point
//! fractions of one (see [`crate::SCORE_SCALE`]); ratios are rounded
//! toward zero in units of the scale.

use vstd::prelude::*;

use crate::errors::GdkResult;
use crate::{CommitNode, ConvergenceMetrics, FileThread, ThreadColor, SCORE_SCALE};

verus! {

/// Analyzer configuration: plain numeric knobs with no cross-validation.
///
/// Window sizes must stay within [`ConvergenceAnalyzer::wf`] so that the
/// windowed sums fit machine integers.
#[derive(Debug, Clone, PartialEq, Eq, Structural)]
pub struct ConvergenceAnalyzer {
    /// Minimum weighted confidence required for convergence (default 0.8).
    pub convergence_threshold: u32,
    /// Number of recent revisions analyzed for stability (default 5).
    pub stability_window: usize,
    /// Number of recent revisions analyzed for the trend (default 10).
    pub quality_trend_window: usize,
    /// Minimum share of healthy (green / light-green) files (default 0.7).
    pub min_green_threads_ratio: u32,
    /// Maximum allowed variance of health scores for stability (default 0.02).
    pub variance_threshold: u32,
}

/// The five factors, each in `[0, SCORE_SCALE]`.
#[derive(Debug, Clone, Copy, PartialEq, Eq, Structural)]
pub struct ConvergenceFactors {
    pub quality_stability: u32,
    pub thread_health_ratio: u32,
    pub test_pass_consistency: u32,
    pub build_success_rate: u32,
    pub trend_improvement: u32,
}

/// One advisory recommendation. Each variant corresponds to one trigger;
/// [`Recommendation::message`] renders the advisory text.
#[derive(Debug, Clone, PartialEq)]
pub enum Recommendation {
    /// The history is empty; nothing can be assessed.
    NoHistory,
    /// Quality stability is below one half.
    UnstableQuality,
    /// The healthy-thread share is below the configured minimum; carries
    /// the actual and the target ratio.
    LowHealthRatio { ratio: u32, target: u32 },
    /// Test pass consistency is below 0.7.
    InconsistentTests,
    /// Build success rate is below 0.8.
    LowBuildSuccess,
    /// Trend improvement is below 0.1.
    NoImprovementTrend,
    /// Files of the worst category exist in the latest revision; carries
    /// their count and up to three of their paths.
    RedFiles { count: usize, files: Vec<String> },
    /// No advisory triggered: the system appears to be converging.
    OnTrack,
}

/// Result of one analysis: the decision, the confidence, the factor
/// breakdown and the ordered advisories.
#[derive(Debug, Clone, PartialEq)]
pub struct ConvergenceResult {
    pub is_converged: bool,
    pub confidence_score: u32,
    pub convergence_factors: ConvergenceFactors,
    pub recommendations: Vec<Recommendation>,
}

/// The last `n` elements of `h`, oldest first.
pub open spec fn last_n(h: Seq<CommitNode>, n: int) -> Seq<CommitNode> {
    if h.len() <= n {
        h
    } else {
        h.subrange(h.len() - n, h.len() as int)
    }
}

/// Sum of the health scores of a window.
pub open spec fn sum_health(s: Seq<CommitNode>) -> int
    decreases s.len(),
{
    if s.len() == 0 {
        0
    } else {
        sum_health(s.drop_last()) + s.last().health_score
    }
}

/// Sum of squared deviations, scaled by the window length: with `m` the
/// sum of the scores and `n` the length, this is the sum of
/// `(n * score - m)^2`, which equals `n^3` times the population variance.
pub open spec fn sum_sq_dev(s: Seq<CommitNode>, n: int, m: int) -> int
    decreases s.len(),
{
    if s.len() == 0 {
        0
    } else {
        sum_sq_dev(s.drop_last(), n, m) + (n * s.last().health_score - m) * (n
            * s.last().health_score - m)
    }
}

/// The stability factor: zero unless the window holds at least three
/// revisions, the population variance of their health scores is at most
/// the variance threshold and their mean is at least the convergence
/// threshold; in that case one minus the variance's share of the
/// threshold. A zero variance threshold yields zero.
pub open spec fn spec_quality_stability(a: ConvergenceAnalyzer, h: Seq<CommitNode>) -> int {
    let w = last_n(h, a.stability_window as int);
    if w.len() < 3 {
        0
    } else {
        let n = w.len() as int;
        let m = sum_health(w);
        let ssq = sum_sq_dev(w, n, m);
        if a.variance_threshold == 0 {
            0
        } else if ssq <= (a.variance_threshold as int) * (SCORE_SCALE as int) * n * n * n && m
            >= (a.convergence_threshold as int) * n {
            SCORE_SCALE - ssq / (n * n * n * (a.variance_threshold as int))
        } else {
            0
        }
    }
}

/// Number of healthy (green or light-green) threads.
pub open spec fn count_healthy(s: Seq<FileThread>) -> int
    decreases s.len(),
{
    if s.len() == 0 {
        0
    } else {
        count_healthy(s.drop_last()) + if s.last().color_status is Green
            || s.last().color_status is LightGreen {
            1int
        } else {
            0int
        }
    }
}

/// The health-ratio factor: the healthy share of the latest revision's
/// file threads, or zero when that share is below the configured minimum
/// or there are no files.
pub open spec fn spec_thread_health_ratio(a: ConvergenceAnalyzer, h: Seq<CommitNode>) -> int {
    if h.len() == 0 {
        0
    } else {
        let threads = h.last().file_threads@;
        let total = threads.len() as int;
        if total == 0 {
            0
        } else {
            let healthy = count_healthy(threads);
            if healthy * SCORE_SCALE >= (a.min_green_threads_ratio as int) * total {
                healthy * SCORE_SCALE / total
            } else {
                0
            }
        }
    }
}

/// Number of revisions in the window whose stored test pass rate is at
/// least the convergence threshold.
pub open spec fn count_high_pass(s: Seq<CommitNode>, threshold: int) -> int
    decreases s.len(),
{
    if s.len() == 0 {
        0
    } else {
        count_high_pass(s.drop_last(), threshold) + if s.last().convergence_metrics.test_pass_rate
            >= threshold {
            1int
        } else {
            0int
        }
    }
}

/// The test-consistency factor: the share of windowed revisions whose
/// stored pass rate meets the convergence threshold; zero on an empty
/// window.
pub open spec fn spec_test_pass_consistency(a: ConvergenceAnalyzer, h: Seq<CommitNode>) -> int {
    let w = last_n(h, a.stability_window as int);
    if w.len() == 0 {
        0
    } else {
        count_high_pass(w, a.convergence_threshold as int) * SCORE_SCALE / (w.len() as int)
    }
}

/// Sum of the successful-build counters of a window.
pub open spec fn sum_builds(s: Seq<CommitNode>) -> int
    decreases s.len(),
{
    if s.len() == 0 {
        0
    } else {
        sum_builds(s.drop_last()) + s.last().convergence_metrics.successful_builds
    }
}

/// Sum of the attempt counters of a window.
pub open spec fn sum_attempts(s: Seq<CommitNode>) -> int
    decreases s.len(),
{
    if s.len() == 0 {
        0
    } else {
        sum_attempts(s.drop_last()) + s.last().convergence_metrics.attempts
    }
}

/// The build factor: summed successful builds over summed attempts in the
/// window; zero when there are no attempts, and clamped to one should the
/// stored counters claim more successes than attempts.
pub open spec fn spec_build_success_rate(a: ConvergenceAnalyzer, h: Seq<CommitNode>) -> int {
    let w = last_n(h, a.stability_window as int);
    let sb = sum_builds(w);
    let att = sum_attempts(w);
    if att == 0 {
        0
    } else if sb * SCORE_SCALE / att > SCORE_SCALE {
        SCORE_SCALE as int
    } else {
        sb * SCORE_SCALE / att
    }
}

/// Sum of the position indices of a window (0 up to length - 1).
pub open spec fn sum_idx(s: Seq<CommitNode>) -> int
    decreases s.len(),
{
    if s.len() == 0 {
        0
    } else {
        sum_idx(s.drop_last()) + (s.len() - 1)
    }
}

/// Sum of the squared position indices of a window.
pub open spec fn sum_idx_sq(s: Seq<CommitNode>) -> int
    decreases s.len(),
{
    if s.len() == 0 {
        0
    } else {
        sum_idx_sq(s.drop_last()) + (s.len() - 1) * (s.len() - 1)
    }
}

/// Sum of position index times health score of a window.
pub open spec fn sum_idx_health(s: Seq<CommitNode>) -> int
    decreases s.len(),
{
    if s.len() == 0 {
        0
    } else {
        sum_idx_health(s.drop_last()) + (s.len() - 1) * s.last().health_score
    }
}

/// The trend factor: the least-squares slope of health score against
/// position in the trend window (as a fixed-point fraction per step),
/// clamped to at most one; zero when the window holds fewer than three
/// revisions or the slope is not positive.
pub open spec fn spec_trend_improvement(a: ConvergenceAnalyzer, h: Seq<CommitNode>) -> int {
    let w = last_n(h, a.quality_trend_window as int);
    if w.len() < 3 {
        0
    } else {
        let n = w.len() as int;
        let num = n * sum_idx_health(w) - sum_idx(w) * sum_health(w);
        let den = n * sum_idx_sq(w) - sum_idx(w) * sum_idx(w);
        if num > 0 && den > 0 {
            if num / den < SCORE_SCALE {
                num / den
            } else {
                SCORE_SCALE as int
            }
        } else {
            0
        }
    }
}

/// Ghost image of a [`Recommendation`], used to state which advisories an
/// analysis yields.
pub enum RecView {
    NoHistory,
    UnstableQuality,
    LowHealthRatio { ratio: int, target: int },
    InconsistentTests,
    LowBuildSuccess,
    NoImprovementTrend,
    RedFiles { count: int, files: Seq<String> },
    OnTrack,
}

/// The ghost image of one recommendation.
pub open spec fn rec_view(r: Recommendation) -> RecView {
    match r {
        Recommendation::NoHistory => RecView::NoHistory,
        Recommendation::UnstableQuality => RecView::UnstableQuality,
        Recommendation::LowHealthRatio { ratio, target } => RecView::LowHealthRatio {
            ratio: ratio as int,
            target: target as int,
        },
        Recommendation::InconsistentTests => RecView::InconsistentTests,
        Recommendation::LowBuildSuccess => RecView::LowBuildSuccess,
        Recommendation::NoImprovementTrend => RecView::NoImprovementTrend,
        Recommendation::RedFiles { count, files } => RecView::RedFiles {
            count: count as int,
            files: files@,
        },
        Recommendation::OnTrack => RecView::OnTrack,
    }
}

/// The paths of the red-status threads, in order.
pub open spec fn red_paths(s: Seq<FileThread>) -> Seq<String>
    decreases s.len(),
{
    if s.len() == 0 {
        Seq::empty()
    } else {
        red_paths(s.drop_last()) + if s.last().color_status is Red {
            seq![s.last().file_path]
        } else {
            Seq::empty()
        }
    }
}

/// At most the first three elements of a sequence.
pub open spec fn first_three(s: Seq<String>) -> Seq<String> {
    if s.len() <= 3 {
        s
    } else {
        s.take(3)
    }
}

/// The ordered advisories for one analysis: an empty history names only
/// that fact; otherwise one advisory per triggered condition (unstable
/// quality, low health share with the actual and target ratios,
/// inconsistent tests, low build success, missing improvement trend, and
/// red files with their count and up to three paths), or a single
/// on-track advisory when none triggered.
pub open spec fn spec_recommendations(
    a: ConvergenceAnalyzer,
    f: ConvergenceFactors,
    h: Seq<CommitNode>,
) -> Seq<RecView> {
    if h.len() == 0 {
        seq![RecView::NoHistory]
    } else {
        let r1: Seq<RecView> = if f.quality_stability < 5000 {
            seq![RecView::UnstableQuality]
        } else {
            Seq::empty()
        };
        let r2: Seq<RecView> = if f.thread_health_ratio < a.min_green_threads_ratio {
            seq![
                RecView::LowHealthRatio {
                    ratio: f.thread_health_ratio as int,
                    target: a.min_green_threads_ratio as int,
                },
            ]
        } else {
            Seq::empty()
        };
        let r3: Seq<RecView> = if f.test_pass_consistency < 7000 {
            seq![RecView::InconsistentTests]
        } else {
            Seq::empty()
        };
        let r4: Seq<RecView> = if f.build_success_rate < 8000 {
            seq![RecView::LowBuildSuccess]
        } else {
            Seq::empty()
        };
        let r5: Seq<RecView> = if f.trend_improvement < 1000 {
            seq![RecView::NoImprovementTrend]
        } else {
            Seq::empty()
        };
        let reds = red_paths(h.last().file_threads@);
        let r6: Seq<RecView> = if reds.len() > 0 {
            seq![RecView::RedFiles { count: reds.len() as int, files: first_three(reds) }]
        } else {
            Seq::empty()
        };
        let all = r1 + r2 + r3 + r4 + r5 + r6;
        if all.len() == 0 {
            seq![RecView::OnTrack]
        } else {
            all
        }
    }
}

/// The weighted confidence: 0.30, 0.25, 0.20, 0.15 and 0.10 applied to
/// the five factors in order.
pub open spec fn spec_confidence(f: ConvergenceFactors) -> int {
    (30 * f.quality_stability + 25 * f.thread_health_ratio + 20 * f.test_pass_consistency + 15
        * f.build_success_rate + 10 * f.trend_improvement) / 100
}

/// The five factors of a history, bundled.
pub open spec fn spec_factors(a: ConvergenceAnalyzer, h: Seq<CommitNode>) -> ConvergenceFactors {
    ConvergenceFactors {
        quality_stability: spec_quality_stability(a, h) as u32,
        thread_health_ratio: spec_thread_health_ratio(a, h) as u32,
        test_pass_consistency: spec_test_pass_consistency(a, h) as u32,
        build_success_rate: spec_build_success_rate(a, h) as u32,
        trend_improvement: spec_trend_improvement(a, h) as u32,
    }
}

/// The predicted number of further iterations until the convergence
/// threshold is reached, from the improvement rate across the last ten
/// revisions: none without at least three revisions, none without an
/// improving trend, zero when the threshold is already met, and none when
/// the prediction exceeds one hundred iterations.
pub open spec fn spec_predict_convergence_time(
    a: ConvergenceAnalyzer,
    h: Seq<CommitNode>,
) -> Option<u32> {
    if h.len() < 3 {
        None
    } else {
        let w = last_n(h, 10);
        let n = w.len() as int;
        let cur = h.last().health_score as int;
        let oldest = w[0].health_score as int;
        if cur <= oldest {
            None
        } else if a.convergence_threshold <= cur {
            Some(0u32)
        } else {
            let p = ((a.convergence_threshold - cur) * n + (cur - oldest) - 1) / (cur - oldest);
            if p > 100 {
                None
            } else {
                Some(p as u32)
            }
        }
    }
}

/// The convergence decision: confidence at least the threshold, stability
/// strictly above 0.8, and health ratio at least the configured minimum.
/// The last conjunct repeats a gate already applied inside the factor;
/// both checks are kept so that they stay in force if the two thresholds
/// ever diverge.
pub open spec fn spec_is_converged(a: ConvergenceAnalyzer, f: ConvergenceFactors) -> bool {
    &&& spec_confidence(f) >= a.convergence_threshold
    &&& f.quality_stability > 8000
    &&& f.thread_health_ratio >= a.min_green_threads_ratio
}

impl Default for ConvergenceAnalyzer {
    /// The default configuration (see [`ConvergenceAnalyzer::new`]).
    fn default() -> (a: ConvergenceAnalyzer)
        ensures
            a == (ConvergenceAnalyzer {
                convergence_threshold: 8000u32,
                stability_window: 5usize,
                quality_trend_window: 10usize,
                min_green_threads_ratio: 7000u32,
                variance_threshold: 200u32,
            }),
    {
        ConvergenceAnalyzer::new()
    }
}

impl ConvergenceAnalyzer {
    /// Window sizes small enough that every windowed sum in the factor
    /// computations fits the machine integers used for them.
    pub open spec fn wf(&self) -> bool {
        &&& self.stability_window <= 100000
        &&& self.quality_trend_window <= 100000
    }

    /// Analyzer with the default configuration: threshold 0.8, stability
    /// window 5, trend window 10, minimum green ratio 0.7, variance
    /// threshold 0.02.
    pub fn new() -> (a: ConvergenceAnalyzer)
        ensures
            a == (ConvergenceAnalyzer {
                convergence_threshold: 8000u32,
                stability_window: 5usize,
                quality_trend_window: 10usize,
                min_green_threads_ratio: 7000u32,
                variance_threshold: 200u32,
            }),
            a.wf(),
    {
        ConvergenceAnalyzer {
            convergence_threshold: 8000,
            stability_window: 5,
            quality_trend_window: 10,
            min_green_threads_ratio: 7000,
            variance_threshold: 200,
        }
    }

    /// The stability factor of a history (see [`spec_quality_stability`]).
    pub fn calculate_quality_stability(&self, commit_history: &Vec<CommitNode>) -> (s: u32)
        requires
            self.wf(),
        ensures
            s == spec_quality_stability(*self, commit_history@),
            s <= SCORE_SCALE,
    {
        let len = commit_history.len();
        let n = if len <= self.stability_window {
            len
        } else {
            self.stability_window
        };
        let start = len - n;
        let ghost w = commit_history@.subrange(start as int, len as int);
        proof {
            assert(w =~= last_n(commit_history@, self.stability_window as int));
        }
        if n < 3 {
            return 0;
        }
        let mut i = start;
        let mut m: u64 = 0;
        while i < len
            invariant
                start <= i <= len,
                len == commit_history@.len(),
                n == len - start,
                n <= 100000,
                w == commit_history@.subrange(start as int, len as int),
                m == sum_health(commit_history@.subrange(start as int, i as int)),
                m <= (i - start) * 0xffffffffu64,
            decreases len - i,
        {
            proof {
                assert(commit_history@.subrange(start as int, i + 1).drop_last()
                    =~= commit_history@.subrange(start as int, i as int));
                assert(commit_history@.subrange(start as int, i + 1).last()
                    == commit_history@[i as int]);
            }
            m = m + commit_history[i].health_score as u64;
            i = i + 1;
        }
        proof {
            assert(commit_history@.subrange(start as int, len as int) == w);
        }
        let mut i = start;
        let mut ssq: u128 = 0;
        while i < len
            invariant
                start <= i <= len,
                len == commit_history@.len(),
                n == len - start,
                3 <= n <= 100000,
                w == commit_history@.subrange(start as int, len as int),
                m == sum_health(w),
                m <= n * 0xffffffffu64,
                ssq == sum_sq_dev(commit_history@.subrange(start as int, i as int), n as int,
                    m as int),
                ssq <= (i - start) * 0x4000000000000000000000000u128,
            decreases len - i,
        {
            proof {
                assert(commit_history@.subrange(start as int, i + 1).drop_last()
                    =~= commit_history@.subrange(start as int, i as int));
                assert(commit_history@.subrange(start as int, i + 1).last()
                    == commit_history@[i as int]);
            }
            let x = commit_history[i].health_score;
            proof {
                assert(0 <= (n as int) * (x as int) <= 0x2000000000000int) by (nonlinear_arith)
                    requires
                        0 <= x as int <= 0xffffffffint,
                        0 <= n as int <= 100000int,
                ;
            }
            let d: i128 = (n as i128) * (x as i128) - (m as i128);
            proof {
                assert(-0x2000000000000int <= d as int <= 0x2000000000000int);
                assert(0 <= (d as int) * (d as int) <= 0x4000000000000000000000000int)
                    by (nonlinear_arith)
                    requires
                        -0x2000000000000int <= d as int <= 0x2000000000000int,
                ;
            }
            ssq = ssq + (d * d) as u128;
            i = i + 1;
        }
        proof {
            assert(commit_history@.subrange(start as int, len as int) == w);
        }
        if self.variance_threshold == 0 {
            return 0;
        }
        let nn = n as u128;
        let vt = self.variance_threshold as u128;
        proof {
            assert((nn as int) * (nn as int) <= 0x2540be400int) by (nonlinear_arith)
                requires
                    0 <= nn as int <= 100000int,
            ;
            assert((self.convergence_threshold as int) * (nn as int) <= 0x2540be400000000int)
                by (nonlinear_arith)
                requires
                    0 <= self.convergence_threshold as int <= 0x100000000int,
                    0 <= nn as int <= 100000int,
            ;
            assert((nn as int) * (nn as int) * (nn as int) <= 0x38d7ea4c68000int)
                by (nonlinear_arith)
                requires
                    0 <= nn as int <= 100000int,
            ;
            assert((nn as int) * (nn as int) * (nn as int) >= 27) by (nonlinear_arith)
                requires
                    nn as int >= 3,
            ;
            assert((vt as int) * (SCORE_SCALE as int) * ((nn as int) * (nn as int) * (nn as int))
                <= 0x100000000int * 10000int * 0x38d7ea4c68000int) by (nonlinear_arith)
                requires
                    0 <= vt as int <= 0x100000000int,
                    0 <= (nn as int) * (nn as int) * (nn as int) <= 0x38d7ea4c68000int,
            ;
        }
        let cube = nn * nn * nn;
        let bound = vt * (SCORE_SCALE as u128) * cube;
        proof {
            assert((vt as int) * (SCORE_SCALE as int) * (nn as int) * (nn as int) * (nn as int)
                == (vt as int) * (SCORE_SCALE as int) * ((nn as int) * (nn as int) * (nn as int)))
                by (nonlinear_arith);
        }
        let mean_ok = (m as u128) >= (self.convergence_threshold as u128) * nn;
        if ssq <= bound && mean_ok {
            proof {
                assert((cube as int) * (vt as int) <= 0x38d7ea4c68000int * 0x100000000int)
                    by (nonlinear_arith)
                    requires
                        0 <= cube as int <= 0x38d7ea4c68000int,
                        0 <= vt as int <= 0x100000000int,
                ;
                assert((cube as int) * (vt as int) > 0) by (nonlinear_arith)
                    requires
                        cube as int >= 27,
                        vt as int >= 1,
                ;
            }
            let q = ssq / (cube * vt);
            proof {
                let c = (cube as int) * (vt as int);
                assert((vt as int) * (SCORE_SCALE as int) * (cube as int) == (SCORE_SCALE as int)
                    * c) by (nonlinear_arith)
                    requires
                        c == (cube as int) * (vt as int),
                ;
                assert(ssq as int <= (SCORE_SCALE as int) * c);
                vstd::arithmetic::div_mod::lemma_div_is_ordered(ssq as int, (SCORE_SCALE as int)
                    * c, c);
                vstd::arithmetic::div_mod::lemma_div_multiples_vanish(SCORE_SCALE as int, c);
                assert((SCORE_SCALE as int) * c == c * (SCORE_SCALE as int));
                assert(ssq as int / c <= SCORE_SCALE as int);
            }
            (SCORE_SCALE as u128 - q) as u32
        } else {
            0
        }
    }

    /// The health-ratio factor of a history (see
    /// [`spec_thread_health_ratio`]).
    pub fn calculate_thread_health_ratio(&self, commit_history: &Vec<CommitNode>) -> (s: u32)
        ensures
            s == spec_thread_health_ratio(*self, commit_history@),
            s <= SCORE_SCALE,
    {
        let len = commit_history.len();
        if len == 0 {
            return 0;
        }
        let last = &commit_history[len - 1];
        proof {
            assert(commit_history@.last() == commit_history@[len - 1]);
        }
        let total = last.file_threads.len();
        if total == 0 {
            return 0;
        }
        let mut i: usize = 0;
        let mut healthy: usize = 0;
        while i < total
            invariant
                0 <= i <= total,
                total == last.file_threads@.len(),
                healthy == count_healthy(last.file_threads@.subrange(0, i as int)),
                healthy <= i,
            decreases total - i,
        {
            proof {
                assert(last.file_threads@.subrange(0, i + 1).drop_last()
                    =~= last.file_threads@.subrange(0, i as int));
                assert(last.file_threads@.subrange(0, i + 1).last() == last.file_threads@[i as int]);
            }
            let c = &last.file_threads[i].color_status;
            if matches!(c, ThreadColor::Green | ThreadColor::LightGreen) {
                healthy = healthy + 1;
            }
            i = i + 1;
        }
        proof {
            assert(last.file_threads@.subrange(0, total as int) == last.file_threads@);
        }
        proof {
            assert((self.min_green_threads_ratio as int) * (total as int) < 0x1000000000000000000000000int)
                by (nonlinear_arith)
                requires
                    0 <= self.min_green_threads_ratio as int <= 0x100000000int,
                    0 <= total as int <= 0x10000000000000000int,
            ;
        }
        let num = (healthy as u128) * (SCORE_SCALE as u128);
        let gate = (self.min_green_threads_ratio as u128) * (total as u128);
        if num >= gate {
            let ratio = num / (total as u128);
            proof {
                assert((healthy as int) * (SCORE_SCALE as int) <= (total as int) * (SCORE_SCALE
                    as int)) by (nonlinear_arith)
                    requires
                        healthy <= total,
                ;
                vstd::arithmetic::div_mod::lemma_div_is_ordered(num as int, (total as int) * (
                SCORE_SCALE as int), total as int);
                vstd::arithmetic::div_mod::lemma_div_multiples_vanish(SCORE_SCALE as int,
                    total as int);
            }
            ratio as u32
        } else {
            0
        }
    }

    /// The test-consistency factor of a history (see
    /// [`spec_test_pass_consistency`]).
    pub fn calculate_test_pass_consistency(&self, commit_history: &Vec<CommitNode>) -> (s: u32)
        ensures
            s == spec_test_pass_consistency(*self, commit_history@),
            s <= SCORE_SCALE,
    {
        let len = commit_history.len();
        let n = if len <= self.stability_window {
            len
        } else {
            self.stability_window
        };
        let start = len - n;
        let ghost w = commit_history@.subrange(start as int, len as int);
        proof {
            assert(w =~= last_n(commit_history@, self.stability_window as int));
        }
        if n == 0 {
            return 0;
        }
        let mut i = start;
        let mut high: usize = 0;
        while i < len
            invariant
                start <= i <= len,
                len == commit_history@.len(),
                n == len - start,
                high == count_high_pass(commit_history@.subrange(start as int, i as int),
                    self.convergence_threshold as int),
                high <= i - start,
            decreases len - i,
        {
            proof {
                assert(commit_history@.subrange(start as int, i + 1).drop_last()
                    =~= commit_history@.subrange(start as int, i as int));
                assert(commit_history@.subrange(start as int, i + 1).last()
                    == commit_history@[i as int]);
            }
            if commit_history[i].convergence_metrics.test_pass_rate >= self.convergence_threshold {
                high = high + 1;
            }
            i = i + 1;
        }
        proof {
            assert(commit_history@.subrange(start as int, len as int) == w);
            assert((high as int) * (SCORE_SCALE as int) <= (n as int) * (SCORE_SCALE as int))
                by (nonlinear_arith)
                requires
                    0 <= high as int <= n as int,
            ;
        }
        let ratio = (high as u128) * (SCORE_SCALE as u128) / (n as u128);
        proof {
            vstd::arithmetic::div_mod::lemma_div_is_ordered((high as int) * (SCORE_SCALE as int), (
            n as int) * (SCORE_SCALE as int), n as int);
            vstd::arithmetic::div_mod::lemma_div_multiples_vanish(SCORE_SCALE as int, n as int);
        }
        ratio as u32
    }

    /// The build factor of a history (see [`spec_build_success_rate`]).
    pub fn calculate_build_success_rate(&self, commit_history: &Vec<CommitNode>) -> (s: u32)
        requires
            self.wf(),
        ensures
            s == spec_build_success_rate(*self, commit_history@),
            s <= SCORE_SCALE,
    {
        let len = commit_history.len();
        let n = if len <= self.stability_window {
            len
        } else {
            self.stability_window
        };
        let start = len - n;
        let ghost w = commit_history@.subrange(start as int, len as int);
        proof {
            assert(w =~= last_n(commit_history@, self.stability_window as int));
        }
        let mut i = start;
        let mut sb: u64 = 0;
        let mut att: u64 = 0;
        while i < len
            invariant
                start <= i <= len,
                len == commit_history@.len(),
                n == len - start,
                n <= 100000,
                sb == sum_builds(commit_history@.subrange(start as int, i as int)),
                att == sum_attempts(commit_history@.subrange(start as int, i as int)),
                sb <= (i - start) * 0xffffffffu64,
                att <= (i - start) * 0xffffffffu64,
            decreases len - i,
        {
            proof {
                assert(commit_history@.subrange(start as int, i + 1).drop_last()
                    =~= commit_history@.subrange(start as int, i as int));
                assert(commit_history@.subrange(start as int, i + 1).last()
                    == commit_history@[i as int]);
            }
            sb = sb + commit_history[i].convergence_metrics.successful_builds as u64;
            att = att + commit_history[i].convergence_metrics.attempts as u64;
            i = i + 1;
        }
        proof {
            assert(commit_history@.subrange(start as int, len as int) == w);
        }
        if att == 0 {
            return 0;
        }
        proof {
            assert(0 <= (sb as int) * (SCORE_SCALE as int) <= 0xffffffffffffffffint * 10000int)
                by (nonlinear_arith)
                requires
                    0 <= sb as int <= 0xffffffffffffffffint,
            ;
        }
        let rate = (sb as u128) * (SCORE_SCALE as u128) / (att as u128);
        if rate > SCORE_SCALE as u128 {
            SCORE_SCALE
        } else {
            rate as u32
        }
    }

    /// The trend factor of a history (see [`spec_trend_improvement`]).
    pub fn calculate_trend_improvement(&self, commit_history: &Vec<CommitNode>) -> (s: u32)
        requires
            self.wf(),
        ensures
            s == spec_trend_improvement(*self, commit_history@),
            s <= SCORE_SCALE,
    {
        let len = commit_history.len();
        let n = if len <= self.quality_trend_window {
            len
        } else {
            self.quality_trend_window
        };
        let start = len - n;
        let ghost w = commit_history@.subrange(start as int, len as int);
        proof {
            assert(w =~= last_n(commit_history@, self.quality_trend_window as int));
        }
        if n < 3 {
            return 0;
        }
        let mut i = start;
        let mut sy: u64 = 0;
        let mut sx: u64 = 0;
        let mut sx2: u64 = 0;
        let mut sxy: u128 = 0;
        while i < len
            invariant
                start <= i <= len,
                len == commit_history@.len(),
                n == len - start,
                n <= 100000,
                w == commit_history@.subrange(start as int, len as int),
                sy == sum_health(commit_history@.subrange(start as int, i as int)),
                sx == sum_idx(commit_history@.subrange(start as int, i as int)),
                sx2 == sum_idx_sq(commit_history@.subrange(start as int, i as int)),
                sxy == sum_idx_health(commit_history@.subrange(start as int, i as int)),
                sy <= (i - start) * 0xffffffffu64,
                sx <= (i - start) * 100000u64,
                sx2 <= (i - start) * 0x2540be400u64,
                sxy <= (i - start) * 0x186a000000000u128,
            decreases len - i,
        {
            proof {
                assert(commit_history@.subrange(start as int, i + 1).drop_last()
                    =~= commit_history@.subrange(start as int, i as int));
                assert(commit_history@.subrange(start as int, i + 1).last()
                    == commit_history@[i as int]);
                assert(commit_history@.subrange(start as int, i + 1).len() - 1 == i - start);
            }
            let pos = i - start;
            let x = commit_history[i].health_score;
            proof {
                assert(0 <= (pos as int) * (pos as int) <= 0x2540be400int) by (nonlinear_arith)
                    requires
                        0 <= (pos as int) && (pos as int) < 100000int,
                ;
                assert(0 <= (pos as int) * (x as int) <= 0x186a000000000int) by (nonlinear_arith)
                    requires
                        0 <= (pos as int) && (pos as int) < 100000int,
                        0 <= x as int <= 0xffffffffint,
                ;
            }
            sy = sy + x as u64;
            sx = sx + pos as u64;
            sx2 = sx2 + (pos as u64) * (pos as u64);
            sxy = sxy + (pos as u128) * (x as u128);
            i = i + 1;
        }
        proof {
            assert(commit_history@.subrange(start as int, len as int) == w);
        }
        proof {
            assert(0 <= (n as int) * (sxy as int) <= 4294967296000000000000000int)
                by (nonlinear_arith)
                requires
                    3 <= n as int <= 100000int,
                    0 <= sxy as int <= 100000int * 0x186a000000000int,
            ;
            assert(0 <= (sx as int) * (sy as int) <= 4294967295000000000000000int)
                by (nonlinear_arith)
                requires
                    0 <= sx as int <= 100000int * 100000int,
                    0 <= sy as int <= 100000int * 0xffffffffint,
            ;
            assert(0 <= (n as int) * (sx2 as int) <= 100000000000000000000int)
                by (nonlinear_arith)
                requires
                    3 <= n as int <= 100000int,
                    0 <= sx2 as int <= 100000int * 0x2540be400int,
            ;
            assert(0 <= (sx as int) * (sx as int) <= 100000000000000000000int)
                by (nonlinear_arith)
                requires
                    0 <= sx as int <= 100000int * 100000int,
            ;
        }
        let num: i128 = (n as i128) * (sxy as i128) - (sx as i128) * (sy as i128);
        let den: i128 = (n as i128) * (sx2 as i128) - (sx as i128) * (sx as i128);
        if num > 0 && den > 0 {
            let slope = num / den;
            proof {
                vstd::arithmetic::div_mod::lemma_div_pos_is_pos(num as int, den as int);
            }
            if slope < SCORE_SCALE as i128 {
                slope as u32
            } else {
                SCORE_SCALE
            }
        } else {
            0
        }
    }

    /// Combine the factors into the weighted confidence score and the
    /// convergence decision (see [`spec_confidence`] and
    /// [`spec_is_converged`]).
    pub fn determine_convergence(&self, factors: &ConvergenceFactors) -> (r: (bool, u32))
        requires
            factors.quality_stability <= SCORE_SCALE,
            factors.thread_health_ratio <= SCORE_SCALE,
            factors.test_pass_consistency <= SCORE_SCALE,
            factors.build_success_rate <= SCORE_SCALE,
            factors.trend_improvement <= SCORE_SCALE,
        ensures
            r.1 == spec_confidence(*factors),
            r.0 == spec_is_converged(*self, *factors),
            r.1 <= SCORE_SCALE,
    {
        let weighted: u64 = 30u64 * factors.quality_stability as u64 + 25u64
            * factors.thread_health_ratio as u64 + 20u64 * factors.test_pass_consistency as u64
            + 15u64 * factors.build_success_rate as u64 + 10u64 * factors.trend_improvement as u64;
        let confidence = (weighted / 100) as u32;
        let is_converged = confidence >= self.convergence_threshold
            && factors.quality_stability > 8000 && factors.thread_health_ratio
            >= self.min_green_threads_ratio;
        (is_converged, confidence)
    }

    /// The ordered advisories for the given factors and history (see
    /// [`spec_recommendations`]).
    pub fn generate_recommendations(
        &self,
        factors: &ConvergenceFactors,
        commit_history: &Vec<CommitNode>,
    ) -> (r: Vec<Recommendation>)
        ensures
            r@.map_values(|x: Recommendation| rec_view(x)) == spec_recommendations(
                *self,
                *factors,
                commit_history@,
            ),
    {
        let ghost f = *factors;
        let ghost h = commit_history@;
        let mut recs: Vec<Recommendation> = Vec::new();
        if commit_history.len() == 0 {
            recs.push(Recommendation::NoHistory);
            proof {
                assert(recs@.map_values(|x: Recommendation| rec_view(x)) =~= seq![
                    RecView::NoHistory,
                ]);
            }
            return recs;
        }
        if factors.quality_stability < 5000 {
            recs.push(Recommendation::UnstableQuality);
        }
        if factors.thread_health_ratio < self.min_green_threads_ratio {
            recs.push(
                Recommendation::LowHealthRatio {
                    ratio: factors.thread_health_ratio,
                    target: self.min_green_threads_ratio,
                },
            );
        }
        if factors.test_pass_consistency < 7000 {
            recs.push(Recommendation::InconsistentTests);
        }
        if factors.build_success_rate < 8000 {
            recs.push(Recommendation::LowBuildSuccess);
        }
        if factors.trend_improvement < 1000 {
            recs.push(Recommendation::NoImprovementTrend);
        }
        let len = commit_history.len();
        let last = &commit_history[len - 1];
        proof {
            assert(commit_history@.last() == commit_history@[len - 1]);
        }
        let total = last.file_threads.len();
        let mut i: usize = 0;
        let mut red_count: usize = 0;
        let mut red_files: Vec<String> = Vec::new();
        while i < total
            invariant
                0 <= i <= total,
                total == last.file_threads@.len(),
                red_count == red_paths(last.file_threads@.subrange(0, i as int)).len(),
                red_files@ == first_three(red_paths(last.file_threads@.subrange(0, i as int))),
                red_count <= i,
            decreases total - i,
        {
            proof {
                assert(last.file_threads@.subrange(0, i + 1).drop_last()
                    =~= last.file_threads@.subrange(0, i as int));
                assert(last.file_threads@.subrange(0, i + 1).last() == last.file_threads@[i as int]);
            }
            let ghost before = red_paths(last.file_threads@.subrange(0, i as int));
            let ghost after = red_paths(last.file_threads@.subrange(0, i + 1));
            let t = &last.file_threads[i];
            if matches!(t.color_status, ThreadColor::Red) {
                proof {
                    assert(after =~= before + seq![last.file_threads@[i as int].file_path]);
                }
                red_count = red_count + 1;
                if red_files.len() < 3 {
                    red_files.push(t.file_path.clone());
                    proof {
                        assert(first_three(after) =~= first_three(before).push(
                            last.file_threads@[i as int].file_path,
                        ));
                    }
                } else {
                    proof {
                        assert(first_three(after) =~= first_three(before));
                    }
                }
            } else {
                proof {
                    assert(after =~= before);
                }
            }
            i = i + 1;
        }
        proof {
            assert(last.file_threads@.subrange(0, total as int) == last.file_threads@);
        }
        if red_count > 0 {
            recs.push(Recommendation::RedFiles { count: red_count, files: red_files });
        }
        if recs.len() == 0 {
            recs.push(Recommendation::OnTrack);
        }
        proof {
            assert(recs@.map_values(|x: Recommendation| rec_view(x)) =~= spec_recommendations(
                *self,
                f,
                h,
            ));
        }
        recs
    }

    /// Analyze a revision history: compute the five factors, combine them
    /// into the confidence score and the convergence decision, and attach
    /// the advisories. Never fails; an empty history yields the
    /// zero-confidence, not-converged result with the lone no-history
    /// advisory.
    pub fn analyze_convergence(&self, commit_history: &Vec<CommitNode>) -> (r: GdkResult<
        ConvergenceResult,
    >)
        requires
            self.wf(),
        ensures
            r is Ok,
            r matches Ok(res) ==> {
                let f = spec_factors(*self, commit_history@);
                &&& res.convergence_factors == f
                &&& res.confidence_score == spec_confidence(f)
                &&& res.is_converged == spec_is_converged(*self, f)
                &&& res.recommendations@.map_values(|x: Recommendation| rec_view(x))
                    == spec_recommendations(*self, f, commit_history@)
            },
    {
        let factors = ConvergenceFactors {
            quality_stability: self.calculate_quality_stability(commit_history),
            thread_health_ratio: self.calculate_thread_health_ratio(commit_history),
            test_pass_consistency: self.calculate_test_pass_consistency(commit_history),
            build_success_rate: self.calculate_build_success_rate(commit_history),
            trend_improvement: self.calculate_trend_improvement(commit_history),
        };
        let (is_converged, confidence_score) = self.determine_convergence(&factors);
        let recommendations = self.generate_recommendations(&factors, commit_history);
        Ok(
            ConvergenceResult {
                is_converged,
                confidence_score,
                convergence_factors: factors,
                recommendations,
            },
        )
    }

    /// Predict how many further iterations are needed to converge (see
    /// [`spec_predict_convergence_time`]). Never fails.
    pub fn predict_convergence_time(&self, commit_history: &Vec<CommitNode>) -> (r: GdkResult<
        Option<u32>,
    >)
        ensures
            r matches Ok(p) && p == spec_predict_convergence_time(*self, commit_history@),
    {
        let len = commit_history.len();
        if len < 3 {
            return Ok(None);
        }
        let n = if len <= 10 {
            len
        } else {
            10
        };
        let start = len - n;
        proof {
            assert(last_n(commit_history@, 10)[0] == commit_history@[start as int]);
            assert(commit_history@.last() == commit_history@[len - 1]);
        }
        let cur = commit_history[len - 1].health_score;
        let oldest = commit_history[start].health_score;
        if cur <= oldest {
            return Ok(None);
        }
        if self.convergence_threshold <= cur {
            return Ok(Some(0));
        }
        let remaining = (self.convergence_threshold - cur) as u64;
        let diff = (cur - oldest) as u64;
        proof {
            assert(0 <= (remaining as int) * (n as int) <= 0xffffffffint * 10int)
                by (nonlinear_arith)
                requires
                    0 <= remaining as int <= 0xffffffffint,
                    0 <= n as int <= 10int,
            ;
        }
        let p = (remaining * (n as u64) + diff - 1) / diff;
        if p > 100 {
            Ok(None)
        } else {
            Ok(Some(p as u32))
        }
    }

    /// Analyzer with a custom configuration.
    pub fn with_config(
        convergence_threshold: u32,
        stability_window: usize,
        quality_trend_window: usize,
        min_green_threads_ratio: u32,
        variance_threshold: u32,
    ) -> (a: ConvergenceAnalyzer)
        ensures
            a == (ConvergenceAnalyzer {
                convergence_threshold,
                stability_window,
                quality_trend_window,
                min_green_threads_ratio,
                variance_threshold,
            }),
    {
        ConvergenceAnalyzer {
            convergence_threshold,
            stability_window,
            quality_trend_window,
            min_green_threads_ratio,
            variance_threshold,
        }
    }
}

/// Render a fixed-point ratio as a percentage with one decimal place.
fn percent_one_decimal(x: u32) -> String {
    let mut s = crate::decimal_string(x / 100);
    s.append(".");
    let tenth = (x % 100) / 10;
    let mut t = crate::decimal_string(tenth);
    s.append(t.as_str());
    s
}

impl Recommendation {
    /// The advisory text of this recommendation. Advisory only: callers
    /// decide on the enum, never on this string.
    pub fn message(&self) -> String {
        match self {
            Recommendation::NoHistory => String::from_str("No commit history available"),
            Recommendation::UnstableQuality => String::from_str(
                "Quality scores are unstable. Focus on consistent improvements.",
            ),
            Recommendation::LowHealthRatio { ratio, target } => {
                let mut s = String::from_str("Only ");
                let p = percent_one_decimal(*ratio);
                s.append(p.as_str());
                s.append("% of threads are healthy. Target: ");
                let t = percent_one_decimal(*target);
                s.append(t.as_str());
                s.append("%. Focus on improving failing files.");
                s
            },
            Recommendation::InconsistentTests => String::from_str(
                "Test pass rates are inconsistent. Improve test reliability.",
            ),
            Recommendation::LowBuildSuccess => String::from_str(
                "Build success rate is low. Fix compilation and build issues.",
            ),
            Recommendation::NoImprovementTrend => String::from_str(
                "Quality trend is not improving. Consider different strategies.",
            ),
            Recommendation::RedFiles { count, files } => {
                let mut s = String::from_str("Critical: ");
                let c = crate::decimal_string(if *count <= 0xffffffff {
                    *count as u32
                } else {
                    0xffffffffu32
                });
                s.append(c.as_str());
                s.append(" files have red status: ");
                let mut i: usize = 0;
                while i < files.len()
                    decreases files.len() - i,
                {
                    if i > 0 {
                        s.append(", ");
                    }
                    s.append(files[i].as_str());
                    i = i + 1;
                }
                s
            },
            Recommendation::OnTrack => String::from_str(
                "System appears to be converging well. Continue current approach.",
            ),
        }
    }
}


/// The trailing health window of a history: the last ten health scores,
/// newest first.
pub open spec fn spec_snapshot_trend(h: Seq<CommitNode>) -> Seq<u32> {
    let n = if h.len() <= 10 {
        h.len() as int
    } else {
        10int
    };
    Seq::new(n as nat, |j: int| h[h.len() - 1 - j].health_score)
}

/// Number of window entries strictly above 0.7.
pub open spec fn count_trend_high(t: Seq<u32>) -> int
    decreases t.len(),
{
    if t.len() == 0 {
        0
    } else {
        count_trend_high(t.drop_last()) + if t.last() > 7000 {
            1int
        } else {
            0int
        }
    }
}

/// Sum of a window of scores.
pub open spec fn sum_trend(t: Seq<u32>) -> int
    decreases t.len(),
{
    if t.len() == 0 {
        0
    } else {
        sum_trend(t.drop_last()) + t.last()
    }
}

/// Whether the first `k` adjacent pairs of the window are nondecreasing.
pub open spec fn trend_prefix_monotone(t: Seq<u32>, k: int) -> bool {
    forall|j: int| 0 <= j < k ==> (#[trigger] t[j]) <= t[j + 1]
}

/// The per-revision convergence flag: at least three window entries, the
/// mean of the three newest strictly above 0.8, and the whole window
/// nondecreasing from newest to oldest.
pub open spec fn spec_snapshot_converged(t: Seq<u32>) -> bool {
    &&& t.len() >= 3
    &&& (t[0] + t[1] + t[2]) / 3 > 8000
    &&& trend_prefix_monotone(t, t.len() - 1)
}

/// The convergence snapshot attached to a revision at creation time: the
/// attempt count is the history length, the trailing window holds the
/// last ten health scores newest first, the build counter counts window
/// entries above 0.7, the pass rate is the window mean (zero when empty),
/// and the flag follows [`spec_snapshot_converged`].
pub fn snapshot_of_history(history: &Vec<CommitNode>) -> (m: ConvergenceMetrics)
    requires
        history@.len() <= 0xffffffff,
    ensures
        m.attempts == history@.len(),
        m.quality_trend@ == spec_snapshot_trend(history@),
        m.successful_builds == count_trend_high(spec_snapshot_trend(history@)),
        m.test_pass_rate == (if spec_snapshot_trend(history@).len() == 0 {
            0int
        } else {
            sum_trend(spec_snapshot_trend(history@)) / spec_snapshot_trend(history@).len() as int
        }),
        m.is_converged == spec_snapshot_converged(spec_snapshot_trend(history@)),
{
    let len = history.len();
    let n = if len <= 10 {
        len
    } else {
        10
    };
    let mut trend: Vec<u32> = Vec::new();
    let mut j: usize = 0;
    while j < n
        invariant
            0 <= j <= n,
            n <= len,
            len == history@.len(),
            trend@.len() == j,
            forall|k: int| 0 <= k < j ==> (#[trigger] trend@[k]) == history@[len - 1 - k].health_score,
        decreases n - j,
    {
        trend.push(history[len - 1 - j].health_score);
        j = j + 1;
    }
    proof {
        assert(trend@ =~= spec_snapshot_trend(history@));
    }
    let tn = trend.len();
    let mut i: usize = 0;
    let mut high: u32 = 0;
    let mut total: u64 = 0;
    while i < tn
        invariant
            0 <= i <= tn,
            tn == trend@.len(),
            tn <= 10,
            high == count_trend_high(trend@.subrange(0, i as int)),
            high <= i,
            total == sum_trend(trend@.subrange(0, i as int)),
            total <= (i as int) * 0xffffffffu64,
        decreases tn - i,
    {
        proof {
            assert(trend@.subrange(0, i + 1).drop_last() =~= trend@.subrange(0, i as int));
            assert(trend@.subrange(0, i + 1).last() == trend@[i as int]);
        }
        let v = trend[i];
        if v > 7000 {
            high = high + 1;
        }
        total = total + v as u64;
        i = i + 1;
    }
    proof {
        assert(trend@.subrange(0, tn as int) == trend@);
    }
    let test_pass_rate: u32 = if tn == 0 {
        0
    } else {
        proof {
            vstd::arithmetic::div_mod::lemma_div_is_ordered(total as int, (tn as int)
                * 0xffffffffint, tn as int);
            vstd::arithmetic::div_mod::lemma_div_multiples_vanish(0xffffffffint, tn as int);
        }
        (total / tn as u64) as u32
    };
    let is_converged: bool = if tn >= 3 {
        let recent = (trend[0] as u64 + trend[1] as u64 + trend[2] as u64) / 3;
        if recent > 8000 {
            let mut mono = true;
            let mut k: usize = 0;
            while k < tn - 1
                invariant
                    0 <= k <= tn - 1,
                    tn == trend@.len(),
                    tn >= 3,
                    mono == trend_prefix_monotone(trend@, k as int),
                decreases tn - 1 - k,
            {
                if trend[k] > trend[k + 1] {
                    mono = false;
                }
                k = k + 1;
            }
            mono
        } else {
            false
        }
    } else {
        false
    };
    ConvergenceMetrics {
        attempts: len as u32,
        successful_builds: high,
        test_pass_rate,
        quality_trend: trend,
        is_converged,
    }
}

/// With no healthy thread in the latest revision, the health-ratio
/// factor itself is zero, whatever the configured minimum. Together with
/// [`lemma_health_gate_blocks_convergence`] this grounds the gating rule
/// end to end for every positive configured minimum.
pub proof fn lemma_no_healthy_threads_zero_ratio(a: ConvergenceAnalyzer, h: Seq<CommitNode>)
    requires
        h.len() > 0,
        count_healthy(h.last().file_threads@) == 0,
    ensures
        spec_thread_health_ratio(a, h) == 0,
{
    let threads = h.last().file_threads@;
    if threads.len() > 0 {
        let total = threads.len() as int;
        if 0 >= (a.min_green_threads_ratio as int) * total {
            vstd::arithmetic::div_mod::lemma_div_of0(total);
        }
    }
}

/// Convergence gating: when the health-ratio factor is zero and a
/// positive minimum share is configured, the decision is not-converged,
/// whatever the other four factors hold.
pub proof fn lemma_health_gate_blocks_convergence(a: ConvergenceAnalyzer, f: ConvergenceFactors)
    requires
        f.thread_health_ratio == 0,
        a.min_green_threads_ratio > 0,
    ensures
        !spec_is_converged(a, f),
{
}

} // verus!
