//! Multi-dimensional quality measurement: per-dimension scores derived
//! from a revision's file threads, a weighted overall score, configurable
//! quality gates, and a capped measurement history.

use vstd::prelude::*;

use crate::errors::{GdkError, GdkResult};
use crate::platform;
use crate::{CommitNode, FileThread, SCORE_SCALE};

verus! {

/// Weights of the six quality dimensions, fixed-point fractions of one.
#[derive(Debug, Clone, Copy, PartialEq, Eq, Structural)]
pub struct DimensionWeights {
    pub correctness: u32,
    pub maintainability: u32,
    pub security: u32,
    pub performance: u32,
    pub reliability: u32,
    pub usability: u32,
}

impl Default for DimensionWeights {
    /// The default weights: 0.30, 0.20, 0.20, 0.15, 0.10 and 0.05.
    fn default() -> (r: DimensionWeights)
        ensures
            r == DimensionWeights::spec_default(),
    {
        DimensionWeights {
            correctness: 3000,
            maintainability: 2000,
            security: 2000,
            performance: 1500,
            reliability: 1000,
            usability: 500,
        }
    }
}

impl DimensionWeights {
    /// The default weights.
    pub open spec fn spec_default() -> DimensionWeights {
        DimensionWeights {
            correctness: 3000u32,
            maintainability: 2000u32,
            security: 2000u32,
            performance: 1500u32,
            reliability: 1000u32,
            usability: 500u32,
        }
    }
}

/// Minimum quality thresholds, fixed-point fractions of one except the
/// complexity cap.
#[derive(Debug, Clone, Copy, PartialEq, Eq, Structural)]
pub struct QualityThresholds {
    pub overall_minimum: u32,
    pub correctness_minimum: u32,
    pub maintainability_minimum: u32,
    pub security_minimum: u32,
    /// Maximum cyclomatic complexity, in whole units scaled by the score
    /// scale.
    pub max_complexity: u64,
    pub min_test_coverage: u32,
    pub max_technical_debt: u32,
}

impl Default for QualityThresholds {
    /// The default thresholds.
    fn default() -> (r: QualityThresholds)
        ensures
            r == QualityThresholds::spec_default(),
    {
        QualityThresholds {
            overall_minimum: 7500,
            correctness_minimum: 9000,
            maintainability_minimum: 7000,
            security_minimum: 8000,
            max_complexity: 100000,
            min_test_coverage: 8000,
            max_technical_debt: 1500,
        }
    }
}

impl QualityThresholds {
    /// The default thresholds.
    pub open spec fn spec_default() -> QualityThresholds {
        QualityThresholds {
            overall_minimum: 7500u32,
            correctness_minimum: 9000u32,
            maintainability_minimum: 7000u32,
            security_minimum: 8000u32,
            max_complexity: 100000u64,
            min_test_coverage: 8000u32,
            max_technical_debt: 1500u32,
        }
    }
}

/// Trend analysis configuration.
#[derive(Debug, Clone, Copy, PartialEq, Eq, Structural)]
pub struct TrendConfig {
    pub trend_window: usize,
    pub min_data_points: usize,
    /// Sensitivity for trend detection, a fixed-point fraction.
    pub trend_sensitivity: u32,
    pub enable_prediction: bool,
}

impl Default for TrendConfig {
    /// The default trend configuration.
    fn default() -> (r: TrendConfig)
        ensures
            r == (TrendConfig {
                trend_window: 10usize,
                min_data_points: 3usize,
                trend_sensitivity: 500u32,
                enable_prediction: true,
            }),
    {
        TrendConfig {
            trend_window: 10,
            min_data_points: 3,
            trend_sensitivity: 500,
            enable_prediction: true,
        }
    }
}

/// Analyzer configuration.
#[derive(Debug, Clone, Copy, PartialEq, Eq, Structural)]
pub struct QualityConfig {
    pub max_history_entries: usize,
    pub dimension_weights: DimensionWeights,
    pub quality_thresholds: QualityThresholds,
    pub trend_config: TrendConfig,
}

impl Default for QualityConfig {
    /// The default configuration: one hundred history entries and the
    /// default weights, thresholds and trend settings.
    fn default() -> (r: QualityConfig)
        ensures
            r.max_history_entries == 100,
            r.dimension_weights == DimensionWeights::spec_default(),
            r.quality_thresholds == QualityThresholds::spec_default(),
            r.trend_config.trend_window == 10,
            r.trend_config.enable_prediction == true,
    {
        QualityConfig {
            max_history_entries: 100,
            dimension_weights: DimensionWeights::default(),
            quality_thresholds: QualityThresholds::default(),
            trend_config: TrendConfig::default(),
        }
    }
}

/// Per-dimension quality scores, fixed-point fractions of one.
#[derive(Debug, Clone, Copy, PartialEq, Eq, Structural)]
pub struct QualityDimensions {
    pub correctness: u32,
    pub maintainability: u32,
    pub security: u32,
    pub performance: u32,
    pub reliability: u32,
    pub usability: u32,
}

/// Trend direction of the technical debt.
#[derive(Debug, Clone, Copy, PartialEq, Eq, Structural)]
pub enum DebtTrend {
    /// Debt is increasing.
    Increasing,
    /// Debt is decreasing.
    Decreasing,
    /// Debt is stable.
    Stable,
    /// Not enough data for a trend.
    Unknown,
}

/// One technical debt item.
#[derive(Debug, Clone, PartialEq)]
pub struct DebtItem {
    pub file_path: String,
    pub debt_type: String,
    /// Estimated effort to fix, in hours scaled by the score scale.
    pub effort_hours: u64,
    pub priority: u8,
    pub description: String,
    pub remediation: String,
}

/// Technical debt measurement.
#[derive(Debug, Clone, PartialEq)]
pub struct TechnicalDebtMetrics {
    /// Total estimated debt, in hours scaled by the score scale.
    pub total_debt_hours: u64,
    /// Debt over code size, a fixed-point fraction.
    pub debt_ratio: u32,
    pub priority_items: Vec<DebtItem>,
    pub trend: DebtTrend,
}

/// A file with high complexity.
#[derive(Debug, Clone, PartialEq)]
pub struct ComplexFile {
    pub path: String,
    pub cyclomatic: u64,
    pub cognitive: u64,
    pub function_count: usize,
    pub lines_of_code: usize,
}

/// Code complexity measurement, complexities scaled by the score scale.
#[derive(Debug, Clone, PartialEq)]
pub struct ComplexityMetrics {
    pub avg_cyclomatic: u64,
    pub max_cyclomatic: u64,
    pub avg_cognitive: u64,
    pub max_cognitive: u64,
    pub complex_functions: usize,
    pub complex_files: Vec<ComplexFile>,
}

/// Performance measurement, fractions and times in fixed point.
#[derive(Debug, Clone, Copy, PartialEq, Eq, Structural)]
pub struct PerformanceMetrics {
    pub benchmark_score: u32,
    pub memory_efficiency: u32,
    /// Compilation time in seconds, scaled by the score scale.
    pub compilation_time: u64,
    /// Test execution time in seconds, scaled by the score scale.
    pub test_execution_time: u64,
    pub regressions: usize,
    pub improvements: usize,
}

/// Dependency security audit counts.
#[derive(Debug, Clone, Copy, PartialEq, Eq, Structural)]
pub struct DependencyAudit {
    pub total_dependencies: usize,
    pub vulnerable_dependencies: usize,
    pub critical_vulns: usize,
    pub high_vulns: usize,
    pub medium_vulns: usize,
    pub low_vulns: usize,
}

/// Code security analysis scores, fixed-point fractions of one.
#[derive(Debug, Clone, Copy, PartialEq, Eq, Structural)]
pub struct CodeSecurityAnalysis {
    pub hotspots: usize,
    pub practices_score: u32,
    pub input_validation: u32,
    pub output_encoding: u32,
    pub auth_score: u32,
}

/// Security measurement.
#[derive(Debug, Clone, Copy, PartialEq, Eq, Structural)]
pub struct SecurityMetrics {
    pub vulnerability_count: usize,
    pub security_score: u32,
    pub dependency_audit: DependencyAudit,
    pub code_analysis: CodeSecurityAnalysis,
}

/// A file with low test coverage.
#[derive(Debug, Clone, PartialEq)]
pub struct LowCoverageFile {
    pub path: String,
    pub coverage: u32,
    pub uncovered_lines: usize,
    pub uncovered_functions: Vec<String>,
}

/// Test coverage measurement, fixed-point fractions of one.
#[derive(Debug, Clone, PartialEq)]
pub struct CoverageMetrics {
    pub line_coverage: u32,
    pub branch_coverage: u32,
    pub function_coverage: u32,
    pub integration_coverage: u32,
    pub low_coverage_files: Vec<LowCoverageFile>,
}

/// The complete quality measurement of one revision.
#[derive(Debug, Clone, PartialEq)]
pub struct QualityMetrics {
    pub overall_score: u32,
    pub dimensions: QualityDimensions,
    pub technical_debt: TechnicalDebtMetrics,
    pub complexity: ComplexityMetrics,
    pub performance: PerformanceMetrics,
    pub security: SecurityMetrics,
    pub coverage: CoverageMetrics,
    pub timestamp: u64,
}


impl Default for QualityMetrics {
    /// The neutral baseline measurement: zero scores and coverage, no
    /// debt, no complexity, full performance and security baselines.
    fn default() -> (m: QualityMetrics)
        ensures
            m.overall_score == 0,
            m.dimensions == (QualityDimensions {
                correctness: 0u32,
                maintainability: 0u32,
                security: 0u32,
                performance: 0u32,
                reliability: 0u32,
                usability: 0u32,
            }),
            m.technical_debt.total_debt_hours == 0,
            m.technical_debt.debt_ratio == 0,
            m.technical_debt.trend == DebtTrend::Unknown,
            m.performance.benchmark_score == 10000,
            m.performance.memory_efficiency == 10000,
            m.security.vulnerability_count == 0,
            m.security.security_score == 10000,
            m.coverage.line_coverage == 0,
            m.timestamp == 0,
    {
        QualityMetrics {
            overall_score: 0,
            dimensions: QualityDimensions {
                correctness: 0,
                maintainability: 0,
                security: 0,
                performance: 0,
                reliability: 0,
                usability: 0,
            },
            technical_debt: TechnicalDebtMetrics {
                total_debt_hours: 0,
                debt_ratio: 0,
                priority_items: Vec::new(),
                trend: DebtTrend::Unknown,
            },
            complexity: ComplexityMetrics {
                avg_cyclomatic: 0,
                max_cyclomatic: 0,
                avg_cognitive: 0,
                max_cognitive: 0,
                complex_functions: 0,
                complex_files: Vec::new(),
            },
            performance: PerformanceMetrics {
                benchmark_score: 10000,
                memory_efficiency: 10000,
                compilation_time: 0,
                test_execution_time: 0,
                regressions: 0,
                improvements: 0,
            },
            security: SecurityMetrics {
                vulnerability_count: 0,
                security_score: 10000,
                dependency_audit: DependencyAudit {
                    total_dependencies: 0,
                    vulnerable_dependencies: 0,
                    critical_vulns: 0,
                    high_vulns: 0,
                    medium_vulns: 0,
                    low_vulns: 0,
                },
                code_analysis: CodeSecurityAnalysis {
                    hotspots: 0,
                    practices_score: 10000,
                    input_validation: 10000,
                    output_encoding: 10000,
                    auth_score: 10000,
                },
            },
            coverage: CoverageMetrics {
                line_coverage: 0,
                branch_coverage: 0,
                function_coverage: 0,
                integration_coverage: 0,
                low_coverage_files: Vec::new(),
            },
            timestamp: 0,
        }
    }
}

/// Which measured value a quality gate checks.
#[derive(Debug, Clone, PartialEq)]
pub enum QualityMetric {
    /// The weighted overall score.
    OverallScore,
    /// A named dimension's score.
    DimensionScore(String),
    /// Line test coverage.
    TestCoverage,
    /// Technical debt over code size.
    TechnicalDebtRatio,
    /// Number of known vulnerabilities.
    VulnerabilityCount,
    /// Maximum cyclomatic complexity.
    MaxComplexity,
    /// Number of performance regressions.
    PerformanceRegressions,
}

/// How a gate compares the measured value against its threshold.
#[derive(Debug, Clone, Copy, PartialEq, Eq, Structural)]
pub enum GateOperator {
    GreaterThan,
    GreaterThanOrEqual,
    LessThan,
    LessThanOrEqual,
    Equal,
    NotEqual,
}

/// One enforceable quality gate.
#[derive(Debug, Clone, PartialEq)]
pub struct QualityGate {
    pub name: String,
    pub description: String,
    pub metric: QualityMetric,
    pub operator: GateOperator,
    /// Threshold in the metric's fixed-point units.
    pub threshold: u64,
    pub is_blocking: bool,
    pub warning_threshold: Option<u64>,
}

/// The result of evaluating one gate.
#[derive(Debug, Clone, PartialEq)]
pub struct GateResult {
    pub gate_name: String,
    pub passed: bool,
    pub actual_value: u64,
    pub threshold: u64,
    pub warning: Option<String>,
}

/// One stored measurement with the revision it measured.
#[derive(Debug, Clone, PartialEq)]
pub struct QualitySnapshot {
    pub commit_hash: String,
    pub metrics: QualityMetrics,
    pub gate_results: Vec<GateResult>,
}

/// How a gate compares a value to a threshold.
pub open spec fn spec_gate_holds(op: GateOperator, actual: int, threshold: int) -> bool {
    match op {
        GateOperator::GreaterThan => actual > threshold,
        GateOperator::GreaterThanOrEqual => actual >= threshold,
        GateOperator::LessThan => actual < threshold,
        GateOperator::LessThanOrEqual => actual <= threshold,
        GateOperator::Equal => actual == threshold,
        GateOperator::NotEqual => actual != threshold,
    }
}

/// The weighted overall score of six dimension scores, clamped to one.
pub open spec fn spec_weighted_overall(d: QualityDimensions, w: DimensionWeights) -> int {
    let s = (d.correctness * w.correctness + d.maintainability * w.maintainability + d.security
        * w.security + d.performance * w.performance + d.reliability * w.reliability + d.usability
        * w.usability) / (SCORE_SCALE as int);
    if s > SCORE_SCALE {
        SCORE_SCALE as int
    } else {
        s
    }
}

/// Trend direction of a measured series.
#[derive(Debug, Clone, Copy, PartialEq, Eq, Structural)]
pub enum TrendDirection {
    /// Improving trend.
    Improving,
    /// Declining trend.
    Declining,
    /// Stable trend.
    Stable,
    /// Not enough data for a trend.
    Unknown,
}

/// Trends over the stored history.
#[derive(Debug, Clone, Copy, PartialEq, Eq, Structural)]
pub struct QualityTrends {
    pub overall_trend: TrendDirection,
    pub debt_trend: DebtTrend,
    pub performance_trend: TrendDirection,
    pub coverage_trend: TrendDirection,
}

/// One improvement recommendation.
#[derive(Debug, Clone, PartialEq)]
pub struct QualityRecommendation {
    pub priority: u8,
    pub dimension: String,
    pub current_score: u32,
    pub potential_improvement: u32,
    /// Estimated effort in hours, scaled by the score scale.
    pub effort_hours: u64,
    pub description: String,
    pub actions: Vec<String>,
    pub expected_impact: u32,
}

/// Predicted future quality, fixed-point fractions of one.
#[derive(Debug, Clone, PartialEq)]
pub struct QualityPrediction {
    pub one_week: u32,
    pub one_month: u32,
    pub three_months: u32,
    pub confidence: u32,
    pub factors: Vec<String>,
}

/// The output of one quality analysis.
#[derive(Debug, Clone, PartialEq)]
pub struct QualityAnalysisResult {
    pub current_metrics: QualityMetrics,
    pub gate_results: Vec<GateResult>,
    pub trends: QualityTrends,
    pub recommendations: Vec<QualityRecommendation>,
    pub predictions: Option<QualityPrediction>,
}

/// Sum of per-thread correctness scores (mean of type check and
/// coverage).
pub open spec fn sum_correctness(s: Seq<FileThread>) -> int
    decreases s.len(),
{
    if s.len() == 0 {
        0
    } else {
        sum_correctness(s.drop_last()) + (s.last().type_check_score + s.last().test_coverage) / 2
    }
}

/// Sum of per-thread lint scores.
pub open spec fn sum_lint(s: Seq<FileThread>) -> int
    decreases s.len(),
{
    if s.len() == 0 {
        0
    } else {
        sum_lint(s.drop_last()) + s.last().lint_score
    }
}

/// Sum of per-thread security scores (mean of lint and functionality).
pub open spec fn sum_security(s: Seq<FileThread>) -> int
    decreases s.len(),
{
    if s.len() == 0 {
        0
    } else {
        sum_security(s.drop_last()) + (s.last().lint_score + s.last().functionality_score) / 2
    }
}

/// Sum of per-thread functionality scores.
pub open spec fn sum_functionality(s: Seq<FileThread>) -> int
    decreases s.len(),
{
    if s.len() == 0 {
        0
    } else {
        sum_functionality(s.drop_last()) + s.last().functionality_score
    }
}

/// Sum of per-thread reliability scores (mean of coverage and
/// functionality).
pub open spec fn sum_reliability(s: Seq<FileThread>) -> int
    decreases s.len(),
{
    if s.len() == 0 {
        0
    } else {
        sum_reliability(s.drop_last()) + (s.last().test_coverage + s.last().functionality_score)
            / 2
    }
}

/// Sum of per-thread coverage scores.
pub open spec fn sum_coverage(s: Seq<FileThread>) -> int
    decreases s.len(),
{
    if s.len() == 0 {
        0
    } else {
        sum_coverage(s.drop_last()) + s.last().test_coverage
    }
}

/// The per-dimension scores of a revision: each dimension is the mean of
/// a per-thread combination, all zero without threads.
pub open spec fn spec_dimension_scores(c: CommitNode) -> QualityDimensions {
    let s = c.file_threads@;
    let n = s.len() as int;
    if n == 0 {
        QualityDimensions {
            correctness: 0u32,
            maintainability: 0u32,
            security: 0u32,
            performance: 0u32,
            reliability: 0u32,
            usability: 0u32,
        }
    } else {
        QualityDimensions {
            correctness: (sum_correctness(s) / n) as u32,
            maintainability: (sum_lint(s) / n) as u32,
            security: (sum_security(s) / n) as u32,
            performance: (sum_functionality(s) / n) as u32,
            reliability: (sum_reliability(s) / n) as u32,
            usability: (sum_lint(s) / n) as u32,
        }
    }
}

/// The measured value a gate inspects, if its metric is known.
pub open spec fn spec_extract_metric(metric: QualityMetric, m: QualityMetrics) -> Option<int> {
    match metric {
        QualityMetric::OverallScore => Some(m.overall_score as int),
        QualityMetric::TestCoverage => Some(m.coverage.line_coverage as int),
        QualityMetric::TechnicalDebtRatio => Some(m.technical_debt.debt_ratio as int),
        QualityMetric::VulnerabilityCount => Some(m.security.vulnerability_count as int),
        QualityMetric::MaxComplexity => Some(m.complexity.max_cyclomatic as int),
        QualityMetric::PerformanceRegressions => Some(m.performance.regressions as int),
        QualityMetric::DimensionScore(name) => {
            if name@ == "correctness"@ {
                Some(m.dimensions.correctness as int)
            } else if name@ == "maintainability"@ {
                Some(m.dimensions.maintainability as int)
            } else if name@ == "security"@ {
                Some(m.dimensions.security as int)
            } else if name@ == "performance"@ {
                Some(m.dimensions.performance as int)
            } else if name@ == "reliability"@ {
                Some(m.dimensions.reliability as int)
            } else if name@ == "usability"@ {
                Some(m.dimensions.usability as int)
            } else {
                None
            }
        },
    }
}


/// Whether a gate should carry a warning: it has a warning threshold and
/// either failed or is inside the warning band.
pub open spec fn spec_warning_expected(g: QualityGate, actual: int, passed: bool) -> bool {
    match g.warning_threshold {
        Some(wt) => !passed || !spec_gate_holds(g.operator, actual, wt as int),
        None => false,
    }
}

/// Quality analyzer with configuration, gates and a capped history.
#[derive(Debug)]
pub struct QualityMetricsAnalyzer {
    config: QualityConfig,
    history: Vec<QualitySnapshot>,
    current_metrics: Option<QualityMetrics>,
    gates: Vec<QualityGate>,
}

impl QualityMetricsAnalyzer {
    /// The configuration in force.
    pub closed spec fn config_view(&self) -> QualityConfig {
        self.config
    }

    /// The stored measurement history, oldest first.
    pub closed spec fn history_view(&self) -> Seq<QualitySnapshot> {
        self.history@
    }

    /// The gates in force.
    pub closed spec fn gates_view(&self) -> Seq<QualityGate> {
        self.gates@
    }

    /// An analyzer with the given configuration and the default gates.
    pub fn new(config: QualityConfig) -> (a: QualityMetricsAnalyzer)
        ensures
            a.config_view() == config,
            a.history_view().len() == 0,
            a.gates_view().len() == 4,
    {
        QualityMetricsAnalyzer {
            config,
            history: Vec::new(),
            current_metrics: None,
            gates: Self::default_quality_gates(),
        }
    }

    /// An analyzer with the default configuration.
    pub fn with_default_config() -> (a: QualityMetricsAnalyzer)
        ensures
            a.config_view().max_history_entries == 100,
            a.history_view().len() == 0,
            a.gates_view().len() == 4,
    {
        Self::new(QualityConfig::default())
    }

    /// The four standard gates: overall quality at least 0.75, line
    /// coverage at least 0.80, debt ratio at most 0.15, and zero known
    /// vulnerabilities.
    pub fn default_quality_gates() -> (g: Vec<QualityGate>)
        ensures
            g@.len() == 4,
            g@[0].metric is OverallScore && g@[0].operator == GateOperator::GreaterThanOrEqual
                && g@[0].threshold == 7500 && g@[0].is_blocking,
            g@[1].metric is TestCoverage && g@[1].operator == GateOperator::GreaterThanOrEqual
                && g@[1].threshold == 8000 && g@[1].is_blocking,
            g@[2].metric is TechnicalDebtRatio && g@[2].operator == GateOperator::LessThanOrEqual
                && g@[2].threshold == 1500 && !g@[2].is_blocking,
            g@[3].metric is VulnerabilityCount && g@[3].operator == GateOperator::Equal
                && g@[3].threshold == 0 && g@[3].is_blocking,
    {
        let mut g: Vec<QualityGate> = Vec::new();
        g.push(
            QualityGate {
                name: String::from_str("Overall Quality"),
                description: String::from_str("Minimum overall quality score"),
                metric: QualityMetric::OverallScore,
                operator: GateOperator::GreaterThanOrEqual,
                threshold: 7500,
                is_blocking: true,
                warning_threshold: Some(7000),
            },
        );
        g.push(
            QualityGate {
                name: String::from_str("Test Coverage"),
                description: String::from_str("Minimum test coverage percentage"),
                metric: QualityMetric::TestCoverage,
                operator: GateOperator::GreaterThanOrEqual,
                threshold: 8000,
                is_blocking: true,
                warning_threshold: Some(7500),
            },
        );
        g.push(
            QualityGate {
                name: String::from_str("Technical Debt"),
                description: String::from_str("Maximum technical debt ratio"),
                metric: QualityMetric::TechnicalDebtRatio,
                operator: GateOperator::LessThanOrEqual,
                threshold: 1500,
                is_blocking: false,
                warning_threshold: Some(2000),
            },
        );
        g.push(
            QualityGate {
                name: String::from_str("Security Vulnerabilities"),
                description: String::from_str("Maximum number of security vulnerabilities"),
                metric: QualityMetric::VulnerabilityCount,
                operator: GateOperator::Equal,
                threshold: 0,
                is_blocking: true,
                warning_threshold: None,
            },
        );
        g
    }

    /// The per-dimension scores of a revision (see
    /// [`spec_dimension_scores`]).
    pub fn calculate_dimension_scores(&self, commit: &CommitNode) -> (d: QualityDimensions)
        requires
            forall|i: int|
                0 <= i < commit.file_threads@.len() ==> crate::threads::wf_thread(
                    #[trigger] commit.file_threads@[i],
                ),
        ensures
            d == spec_dimension_scores(*commit),
    {
        let s = &commit.file_threads;
        let n = s.len();
        if n == 0 {
            return QualityDimensions {
                correctness: 0,
                maintainability: 0,
                security: 0,
                performance: 0,
                reliability: 0,
                usability: 0,
            };
        }
        let mut i: usize = 0;
        let mut c: u128 = 0;
        let mut l: u128 = 0;
        let mut sec: u128 = 0;
        let mut f: u128 = 0;
        let mut rel: u128 = 0;
        while i < n
            invariant
                0 <= i <= n,
                n == s@.len(),
                n <= 0xffffffffffffffff,
                forall|k: int|
                    0 <= k < s@.len() ==> crate::threads::wf_thread(#[trigger] s@[k]),
                c == sum_correctness(s@.subrange(0, i as int)),
                l == sum_lint(s@.subrange(0, i as int)),
                sec == sum_security(s@.subrange(0, i as int)),
                f == sum_functionality(s@.subrange(0, i as int)),
                rel == sum_reliability(s@.subrange(0, i as int)),
                c <= (i as int) * (SCORE_SCALE as int),
                l <= (i as int) * (SCORE_SCALE as int),
                sec <= (i as int) * (SCORE_SCALE as int),
                f <= (i as int) * (SCORE_SCALE as int),
                rel <= (i as int) * (SCORE_SCALE as int),
            decreases n - i,
        {
            proof {
                assert(s@.subrange(0, i + 1).drop_last() =~= s@.subrange(0, i as int));
                assert(s@.subrange(0, i + 1).last() == s@[i as int]);
                assert(crate::threads::wf_thread(s@[i as int]));
            }
            let t = &s[i];
            c = c + ((t.type_check_score as u128) + (t.test_coverage as u128)) / 2;
            l = l + t.lint_score as u128;
            sec = sec + ((t.lint_score as u128) + (t.functionality_score as u128)) / 2;
            f = f + t.functionality_score as u128;
            rel = rel + ((t.test_coverage as u128) + (t.functionality_score as u128)) / 2;
            i = i + 1;
        }
        proof {
            assert(s@.subrange(0, n as int) == s@);
            vstd::arithmetic::div_mod::lemma_div_is_ordered(c as int, (n as int) * (SCORE_SCALE
                as int), n as int);
            vstd::arithmetic::div_mod::lemma_div_is_ordered(l as int, (n as int) * (SCORE_SCALE
                as int), n as int);
            vstd::arithmetic::div_mod::lemma_div_is_ordered(sec as int, (n as int) * (SCORE_SCALE
                as int), n as int);
            vstd::arithmetic::div_mod::lemma_div_is_ordered(f as int, (n as int) * (SCORE_SCALE
                as int), n as int);
            vstd::arithmetic::div_mod::lemma_div_is_ordered(rel as int, (n as int) * (SCORE_SCALE
                as int), n as int);
            vstd::arithmetic::div_mod::lemma_div_multiples_vanish(SCORE_SCALE as int, n as int);
        }
        QualityDimensions {
            correctness: (c / n as u128) as u32,
            maintainability: (l / n as u128) as u32,
            security: (sec / n as u128) as u32,
            performance: (f / n as u128) as u32,
            reliability: (rel / n as u128) as u32,
            usability: (l / n as u128) as u32,
        }
    }

    /// The weighted overall score under the configured weights (see
    /// [`spec_weighted_overall`]).
    pub fn calculate_weighted_score(&self, d: &QualityDimensions) -> (s: u32)
        ensures
            s == spec_weighted_overall(*d, self.config_view().dimension_weights),
            s <= SCORE_SCALE,
    {
        let w = &self.config.dimension_weights;
        proof {
            assert(0 <= (d.correctness as int) * (w.correctness as int) <= 0x100000000int
                * 0x100000000int) by (nonlinear_arith)
                requires
                    0 <= d.correctness as int <= 0x100000000int,
                    0 <= w.correctness as int <= 0x100000000int,
            ;
            assert(0 <= (d.maintainability as int) * (w.maintainability as int) <= 0x100000000int
                * 0x100000000int) by (nonlinear_arith)
                requires
                    0 <= d.maintainability as int <= 0x100000000int,
                    0 <= w.maintainability as int <= 0x100000000int,
            ;
            assert(0 <= (d.security as int) * (w.security as int) <= 0x100000000int
                * 0x100000000int) by (nonlinear_arith)
                requires
                    0 <= d.security as int <= 0x100000000int,
                    0 <= w.security as int <= 0x100000000int,
            ;
            assert(0 <= (d.performance as int) * (w.performance as int) <= 0x100000000int
                * 0x100000000int) by (nonlinear_arith)
                requires
                    0 <= d.performance as int <= 0x100000000int,
                    0 <= w.performance as int <= 0x100000000int,
            ;
            assert(0 <= (d.reliability as int) * (w.reliability as int) <= 0x100000000int
                * 0x100000000int) by (nonlinear_arith)
                requires
                    0 <= d.reliability as int <= 0x100000000int,
                    0 <= w.reliability as int <= 0x100000000int,
            ;
            assert(0 <= (d.usability as int) * (w.usability as int) <= 0x100000000int
                * 0x100000000int) by (nonlinear_arith)
                requires
                    0 <= d.usability as int <= 0x100000000int,
                    0 <= w.usability as int <= 0x100000000int,
            ;
        }
        let total: u128 = (d.correctness as u128) * (w.correctness as u128) + (d.maintainability
            as u128) * (w.maintainability as u128) + (d.security as u128) * (w.security as u128) + (
        d.performance as u128) * (w.performance as u128) + (d.reliability as u128) * (w.reliability
            as u128) + (d.usability as u128) * (w.usability as u128);
        let s = total / (SCORE_SCALE as u128);
        if s > SCORE_SCALE as u128 {
            SCORE_SCALE
        } else {
            s as u32
        }
    }

    /// Evaluate one gate condition against a measured value.
    pub fn evaluate_gate_condition_with_threshold(op: GateOperator, actual: u64, threshold: u64)
        -> (b: bool)
        ensures
            b == spec_gate_holds(op, actual as int, threshold as int),
    {
        match op {
            GateOperator::GreaterThan => actual > threshold,
            GateOperator::GreaterThanOrEqual => actual >= threshold,
            GateOperator::LessThan => actual < threshold,
            GateOperator::LessThanOrEqual => actual <= threshold,
            GateOperator::Equal => actual == threshold,
            GateOperator::NotEqual => actual != threshold,
        }
    }

    /// The measured value a gate inspects. Fails exactly on an unknown
    /// dimension name.
    pub fn extract_metric_value(gate: &QualityGate, metrics: &QualityMetrics) -> (r: GdkResult<
        u64,
    >)
        ensures
            r matches Ok(v) ==> spec_extract_metric(gate.metric, *metrics) == Some(v as int),
            r is Err <==> spec_extract_metric(gate.metric, *metrics) is None,
            r matches Err(e) ==> e is ValidationError,
    {
        match &gate.metric {
            QualityMetric::OverallScore => Ok(metrics.overall_score as u64),
            QualityMetric::TestCoverage => Ok(metrics.coverage.line_coverage as u64),
            QualityMetric::TechnicalDebtRatio => Ok(metrics.technical_debt.debt_ratio as u64),
            QualityMetric::VulnerabilityCount => Ok(metrics.security.vulnerability_count as u64),
            QualityMetric::MaxComplexity => Ok(metrics.complexity.max_cyclomatic),
            QualityMetric::PerformanceRegressions => Ok(metrics.performance.regressions as u64),
            QualityMetric::DimensionScore(name) => {
                if *name == String::from_str("correctness") {
                    Ok(metrics.dimensions.correctness as u64)
                } else if *name == String::from_str("maintainability") {
                    Ok(metrics.dimensions.maintainability as u64)
                } else if *name == String::from_str("security") {
                    Ok(metrics.dimensions.security as u64)
                } else if *name == String::from_str("performance") {
                    Ok(metrics.dimensions.performance as u64)
                } else if *name == String::from_str("reliability") {
                    Ok(metrics.dimensions.reliability as u64)
                } else if *name == String::from_str("usability") {
                    Ok(metrics.dimensions.usability as u64)
                } else {
                    Err(
                        GdkError::validation_error(
                            String::from_str("quality_gate"),
                            String::from_str("unknown dimension"),
                            String::from_str("no dimension with the requested name"),
                        ),
                    )
                }
            },
        }
    }

    /// Technical debt measurement (populated by a dedicated scanner at
    /// the boundary; here the neutral baseline).
    pub fn calculate_technical_debt(&self, _commit: &CommitNode) -> (d: TechnicalDebtMetrics)
        ensures
            d.total_debt_hours == 0,
            d.debt_ratio == 0,
            d.priority_items@.len() == 0,
            d.trend == DebtTrend::Stable,
    {
        TechnicalDebtMetrics {
            total_debt_hours: 0,
            debt_ratio: 0,
            priority_items: Vec::new(),
            trend: DebtTrend::Stable,
        }
    }

    /// Complexity measurement (populated by a dedicated scanner at the
    /// boundary; here the neutral baseline).
    pub fn calculate_complexity_metrics(&self, _commit: &CommitNode) -> (c: ComplexityMetrics)
        ensures
            c.avg_cyclomatic == 50000 && c.max_cyclomatic == 150000,
            c.avg_cognitive == 80000 && c.max_cognitive == 250000,
            c.complex_functions == 0 && c.complex_files@.len() == 0,
    {
        ComplexityMetrics {
            avg_cyclomatic: 50000,
            max_cyclomatic: 150000,
            avg_cognitive: 80000,
            max_cognitive: 250000,
            complex_functions: 0,
            complex_files: Vec::new(),
        }
    }

    /// Performance measurement (populated by benchmarks at the boundary;
    /// here the neutral baseline).
    pub fn calculate_performance_metrics(&self, _commit: &CommitNode) -> (p: PerformanceMetrics)
        ensures
            p == (PerformanceMetrics {
                benchmark_score: 10000u32,
                memory_efficiency: 8500u32,
                compilation_time: 300000u64,
                test_execution_time: 150000u64,
                regressions: 0usize,
                improvements: 0usize,
            }),
    {
        PerformanceMetrics {
            benchmark_score: 10000,
            memory_efficiency: 8500,
            compilation_time: 300000,
            test_execution_time: 150000,
            regressions: 0,
            improvements: 0,
        }
    }

    /// Security measurement (populated by audits at the boundary; here
    /// the neutral baseline).
    pub fn calculate_security_metrics(&self, _commit: &CommitNode) -> (s: SecurityMetrics)
        ensures
            s.vulnerability_count == 0,
            s.security_score == 9000,
            s.dependency_audit.total_dependencies == 50,
            s.dependency_audit.vulnerable_dependencies == 0,
    {
        SecurityMetrics {
            vulnerability_count: 0,
            security_score: 9000,
            dependency_audit: DependencyAudit {
                total_dependencies: 50,
                vulnerable_dependencies: 0,
                critical_vulns: 0,
                high_vulns: 0,
                medium_vulns: 0,
                low_vulns: 0,
            },
            code_analysis: CodeSecurityAnalysis {
                hotspots: 0,
                practices_score: 8500,
                input_validation: 8000,
                output_encoding: 9000,
                auth_score: 9500,
            },
        }
    }

    /// Coverage measurement: the mean coverage across the revision's
    /// threads, with the branch, function and integration figures
    /// estimated at nine tenths, eleven tenths and four fifths of it.
    pub fn calculate_coverage_metrics(&self, commit: &CommitNode) -> (c: CoverageMetrics)
        requires
            forall|i: int|
                0 <= i < commit.file_threads@.len() ==> crate::threads::wf_thread(
                    #[trigger] commit.file_threads@[i],
                ),
        ensures
            ({
                let s = commit.file_threads@;
                let avg = if s.len() == 0 {
                    0int
                } else {
                    sum_coverage(s) / s.len() as int
                };
                &&& c.line_coverage == avg
                &&& c.branch_coverage == avg * 9 / 10
                &&& c.function_coverage == avg * 11 / 10
                &&& c.integration_coverage == avg * 4 / 5
                &&& c.low_coverage_files@.len() == 0
            }),
    {
        let s = &commit.file_threads;
        let n = s.len();
        let avg: u32 = if n == 0 {
            0
        } else {
            let mut i: usize = 0;
            let mut total: u128 = 0;
            while i < n
                invariant
                    0 <= i <= n,
                    n == s@.len(),
                    forall|k: int|
                        0 <= k < s@.len() ==> crate::threads::wf_thread(#[trigger] s@[k]),
                    total == sum_coverage(s@.subrange(0, i as int)),
                    total <= (i as int) * (SCORE_SCALE as int),
                decreases n - i,
            {
                proof {
                    assert(s@.subrange(0, i + 1).drop_last() =~= s@.subrange(0, i as int));
                    assert(s@.subrange(0, i + 1).last() == s@[i as int]);
                    assert(crate::threads::wf_thread(s@[i as int]));
                }
                total = total + s[i].test_coverage as u128;
                i = i + 1;
            }
            proof {
                assert(s@.subrange(0, n as int) == s@);
                vstd::arithmetic::div_mod::lemma_div_is_ordered(total as int, (n as int) * (
                SCORE_SCALE as int), n as int);
                vstd::arithmetic::div_mod::lemma_div_multiples_vanish(SCORE_SCALE as int, n as int);
            }
            (total / n as u128) as u32
        };
        CoverageMetrics {
            line_coverage: avg,
            branch_coverage: ((avg as u64) * 9 / 10) as u32,
            function_coverage: ((avg as u64) * 11 / 10) as u32,
            integration_coverage: ((avg as u64) * 4 / 5) as u32,
            low_coverage_files: Vec::new(),
        }
    }

    /// Evaluate every configured gate against a measurement. Fails
    /// exactly when a gate names an unknown dimension.
    pub fn evaluate_quality_gates(&self, metrics: &QualityMetrics) -> (r: GdkResult<
        Vec<GateResult>,
    >)
        ensures
            r matches Ok(v) ==> {
                &&& v@.len() == self.gates_view().len()
                &&& forall|i: int|
                    0 <= i < v@.len() ==> {
                        let g = self.gates_view()[i];
                        &&& (#[trigger] v@[i]).gate_name == g.name
                        &&& spec_extract_metric(g.metric, *metrics) == Some(
                            v@[i].actual_value as int,
                        )
                        &&& v@[i].threshold == g.threshold
                        &&& v@[i].passed == spec_gate_holds(
                            g.operator,
                            v@[i].actual_value as int,
                            g.threshold as int,
                        )
                        &&& (v@[i].warning is Some <==> spec_warning_expected(
                            g,
                            v@[i].actual_value as int,
                            v@[i].passed,
                        ))
                    }
            },
            r matches Err(e) ==> e is ValidationError,
    {
        let mut results: Vec<GateResult> = Vec::new();
        let n = self.gates.len();
        let mut i: usize = 0;
        while i < n
            invariant
                0 <= i <= n,
                n == self.gates@.len(),
                self.gates@ == self.gates_view(),
                results@.len() == i,
                forall|k: int|
                    0 <= k < i ==> {
                        let g = self.gates_view()[k];
                        &&& (#[trigger] results@[k]).gate_name == g.name
                        &&& spec_extract_metric(g.metric, *metrics) == Some(
                            results@[k].actual_value as int,
                        )
                        &&& results@[k].threshold == g.threshold
                        &&& results@[k].passed == spec_gate_holds(
                            g.operator,
                            results@[k].actual_value as int,
                            g.threshold as int,
                        )
                        &&& (results@[k].warning is Some <==> spec_warning_expected(
                            g,
                            results@[k].actual_value as int,
                            results@[k].passed,
                        ))
                    },
            decreases n - i,
        {
            let gate = &self.gates[i];
            let actual = match Self::extract_metric_value(gate, metrics) {
                Ok(v) => v,
                Err(e) => {
                    return Err(e);
                },
            };
            let passed = Self::evaluate_gate_condition_with_threshold(
                gate.operator,
                actual,
                gate.threshold,
            );
            let warning: Option<String> = match gate.warning_threshold {
                Some(wt) => {
                    if !passed || !Self::evaluate_gate_condition_with_threshold(
                        gate.operator,
                        actual,
                        wt,
                    ) {
                        let mut w = String::from_str("Quality gate '");
                        w.append(gate.name.as_str());
                        w.append("' is approaching threshold");
                        Some(w)
                    } else {
                        None
                    }
                },
                None => None,
            };
            results.push(
                GateResult {
                    gate_name: gate.name.clone(),
                    passed,
                    actual_value: actual,
                    threshold: gate.threshold,
                    warning,
                },
            );
            i = i + 1;
        }
        Ok(results)
    }

    /// Trends over the stored history (refined by a dedicated analysis at
    /// the boundary; here the stable baseline).
    pub fn analyze_trends(&self, _metrics: &QualityMetrics) -> (t: QualityTrends)
        ensures
            t.overall_trend == TrendDirection::Stable,
            t.debt_trend == DebtTrend::Stable,
            t.performance_trend == TrendDirection::Stable,
            t.coverage_trend == TrendDirection::Stable,
    {
        QualityTrends {
            overall_trend: TrendDirection::Stable,
            debt_trend: DebtTrend::Stable,
            performance_trend: TrendDirection::Stable,
            coverage_trend: TrendDirection::Stable,
        }
    }

    /// Predicted quality over the coming weeks (refined by a model at the
    /// boundary; here the fixed baseline).
    pub fn predict_quality_trends(&self) -> (p: QualityPrediction)
        ensures
            p.one_week == 8000 && p.one_month == 8200 && p.three_months == 8500 && p.confidence
                == 7000,
    {
        let mut factors: Vec<String> = Vec::new();
        factors.push(String::from_str("test_coverage_improvement"));
        factors.push(String::from_str("complexity_reduction"));
        QualityPrediction {
            one_week: 8000,
            one_month: 8200,
            three_months: 8500,
            confidence: 7000,
            factors,
        }
    }

    /// Append a measurement to the history, evicting the oldest entries
    /// beyond the configured cap.
    fn add_to_history(&mut self, commit_hash: String, metrics: QualityMetrics)
        ensures
            final(self).config_view() == old(self).config_view(),
            final(self).gates_view() == old(self).gates_view(),
            final(self).history_view().len() <= if old(self).config_view().max_history_entries
                > old(self).history_view().len() + 1 {
                old(self).history_view().len() + 1int
            } else {
                old(self).config_view().max_history_entries as int
            },
            final(self).history_view().len() > 0 ==> final(self).history_view().last().commit_hash
                == commit_hash,
            old(self).config_view().max_history_entries > 0 ==> final(self).history_view().len() > 0,
    {
        self.history.push(QualitySnapshot { commit_hash, metrics, gate_results: Vec::new() });
        let cap = self.config.max_history_entries;
        let ghost pushed = self.history@;
        proof {
            assert(pushed.subrange(0, pushed.len() as int) =~= pushed);
        }
        while self.history.len() > cap
            invariant
                self.history@.len() <= pushed.len(),
                self.history@.len() >= cap || self.history@ == pushed,
                cap == self.config.max_history_entries,
                self.config == old(self).config,
                self.gates@ == old(self).gates@,
                self.history@ == pushed.subrange(
                    pushed.len() - self.history@.len(),
                    pushed.len() as int,
                ),
            decreases self.history@.len(),
        {
            let ghost prev = self.history@;
            self.history.remove(0);
            proof {
                assert(self.history@ =~= prev.subrange(1, prev.len() as int));
                assert(self.history@ =~= pushed.subrange(
                    pushed.len() - self.history@.len(),
                    pushed.len() as int,
                ));
            }
        }
    }

    /// Measure a revision across every dimension, evaluate the gates,
    /// attach trends and the optional prediction, and store the snapshot
    /// in the capped history. Fails exactly when a configured gate names
    /// an unknown dimension.
    pub fn analyze_commit_quality(&mut self, commit: &CommitNode) -> (r: GdkResult<
        QualityAnalysisResult,
    >)
        requires
            forall|i: int|
                0 <= i < commit.file_threads@.len() ==> crate::threads::wf_thread(
                    #[trigger] commit.file_threads@[i],
                ),
        ensures
            final(self).config_view() == old(self).config_view(),
            final(self).gates_view() == old(self).gates_view(),
            r matches Ok(res) ==> {
                &&& res.current_metrics.dimensions == spec_dimension_scores(*commit)
                &&& res.current_metrics.overall_score == spec_weighted_overall(
                    spec_dimension_scores(*commit),
                    old(self).config_view().dimension_weights,
                )
                &&& res.gate_results@.len() == old(self).gates_view().len()
                &&& (res.predictions is Some <==> old(
                    self,
                ).config_view().trend_config.enable_prediction)
                &&& (old(self).config_view().max_history_entries > 0 ==> final(self).history_view().len() > 0 && final(self).history_view().last().commit_hash
                    == commit.hash)
            },
            r is Err ==> final(self).history_view() == old(self).history_view(),
    {
        let timestamp = platform::unix_now_secs();
        let dimensions = self.calculate_dimension_scores(commit);
        let overall_score = self.calculate_weighted_score(&dimensions);
        let technical_debt = self.calculate_technical_debt(commit);
        let complexity = self.calculate_complexity_metrics(commit);
        let performance = self.calculate_performance_metrics(commit);
        let security = self.calculate_security_metrics(commit);
        let coverage = self.calculate_coverage_metrics(commit);
        let metrics = QualityMetrics {
            overall_score,
            dimensions,
            technical_debt,
            complexity,
            performance,
            security,
            coverage,
            timestamp,
        };
        let gate_results = match self.evaluate_quality_gates(&metrics) {
            Ok(v) => v,
            Err(e) => {
                return Err(e);
            },
        };
        let trends = self.analyze_trends(&metrics);
        let recommendations: Vec<QualityRecommendation> = Vec::new();
        let predictions: Option<QualityPrediction> = if self.config.trend_config.enable_prediction {
            Some(self.predict_quality_trends())
        } else {
            None
        };
        self.add_to_history(commit.hash.clone(), metrics.clone());
        self.current_metrics = Some(metrics.clone());
        Ok(
            QualityAnalysisResult {
                current_metrics: metrics,
                gate_results,
                trends,
                recommendations,
                predictions,
            },
        )
    }
}

} // verus!
