//! Validator configuration and scoring. Validators are external tools
//! run at the boundary; the library holds their configuration, turns
//! their observed output (exit codes and diagnostic counts) into scores,
//! and aggregates per-validator results into the weighted pass/fail
//! decision.

use vstd::prelude::*;

use crate::SCORE_SCALE;

verus! {

/// One validator: an external command with its weight in the overall
/// score and whether it must pass.
#[derive(Debug, Clone, PartialEq)]
pub struct Validator {
    pub name: String,
    pub command: String,
    pub args: Vec<String>,
    pub working_dir: Option<String>,
    pub timeout_seconds: u64,
    /// Weight in the overall score, a fixed-point fraction of one.
    pub weight: u32,
    pub is_required: bool,
}

/// Rules governing suite behaviour.
#[derive(Debug, Clone, Copy, PartialEq, Eq, Structural)]
pub struct ValidationRules {
    /// Minimum weighted score for an overall pass.
    pub min_passing_score: u32,
    pub required_validators_must_pass: bool,
    pub fail_fast: bool,
    pub parallel_execution: bool,
}

impl Default for ValidationRules {
    /// The default rules: pass at 0.8, required validators must pass,
    /// no fail-fast, parallel execution.
    fn default() -> (r: ValidationRules)
        ensures
            r == (ValidationRules {
                min_passing_score: 8000u32,
                required_validators_must_pass: true,
                fail_fast: false,
                parallel_execution: true,
            }),
    {
        ValidationRules {
            min_passing_score: 8000,
            required_validators_must_pass: true,
            fail_fast: false,
            parallel_execution: true,
        }
    }
}

/// The observed outcome of one validator run.
#[derive(Debug, Clone, PartialEq)]
pub struct ValidatorResult {
    pub name: String,
    pub passed: bool,
    /// Score in `[0, SCORE_SCALE]`.
    pub score: u32,
    pub output: String,
    pub error_output: String,
    pub execution_time_ms: u64,
    pub exit_code: i32,
}

/// The aggregated outcome of a suite run.
#[derive(Debug, Clone, PartialEq)]
pub struct ValidationResult {
    /// Weighted overall score in `[0, SCORE_SCALE]`.
    pub overall_score: u32,
    pub passed: bool,
    pub validator_results: Vec<ValidatorResult>,
    pub execution_time_ms: u64,
    pub recommendations: Vec<String>,
}

/// Summary of a suite's configuration.
#[derive(Debug, Clone, PartialEq)]
pub struct ValidatorSummary {
    pub total_validators: usize,
    pub required_validators: usize,
    /// Sum of the weights, in fixed-point units.
    pub total_weight: u128,
    pub validator_names: Vec<String>,
}

/// A suite of validators with its rules.
#[derive(Debug, Clone, PartialEq)]
pub struct ValidationSuite {
    pub validators: Vec<Validator>,
    pub validation_rules: ValidationRules,
}

impl Default for ValidationSuite {
    /// An empty suite with the default rules.
    fn default() -> (s: ValidationSuite)
        ensures
            s.validators@.len() == 0,
            s.validation_rules == (ValidationRules {
                min_passing_score: 8000u32,
                required_validators_must_pass: true,
                fail_fast: false,
                parallel_execution: true,
            }),
    {
        ValidationSuite::new()
    }
}

/// Number of required validators.
pub open spec fn count_required(s: Seq<Validator>) -> int
    decreases s.len(),
{
    if s.len() == 0 {
        0
    } else {
        count_required(s.drop_last()) + if s.last().is_required {
            1int
        } else {
            0int
        }
    }
}

/// Sum of the validator weights.
pub open spec fn sum_weights(s: Seq<Validator>) -> int
    decreases s.len(),
{
    if s.len() == 0 {
        0
    } else {
        sum_weights(s.drop_last()) + s.last().weight
    }
}

/// Number of non-overlapping occurrences of a pattern, scanning left to
/// right from position `i` and skipping past each match.
pub open spec fn count_matches_from(s: Seq<char>, p: Seq<char>, i: int) -> int
    decreases s.len() - i when 0 <= i && p.len() > 0
{
    if i + p.len() > s.len() {
        0
    } else if s.subrange(i, i + p.len()) == p {
        1 + count_matches_from(s, p, i + p.len())
    } else {
        count_matches_from(s, p, i + 1)
    }
}

/// The score of one validator run from what its output showed: a clean
/// exit scores one; the lint validator loses a tenth per warning and
/// everything on an error; the test validator scores its pass fraction;
/// the audit validator loses a fifth per vulnerability; anything else is
/// pass/fail by exit code.
pub open spec fn spec_validator_score(
    is_clippy: bool,
    is_test: bool,
    is_audit: bool,
    exit_code: int,
    warning_count: int,
    error_count: int,
    test_counts: Option<(u32, u32)>,
    vulns_reported: bool,
    vuln_count: int,
) -> int {
    if exit_code == 0 {
        SCORE_SCALE as int
    } else if is_clippy {
        if error_count > 0 {
            0
        } else if warning_count == 0 {
            SCORE_SCALE as int
        } else if warning_count * 1000 >= SCORE_SCALE {
            0
        } else {
            SCORE_SCALE - warning_count * 1000
        }
    } else if is_test {
        match test_counts {
            Some((passed, total)) => if total == 0 {
                0int
            } else if passed * SCORE_SCALE / (total as int) > SCORE_SCALE {
                SCORE_SCALE as int
            } else {
                passed * SCORE_SCALE / (total as int)
            },
            None => 0,
        }
    } else if is_audit {
        if !vulns_reported {
            SCORE_SCALE as int
        } else if vuln_count * 2000 >= SCORE_SCALE {
            0
        } else {
            SCORE_SCALE - vuln_count * 2000
        }
    } else {
        0
    }
}

/// Whether the pattern occurs in the text at position `i`.
fn match_at(text: &str, pattern: &str, i: usize) -> (b: bool)
    requires
        pattern@.len() > 0,
        i + pattern@.len() <= text@.len(),
    ensures
        b == (text@.subrange(i as int, i + pattern@.len()) == pattern@),
{
    let plen = pattern.unicode_len();
    let tlen = text.unicode_len();
    let mut j: usize = 0;
    while j < plen
        invariant
            0 <= j <= plen,
            plen == pattern@.len(),
            tlen == text@.len(),
            i + plen <= tlen,
            forall|k: int| 0 <= k < j ==> text@[i + k] == pattern@[k],
        decreases plen - j,
    {
        let tc = text.get_char(i + j);
        let pc = pattern.get_char(j);
        if tc != pc {
            proof {
                assert(text@.subrange(i as int, i + plen)[j as int] == text@[i + j]);
                assert(text@.subrange(i as int, i + plen) != pattern@);
            }
            return false;
        }
        j = j + 1;
    }
    proof {
        assert(text@.subrange(i as int, i + plen) =~= pattern@);
    }
    true
}

/// Count non-overlapping occurrences of a pattern in a text, as a
/// diagnostic-counting aid for validator output.
pub fn count_occurrences(text: &str, pattern: &str) -> (n: usize)
    requires
        pattern@.len() > 0,
    ensures
        n == count_matches_from(text@, pattern@, 0),
{
    let tlen = text.unicode_len();
    let plen = pattern.unicode_len();
    if plen > tlen {
        proof {
            assert(count_matches_from(text@, pattern@, 0) == 0);
        }
        return 0;
    }
    let mut i: usize = 0;
    let mut n: usize = 0;
    while i <= tlen - plen
        invariant
            0 <= i,
            i <= tlen,
            plen <= tlen,
            tlen == text@.len(),
            plen == pattern@.len(),
            plen > 0,
            n + count_matches_from(text@, pattern@, i as int) == count_matches_from(
                text@,
                pattern@,
                0,
            ),
            n <= i,
        decreases tlen - i,
    {
        if match_at(text, pattern, i) {
            n = n + 1;
            i = i + plen;
        } else {
            i = i + 1;
        }
    }
    proof {
        assert(count_matches_from(text@, pattern@, i as int) == 0);
    }
    n
}


/// Weighted sum of scores, pairing each result with its validator.
pub open spec fn weighted_sum(vals: Seq<Validator>, res: Seq<ValidatorResult>) -> int
    decreases vals.len(),
{
    if vals.len() == 0 {
        0
    } else {
        weighted_sum(vals.drop_last(), res.drop_last()) + res.last().score * vals.last().weight
    }
}

/// Whether every required validator's result passed.
pub open spec fn required_all_passed(vals: Seq<Validator>, res: Seq<ValidatorResult>) -> bool {
    forall|i: int|
        0 <= i < vals.len() && (#[trigger] vals[i]).is_required ==> res[i].passed
}

/// Number of failed results.
pub open spec fn count_failed(res: Seq<ValidatorResult>) -> int
    decreases res.len(),
{
    if res.len() == 0 {
        0
    } else {
        count_failed(res.drop_last()) + if res.last().passed {
            0int
        } else {
            1int
        }
    }
}

/// The weighted overall score: the weighted scores over the total
/// weight, clamped to one, zero without weight.
pub open spec fn spec_overall_score(vals: Seq<Validator>, res: Seq<ValidatorResult>) -> int {
    let tw = sum_weights(vals);
    if tw == 0 {
        0
    } else if weighted_sum(vals, res) / tw > SCORE_SCALE {
        SCORE_SCALE as int
    } else {
        weighted_sum(vals, res) / tw
    }
}

/// The pass decision: the overall score reaches the minimum, and — when
/// the rules demand it, or fail-fast is in force — every required
/// validator passed.
pub open spec fn spec_suite_passed(
    vals: Seq<Validator>,
    res: Seq<ValidatorResult>,
    rules: ValidationRules,
) -> bool {
    &&& spec_overall_score(vals, res) >= rules.min_passing_score
    &&& ((rules.required_validators_must_pass || rules.fail_fast) ==> required_all_passed(
        vals,
        res,
    ))
}

impl ValidationSuite {
    /// An empty suite with the default rules.
    pub fn new() -> (s: ValidationSuite)
        ensures
            s.validators@.len() == 0,
            s.validation_rules == (ValidationRules {
                min_passing_score: 8000u32,
                required_validators_must_pass: true,
                fail_fast: false,
                parallel_execution: true,
            }),
    {
        ValidationSuite { validators: Vec::new(), validation_rules: ValidationRules::default() }
    }

    /// Add a validator to the suite.
    pub fn add_validator(&mut self, validator: Validator)
        ensures
            final(self).validators@ == old(self).validators@.push(validator),
            final(self).validation_rules == old(self).validation_rules,
    {
        self.validators.push(validator);
    }

    /// Replace the suite's rules.
    pub fn set_rules(&mut self, rules: ValidationRules)
        ensures
            final(self).validation_rules == rules,
            final(self).validators == old(self).validators,
    {
        self.validation_rules = rules;
    }

    /// The standard suite for a Rust project: type check (weight 0.25,
    /// required), lint (0.25), tests (0.30, required), format check
    /// (0.10) and security audit (0.10).
    pub fn rust_default(repo_path: &str) -> (s: ValidationSuite)
        ensures
            s.validators@.len() == 5,
            s.validators@[0].name@ == "cargo_check"@ && s.validators@[0].weight == 2500
                && s.validators@[0].is_required,
            s.validators@[1].name@ == "cargo_clippy"@ && s.validators@[1].weight == 2500
                && !s.validators@[1].is_required,
            s.validators@[2].name@ == "cargo_test"@ && s.validators@[2].weight == 3000
                && s.validators@[2].is_required,
            s.validators@[3].name@ == "cargo_fmt"@ && s.validators@[3].weight == 1000
                && !s.validators@[3].is_required,
            s.validators@[4].name@ == "cargo_audit"@ && s.validators@[4].weight == 1000
                && !s.validators@[4].is_required,
    {
        let mut suite = Self::new();
        let mut args1: Vec<String> = Vec::new();
        args1.push(String::from_str("check"));
        suite.add_validator(
            Validator {
                name: String::from_str("cargo_check"),
                command: String::from_str("cargo"),
                args: args1,
                working_dir: Some(String::from_str(repo_path)),
                timeout_seconds: 60,
                weight: 2500,
                is_required: true,
            },
        );
        let mut args2: Vec<String> = Vec::new();
        args2.push(String::from_str("clippy"));
        args2.push(String::from_str("--"));
        args2.push(String::from_str("-D"));
        args2.push(String::from_str("warnings"));
        suite.add_validator(
            Validator {
                name: String::from_str("cargo_clippy"),
                command: String::from_str("cargo"),
                args: args2,
                working_dir: Some(String::from_str(repo_path)),
                timeout_seconds: 120,
                weight: 2500,
                is_required: false,
            },
        );
        let mut args3: Vec<String> = Vec::new();
        args3.push(String::from_str("test"));
        args3.push(String::from_str("--"));
        args3.push(String::from_str("--test-threads=1"));
        suite.add_validator(
            Validator {
                name: String::from_str("cargo_test"),
                command: String::from_str("cargo"),
                args: args3,
                working_dir: Some(String::from_str(repo_path)),
                timeout_seconds: 300,
                weight: 3000,
                is_required: true,
            },
        );
        let mut args4: Vec<String> = Vec::new();
        args4.push(String::from_str("fmt"));
        args4.push(String::from_str("--"));
        args4.push(String::from_str("--check"));
        suite.add_validator(
            Validator {
                name: String::from_str("cargo_fmt"),
                command: String::from_str("cargo"),
                args: args4,
                working_dir: Some(String::from_str(repo_path)),
                timeout_seconds: 30,
                weight: 1000,
                is_required: false,
            },
        );
        let mut args5: Vec<String> = Vec::new();
        args5.push(String::from_str("audit"));
        suite.add_validator(
            Validator {
                name: String::from_str("cargo_audit"),
                command: String::from_str("cargo"),
                args: args5,
                working_dir: Some(String::from_str(repo_path)),
                timeout_seconds: 60,
                weight: 1000,
                is_required: false,
            },
        );
        suite
    }

    /// The configuration summary: counts, total weight and names.
    pub fn get_validator_summary(&self) -> (s: ValidatorSummary)
        ensures
            s.total_validators == self.validators@.len(),
            s.required_validators == count_required(self.validators@),
            s.total_weight == sum_weights(self.validators@),
            s.validator_names@.len() == self.validators@.len(),
            forall|i: int|
                0 <= i < self.validators@.len() ==> (#[trigger] s.validator_names@[i])
                    == self.validators@[i].name,
    {
        let n = self.validators.len();
        let mut required: usize = 0;
        let mut weight: u128 = 0;
        let mut names: Vec<String> = Vec::new();
        let mut i: usize = 0;
        while i < n
            invariant
                0 <= i <= n,
                n == self.validators@.len(),
                required == count_required(self.validators@.subrange(0, i as int)),
                weight == sum_weights(self.validators@.subrange(0, i as int)),
                required <= i,
                weight <= (i as int) * 0x100000000int,
                names@.len() == i,
                forall|k: int|
                    0 <= k < i ==> (#[trigger] names@[k]) == self.validators@[k].name,
            decreases n - i,
        {
            proof {
                assert(self.validators@.subrange(0, i + 1).drop_last() =~= self.validators@.subrange(
                    0,
                    i as int,
                ));
                assert(self.validators@.subrange(0, i + 1).last() == self.validators@[i as int]);
            }
            let v = &self.validators[i];
            if v.is_required {
                required = required + 1;
            }
            weight = weight + v.weight as u128;
            names.push(v.name.clone());
            i = i + 1;
        }
        proof {
            assert(self.validators@.subrange(0, n as int) == self.validators@);
        }
        ValidatorSummary {
            total_validators: n,
            required_validators: required,
            total_weight: weight,
            validator_names: names,
        }
    }

    /// The score of one validator run from its observed output counts
    /// (see [`spec_validator_score`]). The boundary collects the counts
    /// from the tool's output; this function alone decides the score.
    pub fn calculate_validator_score(
        validator_name: &str,
        exit_code: i32,
        warning_count: usize,
        error_count: usize,
        test_counts: Option<(u32, u32)>,
        vulns_reported: bool,
        vuln_count: usize,
    ) -> (s: u32)
        ensures
            s == spec_validator_score(
                validator_name@ == "cargo_clippy"@,
                validator_name@ == "cargo_test"@,
                validator_name@ == "cargo_audit"@,
                exit_code as int,
                warning_count as int,
                error_count as int,
                test_counts,
                vulns_reported,
                vuln_count as int,
            ),
            s <= SCORE_SCALE,
    {
        if exit_code == 0 {
            return SCORE_SCALE;
        }
        let name = String::from_str(validator_name);
        if name == String::from_str("cargo_clippy") {
            if error_count > 0 {
                0
            } else if warning_count == 0 {
                SCORE_SCALE
            } else if warning_count >= 10 {
                0
            } else {
                proof {
                    assert((warning_count as int) * 1000 < 10000);
                }
                SCORE_SCALE - (warning_count as u32) * 1000
            }
        } else if name == String::from_str("cargo_test") {
            match test_counts {
                Some((passed, total)) => {
                    if total == 0 {
                        0
                    } else {
                        proof {
                            assert((passed as int) * (SCORE_SCALE as int) <= 0x100000000int
                                * 10000int) by (nonlinear_arith)
                                requires
                                    0 <= passed as int <= 0x100000000int,
                            ;
                        }
                        let q = (passed as u64) * (SCORE_SCALE as u64) / (total as u64);
                        if q > SCORE_SCALE as u64 {
                            SCORE_SCALE
                        } else {
                            q as u32
                        }
                    }
                },
                None => 0,
            }
        } else if name == String::from_str("cargo_audit") {
            if !vulns_reported {
                SCORE_SCALE
            } else if vuln_count >= 5 {
                0
            } else {
                SCORE_SCALE - (vuln_count as u32) * 2000
            }
        } else {
            0
        }
    }

    /// Aggregate one run's results into the weighted score, the pass
    /// decision and one advisory per failed validator (or a single
    /// success advisory). `results[i]` must be the outcome of
    /// `validators[i]`; the boundary runs the tools and upholds that
    /// pairing.
    pub fn evaluate_results(&self, results: Vec<ValidatorResult>, execution_time_ms: u64) -> (r:
        ValidationResult)
        requires
            results@.len() == self.validators@.len(),
        ensures
            r.overall_score == spec_overall_score(self.validators@, results@),
            r.passed == spec_suite_passed(self.validators@, results@, self.validation_rules),
            r.validator_results == results,
            r.execution_time_ms == execution_time_ms,
            r.recommendations@.len() == if count_failed(results@) == 0 {
                1int
            } else {
                count_failed(results@)
            },
    {
        let n = self.validators.len();
        let mut i: usize = 0;
        let mut wsum: u128 = 0;
        let mut tw: u128 = 0;
        let mut req_ok = true;
        let mut recommendations: Vec<String> = Vec::new();
        while i < n
            invariant
                0 <= i <= n,
                n == self.validators@.len(),
                n == results@.len(),
                wsum == weighted_sum(
                    self.validators@.subrange(0, i as int),
                    results@.subrange(0, i as int),
                ),
                tw == sum_weights(self.validators@.subrange(0, i as int)),
                wsum <= (i as int) * (0x100000000int * 0x100000000int),
                tw <= (i as int) * 0x100000000int,
                req_ok == required_all_passed(
                    self.validators@.subrange(0, i as int),
                    results@.subrange(0, i as int),
                ),
                recommendations@.len() == count_failed(results@.subrange(0, i as int)),
            decreases n - i,
        {
            proof {
                assert(self.validators@.subrange(0, i + 1).drop_last() =~= self.validators@.subrange(
                    0,
                    i as int,
                ));
                assert(results@.subrange(0, i + 1).drop_last() =~= results@.subrange(0, i as int));
                assert(self.validators@.subrange(0, i + 1).last() == self.validators@[i as int]);
                assert(results@.subrange(0, i + 1).last() == results@[i as int]);
                assert(forall|k: int|
                    0 <= k < i + 1 ==> #[trigger] self.validators@.subrange(0, i + 1)[k]
                        == self.validators@[k]);
                assert(forall|k: int|
                    0 <= k < i + 1 ==> #[trigger] results@.subrange(0, i + 1)[k] == results@[k]);
                assert(0 <= (results@[i as int].score as int) * (self.validators@[i as int].weight
                    as int) <= 0x100000000int * 0x100000000int) by (nonlinear_arith)
                    requires
                        0 <= results@[i as int].score as int <= 0x100000000int,
                        0 <= self.validators@[i as int].weight as int <= 0x100000000int,
                ;
            }
            let v = &self.validators[i];
            let res = &results[i];
            wsum = wsum + (res.score as u128) * (v.weight as u128);
            tw = tw + v.weight as u128;
            if v.is_required && !res.passed {
                req_ok = false;
            }
            if !res.passed {
                let mut msg = String::from_str("Fix issues reported by the ");
                msg.append(res.name.as_str());
                msg.append(" validator.");
                recommendations.push(msg);
            }
            i = i + 1;
        }
        proof {
            assert(self.validators@.subrange(0, n as int) == self.validators@);
            assert(results@.subrange(0, n as int) == results@);
        }
        let overall_score: u32 = if tw == 0 {
            0
        } else {
            let q = wsum / tw;
            if q > SCORE_SCALE as u128 {
                SCORE_SCALE
            } else {
                q as u32
            }
        };
        let must = self.validation_rules.required_validators_must_pass
            || self.validation_rules.fail_fast;
        let passed = overall_score >= self.validation_rules.min_passing_score && (!must || req_ok);
        if recommendations.len() == 0 {
            recommendations.push(String::from_str("All validations passed successfully!"));
        }
        ValidationResult {
            overall_score,
            passed,
            validator_results: results,
            execution_time_ms,
            recommendations,
        }
    }
}

} // verus!
