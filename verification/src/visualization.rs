//! Read-only tree model of a revision graph for human-facing rendering.
//! The renderers themselves (text, SVG, HTML) live at the boundary; the
//! library holds the model, the display configuration, message
//! truncation and the derived health statistics.

use vstd::prelude::*;

use crate::validation::{count_matches_from, count_occurrences};
use crate::{CommitNode, FileThread, ThreadColor, SCORE_SCALE};

verus! {

/// One node of the rendered tree: a revision with its display data.
#[derive(Debug, Clone, PartialEq)]
pub struct TreeNode {
    pub commit_hash: String,
    pub short_hash: String,
    pub message: String,
    pub timestamp: u64,
    /// Health score in `[0, SCORE_SCALE]`.
    pub health_score: u32,
    /// Colour per touched file path.
    pub thread_colors: Vec<(String, ThreadColor)>,
    pub parent_hashes: Vec<String>,
    pub children: Vec<String>,
    pub depth: usize,
    pub is_merge: bool,
    pub is_spiral: bool,
}

/// The whole tree: nodes, the roots, and summary counts.
#[derive(Debug, Clone, PartialEq)]
pub struct TreeVisualization {
    pub nodes: Vec<TreeNode>,
    pub root_nodes: Vec<String>,
    pub max_depth: usize,
    pub total_commits: usize,
}

/// What a rendering shows.
#[derive(Debug, Clone, PartialEq)]
pub struct VisualizationConfig {
    pub show_health_scores: bool,
    pub show_thread_colors: bool,
    pub show_timestamps: bool,
    /// Longest rendered message, in characters; at least three.
    pub max_message_length: usize,
    pub ascii_style: AsciiStyle,
    pub show_spiral_indicators: bool,
}

/// The character set used by the text renderer.
#[derive(Debug, Clone, Copy, PartialEq, Eq, Structural)]
pub enum AsciiStyle {
    /// Basic characters.
    Simple,
    /// Box-drawing characters.
    Unicode,
    /// Tree-like organic appearance.
    Organic,
}

impl Default for VisualizationConfig {
    /// The default display: health scores and colours on, timestamps
    /// off, messages at fifty characters, box-drawing characters.
    fn default() -> (r: VisualizationConfig)
        ensures
            r.show_health_scores == true,
            r.show_thread_colors == true,
            r.show_timestamps == false,
            r.max_message_length == 50,
            r.ascii_style == AsciiStyle::Unicode,
            r.show_spiral_indicators == true,
    {
        VisualizationConfig {
            show_health_scores: true,
            show_thread_colors: true,
            show_timestamps: false,
            max_message_length: 50,
            ascii_style: AsciiStyle::Unicode,
            show_spiral_indicators: true,
        }
    }
}

/// Sum of the health scores of the nodes.
pub open spec fn sum_node_health(s: Seq<TreeNode>) -> int
    decreases s.len(),
{
    if s.len() == 0 {
        0
    } else {
        sum_node_health(s.drop_last()) + s.last().health_score
    }
}

/// Number of nodes whose health lies strictly above 0.8.
pub open spec fn count_healthy_nodes(s: Seq<TreeNode>) -> int
    decreases s.len(),
{
    if s.len() == 0 {
        0
    } else {
        count_healthy_nodes(s.drop_last()) + if s.last().health_score > 8000 {
            1int
        } else {
            0int
        }
    }
}

/// Health summary of a tree.
#[derive(Debug, Clone, Copy, PartialEq, Eq, Structural)]
pub struct HealthStatistics {
    /// Mean health over all nodes, in `[0, SCORE_SCALE]` for well-formed
    /// scores.
    pub average_health: u32,
    /// Nodes with health strictly above 0.8.
    pub healthy_commits: usize,
    pub total_commits: usize,
}

/// Builds tree models and display strings under a configuration. The
/// text, SVG and HTML renderers at the boundary drive it.
#[derive(Debug, Clone, PartialEq)]
pub struct TreeVisualizer {
    config: VisualizationConfig,
}

impl TreeVisualizer {
    /// The configuration in force.
    pub closed spec fn config_view(&self) -> VisualizationConfig {
        self.config
    }

    /// A visualizer with the given configuration.
    pub fn new(config: VisualizationConfig) -> (v: TreeVisualizer)
        ensures
            v.config_view() == config,
    {
        TreeVisualizer { config }
    }

    /// A revision message cut to the configured length: messages within
    /// the limit stay whole, longer ones keep their first characters and
    /// end in three dots.
    pub fn truncate_message(&self, message: &str) -> (r: String)
        requires
            self.config_view().max_message_length >= 3,
        ensures
            message@.len() <= self.config_view().max_message_length ==> r@ == message@,
            message@.len() > self.config_view().max_message_length ==> r@ == message@.subrange(
                0,
                self.config_view().max_message_length - 3,
            ) + "..."@,
    {
        let len = message.unicode_len();
        if len <= self.config.max_message_length {
            String::from_str(message)
        } else {
            let head = message.substring_char(0, self.config.max_message_length - 3);
            let mut r = String::from_str(head);
            r.append("...");
            r
        }
    }

    /// The health summary of a tree: the mean node health and how many
    /// nodes lie strictly above 0.8.
    pub fn calculate_health_statistics(&self, tree: &TreeVisualization) -> (h: HealthStatistics)
        requires
            forall|i: int|
                0 <= i < tree.nodes@.len() ==> (#[trigger] tree.nodes@[i]).health_score
                    <= SCORE_SCALE,
        ensures
            h.total_commits == tree.nodes@.len(),
            h.healthy_commits == count_healthy_nodes(tree.nodes@),
            h.average_health == if tree.nodes@.len() == 0 {
                0int
            } else {
                sum_node_health(tree.nodes@) / tree.nodes@.len() as int
            },
    {
        let n = tree.nodes.len();
        if n == 0 {
            return HealthStatistics { average_health: 0, healthy_commits: 0, total_commits: 0 };
        }
        let mut i: usize = 0;
        let mut total: u128 = 0;
        let mut healthy: usize = 0;
        while i < n
            invariant
                0 <= i <= n,
                n == tree.nodes@.len(),
                forall|k: int|
                    0 <= k < tree.nodes@.len() ==> (#[trigger] tree.nodes@[k]).health_score
                        <= SCORE_SCALE,
                total == sum_node_health(tree.nodes@.subrange(0, i as int)),
                total <= (i as int) * (SCORE_SCALE as int),
                healthy == count_healthy_nodes(tree.nodes@.subrange(0, i as int)),
                healthy <= i,
            decreases n - i,
        {
            proof {
                assert(tree.nodes@.subrange(0, i + 1).drop_last() =~= tree.nodes@.subrange(
                    0,
                    i as int,
                ));
                assert(tree.nodes@.subrange(0, i + 1).last() == tree.nodes@[i as int]);
            }
            let node = &tree.nodes[i];
            total = total + node.health_score as u128;
            if node.health_score > 8000 {
                healthy = healthy + 1;
            }
            i = i + 1;
        }
        proof {
            assert(tree.nodes@.subrange(0, n as int) == tree.nodes@);
            vstd::arithmetic::div_mod::lemma_div_is_ordered(total as int, (n as int) * (SCORE_SCALE
                as int), n as int);
            vstd::arithmetic::div_mod::lemma_div_multiples_vanish(SCORE_SCALE as int, n as int);
        }
        HealthStatistics {
            average_health: (total / n as u128) as u32,
            healthy_commits: healthy,
            total_commits: n,
        }
    }

    /// The short form of a revision hash: its first eight characters, or
    /// the whole hash when shorter.
    pub fn short_hash(hash: &str) -> (r: String)
        ensures
            hash@.len() >= 8 ==> r@ == hash@.subrange(0, 8),
            hash@.len() < 8 ==> r@ == hash@,
    {
        let len = hash.unicode_len();
        if len >= 8 {
            String::from_str(hash.substring_char(0, 8))
        } else {
            String::from_str(hash)
        }
    }
}

/// Build display nodes for a revision history: one node per revision
/// with its short hash, truncated message and per-file colours; children
/// and depths are filled in by the boundary's graph pass.
pub fn build_tree_nodes(visualizer: &TreeVisualizer, commits: &Vec<CommitNode>) -> (v: Vec<
    TreeNode,
>)
    requires
        visualizer.config_view().max_message_length >= 3,
    ensures
        v@.len() == commits@.len(),
        forall|i: int|
            0 <= i < v@.len() ==> {
                let c = commits@[i];
                &&& (#[trigger] v@[i]).commit_hash == c.hash
                &&& v@[i].health_score == c.health_score
                &&& v@[i].timestamp == c.timestamp
                &&& v@[i].thread_colors@.len() == c.file_threads@.len()
                &&& v@[i].parent_hashes@ == c.parent_hashes@
                &&& v@[i].is_merge == (c.parent_hashes@.len() > 1)
                &&& v@[i].depth == 0
                &&& v@[i].children@.len() == 0
            },
{
    let n = commits.len();
    let mut v: Vec<TreeNode> = Vec::new();
    let mut i: usize = 0;
    while i < n
        invariant
            0 <= i <= n,
            n == commits@.len(),
            visualizer.config_view().max_message_length >= 3,
            v@.len() == i,
            forall|k: int|
                0 <= k < i ==> {
                    let c = commits@[k];
                    &&& (#[trigger] v@[k]).commit_hash == c.hash
                    &&& v@[k].health_score == c.health_score
                    &&& v@[k].timestamp == c.timestamp
                    &&& v@[k].thread_colors@.len() == c.file_threads@.len()
                    &&& v@[k].parent_hashes@ == c.parent_hashes@
                    &&& v@[k].is_merge == (c.parent_hashes@.len() > 1)
                    &&& v@[k].is_spiral == (count_matches_from(c.message@, "spiral"@, 0) > 0
                        || count_matches_from(c.message@, "attempt"@, 0) > 0)
                    &&& v@[k].depth == 0
                    &&& v@[k].children@.len() == 0
                },
        decreases n - i,
    {
        let c = &commits[i];
        let mut colors: Vec<(String, ThreadColor)> = Vec::new();
        let tn = c.file_threads.len();
        let mut j: usize = 0;
        while j < tn
            invariant
                0 <= j <= tn,
                tn == c.file_threads@.len(),
                colors@.len() == j,
            decreases tn - j,
        {
            let t = &c.file_threads[j];
            colors.push((t.file_path.clone(), t.color_status));
            j = j + 1;
        }
        proof {
            reveal_strlit("spiral");
            reveal_strlit("attempt");
        }
        let is_spiral = count_occurrences(c.message.as_str(), "spiral") > 0 || count_occurrences(
            c.message.as_str(),
            "attempt",
        ) > 0;
        let node = TreeNode {
            commit_hash: c.hash.clone(),
            short_hash: TreeVisualizer::short_hash(c.hash.as_str()),
            message: visualizer.truncate_message(c.message.as_str()),
            timestamp: c.timestamp,
            health_score: c.health_score,
            thread_colors: colors,
            parent_hashes: crate::clone_vec_exact(&c.parent_hashes),
            children: Vec::new(),
            depth: 0,
            is_merge: c.parent_hashes.len() > 1,
            is_spiral,
        };
        v.push(node);
        i = i + 1;
    }
    v
}

/// Sample revision data for exercising renderers: a trunk of rising
/// health followed by feature branches, in the library's data model.
pub fn generate_sample_tree(num_commits: usize, num_branches: usize) -> (v: Vec<CommitNode>)
    requires
        num_commits <= 10000,
        num_branches <= 100,
    ensures
        ({
            let trunk = num_commits as int / 2;
            let pb = if num_branches == 0 {
                0int
            } else {
                ((num_commits - trunk) as int) / (num_branches as int)
            };
            v@.len() == trunk + (num_branches as int) * pb
        }),
{
    let mut commits: Vec<CommitNode> = Vec::new();
    let trunk_commits = num_commits / 2;
    let mut i: usize = 0;
    while i < trunk_commits
        invariant
            0 <= i <= trunk_commits,
            trunk_commits <= 5000,
            commits@.len() == i,
        decreases trunk_commits - i,
    {
        let mut parent_hashes: Vec<String> = Vec::new();
        if i > 0 {
            let mut p = String::from_str("commit_");
            let num = crate::decimal_string(i as u32);
            p.append(num.as_str());
            parent_hashes.push(p);
        }
        let mut hash = String::from_str("commit_");
        let num = crate::decimal_string((i + 1) as u32);
        hash.append(num.as_str());
        let health = 7000 + ((i as u32) * 1000) % 3000;
        commits.push(create_sample_commit(hash, String::from_str("Main trunk commit"),
            parent_hashes, health));
        i = i + 1;
    }
    let branch_point = trunk_commits / 2;
    let per_branch = if num_branches == 0 {
        0
    } else {
        (num_commits - trunk_commits) / num_branches
    };
    let ghost trunk = trunk_commits as int;
    let mut b: usize = 1;
    while b <= num_branches
        invariant
            1 <= b <= num_branches + 1,
            num_branches <= 100,
            per_branch <= 10000,
            branch_point <= 5000,
            trunk == trunk_commits as int,
            trunk <= 5000,
            commits@.len() == trunk + (b - 1) * (per_branch as int),
        decreases num_branches + 1 - b,
    {
        let mut j: usize = 0;
        while j < per_branch
            invariant
                0 <= j <= per_branch,
                per_branch <= 10000,
                1 <= b <= 100,
                branch_point <= 5000,
                trunk == trunk_commits as int,
                trunk <= 5000,
                commits@.len() == trunk + (b - 1) * (per_branch as int) + j,
            decreases per_branch - j,
        {
            let mut parent = String::new();
            if j == 0 {
                parent.append("commit_");
                let num = crate::decimal_string(branch_point as u32);
                parent.append(num.as_str());
            } else {
                parent.append("branch_");
                let bn = crate::decimal_string(b as u32);
                parent.append(bn.as_str());
                parent.append("_");
                let jn = crate::decimal_string(j as u32);
                parent.append(jn.as_str());
            }
            let mut parent_hashes: Vec<String> = Vec::new();
            parent_hashes.push(parent);
            let mut hash = String::from_str("branch_");
            let bn = crate::decimal_string(b as u32);
            hash.append(bn.as_str());
            hash.append("_");
            let jn = crate::decimal_string((j + 1) as u32);
            hash.append(jn.as_str());
            let health = 5000 + ((j as u32) * 2000) % 4000;
            commits.push(create_sample_commit(hash, String::from_str("Feature branch commit"),
                parent_hashes, health));
            j = j + 1;
        }
        proof {
            assert((b - 1) * (per_branch as int) + (per_branch as int) == (b as int) * (per_branch
                as int)) by (nonlinear_arith);
        }
        b = b + 1;
    }
    commits
}

/// One sample revision: three file threads at the given health with a
/// matching convergence snapshot.
pub fn create_sample_commit(hash: String, message: String, parent_hashes: Vec<String>,
    health_score: u32) -> (c: CommitNode)
    ensures
        c.hash == hash,
        c.message == message,
        c.parent_hashes == parent_hashes,
        c.health_score == health_score,
        c.file_threads@.len() == 3,
        c.convergence_metrics.test_pass_rate == health_score,
        c.convergence_metrics.is_converged == (health_score > 8000),
{
    let mut file_threads: Vec<FileThread> = Vec::new();
    let mut i: usize = 1;
    while i <= 3
        invariant
            1 <= i <= 4,
            file_threads@.len() == i - 1,
        decreases 4 - i,
    {
        let mut file_path = String::from_str("src/file_");
        let num = crate::decimal_string(i as u32);
        file_path.append(num.as_str());
        file_path.append(".rs");
        let color = ThreadColor::from_scores(health_score, health_score, health_score,
            health_score);
        let mut states: Vec<crate::ThreadState> = Vec::new();
        states.push(
            crate::ThreadState {
                commit_hash: hash.clone(),
                diff_content: String::from_str("sample diff"),
                metrics: crate::ThreadMetrics {
                    lines_added: 10,
                    lines_removed: 5,
                    complexity_delta: 1000,
                    quality_score: health_score,
                },
                timestamp: 0,
            },
        );
        file_threads.push(
            FileThread {
                file_path,
                thread_id: (i as u128),
                color_status: color,
                lint_score: health_score,
                type_check_score: health_score,
                test_coverage: health_score,
                functionality_score: health_score,
                history: states,
            },
        );
        i = i + 1;
    }
    let mut trend: Vec<u32> = Vec::new();
    trend.push(health_score);
    CommitNode {
        id: 0,
        hash,
        parent_hashes,
        message,
        timestamp: 0,
        file_threads,
        health_score,
        convergence_metrics: crate::ConvergenceMetrics {
            attempts: 1,
            successful_builds: if health_score > 7000 {
                1
            } else {
                0
            },
            test_pass_rate: health_score,
            quality_trend: trend,
            is_converged: health_score > 8000,
        },
    }
}

} // verus!
