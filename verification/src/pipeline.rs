//! The whole run over an already-loaded sequence of blocks: score each
//! block, aggregate, and generate suggestions. Loading the input and
//! serializing the report are the caller's concern.

use vstd::prelude::*;

use crate::metrics::generate_performance_metrics;
use crate::metrics::spec_block_efficiency_tenths;
use crate::metrics::spec_metrics_match;
use crate::metrics::spec_sum_efficiency_tenths;
use crate::model::EfficiencyDistribution;
use crate::model::PerformanceMetrics;
use crate::model::ProcessedBlock;
use crate::model::ProcessingResult;
use crate::model::Ratio;
use crate::model::TimeBlock;
use crate::scorer::calculate_efficiency;
use crate::scorer::calculate_focus_rating;
use crate::scorer::calculate_priority_score;
use crate::scorer::determine_category;
use crate::scorer::determine_energy_level;
use crate::scorer::generate_block_suggestions;
use crate::scorer::spec_block_suggestions;
use crate::scorer::spec_category;
use crate::scorer::spec_energy_level;
use crate::scorer::spec_focus_rating_tenths;
use crate::scorer::spec_optimal_time;
use crate::scorer::spec_priority_score_thirds;
use crate::scorer::suggest_optimal_time;
use crate::suggest::generate_optimization_suggestions;
use crate::suggest::spec_opt_suggestions;
use crate::text::lower_of;

verus! {

/// Relies on `chrono::Utc::now` and `chrono::DateTime::to_rfc3339` for the
/// wall-clock timestamp of processing. The result depends on the clock, so
/// nothing is assumed of it.
#[verifier::external_body]
fn now_rfc3339() -> String {
    chrono::Utc::now().to_rfc3339()
}

/// `p` is the processed form of `b`: input fields passed through verbatim
/// and every derived field pinned to its scoring function. The
/// `processed_at` timestamp is the one field this predicate says nothing
/// about.
pub open spec fn spec_block_matches(b: TimeBlock, p: ProcessedBlock) -> bool {
    &&& p.id == b.id
    &&& p.title@ == b.title@
    &&& p.duration == b.duration
    &&& p.created_at@ == b.created_at@
    &&& p.status@ == b.status@
    &&& p.efficiency_tenths == spec_block_efficiency_tenths(b)
    &&& p.priority_score_thirds == spec_priority_score_thirds(
        b.duration as int,
        lower_of(b.title@),
        b.status@,
    )
    &&& p.optimal_time@ == spec_optimal_time(b.duration as int)
    &&& p.category@ == spec_category(b)
    &&& p.focus_rating_tenths == spec_focus_rating_tenths(b.duration as int, lower_of(b.title@))
    &&& p.energy_level@ == spec_energy_level(b.duration as int)
    &&& p.improvement_suggestions.deep_view() == spec_block_suggestions(b)
}

/// The report owed for empty input: no processed blocks, every numeric
/// field zero, every list and mapping empty, burnout risk `"Low"`, and a
/// single suggestion urging the user to add blocks.
pub open spec fn spec_empty_result(r: ProcessingResult) -> bool {
    &&& r.processed_blocks@.len() == 0
    &&& r.total_efficiency == (Ratio { num: 0, den: 1 })
    &&& r.optimization_suggestions.deep_view() == seq!["Add time blocks to analyze."@]
    &&& r.performance_metrics.total_duration == 0
    &&& r.performance_metrics.average_duration == (Ratio { num: 0, den: 1 })
    &&& r.performance_metrics.efficiency_distribution == (EfficiencyDistribution {
        low: 0,
        medium: 0,
        high: 0,
        excellent: 0,
    })
    &&& r.performance_metrics.peak_productivity_hours@ == Seq::<u8>::empty()
    &&& r.performance_metrics.fragmentation_index == (Ratio { num: 0, den: 1 })
    &&& r.performance_metrics.productivity_score == (Ratio { num: 0, den: 1 })
    &&& r.performance_metrics.focus_time_percentage == (Ratio { num: 0, den: 1 })
    &&& r.performance_metrics.category_breakdown@.len() == 0
    &&& r.performance_metrics.weekly_trend@.len() == 0
    &&& r.performance_metrics.burnout_risk@ == "Low"@
}

/// The full contract of a run: on empty input the empty report, otherwise
/// one processed block per input block in input order, the mean efficiency,
/// the aggregate metrics and the suggestion list, all pinned to functions
/// of the input sequence.
pub open spec fn spec_result_matches(s: Seq<TimeBlock>, r: ProcessingResult) -> bool {
    &&& r.processor@ == "rust"@
    &&& if s.len() == 0 {
        spec_empty_result(r)
    } else {
        &&& r.processed_blocks@.len() == s.len()
        &&& forall|i: int|
            0 <= i < s.len() ==> spec_block_matches(s[i], #[trigger] r.processed_blocks@[i])
        &&& r.total_efficiency.num == spec_sum_efficiency_tenths(s)
        &&& r.total_efficiency.den == 10 * s.len()
        &&& spec_metrics_match(s, r.performance_metrics)
        &&& r.optimization_suggestions.deep_view() == spec_opt_suggestions(
            s,
            r.performance_metrics,
        )
    }
}

/// Runs the whole pipeline over a loaded sequence of blocks and returns
/// the derived report.
pub fn process_time_blocks(blocks: &Vec<TimeBlock>) -> (r: ProcessingResult)
    requires
        blocks@.len() <= u32::MAX,
    ensures
        spec_result_matches(blocks@, r),
{
    if blocks.len() == 0 {
        let mut empty_suggestions: Vec<String> = Vec::new();
        empty_suggestions.push(String::from_str("Add time blocks to analyze."));
        proof {
            assert(empty_suggestions.deep_view() =~= seq!["Add time blocks to analyze."@]);
        }
        return ProcessingResult {
            processed_blocks: Vec::new(),
            total_efficiency: Ratio::zero(),
            optimization_suggestions: empty_suggestions,
            performance_metrics: PerformanceMetrics {
                total_duration: 0,
                average_duration: Ratio::zero(),
                efficiency_distribution: EfficiencyDistribution {
                    low: 0,
                    medium: 0,
                    high: 0,
                    excellent: 0,
                },
                peak_productivity_hours: Vec::new(),
                fragmentation_index: Ratio::zero(),
                productivity_score: Ratio::zero(),
                focus_time_percentage: Ratio::zero(),
                category_breakdown: Vec::new(),
                weekly_trend: Vec::new(),
                burnout_risk: String::from_str("Low"),
            },
            processor: String::from_str("rust"),
        };
    }
    let n = blocks.len();
    let mut processed: Vec<ProcessedBlock> = Vec::new();
    let mut eff_sum: u64 = 0;
    let mut i: usize = 0;
    while i < n
        invariant
            n == blocks@.len(),
            n <= u32::MAX,
            i <= n,
            processed@.len() == i,
            forall|j: int|
                0 <= j < i ==> spec_block_matches(blocks@[j], #[trigger] processed@[j]),
            eff_sum == spec_sum_efficiency_tenths(blocks@.subrange(0, i as int)),
            eff_sum <= i as int * 1000,
        decreases n - i,
    {
        proof {
            let pre = blocks@.subrange(0, i as int);
            let post = blocks@.subrange(0, i + 1 as int);
            assert(post.drop_last() =~= pre);
            assert(post.last() == blocks@[i as int]);
        }
        let b = &blocks[i];
        let efficiency_tenths = calculate_efficiency(b);
        let priority_score_thirds = calculate_priority_score(b);
        let optimal_time = suggest_optimal_time(b);
        let category = determine_category(b);
        let focus_rating_tenths = calculate_focus_rating(b);
        let energy_level = determine_energy_level(b);
        let improvement_suggestions = generate_block_suggestions(b);
        processed.push(
            ProcessedBlock {
                id: b.id,
                title: b.title.clone(),
                duration: b.duration,
                created_at: b.created_at.clone(),
                status: b.status.clone(),
                efficiency_tenths,
                priority_score_thirds,
                optimal_time,
                processed_at: now_rfc3339(),
                category,
                focus_rating_tenths,
                energy_level,
                improvement_suggestions,
            },
        );
        eff_sum = eff_sum + efficiency_tenths as u64;
        i = i + 1;
    }
    proof {
        assert(blocks@.subrange(0, n as int) =~= blocks@);
    }
    let performance_metrics = generate_performance_metrics(blocks);
    let optimization_suggestions = generate_optimization_suggestions(blocks, &performance_metrics);
    ProcessingResult {
        processed_blocks: processed,
        total_efficiency: Ratio { num: eff_sum, den: 10 * (n as u64) },
        optimization_suggestions,
        performance_metrics,
        processor: String::from_str("rust"),
    }
}

} // verus!
