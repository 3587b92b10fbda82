//! Verified statements of the library's global properties: score ranges,
//! independence of efficiency from text fields, classification precedence,
//! category override, and determinism of the whole pipeline.

use vstd::prelude::*;

use crate::model::CategoryStats;
use crate::model::DayStats;
use crate::model::PerformanceMetrics;
use crate::model::ProcessedBlock;
use crate::model::ProcessingResult;
use crate::model::TimeBlock;
use crate::metrics::spec_block_efficiency_tenths;
use crate::metrics::spec_cat_stats_match;
use crate::metrics::spec_categories;
use crate::pipeline::spec_block_matches;
use crate::pipeline::spec_result_matches;
use crate::scorer::spec_category;
use crate::scorer::spec_classify_title;
use crate::scorer::spec_focus_rating_tenths;
use crate::text::contains_seq;

verus! {

/// The efficiency of every block lies in 0 ..= 100 points
/// (0 ..= 1000 tenths).
pub proof fn lemma_efficiency_in_range(b: TimeBlock)
    ensures
        0 <= spec_block_efficiency_tenths(b) <= 1000,
{
}

/// Efficiency is determined by the duration bucket and the status alone:
/// two blocks that agree on those agree on efficiency, whatever their
/// titles, categories or tags.
pub proof fn lemma_efficiency_ignores_text(b1: TimeBlock, b2: TimeBlock)
    requires
        b1.duration == b2.duration,
        b1.status@ == b2.status@,
    ensures
        spec_block_efficiency_tenths(b1) == spec_block_efficiency_tenths(b2),
{
}

/// The focus rating lies in 1.0 ..= 10.0 points (10 ..= 100 tenths) for
/// every duration and every title, however extreme.
pub proof fn lemma_focus_rating_in_range(d: int, lowered_title: Seq<char>)
    ensures
        10 <= spec_focus_rating_tenths(d, lowered_title) <= 100,
{
}

/// An explicit category always wins: a block that carries one resolves to
/// it verbatim, whatever its title says.
pub proof fn lemma_category_override(b: TimeBlock, c: String)
    requires
        b.category == Some(c),
    ensures
        spec_category(b) == c@,
{
}

/// Classification precedence: a lowered title that matches both a
/// communication keyword and a development keyword resolves to the
/// communication category, because that rule is tried first.
pub proof fn lemma_communication_precedes_development(lowered_title: Seq<char>)
    requires
        contains_seq(lowered_title, "meeting"@),
        contains_seq(lowered_title, "development"@),
    ensures
        spec_classify_title(lowered_title) == "Communication"@,
{
}

/// Two processed blocks agree on every field but the processing timestamp.
pub open spec fn spec_processed_equiv(p1: ProcessedBlock, p2: ProcessedBlock) -> bool {
    &&& p1.id == p2.id
    &&& p1.title@ == p2.title@
    &&& p1.duration == p2.duration
    &&& p1.created_at@ == p2.created_at@
    &&& p1.status@ == p2.status@
    &&& p1.efficiency_tenths == p2.efficiency_tenths
    &&& p1.priority_score_thirds == p2.priority_score_thirds
    &&& p1.optimal_time@ == p2.optimal_time@
    &&& p1.category@ == p2.category@
    &&& p1.focus_rating_tenths == p2.focus_rating_tenths
    &&& p1.energy_level@ == p2.energy_level@
    &&& p1.improvement_suggestions.deep_view() == p2.improvement_suggestions.deep_view()
}

/// Two category rollup entries agree on every field.
pub open spec fn spec_cat_entry_equiv(e1: CategoryStats, e2: CategoryStats) -> bool {
    &&& e1.category@ == e2.category@
    &&& e1.total_time == e2.total_time
    &&& e1.efficiency == e2.efficiency
    &&& e1.completion_rate == e2.completion_rate
    &&& e1.count == e2.count
}

/// Two weekly-trend entries agree on every field.
pub open spec fn spec_day_equiv(d1: DayStats, d2: DayStats) -> bool {
    &&& d1.day@ == d2.day@
    &&& d1.total_duration == d2.total_duration
    &&& d1.efficiency == d2.efficiency
    &&& d1.blocks_count == d2.blocks_count
}

/// Two metric sets agree on every field.
pub open spec fn spec_metrics_equiv(m1: PerformanceMetrics, m2: PerformanceMetrics) -> bool {
    &&& m1.total_duration == m2.total_duration
    &&& m1.average_duration == m2.average_duration
    &&& m1.efficiency_distribution == m2.efficiency_distribution
    &&& m1.peak_productivity_hours@ == m2.peak_productivity_hours@
    &&& m1.fragmentation_index == m2.fragmentation_index
    &&& m1.productivity_score == m2.productivity_score
    &&& m1.focus_time_percentage == m2.focus_time_percentage
    &&& m1.category_breakdown@.len() == m2.category_breakdown@.len()
    &&& forall|j: int|
        0 <= j < m1.category_breakdown@.len() ==> spec_cat_entry_equiv(
            #[trigger] m1.category_breakdown@[j],
            m2.category_breakdown@[j],
        )
    &&& m1.weekly_trend@.len() == m2.weekly_trend@.len()
    &&& forall|j: int|
        0 <= j < m1.weekly_trend@.len() ==> spec_day_equiv(
            #[trigger] m1.weekly_trend@[j],
            m2.weekly_trend@[j],
        )
    &&& m1.burnout_risk@ == m2.burnout_risk@
}

/// Two reports agree on everything observable but the `processed_at`
/// timestamps inside the processed blocks.
pub open spec fn spec_result_equiv(r1: ProcessingResult, r2: ProcessingResult) -> bool {
    &&& r1.processor@ == r2.processor@
    &&& r1.processed_blocks@.len() == r2.processed_blocks@.len()
    &&& forall|i: int|
        0 <= i < r1.processed_blocks@.len() ==> spec_processed_equiv(
            #[trigger] r1.processed_blocks@[i],
            r2.processed_blocks@[i],
        )
    &&& r1.total_efficiency == r2.total_efficiency
    &&& r1.optimization_suggestions.deep_view() == r2.optimization_suggestions.deep_view()
    &&& spec_metrics_equiv(r1.performance_metrics, r2.performance_metrics)
}

/// Idempotence of the pipeline: two runs over the same input sequence
/// yield the same report, except for the `processed_at` timestamps.
pub proof fn lemma_pipeline_deterministic(
    s: Seq<TimeBlock>,
    r1: ProcessingResult,
    r2: ProcessingResult,
)
    requires
        spec_result_matches(s, r1),
        spec_result_matches(s, r2),
    ensures
        spec_result_equiv(r1, r2),
{
    if s.len() == 0 {
    } else {
        assert forall|i: int|
            0 <= i < r1.processed_blocks@.len() implies spec_processed_equiv(
            #[trigger] r1.processed_blocks@[i],
            r2.processed_blocks@[i],
        ) by {
            assert(spec_block_matches(s[i], r1.processed_blocks@[i]));
            assert(spec_block_matches(s[i], r2.processed_blocks@[i]));
        }
        let m1 = r1.performance_metrics;
        let m2 = r2.performance_metrics;
        assert forall|j: int|
            0 <= j < m1.category_breakdown@.len() implies spec_cat_entry_equiv(
            #[trigger] m1.category_breakdown@[j],
            m2.category_breakdown@[j],
        ) by {
            assert(spec_cat_stats_match(s, spec_categories(s)[j], m1.category_breakdown@[j]));
            assert(spec_cat_stats_match(s, spec_categories(s)[j], m2.category_breakdown@[j]));
        }
        assert(m1.fragmentation_index == m2.fragmentation_index);
        assert(m1.average_duration == m2.average_duration);
        assert(m1.total_duration == m2.total_duration);
    }
}

} // verus!
