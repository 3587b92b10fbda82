//! Data model: input records, per-block results, aggregate metrics, and the
//! exact-rational `Ratio` type used for means and percentages.

use vstd::prelude::*;

verus! {

/// An exact non-negative rational number, `num / den`.
///
/// Aggregate metrics (means and percentages) are rationals of the input, not
/// representable as integers; they are kept exact here and rendered as
/// decimal numbers only by unverified callers.
#[derive(Clone, Copy, PartialEq, Eq, Structural, Debug)]
pub struct Ratio {
    pub num: u64,
    pub den: u64,
}

impl Ratio {
    /// The rational is `k` or more? (Exact; `num >= k * den`.)
    pub open spec fn spec_at_least(self, k: int) -> bool {
        self.num >= k * self.den
    }

    /// The rational exceeds `k`? (Exact; `num > k * den`.)
    pub open spec fn spec_exceeds(self, k: int) -> bool {
        self.num > k * self.den
    }

    /// The rational is below `k`? (Exact; `num < k * den`.)
    pub open spec fn spec_below(self, k: int) -> bool {
        self.num < k * self.den
    }

    /// Exact comparison `self > k` for an integer threshold `k`.
    pub fn exceeds(&self, k: u64) -> (r: bool)
        ensures
            r == self.spec_exceeds(k as int),
    {
        let kk = k as u128;
        let dd = self.den as u128;
        proof {
            assert(kk * dd <= u128::MAX) by (nonlinear_arith)
                requires
                    kk <= u64::MAX,
                    dd <= u64::MAX,
            ;
        }
        (self.num as u128) > kk * dd
    }

    /// Exact comparison `self < k` for an integer threshold `k`.
    pub fn below(&self, k: u64) -> (r: bool)
        ensures
            r == self.spec_below(k as int),
    {
        let kk = k as u128;
        let dd = self.den as u128;
        proof {
            assert(kk * dd <= u128::MAX) by (nonlinear_arith)
                requires
                    kk <= u64::MAX,
                    dd <= u64::MAX,
            ;
        }
        (self.num as u128) < kk * dd
    }

    /// The exact rational zero.
    pub fn zero() -> (r: Ratio)
        ensures
            r == (Ratio { num: 0, den: 1 }),
    {
        Ratio { num: 0, den: 1 }
    }
}

/// One scheduled work interval, as loaded from the input document.
pub struct TimeBlock {
    /// Identifier; duplicates are accepted and processed independently.
    pub id: u32,
    /// Free text, used for keyword-based classification.
    pub title: String,
    /// Length of the block in minutes.
    pub duration: u32,
    /// Opaque creation timestamp, passed through verbatim.
    pub created_at: String,
    /// Free string; `"completed"`, `"active"` and `"planned"` are recognized.
    pub status: String,
    /// Optional; `"urgent"` and `"high"` are recognized.
    pub priority: Option<String>,
    /// Optional; when present it overrides keyword-based classification.
    pub category: Option<String>,
    /// Accepted in input but unused by any scoring function.
    pub tags: Option<Vec<String>>,
}

/// A time block together with its derived scores and labels, in the order
/// of the input. Fields copied from the input are passed through verbatim.
pub struct ProcessedBlock {
    pub id: u32,
    pub title: String,
    pub duration: u32,
    pub created_at: String,
    pub status: String,
    /// Efficiency in tenths of a point (0 ..= 1000).
    pub efficiency_tenths: u32,
    /// Priority score in thirds of a point (0 ..= 300).
    pub priority_score_thirds: u32,
    /// Advisory time-window label.
    pub optimal_time: String,
    /// Wall-clock timestamp of processing; the one field that is not a
    /// function of the input.
    pub processed_at: String,
    /// Resolved category.
    pub category: String,
    /// Focus rating in tenths of a point (10 ..= 100).
    pub focus_rating_tenths: u32,
    /// Energy-demand label.
    pub energy_level: String,
    /// Per-block advisory strings, in fixed rule order; may be empty.
    pub improvement_suggestions: Vec<String>,
}

/// How many blocks fall into each efficiency band, by whole-point
/// efficiency: low 0-60, medium 61-80, high 81-95, excellent above 95.
#[derive(Clone, Copy, PartialEq, Eq, Structural, Debug)]
pub struct EfficiencyDistribution {
    pub low: u32,
    pub medium: u32,
    pub high: u32,
    pub excellent: u32,
}

/// Rollup of the blocks that resolve to one category.
pub struct CategoryStats {
    /// The resolved category label.
    pub category: String,
    /// Sum of the durations, minutes.
    pub total_time: u64,
    /// Mean efficiency of the category's blocks, in points.
    pub efficiency: Ratio,
    /// Percentage of the category's blocks with status `"completed"`.
    pub completion_rate: Ratio,
    /// Number of blocks in the category.
    pub count: u32,
}

/// One entry of the illustrative weekly trend. The trend is derived by
/// uniform division of the totals, not by per-day grouping; it is a
/// documented placeholder, kept for output compatibility.
pub struct DayStats {
    pub day: String,
    /// One seventh of the total duration, rounded down.
    pub total_duration: u64,
    /// The overall productivity score times a fixed per-day multiplier.
    pub efficiency: Ratio,
    /// One seventh of the block count, rounded down.
    pub blocks_count: u32,
}

/// Aggregate metrics over the whole input sequence.
pub struct PerformanceMetrics {
    /// Sum of all durations, minutes.
    pub total_duration: u64,
    /// Mean duration, minutes.
    pub average_duration: Ratio,
    pub efficiency_distribution: EfficiencyDistribution,
    /// Fixed illustrative list, not computed from the data.
    pub peak_productivity_hours: Vec<u8>,
    /// Percentage of blocks shorter than 45 minutes.
    pub fragmentation_index: Ratio,
    /// Mean per-block efficiency, in points.
    pub productivity_score: Ratio,
    /// Percentage of blocks of 45 minutes or more.
    pub focus_time_percentage: Ratio,
    /// Per-category rollups, in order of first appearance.
    pub category_breakdown: Vec<CategoryStats>,
    /// Fixed-length illustrative list; see [`DayStats`].
    pub weekly_trend: Vec<DayStats>,
    /// `"High"`, `"Medium"` or `"Low"`.
    pub burnout_risk: String,
}

/// The whole derived report of one run.
pub struct ProcessingResult {
    /// One entry per input block, in input order.
    pub processed_blocks: Vec<ProcessedBlock>,
    /// Mean per-block efficiency, in points; zero on empty input.
    pub total_efficiency: Ratio,
    /// Fleet-level advisory strings, in fixed rule order.
    pub optimization_suggestions: Vec<String>,
    pub performance_metrics: PerformanceMetrics,
    /// Fixed tag identifying the implementation.
    pub processor: String,
}

} // verus!
