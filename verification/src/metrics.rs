//! Aggregation: rolls the per-block scores of a non-empty input sequence
//! into fleet-level `PerformanceMetrics`.
//!
//! Every aggregate is an exact function of the input sequence, defined here
//! by recursive spec functions over the sequence of blocks; means and
//! percentages are exact `Ratio` values. The short-block threshold of the
//! fragmentation index is 45 minutes.

use vstd::prelude::*;

use crate::model::CategoryStats;
use crate::model::DayStats;
use crate::model::EfficiencyDistribution;
use crate::model::PerformanceMetrics;
use crate::model::Ratio;
use crate::model::TimeBlock;
use crate::scorer::calculate_efficiency;
use crate::scorer::determine_category;
use crate::scorer::spec_category;
use crate::scorer::spec_efficiency_tenths;
use crate::text::str_eq;

verus! {

/// Blocks shorter than this many minutes count toward fragmentation;
/// blocks of at least this length count as focus time. The two earlier
/// aggregation policies (60 and 45 minutes) are reconciled to the richer
/// 45-minute one.
pub const SHORT_BLOCK_THRESHOLD_MINUTES: u32 = 45;

/// Efficiency of a block in tenths of a point.
pub open spec fn spec_block_efficiency_tenths(b: TimeBlock) -> int {
    spec_efficiency_tenths(b.duration as int, b.status@)
}

/// Efficiency of a block in whole points, rounded down; the bands of the
/// efficiency distribution are defined over this value.
pub open spec fn spec_efficiency_points(b: TimeBlock) -> int {
    spec_block_efficiency_tenths(b) / 10
}

/// Sum of the durations, minutes.
pub open spec fn spec_sum_duration(s: Seq<TimeBlock>) -> int
    decreases s.len(),
{
    if s.len() == 0 {
        0
    } else {
        spec_sum_duration(s.drop_last()) + s.last().duration
    }
}

/// Sum of the per-block efficiencies, in tenths of a point.
pub open spec fn spec_sum_efficiency_tenths(s: Seq<TimeBlock>) -> int
    decreases s.len(),
{
    if s.len() == 0 {
        0
    } else {
        spec_sum_efficiency_tenths(s.drop_last()) + spec_block_efficiency_tenths(s.last())
    }
}

/// Number of blocks shorter than 45 minutes (the fragmentation threshold).
pub open spec fn spec_count_short(s: Seq<TimeBlock>) -> int
    decreases s.len(),
{
    if s.len() == 0 {
        0
    } else {
        spec_count_short(s.drop_last()) + if s.last().duration < SHORT_BLOCK_THRESHOLD_MINUTES {
            1int
        } else {
            0int
        }
    }
}

/// Number of blocks of 45 minutes or more (counted as focus time).
pub open spec fn spec_count_focus(s: Seq<TimeBlock>) -> int
    decreases s.len(),
{
    if s.len() == 0 {
        0
    } else {
        spec_count_focus(s.drop_last()) + if s.last().duration >= SHORT_BLOCK_THRESHOLD_MINUTES {
            1int
        } else {
            0int
        }
    }
}

/// Number of blocks with status `"completed"`.
pub open spec fn spec_count_completed(s: Seq<TimeBlock>) -> int
    decreases s.len(),
{
    if s.len() == 0 {
        0
    } else {
        spec_count_completed(s.drop_last()) + if s.last().status@ == "completed"@ {
            1int
        } else {
            0int
        }
    }
}

/// Number of blocks whose whole-point efficiency lies in `lo ..= hi`.
pub open spec fn spec_count_band(s: Seq<TimeBlock>, lo: int, hi: int) -> int
    decreases s.len(),
{
    if s.len() == 0 {
        0
    } else {
        spec_count_band(s.drop_last(), lo, hi) + if lo <= spec_efficiency_points(s.last())
            && spec_efficiency_points(s.last()) <= hi {
            1int
        } else {
            0int
        }
    }
}

/// The distinct resolved categories, in order of first appearance.
pub open spec fn spec_categories(s: Seq<TimeBlock>) -> Seq<Seq<char>>
    decreases s.len(),
{
    if s.len() == 0 {
        Seq::empty()
    } else {
        let prev = spec_categories(s.drop_last());
        let c = spec_category(s.last());
        if prev.contains(c) {
            prev
        } else {
            prev.push(c)
        }
    }
}

/// Number of blocks that resolve to category `c`.
pub open spec fn spec_cat_count(s: Seq<TimeBlock>, c: Seq<char>) -> int
    decreases s.len(),
{
    if s.len() == 0 {
        0
    } else {
        spec_cat_count(s.drop_last(), c) + if spec_category(s.last()) == c {
            1int
        } else {
            0int
        }
    }
}

/// Sum of the durations of the blocks that resolve to category `c`.
pub open spec fn spec_cat_duration(s: Seq<TimeBlock>, c: Seq<char>) -> int
    decreases s.len(),
{
    if s.len() == 0 {
        0
    } else {
        spec_cat_duration(s.drop_last(), c) + if spec_category(s.last()) == c {
            s.last().duration as int
        } else {
            0int
        }
    }
}

/// Sum of the efficiencies (tenths) of the blocks that resolve to `c`.
pub open spec fn spec_cat_eff_tenths(s: Seq<TimeBlock>, c: Seq<char>) -> int
    decreases s.len(),
{
    if s.len() == 0 {
        0
    } else {
        spec_cat_eff_tenths(s.drop_last(), c) + if spec_category(s.last()) == c {
            spec_block_efficiency_tenths(s.last())
        } else {
            0int
        }
    }
}

/// Number of completed blocks that resolve to category `c`.
pub open spec fn spec_cat_completed(s: Seq<TimeBlock>, c: Seq<char>) -> int
    decreases s.len(),
{
    if s.len() == 0 {
        0
    } else {
        spec_cat_completed(s.drop_last(), c) + if spec_category(s.last()) == c
            && s.last().status@ == "completed"@ {
            1int
        } else {
            0int
        }
    }
}

/// Burnout label: High needs both a large total and high fragmentation,
/// Medium a large total alone; the rules are tried in that order.
pub open spec fn spec_burnout_risk(s: Seq<TimeBlock>) -> Seq<char> {
    if spec_sum_duration(s) > 600 && 100 * spec_count_short(s) > 60 * s.len() {
        "High"@
    } else if spec_sum_duration(s) > 400 {
        "Medium"@
    } else {
        "Low"@
    }
}

/// Day label of entry `j` of the illustrative weekly trend.
pub open spec fn spec_day_name(j: int) -> Seq<char> {
    if j == 0 {
        "Monday"@
    } else if j == 1 {
        "Tuesday"@
    } else {
        "Wednesday"@
    }
}

/// Per-day efficiency multiplier of the illustrative weekly trend, in
/// hundredths: 1.0, 1.1 and 1.05 times the productivity score.
pub open spec fn spec_day_multiplier(j: int) -> int {
    if j == 0 {
        100
    } else if j == 1 {
        110
    } else {
        105
    }
}

/// Entry `e` holds the stats of category `c` over blocks `s`.
pub open spec fn spec_cat_stats_match(s: Seq<TimeBlock>, c: Seq<char>, e: CategoryStats) -> bool {
    &&& e.category@ == c
    &&& e.total_time == spec_cat_duration(s, c)
    &&& e.efficiency.num == spec_cat_eff_tenths(s, c)
    &&& e.efficiency.den == 10 * spec_cat_count(s, c)
    &&& e.completion_rate.num == 100 * spec_cat_completed(s, c)
    &&& e.completion_rate.den == spec_cat_count(s, c)
    &&& e.count == spec_cat_count(s, c)
}

/// Entry `e` is entry `j` of the illustrative weekly trend over blocks `s`.
pub open spec fn spec_day_matches(s: Seq<TimeBlock>, j: int, e: DayStats) -> bool {
    &&& e.day@ == spec_day_name(j)
    &&& e.total_duration == spec_sum_duration(s) / 7
    &&& e.efficiency.num == spec_sum_efficiency_tenths(s) * spec_day_multiplier(j)
    &&& e.efficiency.den == 1000 * s.len()
    &&& e.blocks_count == s.len() as int / 7
}

/// The full contract of aggregation: every field of `m` as a function of
/// the input sequence `s`.
pub open spec fn spec_metrics_match(s: Seq<TimeBlock>, m: PerformanceMetrics) -> bool {
    &&& m.total_duration == spec_sum_duration(s)
    &&& m.average_duration.num == spec_sum_duration(s)
    &&& m.average_duration.den == s.len()
    &&& m.efficiency_distribution.low == spec_count_band(s, 0, 60)
    &&& m.efficiency_distribution.medium == spec_count_band(s, 61, 80)
    &&& m.efficiency_distribution.high == spec_count_band(s, 81, 95)
    &&& m.efficiency_distribution.excellent == spec_count_band(s, 96, 100)
    &&& m.peak_productivity_hours@ == seq![9u8, 10u8, 11u8, 14u8, 15u8, 16u8]
    &&& m.fragmentation_index.num == 100 * spec_count_short(s)
    &&& m.fragmentation_index.den == s.len()
    &&& m.productivity_score.num == spec_sum_efficiency_tenths(s)
    &&& m.productivity_score.den == 10 * s.len()
    &&& m.focus_time_percentage.num == 100 * spec_count_focus(s)
    &&& m.focus_time_percentage.den == s.len()
    &&& m.category_breakdown@.len() == spec_categories(s).len()
    &&& forall|j: int|
        0 <= j < spec_categories(s).len() ==> spec_cat_stats_match(
            s,
            spec_categories(s)[j],
            #[trigger] m.category_breakdown@[j],
        )
    &&& m.weekly_trend@.len() == 3
    &&& forall|j: int| 0 <= j < 3 ==> spec_day_matches(s, j, #[trigger] m.weekly_trend@[j])
    &&& m.burnout_risk@ == spec_burnout_risk(s)
}

/// The categories of a sequence are pairwise distinct.
pub proof fn lemma_categories_distinct(s: Seq<TimeBlock>)
    ensures
        forall|a: int, b: int|
            0 <= a < b < spec_categories(s).len() ==> spec_categories(s)[a] != spec_categories(
                s,
            )[b],
    decreases s.len(),
{
    if s.len() == 0 {
    } else {
        lemma_categories_distinct(s.drop_last());
        let prev = spec_categories(s.drop_last());
        let c = spec_category(s.last());
        if !prev.contains(c) {
            assert forall|a: int, b: int|
                0 <= a < b < spec_categories(s).len() implies spec_categories(s)[a]
                != spec_categories(s)[b] by {
                if b == prev.len() {
                    assert(spec_categories(s)[a] == prev[a]);
                    if prev[a] == c {
                        assert(prev.contains(c));
                    }
                }
            }
        }
    }
}

/// A category that never appears in `s` has empty stats.
pub proof fn lemma_absent_category_zero(s: Seq<TimeBlock>, c: Seq<char>)
    requires
        !spec_categories(s).contains(c),
    ensures
        spec_cat_count(s, c) == 0,
        spec_cat_duration(s, c) == 0,
        spec_cat_eff_tenths(s, c) == 0,
        spec_cat_completed(s, c) == 0,
    decreases s.len(),
{
    if s.len() != 0 {
        let prev = spec_categories(s.drop_last());
        let lc = spec_category(s.last());
        assert forall|x: Seq<char>| prev.contains(x) implies spec_categories(s).contains(x) by {
            let k = choose|k: int| 0 <= k < prev.len() && prev[k] == x;
            assert(spec_categories(s)[k] == x);
        }
        assert(!prev.contains(c));
        if lc == c {
            if prev.contains(lc) {
                assert(spec_categories(s).contains(c));
            } else {
                assert(spec_categories(s)[prev.len() as int] == lc);
                assert(spec_categories(s).contains(c));
            }
            assert(false);
        }
        lemma_absent_category_zero(s.drop_last(), c);
    }
}

/// Rolls a non-empty sequence of blocks into aggregate metrics. Every
/// output field is pinned, exactly, to a function of the input.
pub fn generate_performance_metrics(blocks: &Vec<TimeBlock>) -> (m: PerformanceMetrics)
    requires
        1 <= blocks@.len() <= u32::MAX,
    ensures
        spec_metrics_match(blocks@, m),
{
    let n = blocks.len();
    let mut total: u64 = 0;
    let mut eff_sum: u64 = 0;
    let mut short_count: u32 = 0;
    let mut focus_count: u32 = 0;
    let mut low: u32 = 0;
    let mut medium: u32 = 0;
    let mut high: u32 = 0;
    let mut excellent: u32 = 0;
    let mut i: usize = 0;
    while i < n
        invariant
            n == blocks@.len(),
            n <= u32::MAX,
            i <= n,
            total == spec_sum_duration(blocks@.subrange(0, i as int)),
            total <= i as int * 0xffff_ffff,
            eff_sum == spec_sum_efficiency_tenths(blocks@.subrange(0, i as int)),
            eff_sum <= i as int * 1000,
            short_count == spec_count_short(blocks@.subrange(0, i as int)),
            short_count <= i,
            focus_count == spec_count_focus(blocks@.subrange(0, i as int)),
            focus_count <= i,
            low == spec_count_band(blocks@.subrange(0, i as int), 0, 60),
            low <= i,
            medium == spec_count_band(blocks@.subrange(0, i as int), 61, 80),
            medium <= i,
            high == spec_count_band(blocks@.subrange(0, i as int), 81, 95),
            high <= i,
            excellent == spec_count_band(blocks@.subrange(0, i as int), 96, 100),
            excellent <= i,
        decreases n - i,
    {
        proof {
            let pre = blocks@.subrange(0, i as int);
            let post = blocks@.subrange(0, i + 1 as int);
            assert(post.drop_last() =~= pre);
            assert(post.last() == blocks@[i as int]);
        }
        let b = &blocks[i];
        let eff = calculate_efficiency(b);
        total = total + b.duration as u64;
        eff_sum = eff_sum + eff as u64;
        if b.duration < SHORT_BLOCK_THRESHOLD_MINUTES {
            short_count = short_count + 1;
        } else {
            focus_count = focus_count + 1;
        }
        let pts = eff / 10;
        if pts <= 60 {
            low = low + 1;
        } else if pts <= 80 {
            medium = medium + 1;
        } else if pts <= 95 {
            high = high + 1;
        } else {
            excellent = excellent + 1;
        }
        i = i + 1;
    }
    proof {
        assert(blocks@.subrange(0, n as int) =~= blocks@);
    }
    let breakdown = build_category_breakdown(blocks);
    let mut peak: Vec<u8> = Vec::new();
    peak.push(9);
    peak.push(10);
    peak.push(11);
    peak.push(14);
    peak.push(15);
    peak.push(16);
    proof {
        assert(peak@ =~= seq![9u8, 10u8, 11u8, 14u8, 15u8, 16u8]);
    }
    let fragmentation_index = Ratio { num: 100 * (short_count as u64), den: n as u64 };
    let mut weekly_trend: Vec<DayStats> = Vec::new();
    weekly_trend.push(
        DayStats {
            day: String::from_str("Monday"),
            total_duration: total / 7,
            efficiency: Ratio { num: eff_sum * 100, den: 1000 * (n as u64) },
            blocks_count: (n as u32) / 7,
        },
    );
    weekly_trend.push(
        DayStats {
            day: String::from_str("Tuesday"),
            total_duration: total / 7,
            efficiency: Ratio { num: eff_sum * 110, den: 1000 * (n as u64) },
            blocks_count: (n as u32) / 7,
        },
    );
    weekly_trend.push(
        DayStats {
            day: String::from_str("Wednesday"),
            total_duration: total / 7,
            efficiency: Ratio { num: eff_sum * 105, den: 1000 * (n as u64) },
            blocks_count: (n as u32) / 7,
        },
    );
    let burnout_risk = if total > 600 && fragmentation_index.exceeds(60) {
        String::from_str("High")
    } else if total > 400 {
        String::from_str("Medium")
    } else {
        String::from_str("Low")
    };
    PerformanceMetrics {
        total_duration: total,
        average_duration: Ratio { num: total, den: n as u64 },
        efficiency_distribution: EfficiencyDistribution { low, medium, high, excellent },
        peak_productivity_hours: peak,
        fragmentation_index,
        productivity_score: Ratio { num: eff_sum, den: 10 * (n as u64) },
        focus_time_percentage: Ratio { num: 100 * (focus_count as u64), den: n as u64 },
        category_breakdown: breakdown,
        weekly_trend,
        burnout_risk,
    }
}

/// Index of the entry of `breakdown` whose category is `cat`, if any.
fn find_category(breakdown: &Vec<CategoryStats>, cat: &str) -> (r: Option<usize>)
    ensures
        match r {
            Some(j) => j < breakdown@.len() && breakdown@[j as int].category@ == cat@,
            None => forall|k: int|
                0 <= k < breakdown@.len() ==> (#[trigger] breakdown@[k]).category@ != cat@,
        },
{
    let mut j: usize = 0;
    while j < breakdown.len()
        invariant
            j <= breakdown@.len(),
            forall|k: int| 0 <= k < j ==> (#[trigger] breakdown@[k]).category@ != cat@,
        decreases breakdown@.len() - j,
    {
        if str_eq(breakdown[j].category.as_str(), cat) {
            return Some(j);
        }
        j = j + 1;
    }
    None
}

/// Groups the blocks by resolved category, in order of first appearance,
/// and accumulates each category's stats.
fn build_category_breakdown(blocks: &Vec<TimeBlock>) -> (r: Vec<CategoryStats>)
    requires
        blocks@.len() <= u32::MAX,
    ensures
        r@.len() == spec_categories(blocks@).len(),
        forall|j: int|
            0 <= j < spec_categories(blocks@).len() ==> spec_cat_stats_match(
                blocks@,
                spec_categories(blocks@)[j],
                #[trigger] r@[j],
            ),
{
    let n = blocks.len();
    let mut breakdown: Vec<CategoryStats> = Vec::new();
    let mut i: usize = 0;
    while i < n
        invariant
            n == blocks@.len(),
            n <= u32::MAX,
            i <= n,
            breakdown@.len() == spec_categories(blocks@.subrange(0, i as int)).len(),
            forall|j: int|
                0 <= j < breakdown@.len() ==> spec_cat_stats_match(
                    blocks@.subrange(0, i as int),
                    spec_categories(blocks@.subrange(0, i as int))[j],
                    #[trigger] breakdown@[j],
                ),
            forall|j: int|
                0 <= j < breakdown@.len() ==> (#[trigger] breakdown@[j]).count <= i
                    && breakdown@[j].total_time <= i as int * 0xffff_ffff
                    && breakdown@[j].efficiency.num <= i as int * 1000
                    && breakdown@[j].completion_rate.num <= i as int * 100,
        decreases n - i,
    {
        let ghost pre = blocks@.subrange(0, i as int);
        let ghost post = blocks@.subrange(0, i + 1 as int);
        proof {
            assert(post.drop_last() =~= pre);
            assert(post.last() == blocks@[i as int]);
            lemma_categories_distinct(pre);
        }
        let b = &blocks[i];
        let cat = determine_category(b);
        let eff = calculate_efficiency(b);
        let completed = str_eq(b.status.as_str(), "completed");
        match find_category(&breakdown, cat.as_str()) {
            Some(j) => {
                proof {
                    assert(spec_cat_stats_match(pre, spec_categories(pre)[j as int], breakdown@[j as int]));
                    assert(spec_categories(pre)[j as int] == cat@);
                    assert(spec_categories(pre).contains(cat@));
                    assert(spec_categories(post) =~= spec_categories(pre));
                }
                let e = &breakdown[j];
                let new_count = e.count + 1;
                let updated = CategoryStats {
                    category: e.category.clone(),
                    total_time: e.total_time + b.duration as u64,
                    efficiency: Ratio {
                        num: e.efficiency.num + eff as u64,
                        den: 10 * (new_count as u64),
                    },
                    completion_rate: Ratio {
                        num: e.completion_rate.num + if completed {
                            100
                        } else {
                            0
                        },
                        den: new_count as u64,
                    },
                    count: new_count,
                };
                breakdown.set(j, updated);
                proof {
                    let c = cat@;
                    let cats = spec_categories(post);
                    assert(spec_category(post.last()) == c);
                    assert forall|j2: int|
                        0 <= j2 < breakdown@.len() implies spec_cat_stats_match(
                        post,
                        cats[j2],
                        #[trigger] breakdown@[j2],
                    ) by {
                        if j2 == j as int {
                            assert(spec_cat_count(post, c) == spec_cat_count(pre, c) + 1);
                            assert(spec_cat_duration(post, c) == spec_cat_duration(pre, c)
                                + post.last().duration);
                            assert(spec_cat_eff_tenths(post, c) == spec_cat_eff_tenths(pre, c)
                                + spec_block_efficiency_tenths(post.last()));
                        } else {
                            let c2 = cats[j2];
                            assert(c2 != c);
                            assert(spec_cat_stats_match(pre, c2, breakdown@[j2]));
                            assert(spec_cat_count(post, c2) == spec_cat_count(pre, c2));
                        }
                    }
                }
            },
            None => {
                proof {
                    if spec_categories(pre).contains(cat@) {
                        let k = choose|k: int|
                            0 <= k < spec_categories(pre).len() && spec_categories(pre)[k] == cat@;
                        assert(spec_cat_stats_match(pre, spec_categories(pre)[k], breakdown@[k]));
                        assert(false);
                    }
                    assert(spec_categories(post) =~= spec_categories(pre).push(cat@));
                    lemma_absent_category_zero(pre, cat@);
                }
                breakdown.push(
                    CategoryStats {
                        category: cat,
                        total_time: b.duration as u64,
                        efficiency: Ratio { num: eff as u64, den: 10 },
                        completion_rate: Ratio {
                            num: if completed {
                                100
                            } else {
                                0
                            },
                            den: 1,
                        },
                        count: 1,
                    },
                );
                proof {
                    let c = cat@;
                    let cats = spec_categories(post);
                    assert(spec_category(post.last()) == c);
                    assert forall|j2: int|
                        0 <= j2 < breakdown@.len() implies spec_cat_stats_match(
                        post,
                        cats[j2],
                        #[trigger] breakdown@[j2],
                    ) by {
                        if j2 == breakdown@.len() - 1 {
                            assert(cats[j2] == c);
                            assert(spec_cat_count(post, c) == spec_cat_count(pre, c) + 1);
                        } else {
                            let c2 = cats[j2];
                            assert(c2 == spec_categories(pre)[j2]);
                            assert(spec_cat_stats_match(pre, c2, breakdown@[j2]));
                            if c2 == c {
                                assert(spec_categories(pre).contains(c));
                                assert(false);
                            }
                            assert(spec_cat_count(post, c2) == spec_cat_count(pre, c2));
                        }
                    }
                }
            },
        }
        i = i + 1;
    }
    proof {
        assert(blocks@.subrange(0, n as int) =~= blocks@);
    }
    breakdown
}

} // verus!
