//! Per-block scoring: efficiency, priority, time-window and category labels,
//! focus rating, energy level and per-block improvement suggestions.
//!
//! Scores that the heuristics define with one decimal place are carried as
//! fixed-point integers: efficiency and focus rating in tenths of a point,
//! the priority score in thirds of a point (its duration component is
//! `min(duration, 120) / 3` points, which is exact only in thirds).

use vstd::prelude::*;

use crate::model::TimeBlock;
use crate::text::contains_seq;
use crate::text::lower_of;
use crate::text::str_contains;
use crate::text::str_eq;
use crate::text::to_lower;

verus! {

/// Base efficiency (tenths of a point) as a step function of the duration.
pub open spec fn spec_base_efficiency_tenths(d: int) -> int {
    if d <= 30 {
        600
    } else if d <= 90 {
        850
    } else if d <= 180 {
        950
    } else if d <= 300 {
        800
    } else {
        600
    }
}

/// Status multiplier in tenths: completed 1.2, active 1.0, planned 0.8,
/// anything unrecognized 0.9.
pub open spec fn spec_status_multiplier_tenths(status: Seq<char>) -> int {
    if status == "completed"@ {
        12
    } else if status == "active"@ {
        10
    } else if status == "planned"@ {
        8
    } else {
        9
    }
}

/// Efficiency in tenths of a point: base times status multiplier, capped at
/// 100 points. Depends on the duration and the status alone.
pub open spec fn spec_efficiency_tenths(d: int, status: Seq<char>) -> int {
    let raw = spec_base_efficiency_tenths(d) * spec_status_multiplier_tenths(status) / 10;
    if raw > 1000 {
        1000
    } else {
        raw
    }
}

/// Heuristic efficiency of a block, in tenths of a point (0 ..= 1000,
/// that is 0.0 ..= 100.0 points). A recency factor of the heuristic is a
/// documented no-op (always 1.0), so the score is the capped product of
/// the duration base and the status multiplier alone.
pub fn calculate_efficiency(block: &TimeBlock) -> (r: u32)
    ensures
        r == spec_efficiency_tenths(block.duration as int, block.status@),
        r <= 1000,
{
    let base: u32 = if block.duration <= 30 {
        600
    } else if block.duration <= 90 {
        850
    } else if block.duration <= 180 {
        950
    } else if block.duration <= 300 {
        800
    } else {
        600
    };
    let status = block.status.as_str();
    let mult: u32 = if str_eq(status, "completed") {
        12
    } else if str_eq(status, "active") {
        10
    } else if str_eq(status, "planned") {
        8
    } else {
        9
    };
    let raw = base * mult / 10;
    if raw > 1000 {
        1000
    } else {
        raw
    }
}

/// Title component of the priority score, over the lowercased title:
/// urgency keywords 30, meeting keywords 25, otherwise 20. First matching
/// rule wins.
pub open spec fn spec_title_score(lowered_title: Seq<char>) -> int {
    if contains_seq(lowered_title, "important"@) || contains_seq(lowered_title, "urgent"@) {
        30
    } else if contains_seq(lowered_title, "meeting"@) || contains_seq(lowered_title, "call"@) {
        25
    } else {
        20
    }
}

/// Status component of the priority score.
pub open spec fn spec_status_score(status: Seq<char>) -> int {
    if status == "active"@ {
        30
    } else if status == "planned"@ {
        20
    } else if status == "completed"@ {
        10
    } else {
        15
    }
}

/// Priority score in thirds of a point: the duration component is
/// `min(duration, 120) / 3` points (up to 40 points at 120 minutes), and the
/// title and status components are whole points.
pub open spec fn spec_priority_score_thirds(
    d: int,
    lowered_title: Seq<char>,
    status: Seq<char>,
) -> int {
    vstd::math::min(d, 120) + 3 * (spec_title_score(lowered_title) + spec_status_score(status))
}

/// Heuristic priority of a block, in thirds of a point (0 ..= 300, that is
/// 0.0 ..= 100.0 points).
pub fn calculate_priority_score(block: &TimeBlock) -> (r: u32)
    ensures
        r == spec_priority_score_thirds(
            block.duration as int,
            lower_of(block.title@),
            block.status@,
        ),
        r <= 300,
{
    let lowered = to_lower(block.title.as_str());
    let lt = lowered.as_str();
    let title_score: u32 = if str_contains(lt, "important") || str_contains(lt, "urgent") {
        30
    } else if str_contains(lt, "meeting") || str_contains(lt, "call") {
        25
    } else {
        20
    };
    let status = block.status.as_str();
    let status_score: u32 = if str_eq(status, "active") {
        30
    } else if str_eq(status, "planned") {
        20
    } else if str_eq(status, "completed") {
        10
    } else {
        15
    };
    let duration_thirds: u32 = if block.duration > 120 {
        120
    } else {
        block.duration
    };
    duration_thirds + 3 * (title_score + status_score)
}

/// Advisory time-window label as a step function of the duration.
pub open spec fn spec_optimal_time(d: int) -> Seq<char> {
    if d <= 60 {
        "09:00-10:00 (morning concentration)"@
    } else if d <= 120 {
        "10:00-12:00 (peak productivity)"@
    } else if d <= 180 {
        "14:00-17:00 (afternoon work)"@
    } else {
        "09:00-12:00 (morning block)"@
    }
}

/// Suggests a time window in which to schedule the block.
pub fn suggest_optimal_time(block: &TimeBlock) -> (r: String)
    ensures
        r@ == spec_optimal_time(block.duration as int),
{
    if block.duration <= 60 {
        String::from_str("09:00-10:00 (morning concentration)")
    } else if block.duration <= 120 {
        String::from_str("10:00-12:00 (peak productivity)")
    } else if block.duration <= 180 {
        String::from_str("14:00-17:00 (afternoon work)")
    } else {
        String::from_str("09:00-12:00 (morning block)")
    }
}

/// Keyword classification of a lowercased title: six category rules tried
/// in a fixed order, first matching keyword set wins, no match falls back
/// to the general label.
pub open spec fn spec_classify_title(lowered_title: Seq<char>) -> Seq<char> {
    if contains_seq(lowered_title, "meeting"@) || contains_seq(lowered_title, "call"@)
        || contains_seq(lowered_title, "conference"@) {
        "Communication"@
    } else if contains_seq(lowered_title, "code"@) || contains_seq(lowered_title, "program"@)
        || contains_seq(lowered_title, "development"@) {
        "Development"@
    } else if contains_seq(lowered_title, "learn"@) || contains_seq(lowered_title, "training"@)
        || contains_seq(lowered_title, "course"@) {
        "Learning"@
    } else if contains_seq(lowered_title, "plan"@) || contains_seq(lowered_title, "analysis"@)
        || contains_seq(lowered_title, "strategy"@) {
        "Planning"@
    } else if contains_seq(lowered_title, "test"@) || contains_seq(lowered_title, "debug"@)
        || contains_seq(lowered_title, "fix"@) {
        "Testing"@
    } else if contains_seq(lowered_title, "document"@) || contains_seq(lowered_title, "report"@)
        || contains_seq(lowered_title, "description"@) {
        "Documentation"@
    } else {
        "General tasks"@
    }
}

/// Resolved category: an explicit `category` field verbatim, else keyword
/// classification of the lowercased title.
pub open spec fn spec_category(block: TimeBlock) -> Seq<char> {
    match block.category {
        Some(c) => c@,
        None => spec_classify_title(lower_of(block.title@)),
    }
}

/// Resolves the category of a block.
pub fn determine_category(block: &TimeBlock) -> (r: String)
    ensures
        r@ == spec_category(*block),
{
    match &block.category {
        Some(c) => c.clone(),
        None => {
            let lowered = to_lower(block.title.as_str());
            let lt = lowered.as_str();
            if str_contains(lt, "meeting") || str_contains(lt, "call") || str_contains(
                lt,
                "conference",
            ) {
                String::from_str("Communication")
            } else if str_contains(lt, "code") || str_contains(lt, "program") || str_contains(
                lt,
                "development",
            ) {
                String::from_str("Development")
            } else if str_contains(lt, "learn") || str_contains(lt, "training") || str_contains(
                lt,
                "course",
            ) {
                String::from_str("Learning")
            } else if str_contains(lt, "plan") || str_contains(lt, "analysis") || str_contains(
                lt,
                "strategy",
            ) {
                String::from_str("Planning")
            } else if str_contains(lt, "test") || str_contains(lt, "debug") || str_contains(
                lt,
                "fix",
            ) {
                String::from_str("Testing")
            } else if str_contains(lt, "document") || str_contains(lt, "report") || str_contains(
                lt,
                "description",
            ) {
                String::from_str("Documentation")
            } else {
                String::from_str("General tasks")
            }
        },
    }
}

/// Focus rating from the duration alone, in tenths of a point.
pub open spec fn spec_duration_rating_tenths(d: int) -> int {
    if d <= 15 {
        30
    } else if d <= 45 {
        50
    } else if d <= 90 {
        80
    } else if d <= 120 {
        95
    } else if d <= 180 {
        90
    } else {
        70
    }
}

/// Title adjustment to the focus rating, in tenths: demanding-task keywords
/// +1.0, routine-task keywords -0.5, otherwise 0.
pub open spec fn spec_focus_bonus_tenths(lowered_title: Seq<char>) -> int {
    if contains_seq(lowered_title, "deep"@) || contains_seq(lowered_title, "complex"@) {
        10
    } else if contains_seq(lowered_title, "routine"@) || contains_seq(lowered_title, "simple"@) {
        -5
    } else {
        0
    }
}

/// Focus rating in tenths of a point, clamped to 1.0 ..= 10.0 points.
pub open spec fn spec_focus_rating_tenths(d: int, lowered_title: Seq<char>) -> int {
    let raw = spec_duration_rating_tenths(d) + spec_focus_bonus_tenths(lowered_title);
    if raw < 10 {
        10
    } else if raw > 100 {
        100
    } else {
        raw
    }
}

/// Heuristic focus rating of a block, in tenths of a point
/// (10 ..= 100, that is 1.0 ..= 10.0 points).
pub fn calculate_focus_rating(block: &TimeBlock) -> (r: u32)
    ensures
        r == spec_focus_rating_tenths(block.duration as int, lower_of(block.title@)),
        10 <= r <= 100,
{
    let rating: u32 = if block.duration <= 15 {
        30
    } else if block.duration <= 45 {
        50
    } else if block.duration <= 90 {
        80
    } else if block.duration <= 120 {
        95
    } else if block.duration <= 180 {
        90
    } else {
        70
    };
    let lowered = to_lower(block.title.as_str());
    let lt = lowered.as_str();
    let adjusted: u32 = if str_contains(lt, "deep") || str_contains(lt, "complex") {
        rating + 10
    } else if str_contains(lt, "routine") || str_contains(lt, "simple") {
        rating - 5
    } else {
        rating
    };
    if adjusted < 10 {
        10
    } else if adjusted > 100 {
        100
    } else {
        adjusted
    }
}

/// Energy-demand label as a step function of the duration.
pub open spec fn spec_energy_level(d: int) -> Seq<char> {
    if d <= 30 {
        "Low"@
    } else if d <= 90 {
        "Medium"@
    } else if d <= 180 {
        "High"@
    } else {
        "Very high"@
    }
}

/// Labels the energy demand of a block.
pub fn determine_energy_level(block: &TimeBlock) -> (r: String)
    ensures
        r@ == spec_energy_level(block.duration as int),
{
    if block.duration <= 30 {
        String::from_str("Low")
    } else if block.duration <= 90 {
        String::from_str("Medium")
    } else if block.duration <= 180 {
        String::from_str("High")
    } else {
        String::from_str("Very high")
    }
}

/// Duration-based improvement suggestion, if any. The 26-45 and 91-180
/// minute ranges intentionally produce none.
pub open spec fn spec_duration_suggestions(d: int) -> Seq<Seq<char>> {
    if d <= 15 {
        seq!["Too short a block. Extend it to 25-30 minutes."@]
    } else if d <= 25 {
        seq!["Great fit for the Pomodoro technique!"@]
    } else if 46 <= d && d <= 90 {
        seq!["Ideal length for deep work."@]
    } else if d > 180 {
        seq!["Consider splitting into shorter blocks."@]
    } else {
        Seq::empty()
    }
}

/// Status-based improvement suggestion, if any.
pub open spec fn spec_status_suggestions(status: Seq<char>) -> Seq<Seq<char>> {
    if status == "planned"@ {
        seq!["Remember to start at the scheduled time."@]
    } else if status == "completed"@ {
        seq!["Well done! Task completed."@]
    } else {
        Seq::empty()
    }
}

/// Priority-based improvement suggestion, if any.
pub open spec fn spec_priority_suggestions(priority: Option<Seq<char>>) -> Seq<Seq<char>> {
    match priority {
        Some(p) => if p == "urgent"@ {
            seq!["High priority - do this first."@]
        } else if p == "high"@ {
            seq!["Important task - schedule it for the morning."@]
        } else {
            Seq::empty()
        },
        None => Seq::empty(),
    }
}

/// All improvement suggestions of a block, in fixed order: the duration
/// rule, then the status rule, then the priority rule.
pub open spec fn spec_block_suggestions(block: TimeBlock) -> Seq<Seq<char>> {
    spec_duration_suggestions(block.duration as int) + spec_status_suggestions(block.status@)
        + spec_priority_suggestions(block.priority.deep_view())
}

/// Collects the improvement suggestions that apply to a block, in fixed
/// order; the result may be empty.
pub fn generate_block_suggestions(block: &TimeBlock) -> (r: Vec<String>)
    ensures
        r.deep_view() == spec_block_suggestions(*block),
{
    let mut suggestions: Vec<String> = Vec::new();
    if block.duration <= 15 {
        suggestions.push(String::from_str("Too short a block. Extend it to 25-30 minutes."));
    } else if block.duration <= 25 {
        suggestions.push(String::from_str("Great fit for the Pomodoro technique!"));
    } else if 46 <= block.duration && block.duration <= 90 {
        suggestions.push(String::from_str("Ideal length for deep work."));
    } else if block.duration > 180 {
        suggestions.push(String::from_str("Consider splitting into shorter blocks."));
    }
    proof {
        assert(suggestions.deep_view() =~= spec_duration_suggestions(block.duration as int));
    }
    let status = block.status.as_str();
    if str_eq(status, "planned") {
        suggestions.push(String::from_str("Remember to start at the scheduled time."));
    } else if str_eq(status, "completed") {
        suggestions.push(String::from_str("Well done! Task completed."));
    }
    proof {
        assert(suggestions.deep_view() =~= spec_duration_suggestions(block.duration as int)
            + spec_status_suggestions(block.status@));
    }
    match &block.priority {
        Some(p) => {
            let ps = p.as_str();
            if str_eq(ps, "urgent") {
                suggestions.push(String::from_str("High priority - do this first."));
            } else if str_eq(ps, "high") {
                suggestions.push(String::from_str("Important task - schedule it for the morning."));
            }
        },
        None => {},
    }
    proof {
        assert(suggestions.deep_view() =~= spec_block_suggestions(*block));
    }
    suggestions
}

} // verus!
