//! Fleet-level optimization suggestions, derived from the aggregate
//! metrics and from the completion rate of the raw blocks.

use vstd::prelude::*;

use crate::metrics::spec_count_completed;
use crate::model::PerformanceMetrics;
use crate::model::TimeBlock;
use crate::text::str_eq;

verus! {

/// The advisory strings owed for blocks `s` and metrics `m`, in fixed rule
/// order: fragmentation, average duration (two mutually exclusive
/// branches), total duration, completion rate, then two fixed reminders.
/// The final branch replaces an empty list with a celebratory message; it
/// is unreachable, since the two reminders always fire, but is kept as
/// defensive behavior.
pub open spec fn spec_opt_suggestions(s: Seq<TimeBlock>, m: PerformanceMetrics) -> Seq<
    Seq<char>,
> {
    let frag = if m.fragmentation_index.spec_exceeds(50) {
        seq!["Too many short blocks. Try merging similar tasks."@]
    } else {
        Seq::<Seq<char>>::empty()
    };
    let avg = if m.average_duration.spec_below(45) {
        seq!["Increase block length for better concentration (60-90 minutes recommended)."@]
    } else if m.average_duration.spec_exceeds(180) {
        seq!["Split long blocks into shorter ones for better focus."@]
    } else {
        Seq::<Seq<char>>::empty()
    };
    let tot = if m.total_duration < 240 {
        seq!["Increase total planned time to raise productivity."@]
    } else {
        Seq::<Seq<char>>::empty()
    };
    let compl = if 100 * spec_count_completed(s) < 70 * s.len() {
        seq!["Low task completion rate. Plan more realistically."@]
    } else {
        Seq::<Seq<char>>::empty()
    };
    let all = frag + avg + tot + compl + seq![
        "Schedule hard tasks for the morning hours (9:00-12:00)."@,
        "Use the afternoon for routine tasks."@,
    ];
    if all.len() == 0 {
        seq!["Great planning! Keep it up."@]
    } else {
        all
    }
}

/// Evaluates the fixed suggestion rules in order and collects the
/// triggered messages. Thresholds on means and percentages are decided
/// exactly, over the `Ratio` fields of the metrics.
pub fn generate_optimization_suggestions(
    blocks: &Vec<TimeBlock>,
    metrics: &PerformanceMetrics,
) -> (r: Vec<String>)
    requires
        1 <= blocks@.len() <= u32::MAX,
    ensures
        r.deep_view() == spec_opt_suggestions(blocks@, *metrics),
{
    let mut suggestions: Vec<String> = Vec::new();
    if metrics.fragmentation_index.exceeds(50) {
        suggestions.push(String::from_str("Too many short blocks. Try merging similar tasks."));
    }
    if metrics.average_duration.below(45) {
        suggestions.push(
            String::from_str(
                "Increase block length for better concentration (60-90 minutes recommended).",
            ),
        );
    } else if metrics.average_duration.exceeds(180) {
        suggestions.push(String::from_str("Split long blocks into shorter ones for better focus."));
    }
    if metrics.total_duration < 240 {
        suggestions.push(String::from_str("Increase total planned time to raise productivity."));
    }
    let n = blocks.len();
    let mut completed_count: u32 = 0;
    let mut i: usize = 0;
    while i < n
        invariant
            n == blocks@.len(),
            n <= u32::MAX,
            i <= n,
            completed_count == spec_count_completed(blocks@.subrange(0, i as int)),
            completed_count <= i,
        decreases n - i,
    {
        proof {
            let pre = blocks@.subrange(0, i as int);
            let post = blocks@.subrange(0, i + 1 as int);
            assert(post.drop_last() =~= pre);
            assert(post.last() == blocks@[i as int]);
        }
        if str_eq(blocks[i].status.as_str(), "completed") {
            completed_count = completed_count + 1;
        }
        i = i + 1;
    }
    proof {
        assert(blocks@.subrange(0, n as int) =~= blocks@);
    }
    if 100 * (completed_count as u64) < 70 * (n as u64) {
        suggestions.push(String::from_str("Low task completion rate. Plan more realistically."));
    }
    suggestions.push(
        String::from_str("Schedule hard tasks for the morning hours (9:00-12:00)."),
    );
    suggestions.push(String::from_str("Use the afternoon for routine tasks."));
    if suggestions.len() == 0 {
        suggestions.push(String::from_str("Great planning! Keep it up."));
    }
    proof {
        assert(suggestions.deep_view() =~= spec_opt_suggestions(blocks@, *metrics));
    }
    suggestions
}

} // verus!
