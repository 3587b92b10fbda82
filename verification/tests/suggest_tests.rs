use time_block_analytics::model::EfficiencyDistribution;
use time_block_analytics::model::PerformanceMetrics;
use time_block_analytics::model::Ratio;
use time_block_analytics::model::TimeBlock;
use time_block_analytics::suggest::generate_optimization_suggestions;

fn block(id: u32, status: &str) -> TimeBlock {
    TimeBlock {
        id,
        title: "t".to_string(),
        duration: 60,
        created_at: "x".to_string(),
        status: status.to_string(),
        priority: None,
        category: None,
        tags: None,
    }
}

fn metrics(fragmentation: Ratio, average: Ratio, total: u64) -> PerformanceMetrics {
    PerformanceMetrics {
        total_duration: total,
        average_duration: average,
        efficiency_distribution: EfficiencyDistribution { low: 0, medium: 0, high: 0, excellent: 0 },
        peak_productivity_hours: vec![],
        fragmentation_index: fragmentation,
        productivity_score: Ratio::zero(),
        focus_time_percentage: Ratio::zero(),
        category_breakdown: vec![],
        weekly_trend: vec![],
        burnout_risk: "Low".to_string(),
    }
}

#[test]
fn all_rules_fire_in_order() {
    // fragmentation 60 > 50, average 30 < 45, total 100 < 240, and a 50%
    // completion rate < 70: every rule fires, then the two fixed messages.
    let m = metrics(Ratio { num: 60, den: 1 }, Ratio { num: 30, den: 1 }, 100);
    let blocks = vec![block(1, "completed"), block(2, "active")];
    let s = generate_optimization_suggestions(&blocks, &m);
    assert_eq!(
        s,
        vec![
            "Too many short blocks. Try merging similar tasks.".to_string(),
            "Increase block length for better concentration (60-90 minutes recommended)."
                .to_string(),
            "Increase total planned time to raise productivity.".to_string(),
            "Low task completion rate. Plan more realistically.".to_string(),
            "Schedule hard tasks for the morning hours (9:00-12:00).".to_string(),
            "Use the afternoon for routine tasks.".to_string(),
        ]
    );
}

#[test]
fn only_fixed_messages_when_nothing_triggers() {
    let m = metrics(Ratio { num: 40, den: 1 }, Ratio { num: 100, den: 1 }, 300);
    let blocks = vec![block(1, "completed")];
    let s = generate_optimization_suggestions(&blocks, &m);
    assert_eq!(
        s,
        vec![
            "Schedule hard tasks for the morning hours (9:00-12:00).".to_string(),
            "Use the afternoon for routine tasks.".to_string(),
        ]
    );
}

#[test]
fn long_average_gets_the_split_message() {
    let m = metrics(Ratio { num: 0, den: 1 }, Ratio { num: 200, den: 1 }, 1000);
    let blocks = vec![block(1, "completed")];
    let s = generate_optimization_suggestions(&blocks, &m);
    assert_eq!(s[0], "Split long blocks into shorter ones for better focus.");
    assert_eq!(s.len(), 3);
}

#[test]
fn thresholds_are_strict() {
    // exactly 50, exactly 45..=180, exactly 240 and exactly 70% trigger nothing
    let m = metrics(Ratio { num: 50, den: 1 }, Ratio { num: 45, den: 1 }, 240);
    let blocks = vec![
        block(1, "completed"),
        block(2, "completed"),
        block(3, "completed"),
        block(4, "completed"),
        block(5, "completed"),
        block(6, "completed"),
        block(7, "completed"),
        block(8, "active"),
        block(9, "active"),
        block(10, "active"),
    ];
    let s = generate_optimization_suggestions(&blocks, &m);
    assert_eq!(s.len(), 2);
    let upper = metrics(Ratio { num: 50, den: 1 }, Ratio { num: 180, den: 1 }, 240);
    assert_eq!(generate_optimization_suggestions(&blocks, &upper).len(), 2);
}

#[test]
fn fractional_thresholds_are_decided_exactly()
{
    // 151/3 = 50.33... exceeds 50; 149/3 = 49.66... does not
    let over = metrics(Ratio { num: 151, den: 3 }, Ratio { num: 100, den: 1 }, 300);
    let blocks = vec![block(1, "completed")];
    assert_eq!(generate_optimization_suggestions(&blocks, &over).len(), 3);
    let under = metrics(Ratio { num: 149, den: 3 }, Ratio { num: 100, den: 1 }, 300);
    assert_eq!(generate_optimization_suggestions(&blocks, &under).len(), 2);
}
