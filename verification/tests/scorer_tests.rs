use time_block_analytics::model::TimeBlock;
use time_block_analytics::scorer::calculate_efficiency;
use time_block_analytics::scorer::calculate_focus_rating;
use time_block_analytics::scorer::calculate_priority_score;
use time_block_analytics::scorer::determine_category;
use time_block_analytics::scorer::determine_energy_level;
use time_block_analytics::scorer::generate_block_suggestions;
use time_block_analytics::scorer::suggest_optimal_time;

fn block(title: &str, duration: u32, status: &str) -> TimeBlock {
    TimeBlock {
        id: 1,
        title: title.to_string(),
        duration,
        created_at: "2024-01-01T00:00:00Z".to_string(),
        status: status.to_string(),
        priority: None,
        category: None,
        tags: None,
    }
}

#[test]
fn efficiency_duration_buckets_active() {
    assert_eq!(calculate_efficiency(&block("t", 0, "active")), 600);
    assert_eq!(calculate_efficiency(&block("t", 30, "active")), 600);
    assert_eq!(calculate_efficiency(&block("t", 31, "active")), 850);
    assert_eq!(calculate_efficiency(&block("t", 90, "active")), 850);
    assert_eq!(calculate_efficiency(&block("t", 91, "active")), 950);
    assert_eq!(calculate_efficiency(&block("t", 180, "active")), 950);
    assert_eq!(calculate_efficiency(&block("t", 181, "active")), 800);
    assert_eq!(calculate_efficiency(&block("t", 300, "active")), 800);
    assert_eq!(calculate_efficiency(&block("t", 301, "active")), 600);
}

#[test]
fn efficiency_status_multipliers() {
    // 60 * 1.2 = 72.0 points
    assert_eq!(calculate_efficiency(&block("t", 20, "completed")), 720);
    // 85 * 0.8 = 68.0 points
    assert_eq!(calculate_efficiency(&block("t", 60, "planned")), 680);
    // 95 * 0.9 = 85.5 points for an unrecognized status
    assert_eq!(calculate_efficiency(&block("t", 120, "paused")), 855);
}

#[test]
fn efficiency_caps_at_one_hundred_points() {
    // 85 * 1.2 = 102 and 95 * 1.2 = 114 both cap at 100.0
    assert_eq!(calculate_efficiency(&block("t", 60, "completed")), 1000);
    assert_eq!(calculate_efficiency(&block("t", 120, "completed")), 1000);
}

#[test]
fn efficiency_ignores_title_and_category() {
    let mut a = block("deep complex urgent meeting", 75, "active");
    a.category = Some("Development".to_string());
    a.tags = Some(vec!["x".to_string()]);
    let b = block("t", 75, "active");
    assert_eq!(calculate_efficiency(&a), calculate_efficiency(&b));
}

#[test]
fn efficiency_always_within_range() {
    for duration in [0u32, 1, 30, 31, 90, 91, 180, 181, 300, 301, 100_000, u32::MAX] {
        for status in ["completed", "active", "planned", "weird"] {
            let e = calculate_efficiency(&block("t", duration, status));
            assert!(e <= 1000);
        }
    }
}

#[test]
fn priority_score_components() {
    // duration 60 -> 60 thirds; "meeting" keyword -> 25; active -> 30
    assert_eq!(calculate_priority_score(&block("Team meeting", 60, "active")), 60 + 3 * (25 + 30));
    // duration capped at 120 thirds; "urgent" -> 30; completed -> 10
    assert_eq!(
        calculate_priority_score(&block("urgent fix", 240, "completed")),
        120 + 3 * (30 + 10)
    );
    // no keyword -> 20; planned -> 20
    assert_eq!(calculate_priority_score(&block("reading", 0, "planned")), 3 * (20 + 20));
    // unrecognized status -> 15
    assert_eq!(calculate_priority_score(&block("reading", 120, "odd")), 120 + 3 * (20 + 15));
}

#[test]
fn priority_score_keywords_are_case_insensitive() {
    // If the title were not lowercased first, "IMPORTANT" would not match.
    assert_eq!(
        calculate_priority_score(&block("IMPORTANT Review", 0, "planned")),
        3 * (30 + 20)
    );
}

#[test]
fn optimal_time_buckets() {
    assert_eq!(
        suggest_optimal_time(&block("t", 30, "active")),
        "09:00-10:00 (morning concentration)"
    );
    assert_eq!(suggest_optimal_time(&block("t", 60, "active")), "09:00-10:00 (morning concentration)");
    assert_eq!(suggest_optimal_time(&block("t", 61, "active")), "10:00-12:00 (peak productivity)");
    assert_eq!(suggest_optimal_time(&block("t", 120, "active")), "10:00-12:00 (peak productivity)");
    assert_eq!(suggest_optimal_time(&block("t", 121, "active")), "14:00-17:00 (afternoon work)");
    assert_eq!(suggest_optimal_time(&block("t", 180, "active")), "14:00-17:00 (afternoon work)");
    assert_eq!(suggest_optimal_time(&block("t", 181, "active")), "09:00-12:00 (morning block)");
}

#[test]
fn category_explicit_override_wins() {
    let mut b = block("Team meeting about code", 60, "active");
    b.category = Some("Foo".to_string());
    assert_eq!(determine_category(&b), "Foo");
}

#[test]
fn category_keyword_classes() {
    assert_eq!(determine_category(&block("Weekly conference", 30, "active")), "Communication");
    assert_eq!(determine_category(&block("Write some code", 30, "active")), "Development");
    assert_eq!(determine_category(&block("Rust course", 30, "active")), "Learning");
    assert_eq!(determine_category(&block("Quarter planning", 30, "active")), "Planning");
    assert_eq!(determine_category(&block("Debug the parser", 30, "active")), "Testing");
    assert_eq!(determine_category(&block("Quarterly report", 30, "active")), "Documentation");
    assert_eq!(determine_category(&block("Lunch", 30, "active")), "General tasks");
}

#[test]
fn category_communication_precedes_development() {
    // Both a communication and a development keyword: the communication
    // rule is tried first and wins.
    assert_eq!(
        determine_category(&block("meeting about development", 30, "active")),
        "Communication"
    );
}

#[test]
fn category_matches_substrings_case_insensitively() {
    // "Recall" contains "call"; matching is substring-based.
    assert_eq!(determine_category(&block("Recall the plan later", 30, "active")), "Communication");
    // "CODE" only matches after lowercasing.
    assert_eq!(determine_category(&block("CODE REVIEW", 30, "active")), "Development");
}

#[test]
fn focus_rating_duration_buckets() {
    assert_eq!(calculate_focus_rating(&block("t", 10, "active")), 30);
    assert_eq!(calculate_focus_rating(&block("t", 16, "active")), 50);
    assert_eq!(calculate_focus_rating(&block("t", 46, "active")), 80);
    assert_eq!(calculate_focus_rating(&block("t", 91, "active")), 95);
    assert_eq!(calculate_focus_rating(&block("t", 121, "active")), 90);
    assert_eq!(calculate_focus_rating(&block("t", 181, "active")), 70);
}

#[test]
fn focus_rating_title_adjustments_and_clamp() {
    // deep-work keyword: +1.0
    assert_eq!(calculate_focus_rating(&block("deep analysis", 60, "active")), 90);
    // clamped at 10.0: 9.5 + 1.0 = 10.5 -> 10.0
    assert_eq!(calculate_focus_rating(&block("Complex proof", 100, "active")), 100);
    // routine keyword: -0.5
    assert_eq!(calculate_focus_rating(&block("routine cleanup", 150, "active")), 85);
    assert_eq!(calculate_focus_rating(&block("simple errand", 10, "active")), 25);
}

#[test]
fn focus_rating_always_within_range() {
    for duration in [0u32, 15, 45, 90, 120, 180, 500, u32::MAX] {
        for title in ["", "deep complex", "routine simple", "plain"] {
            let r = calculate_focus_rating(&block(title, duration, "active"));
            assert!((10..=100).contains(&r));
        }
    }
}

#[test]
fn energy_level_buckets() {
    assert_eq!(determine_energy_level(&block("t", 20, "active")), "Low");
    assert_eq!(determine_energy_level(&block("t", 31, "active")), "Medium");
    assert_eq!(determine_energy_level(&block("t", 91, "active")), "High");
    assert_eq!(determine_energy_level(&block("t", 181, "active")), "Very high");
}

#[test]
fn block_suggestions_duration_rules() {
    let b = block("t", 10, "active");
    assert_eq!(
        generate_block_suggestions(&b),
        vec!["Too short a block. Extend it to 25-30 minutes.".to_string()]
    );
    assert_eq!(
        generate_block_suggestions(&block("t", 20, "active")),
        vec!["Great fit for the Pomodoro technique!".to_string()]
    );
    assert_eq!(
        generate_block_suggestions(&block("t", 60, "active")),
        vec!["Ideal length for deep work.".to_string()]
    );
    assert_eq!(
        generate_block_suggestions(&block("t", 200, "active")),
        vec!["Consider splitting into shorter blocks.".to_string()]
    );
}

#[test]
fn block_suggestions_gap_ranges_produce_nothing() {
    // 26-45 and 91-180 minutes are intentional gaps.
    assert!(generate_block_suggestions(&block("t", 30, "active")).is_empty());
    assert!(generate_block_suggestions(&block("t", 120, "active")).is_empty());
}

#[test]
fn block_suggestions_status_and_priority_rules() {
    let mut b = block("t", 100, "planned");
    b.priority = Some("urgent".to_string());
    assert_eq!(
        generate_block_suggestions(&b),
        vec![
            "Remember to start at the scheduled time.".to_string(),
            "High priority - do this first.".to_string(),
        ]
    );
    let mut c = block("t", 200, "completed");
    c.priority = Some("high".to_string());
    assert_eq!(
        generate_block_suggestions(&c),
        vec![
            "Consider splitting into shorter blocks.".to_string(),
            "Well done! Task completed.".to_string(),
            "Important task - schedule it for the morning.".to_string(),
        ]
    );
    let mut d = block("t", 100, "active");
    d.priority = Some("low".to_string());
    assert!(generate_block_suggestions(&d).is_empty());
}
