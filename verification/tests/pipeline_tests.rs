use time_block_analytics::model::ProcessedBlock;
use time_block_analytics::model::Ratio;
use time_block_analytics::model::TimeBlock;
use time_block_analytics::pipeline::process_time_blocks;

fn block(id: u32, title: &str, duration: u32, status: &str) -> TimeBlock {
    TimeBlock {
        id,
        title: title.to_string(),
        duration,
        created_at: "x".to_string(),
        status: status.to_string(),
        priority: None,
        category: None,
        tags: None,
    }
}

#[test]
fn empty_input_yields_the_zeroed_report() {
    let r = process_time_blocks(&vec![]);
    assert!(r.processed_blocks.is_empty());
    assert_eq!(r.total_efficiency, Ratio { num: 0, den: 1 });
    assert_eq!(r.optimization_suggestions, vec!["Add time blocks to analyze.".to_string()]);
    assert_eq!(r.processor, "rust");
    let m = &r.performance_metrics;
    assert_eq!(m.total_duration, 0);
    assert_eq!(m.average_duration, Ratio { num: 0, den: 1 });
    assert_eq!(m.efficiency_distribution.low, 0);
    assert_eq!(m.efficiency_distribution.medium, 0);
    assert_eq!(m.efficiency_distribution.high, 0);
    assert_eq!(m.efficiency_distribution.excellent, 0);
    assert!(m.peak_productivity_hours.is_empty());
    assert_eq!(m.fragmentation_index, Ratio { num: 0, den: 1 });
    assert_eq!(m.productivity_score, Ratio { num: 0, den: 1 });
    assert_eq!(m.focus_time_percentage, Ratio { num: 0, den: 1 });
    assert!(m.category_breakdown.is_empty());
    assert!(m.weekly_trend.is_empty());
    assert_eq!(m.burnout_risk, "Low");
}

#[test]
fn quick_call_scenario() {
    let r = process_time_blocks(&vec![block(1, "Quick call", 20, "active")]);
    assert_eq!(r.processed_blocks.len(), 1);
    let p = &r.processed_blocks[0];
    // 60 points: duration bucket 0-30, active multiplier 1.0, under the cap
    assert_eq!(p.efficiency_tenths, 600);
    assert_eq!(p.category, "Communication");
    assert_eq!(p.energy_level, "Low");
    assert_eq!(p.id, 1);
    assert_eq!(p.title, "Quick call");
    assert_eq!(p.duration, 20);
    assert_eq!(p.created_at, "x");
    assert_eq!(p.status, "active");
    assert_eq!(r.total_efficiency, Ratio { num: 600, den: 10 });
}

#[test]
fn output_preserves_input_order_and_count() {
    let blocks = vec![
        block(5, "a", 10, "active"),
        block(3, "b", 20, "planned"),
        block(9, "c", 30, "completed"),
        block(3, "d", 40, "active"),
    ];
    let r = process_time_blocks(&blocks);
    assert_eq!(r.processed_blocks.len(), blocks.len());
    let ids: Vec<u32> = r.processed_blocks.iter().map(|p| p.id).collect();
    assert_eq!(ids, vec![5, 3, 9, 3]);
    let titles: Vec<&str> = r.processed_blocks.iter().map(|p| p.title.as_str()).collect();
    assert_eq!(titles, vec!["a", "b", "c", "d"]);
}

fn assert_same_but_processed_at(p1: &ProcessedBlock, p2: &ProcessedBlock) {
    assert_eq!(p1.id, p2.id);
    assert_eq!(p1.title, p2.title);
    assert_eq!(p1.duration, p2.duration);
    assert_eq!(p1.created_at, p2.created_at);
    assert_eq!(p1.status, p2.status);
    assert_eq!(p1.efficiency_tenths, p2.efficiency_tenths);
    assert_eq!(p1.priority_score_thirds, p2.priority_score_thirds);
    assert_eq!(p1.optimal_time, p2.optimal_time);
    assert_eq!(p1.category, p2.category);
    assert_eq!(p1.focus_rating_tenths, p2.focus_rating_tenths);
    assert_eq!(p1.energy_level, p2.energy_level);
    assert_eq!(p1.improvement_suggestions, p2.improvement_suggestions);
}

#[test]
fn two_runs_agree_except_for_processed_at() {
    let mut special = block(4, "urgent deep work", 75, "planned");
    special.priority = Some("high".to_string());
    special.category = Some("Research".to_string());
    let blocks = vec![
        block(1, "Quick call", 20, "active"),
        block(2, "Write some code", 60, "completed"),
        block(3, "Lunch", 200, "weird"),
        special,
    ];
    let r1 = process_time_blocks(&blocks);
    let r2 = process_time_blocks(&blocks);
    assert_eq!(r1.processed_blocks.len(), r2.processed_blocks.len());
    for (p1, p2) in r1.processed_blocks.iter().zip(r2.processed_blocks.iter()) {
        assert_same_but_processed_at(p1, p2);
    }
    assert_eq!(r1.total_efficiency, r2.total_efficiency);
    assert_eq!(r1.optimization_suggestions, r2.optimization_suggestions);
    assert_eq!(r1.processor, r2.processor);
    let m1 = &r1.performance_metrics;
    let m2 = &r2.performance_metrics;
    assert_eq!(m1.total_duration, m2.total_duration);
    assert_eq!(m1.average_duration, m2.average_duration);
    assert_eq!(m1.efficiency_distribution, m2.efficiency_distribution);
    assert_eq!(m1.peak_productivity_hours, m2.peak_productivity_hours);
    assert_eq!(m1.fragmentation_index, m2.fragmentation_index);
    assert_eq!(m1.productivity_score, m2.productivity_score);
    assert_eq!(m1.focus_time_percentage, m2.focus_time_percentage);
    assert_eq!(m1.category_breakdown.len(), m2.category_breakdown.len());
    for (e1, e2) in m1.category_breakdown.iter().zip(m2.category_breakdown.iter()) {
        assert_eq!(e1.category, e2.category);
        assert_eq!(e1.total_time, e2.total_time);
        assert_eq!(e1.efficiency, e2.efficiency);
        assert_eq!(e1.completion_rate, e2.completion_rate);
        assert_eq!(e1.count, e2.count);
    }
    assert_eq!(m1.weekly_trend.len(), m2.weekly_trend.len());
    for (d1, d2) in m1.weekly_trend.iter().zip(m2.weekly_trend.iter()) {
        assert_eq!(d1.day, d2.day);
        assert_eq!(d1.total_duration, d2.total_duration);
        assert_eq!(d1.efficiency, d2.efficiency);
        assert_eq!(d1.blocks_count, d2.blocks_count);
    }
    assert_eq!(m1.burnout_risk, m2.burnout_risk);
}

#[test]
fn per_block_fields_flow_into_the_report() {
    let mut b = block(2, "deep planning session", 100, "planned");
    b.priority = Some("urgent".to_string());
    let r = process_time_blocks(&vec![b]);
    let p = &r.processed_blocks[0];
    // 95 * 0.8 = 76.0 points
    assert_eq!(p.efficiency_tenths, 760);
    // min(100,120) + 3 * (20 no-keyword + 20 planned)
    assert_eq!(p.priority_score_thirds, 100 + 3 * 40);
    assert_eq!(p.optimal_time, "10:00-12:00 (peak productivity)");
    // 9.5 base + 1.0 deep bonus, clamped to 10.0
    assert_eq!(p.focus_rating_tenths, 100);
    assert_eq!(p.category, "Planning");
    assert_eq!(p.energy_level, "High");
    assert_eq!(
        p.improvement_suggestions,
        vec![
            "Remember to start at the scheduled time.".to_string(),
            "High priority - do this first.".to_string(),
        ]
    );
}
