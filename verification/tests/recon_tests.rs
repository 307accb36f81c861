use scouter::models::{PopulatedScheduleBlock, User, Window};
use scouter::notify::warning_label;
use scouter::recon::{cycle, decide_warning, select_next, Progress, Warning};

fn user(n: &str) -> User {
    User {
        id: n.to_string(),
        username: n.to_string(),
        first_name: n.to_string(),
        last_name: "Scout".to_string(),
        discord_id: n.to_string(),
    }
}

fn match_block(id: &str, start: i32, last: i32, staffed: bool) -> PopulatedScheduleBlock {
    PopulatedScheduleBlock {
        id: id.to_string(),
        window: Window::Matches {
            start_match: start,
            last_match: last,
        },
        blue1: if staffed { Some(user("a")) } else { None },
        blue2: None,
        blue3: None,
        red1: None,
        red2: None,
        red3: None,
        min_30: false,
        min_10: false,
    }
}

fn time_block(id: &str, start: i64, end: i64) -> PopulatedScheduleBlock {
    PopulatedScheduleBlock {
        id: id.to_string(),
        window: Window::Time {
            start_time: start,
            end_time: end,
        },
        blue1: Some(user("t")),
        blue2: None,
        blue3: None,
        red1: None,
        red2: None,
        red3: None,
        min_30: false,
        min_10: false,
    }
}

#[test]
fn match_scenario_far_then_near_then_silent() {
    // Block with start-match 20, latest completed 17: the far warning
    // fires under the "3 matches" label.
    let mut blocks = vec![match_block("b", 20, 24, true)];
    let plan = cycle(&blocks, &Progress::Matches(17));
    assert_eq!(plan, Some((0, Warning::Far)));
    let label = warning_label(&blocks[0].window, Warning::Far);
    assert_eq!(label, "3 matches");
    blocks[0].update_min_30();

    // Latest completed 19: one match away, the near warning fires
    // under the "1 match!" label.
    let plan = cycle(&blocks, &Progress::Matches(19));
    assert_eq!(plan, Some((0, Warning::Near)));
    let label = warning_label(&blocks[0].window, Warning::Near);
    assert_eq!(label, "1 match!");
    blocks[0].update_min_10();

    // Latest completed 20: the block has passed, nothing fires.
    let plan = cycle(&blocks, &Progress::Matches(20));
    assert_eq!(plan, None);
}

#[test]
fn time_scenario_near_waits_for_its_threshold() {
    // A block starting in 25 minutes whose far flag is already set:
    // the near warning must not fire yet.
    let now: i64 = 1_000_000_000;
    let mut b = time_block("t", now + 25 * 60 * 1000, now + 60 * 60 * 1000);
    b.update_min_30();
    let blocks = vec![b];
    assert_eq!(cycle(&blocks, &Progress::Time(now)), None);

    // At 9 minutes remaining the near warning fires under the
    // "10 minutes" label.
    let now9 = blocks[0].window.start() - 9 * 60 * 1000;
    let plan = cycle(&blocks, &Progress::Time(now9));
    assert_eq!(plan, Some((0, Warning::Near)));
    assert_eq!(warning_label(&blocks[0].window, Warning::Near), "10 minutes");
}

#[test]
fn time_far_warning_label() {
    let now: i64 = 5_000_000;
    let b = time_block("t", now + 20 * 60 * 1000, now + 90 * 60 * 1000);
    let blocks = vec![b];
    let plan = cycle(&blocks, &Progress::Time(now));
    assert_eq!(plan, Some((0, Warning::Far)));
    assert_eq!(warning_label(&blocks[0].window, Warning::Far), "30 minutes");
}

#[test]
fn empty_block_is_never_announced() {
    // All six slots empty: no notification, however close the start.
    let blocks = vec![match_block("b", 20, 24, false)];
    assert_eq!(cycle(&blocks, &Progress::Matches(19)), None);
    assert_eq!(cycle(&blocks, &Progress::Matches(17)), None);
}

#[test]
fn no_progress_data_skips_the_cycle() {
    let blocks = vec![match_block("b", 5, 9, true)];
    assert_eq!(cycle(&blocks, &Progress::NoData), None);
}

#[test]
fn selection_takes_lowest_upcoming_start() {
    let blocks = vec![
        match_block("late", 40, 44, true),
        match_block("passed", 10, 14, true),
        match_block("next", 20, 24, true),
    ];
    // Latest completed 15: the block at 10 has passed, the block at 20
    // is the next relevant one.
    assert_eq!(select_next(&blocks, &Progress::Matches(15)), Some(2));
    // Past everything: nothing is eligible.
    assert_eq!(select_next(&blocks, &Progress::Matches(40)), None);
}

#[test]
fn selection_breaks_ties_by_earliest_position() {
    let blocks = vec![
        match_block("first", 20, 24, true),
        match_block("second", 20, 24, true),
    ];
    assert_eq!(select_next(&blocks, &Progress::Matches(15)), Some(0));
}

#[test]
fn warning_for_lowest_block_only() {
    let blocks = vec![
        match_block("far_off", 40, 44, true),
        match_block("next", 20, 24, true),
    ];
    let plan = cycle(&blocks, &Progress::Matches(18));
    assert_eq!(plan, Some((1, Warning::Far)));
}

#[test]
fn threshold_chain_prefers_far_and_respects_flags() {
    let p = Progress::Matches(19);
    let mut b = match_block("b", 20, 24, true);
    // One away with no flag set: the far branch wins the chain.
    assert_eq!(decide_warning(&b, &p), Some(Warning::Far));
    // Far already sent: the near branch fires at one away.
    b.update_min_30();
    assert_eq!(decide_warning(&b, &p), Some(Warning::Near));
    // Both sent: nothing is left to fire.
    b.update_min_10();
    assert_eq!(decide_warning(&b, &p), None);
}

#[test]
fn near_match_warning_needs_exactly_one_away() {
    let mut b = match_block("b", 20, 24, true);
    b.update_min_30();
    // Two away with the far flag set: the near threshold is not met.
    assert_eq!(decide_warning(&b, &Progress::Matches(18)), None);
    assert_eq!(decide_warning(&b, &Progress::Matches(19)), Some(Warning::Near));
}

#[test]
fn flags_only_ever_rise() {
    let mut b = match_block("b", 20, 24, true);
    assert!(!b.min_30 && !b.min_10);
    b.update_min_30();
    assert!(b.min_30 && !b.min_10);
    b.update_min_10();
    assert!(b.min_30 && b.min_10);
    // Marking again changes nothing and lowers nothing.
    b.update_min_30();
    b.update_min_10();
    assert!(b.min_30 && b.min_10);
}
