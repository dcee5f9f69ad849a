use zerotrust::cure::{cure_speed, dev_skills};
use zerotrust::sim::{simulate, validate_action_log, ActionEntry, SimError};
use zerotrust::threats::Threat;

fn entry(dev: u32, threat: u32, from: u32, to: u32) -> ActionEntry {
    ActionEntry { dev_index: dev, threat_index: threat, assigned_at_ms: from, unassigned_at_ms: to }
}

fn fresh_threat(spawn: u32, req: Vec<usize>, rate: u32) -> Threat {
    Threat {
        spawn_time_ms: spawn,
        required_skill_indices: req,
        damage_rate: rate,
        current_damage: 0,
        cure_progress: 0,
        assigned_dev: None,
        is_cured: false,
        is_failed: false,
    }
}

#[test]
fn cure_speed_rate_table() {
    // Developer 0 holds skills 0, 3 and 5.
    assert_eq!(dev_skills(0), (0, 3, 5));
    assert_eq!(cure_speed(&vec![0, 3], 0), 300); // full match on 2 skills
    assert_eq!(cure_speed(&vec![0, 3, 5], 0), 300); // full match on 3 skills
    assert_eq!(cure_speed(&vec![0, 3, 1], 0), 200); // 2 of 3
    assert_eq!(cure_speed(&vec![0, 1, 2], 0), 100); // 1 of 3
    assert_eq!(cure_speed(&vec![1, 2, 4], 0), 50); // none
    assert_eq!(cure_speed(&vec![0, 1], 0), 100); // 1 of 2: 3/2 truncates to 1
    assert_eq!(cure_speed(&vec![0, 3, 5, 1], 0), 200); // 3 of 4: 9/4 truncates to 2
}

#[test]
fn validate_accepts_well_formed_log() {
    let log = vec![entry(0, 0, 0, 1000), entry(1, 1, 0, 1000), entry(0, 1, 1000, 2000)];
    assert!(validate_action_log(&log, 3).is_ok());
}

#[test]
fn validate_accepts_empty_log() {
    let log: Vec<ActionEntry> = vec![];
    assert!(validate_action_log(&log, 3).is_ok());
}

#[test]
fn validate_rejects_dev_out_of_range() {
    let log = vec![entry(10, 0, 0, 1000)];
    assert_eq!(validate_action_log(&log, 3), Err(SimError::DevIndexOutOfBounds));
}

#[test]
fn validate_rejects_threat_out_of_range() {
    let log = vec![entry(0, 3, 0, 1000)];
    assert_eq!(validate_action_log(&log, 3), Err(SimError::ThreatIndexOutOfBounds));
}

#[test]
fn validate_rejects_malformed_window() {
    let log = vec![entry(0, 0, 1000, 1000)];
    assert_eq!(validate_action_log(&log, 3), Err(SimError::InvalidWindow));
    let log = vec![entry(0, 0, 1000, 500)];
    assert_eq!(validate_action_log(&log, 3), Err(SimError::InvalidWindow));
}

#[test]
fn validate_rejects_window_after_round_end() {
    let log = vec![entry(0, 0, 90_001, 91_000)];
    assert_eq!(validate_action_log(&log, 3), Err(SimError::WindowAfterRoundEnd));
}

#[test]
fn validate_rejects_overlap_regardless_of_order() {
    let a = entry(4, 0, 0, 5_000);
    let b = entry(4, 1, 4_000, 9_000);
    assert_eq!(validate_action_log(&vec![a, b], 3), Err(SimError::DevDoubleAssigned));
    assert_eq!(validate_action_log(&vec![b, a], 3), Err(SimError::DevDoubleAssigned));
}

#[test]
fn validate_accepts_touching_windows_of_one_dev() {
    // Half-open windows: one may start exactly where the other ends.
    let a = entry(4, 0, 0, 5_000);
    let b = entry(4, 1, 5_000, 9_000);
    assert!(validate_action_log(&vec![a, b], 3).is_ok());
    assert!(validate_action_log(&vec![b, a], 3).is_ok());
}

#[test]
fn validate_allows_same_window_for_different_devs() {
    let a = entry(1, 0, 0, 5_000);
    let b = entry(2, 1, 0, 5_000);
    assert!(validate_action_log(&vec![a, b], 3).is_ok());
}

#[test]
fn unattended_threats_accumulate_damage_and_never_reach_threshold() {
    // Damage tops out at 24 per tick x1000, so 900 ticks cannot reach
    // 100000: an unattended threat survives the round damaged.
    let mut threats = vec![
        fresh_threat(0, vec![3, 2], 12),
        fresh_threat(8_000, vec![5, 6], 12),
        fresh_threat(16_000, vec![1, 5], 12),
    ];
    let log: Vec<ActionEntry> = vec![];
    let (cured, destroyed, unattended) = simulate(&mut threats, &log);
    assert_eq!(cured, 0);
    assert_eq!(destroyed, 0);
    assert_eq!(unattended, 0);
    assert_eq!(threats[0].current_damage, 900 * 12);
    assert_eq!(threats[1].current_damage, 820 * 12);
    assert_eq!(threats[2].current_damage, 740 * 12);
    for t in &threats {
        assert_eq!(t.cure_progress, 0);
        assert!(!t.is_cured);
        assert!(!t.is_failed);
    }
}

#[test]
fn fully_matched_assignment_cures_at_tick_334() {
    // Two required skills fully covered by developer 0: rate 300 per tick,
    // so cure progress crosses 100000 on the 334th tick.
    let mut threats = vec![fresh_threat(0, vec![0, 3], 12)];
    let log = vec![entry(0, 0, 0, 90_000)];
    let (cured, destroyed, unattended) = simulate(&mut threats, &log);
    assert_eq!(cured, 1);
    assert_eq!(destroyed, 0);
    assert_eq!(unattended, 0);
    assert!(threats[0].is_cured);
    assert!(!threats[0].is_failed);
    assert_eq!(threats[0].cure_progress, 334 * 300);
    assert_eq!(threats[0].current_damage, 0);
}

#[test]
fn terminal_threat_is_frozen() {
    let mut threats = vec![fresh_threat(0, vec![0, 3], 12)];
    let log = vec![entry(0, 0, 0, 90_000)];
    simulate(&mut threats, &log);
    let after_cure = threats[0].cure_progress;
    // The threat cured early in the round; the remaining ticks changed
    // nothing.
    assert_eq!(after_cure, 334 * 300);
    assert!(threats[0].cure_progress < 110_000);
}

#[test]
fn no_threat_is_both_cured_and_failed() {
    let mut threats = vec![
        fresh_threat(0, vec![0, 3], 24),
        fresh_threat(0, vec![1, 2], 24),
    ];
    let log = vec![entry(0, 0, 0, 90_000)];
    simulate(&mut threats, &log);
    for t in &threats {
        assert!(!(t.is_cured && t.is_failed));
    }
}

#[test]
fn assignment_window_limits_cure_progress() {
    // Assigned for the first 100 ticks only; progress freezes after.
    let mut threats = vec![fresh_threat(0, vec![0, 3], 12)];
    let log = vec![entry(0, 0, 0, 10_000)];
    let (cured, _, _) = simulate(&mut threats, &log);
    assert_eq!(cured, 0);
    assert_eq!(threats[0].cure_progress, 100 * 300);
    // Damage resumed for the remaining 800 ticks.
    assert_eq!(threats[0].current_damage, 800 * 12);
}
