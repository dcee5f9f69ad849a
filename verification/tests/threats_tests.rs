use zerotrust::config::SimConfig;
use zerotrust::threats::{generate_threats, get_skill_count, get_spawn_interval_ms};

fn cfg(pattern: &str, diversity: &str, dm: u32, count: u32) -> SimConfig {
    SimConfig {
        bot_type: "malware".to_string(),
        damage_multiplier: dm,
        threat_count: count,
        spawn_pattern: pattern.to_string(),
        skill_diversity: diversity.to_string(),
    }
}

#[test]
fn spawn_interval_values() {
    assert_eq!(get_spawn_interval_ms("steady"), 8_000);
    assert_eq!(get_spawn_interval_ms("burst"), 3_000);
    assert_eq!(get_spawn_interval_ms("crescendo"), 12_000);
}

#[test]
fn spawn_interval_unknown_defaults_to_steady() {
    assert_eq!(get_spawn_interval_ms("mystery"), 8_000);
    assert_eq!(get_spawn_interval_ms(""), 8_000);
}

#[test]
fn skill_count_values() {
    assert_eq!(get_skill_count("low"), 2);
    assert_eq!(get_skill_count("medium"), 3);
    assert_eq!(get_skill_count("high"), 4);
}

#[test]
fn skill_count_unknown_defaults_to_medium() {
    assert_eq!(get_skill_count("extreme"), 3);
    assert_eq!(get_skill_count(""), 3);
}

#[test]
fn threat_count_matches_config_for_all_valid_counts() {
    for count in 3..=8u32 {
        let c = cfg("steady", "medium", 100, count);
        let threats = generate_threats(&c, "count-check");
        assert_eq!(threats.len(), count as usize);
    }
}

#[test]
fn generation_is_deterministic() {
    let c = cfg("burst", "high", 150, 5);
    let a = generate_threats(&c, "same-seed");
    let b = generate_threats(&c, "same-seed");
    assert_eq!(a.len(), b.len());
    for (x, y) in a.iter().zip(b.iter()) {
        assert_eq!(x.spawn_time_ms, y.spawn_time_ms);
        assert_eq!(x.required_skill_indices, y.required_skill_indices);
        assert_eq!(x.damage_rate, y.damage_rate);
        assert_eq!(x.current_damage, y.current_damage);
        assert_eq!(x.cure_progress, y.cure_progress);
        assert_eq!(x.is_cured, y.is_cured);
        assert_eq!(x.is_failed, y.is_failed);
    }
}

#[test]
fn generation_known_values_steady_low() {
    // Seed: 64 zero hex digits (all-zero player key) then the bot type.
    let seed = format!("{}{}", "0".repeat(64), "malware");
    let c = cfg("steady", "low", 100, 3);
    let t = generate_threats(&c, &seed);
    assert_eq!(t.len(), 3);
    assert_eq!(t[0].spawn_time_ms, 0);
    assert_eq!(t[1].spawn_time_ms, 8_000);
    assert_eq!(t[2].spawn_time_ms, 16_000);
    assert_eq!(t[0].required_skill_indices, vec![3, 2]);
    assert_eq!(t[1].required_skill_indices, vec![5, 6]);
    assert_eq!(t[2].required_skill_indices, vec![1, 5]);
    for th in &t {
        assert_eq!(th.damage_rate, 12);
        assert_eq!(th.current_damage, 0);
        assert_eq!(th.cure_progress, 0);
        assert_eq!(th.assigned_dev, None);
        assert!(!th.is_cured);
        assert!(!th.is_failed);
    }
}

#[test]
fn generation_known_values_crescendo_high() {
    let c = cfg("crescendo", "high", 150, 4);
    let t = generate_threats(&c, "testseed");
    assert_eq!(t.len(), 4);
    // Crescendo compresses the interval: 12000 * i * 1000 / (1000 + 150 i).
    assert_eq!(t[0].spawn_time_ms, 0);
    assert_eq!(t[1].spawn_time_ms, 10_434);
    assert_eq!(t[2].spawn_time_ms, 18_461);
    assert_eq!(t[3].spawn_time_ms, 24_827);
    assert_eq!(t[0].required_skill_indices, vec![1, 3, 5, 2]);
    assert_eq!(t[1].required_skill_indices, vec![1, 7, 3, 6]);
    assert_eq!(t[2].required_skill_indices, vec![3, 1, 5, 2]);
    assert_eq!(t[3].required_skill_indices, vec![0, 1, 5, 2]);
    for th in &t {
        assert_eq!(th.damage_rate, 18);
    }
}

#[test]
fn generated_skills_are_distinct_and_in_pool() {
    let c = cfg("steady", "high", 200, 8);
    let t = generate_threats(&c, "pool-check");
    for th in &t {
        assert_eq!(th.required_skill_indices.len(), 4);
        for (i, s) in th.required_skill_indices.iter().enumerate() {
            assert!(*s < 9);
            for s2 in &th.required_skill_indices[i + 1..] {
                assert_ne!(s, s2);
            }
        }
    }
}
