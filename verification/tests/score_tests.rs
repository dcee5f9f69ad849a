use zerotrust::score::{calculate_score, data_leak_x100};

#[test]
fn score_perfect_round() {
    // All 3 cured, nothing destroyed, full round: accuracy 10000, time
    // factor 24000 * 100 / 90000 = 26.
    assert_eq!(calculate_score(3, 3, 0, 90_000), 10_026);
}

#[test]
fn score_all_lost_saturates_at_zero() {
    // Accuracy 0, time factor 26, penalty 150: saturating subtraction
    // clamps at zero.
    assert_eq!(calculate_score(0, 3, 3, 90_000), 0);
}

#[test]
fn score_zero_duration_takes_capped_time_factor() {
    assert_eq!(calculate_score(2, 4, 1, 0), 5_000 + 200 - 50);
}

#[test]
fn score_time_factor_caps_at_200() {
    // Short duration: baseline 64000 * 100 / 1000 far exceeds the cap.
    assert_eq!(calculate_score(8, 8, 0, 1_000), 10_000 + 200);
}

#[test]
fn score_zero_threats_uses_denominator_one() {
    // No threats: accuracy 0 / 1 = 0, baseline 0, factor 0 for a full
    // round.
    assert_eq!(calculate_score(0, 0, 0, 90_000), 0);
}

#[test]
fn accuracy_truncates() {
    // 1 of 3 cured: 10000 / 3 truncates to 3333; time factor 26.
    assert_eq!(calculate_score(1, 3, 0, 90_000), 3_333 + 26);
}

#[test]
fn data_leak_scales_and_caps() {
    assert_eq!(data_leak_x100(0, 3), 0);
    assert_eq!(data_leak_x100(1, 4), 2_500);
    assert_eq!(data_leak_x100(3, 3), 10_000);
    assert_eq!(data_leak_x100(2, 3), 6_666);
}

#[test]
fn data_leak_zero_threats() {
    assert_eq!(data_leak_x100(0, 0), 0);
}
