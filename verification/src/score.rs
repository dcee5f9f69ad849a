//! Score calculation: turns the round's outcome counters into the published
//! score and the derived accuracy and data-leak metrics.
//!
//! All quantities are scaled integers (basis points x10000, percent x100);
//! the formulas truncate exactly as written, and the final subtraction
//! saturates at zero.

use vstd::prelude::*;

verus! {

/// Accuracy in basis points: cured * 10000 / max(total, 1).
pub open spec fn spec_accuracy_bps(threats_cured: u32, threats_total: u32) -> int {
    threats_cured * 10000 / (if threats_total == 0 {
        1int
    } else {
        threats_total as int
    })
}

/// Time factor x100, capped at 200: baseline over actual duration, where the
/// baseline allots 8000 ms per threat.  A zero duration takes the cap.
pub open spec fn spec_time_factor(threats_total: u32, duration_ms: u32) -> int {
    if duration_ms == 0 {
        200int
    } else {
        let tf = threats_total * 8000 * 100 / duration_ms as int;
        if tf > 200 {
            200int
        } else {
            tf
        }
    }
}

/// Published score: accuracy plus time factor, minus 50 per destroyed
/// system, clamped at zero on underflow.
pub open spec fn spec_score(
    threats_cured: u32,
    threats_total: u32,
    systems_destroyed: u32,
    duration_ms: u32,
) -> int {
    let base = spec_accuracy_bps(threats_cured, threats_total) + spec_time_factor(
        threats_total,
        duration_ms,
    );
    let penalty = systems_destroyed * 50;
    if base - penalty < 0 {
        0int
    } else {
        base - penalty
    }
}

/// Data-leak metric, percent x100: unattended failures over max(total, 1),
/// capped at 10000.
pub open spec fn spec_data_leak_x100(unattended_failures: u32, threats_total: u32) -> int {
    let raw = unattended_failures * 10000 / (if threats_total == 0 {
        1int
    } else {
        threats_total as int
    });
    if raw > 10000 {
        10000int
    } else {
        raw
    }
}

/// Accuracy stays within [0, 10000] whenever no more threats are cured than
/// exist.
pub proof fn lemma_accuracy_bounds(threats_cured: u32, threats_total: u32)
    requires
        threats_cured <= threats_total,
    ensures
        0 <= spec_accuracy_bps(threats_cured, threats_total) <= 10000,
{
    if threats_total > 0 {
        assert(threats_cured * 10000 <= threats_total * 10000) by (nonlinear_arith)
            requires
                threats_cured <= threats_total,
        ;
        assert(threats_total * 10000 / threats_total as int == 10000) by (nonlinear_arith)
            requires
                threats_total > 0,
        ;
        vstd::arithmetic::div_mod::lemma_div_is_ordered(
            threats_cured * 10000,
            threats_total * 10000,
            threats_total as int,
        );
    }
}

/// The data-leak metric stays within [0, 10000] for every counter value.
pub proof fn lemma_data_leak_bounds(unattended_failures: u32, threats_total: u32)
    ensures
        0 <= spec_data_leak_x100(unattended_failures, threats_total) <= 10000,
{
}

/// The score is never negative, for any counter values: the subtraction
/// saturates.
pub proof fn lemma_score_nonnegative(
    threats_cured: u32,
    threats_total: u32,
    systems_destroyed: u32,
    duration_ms: u32,
)
    ensures
        spec_score(threats_cured, threats_total, systems_destroyed, duration_ms) >= 0,
{
}

/// Computes the published score from the outcome counters.
///
/// The bounds in the precondition are those of a simulated round: at most
/// eight threats exist, and no more can be cured or destroyed than exist.
pub fn calculate_score(
    threats_cured: u32,
    threats_total: u32,
    systems_destroyed: u32,
    duration_ms: u32,
) -> (r: u32)
    requires
        threats_total <= 8,
        threats_cured <= threats_total,
        systems_destroyed <= threats_total,
    ensures
        r == spec_score(threats_cured, threats_total, systems_destroyed, duration_ms),
        r <= 10200,
{
    proof {
        lemma_accuracy_bounds(threats_cured, threats_total);
    }
    let denom = if threats_total == 0 {
        1
    } else {
        threats_total
    };
    let accuracy_bps = threats_cured * 10_000 / denom;

    let baseline_ms = threats_total * 8_000;
    let time_factor = if duration_ms == 0 {
        200u32
    } else {
        let tf = baseline_ms * 100 / duration_ms;
        if tf > 200 {
            200u32
        } else {
            tf
        }
    };

    let damage_penalty = systems_destroyed * 50;
    accuracy_bps.saturating_add(time_factor).saturating_sub(damage_penalty)
}

/// Computes the data-leak metric from the unattended-failure counter.
pub fn data_leak_x100(unattended_failures: u32, threats_total: u32) -> (r: u32)
    requires
        threats_total <= 8,
        unattended_failures <= threats_total,
    ensures
        r == spec_data_leak_x100(unattended_failures, threats_total),
        r <= 10000,
{
    let denom = if threats_total == 0 {
        1
    } else {
        threats_total
    };
    let raw = unattended_failures * 10_000 / denom;
    if raw > 10_000 {
        10_000
    } else {
        raw
    }
}

} // verus!
