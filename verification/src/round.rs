//! One whole round: seed construction, threat generation, action-log
//! validation, the tick replay, scoring, and the journal record.
//!
//! This is the computation that runs inside the proof boundary.  The seed
//! is the player key in lowercase hex followed by the bot type name; the
//! round then replays deterministically, so the produced journal is a
//! function of the public inputs and the action log alone.

use vstd::prelude::*;
use vstd::string::StringExecFns;
use vstd::string::StringSliceAdditionalSpecFns;
use vstd::utf8::encode_utf8;
use crate::config::SimConfig;
use crate::hex::hex_encode;
use crate::hex::spec_hex_of;
use crate::journal::Journal;
use crate::journal::RoundOutcome;
use crate::score::calculate_score;
use crate::score::data_leak_x100;
use crate::score::lemma_accuracy_bounds;
use crate::score::spec_accuracy_bps;
use crate::score::spec_data_leak_x100;
use crate::score::spec_score;
use crate::sim::ActionEntry;
use crate::sim::ROUND_DURATION_MS;
use crate::sim::SimError;
use crate::sim::lemma_sim_counter_bounds;
use crate::sim::simulate;
use crate::sim::spec_count_cured;
use crate::sim::spec_count_failed;
use crate::sim::spec_log_valid;
use crate::sim::spec_sim_upto;
use crate::sim::spec_threat_fresh;
use crate::sim::spec_threats_sim_pre;
use crate::sim::spec_validate_log;
use crate::sim::validate_action_log;
use crate::threats::ThreatModel;
use crate::threats::generate_threats;
use crate::threats::lemma_gen_from_wf;
use crate::threats::spec_generate_threats;
use crate::threats::spec_skill_count;
use crate::threats::threats_view;
use crate::rng::seed_state;

verus! {

/// The seed string of a round: the player key in lowercase hex, then the
/// bot type name.
pub open spec fn spec_round_seed(pubkey: Seq<u8>, bot_type: Seq<char>) -> Seq<char> {
    spec_hex_of(pubkey) + bot_type
}

/// Builds the round seed from the player key and the bot type name.
pub fn make_seed(player_pubkey: &[u8; 32], bot_type: &str) -> (r: String)
    ensures
        r@ == spec_round_seed(player_pubkey@, bot_type@),
{
    let h = hex_encode(player_pubkey.as_slice());
    h.concat(bot_type)
}

/// The outcome of a round as a function of the configuration values, the
/// seed bytes and the action log.
pub open spec fn spec_round_outcome(
    p: Seq<char>,
    d: Seq<char>,
    dm: int,
    count: int,
    seed_bytes: Seq<u8>,
    log: Seq<ActionEntry>,
) -> RoundOutcome {
    let threats = spec_generate_threats(p, d, dm, seed_bytes, count);
    let s = spec_sim_upto(threats, log, 900);
    RoundOutcome {
        threats_cured: s.1 as u32,
        systems_destroyed: s.2 as u32,
        data_leaked_x100: spec_data_leak_x100(s.3 as u32, count as u32) as u32,
        score: spec_score(s.1 as u32, count as u32, s.2 as u32, 90_000) as u32,
        duration_ms: 90_000,
        accuracy_bps: spec_accuracy_bps(s.1 as u32, count as u32) as u32,
    }
}

proof fn lemma_count_fresh_zero(s: Seq<ThreatModel>)
    requires
        forall|q: int| 0 <= q < s.len() ==> !(#[trigger] s[q]).is_cured && !s[q].is_failed,
    ensures
        spec_count_cured(s) == 0,
        spec_count_failed(s) == 0,
    decreases s.len(),
{
    if s.len() > 0 {
        lemma_count_fresh_zero(s.drop_last());
    }
}

/// Runs one round inside the proof boundary: generates the threats from
/// the configuration and seed, validates the action log, replays the
/// round, and assembles the journal record.  Fails exactly when the log
/// fails validation, with the first error of the documented check order.
pub fn run_round(
    challenge_id: u32,
    player_pubkey: &[u8; 32],
    bot_config_id: u32,
    config: &SimConfig,
    action_log: &Vec<ActionEntry>,
) -> (r: Result<Journal, SimError>)
    requires
        50 <= config.damage_multiplier <= 200,
        3 <= config.threat_count <= 8,
    ensures
        r is Ok <==> spec_validate_log(action_log@, config.threat_count as int) is None,
        r matches Err(e) ==> Some(e) == spec_validate_log(
            action_log@,
            config.threat_count as int,
        ),
        r matches Ok(j) ==> {
            &&& j.challenge_id == challenge_id
            &&& j@.player_pubkey == player_pubkey@
            &&& j.bot_config_id == bot_config_id
            &&& j.outcome == spec_round_outcome(
                config.spawn_pattern@,
                config.skill_diversity@,
                config.damage_multiplier as int,
                config.threat_count as int,
                encode_utf8(spec_round_seed(player_pubkey@, config.bot_type@)),
                action_log@,
            )
        },
{
    let ghost p = config.spawn_pattern@;
    let ghost d = config.skill_diversity@;
    let ghost dm = config.damage_multiplier as int;
    let ghost count = config.threat_count as int;
    let ghost seed_bytes = encode_utf8(spec_round_seed(player_pubkey@, config.bot_type@));

    let seed = make_seed(player_pubkey, config.bot_type.as_str());
    let mut threats = generate_threats(config, seed.as_str());
    let total = config.threat_count;
    let ghost init = threats_view(threats@);

    match validate_action_log(action_log, threats.len()) {
        Err(e) => {
            return Err(e);
        },
        Ok(()) => {},
    }

    proof {
        let k = spec_skill_count(d);
        assert(2 <= k <= 4);
        assert(dm * 12 <= 2400);
        assert(dm * 12 / 100 <= 24);
        assert(dm * 12 / 100 >= 0);
        lemma_gen_from_wf(p, k, dm, seed_state(seed_bytes), 0, count);
        assert(forall|q: int| 0 <= q < init.len() ==> spec_threat_fresh(#[trigger] init[q]));
        assert(spec_threats_sim_pre(init));
        lemma_count_fresh_zero(init);
        lemma_sim_counter_bounds(init, action_log@, 900);
        lemma_accuracy_bounds(
            spec_sim_upto(init, action_log@, 900).1 as u32,
            config.threat_count,
        );
    }

    let counters = simulate(&mut threats, action_log);
    let cured = counters.0;
    let destroyed = counters.1;
    let unattended = counters.2;

    let score = calculate_score(cured, total, destroyed, ROUND_DURATION_MS);
    let denom = if total == 0 {
        1
    } else {
        total
    };
    let accuracy_bps = cured * 10_000 / denom;
    let data_leaked_x100 = data_leak_x100(unattended, total);

    Ok(
        Journal {
            challenge_id,
            player_pubkey: *player_pubkey,
            bot_config_id,
            outcome: RoundOutcome {
                threats_cured: cured,
                systems_destroyed: destroyed,
                data_leaked_x100,
                score,
                duration_ms: ROUND_DURATION_MS,
                accuracy_bps,
            },
        },
    )
}

} // verus!
