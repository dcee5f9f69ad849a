//! Threat generation: the deterministic population of a round.
//!
//! For each threat index the generator derives a spawn time from the spawn
//! pattern, draws the required skills by a Fisher-Yates shuffle over the
//! fixed nine-entry skill pool, and fixes the damage rate from the damage
//! multiplier.  The generator consumes the random sequence in exactly this
//! order; the spec functions below mirror every step, so the whole output
//! is pinned as a function of configuration and seed.

use vstd::prelude::*;
use vstd::string::StringSliceAdditionalSpecFns;
use crate::config::SimConfig;
use crate::cure::SKILL_POOL_LEN;
use crate::rng::Rng;
use crate::rng::rng_step;
use crate::rng::seed_state;

verus! {

/// A hostile event of one round.  Accumulators advance tick by tick until
/// one of the terminal flags becomes true.
#[derive(Clone, Debug)]
pub struct Threat {
    /// When the threat appears, in ms from round start.
    pub spawn_time_ms: u32,
    /// Skill-pool indices a developer must match to cure it.
    pub required_skill_indices: Vec<usize>,
    /// Damage per tick, fixed-point x1000.
    pub damage_rate: u32,
    /// Accumulated damage, fixed-point x1000; 100000 destroys the system.
    pub current_damage: u32,
    /// Accumulated cure progress, fixed-point x1000; 100000 cures.
    pub cure_progress: u32,
    /// Developer working on the threat at the last simulated tick.
    pub assigned_dev: Option<usize>,
    /// Terminal: the threat was cured.
    pub is_cured: bool,
    /// Terminal: the threat destroyed its system.
    pub is_failed: bool,
}

/// Mathematical model of a threat; the view of `Threat`.
pub ghost struct ThreatModel {
    /// When the threat appears, in ms from round start.
    pub spawn_time_ms: int,
    /// Skill-pool indices a developer must match to cure it.
    pub required_skills: Seq<usize>,
    /// Damage per tick, fixed-point x1000.
    pub damage_rate: int,
    /// Accumulated damage, fixed-point x1000.
    pub current_damage: int,
    /// Accumulated cure progress, fixed-point x1000.
    pub cure_progress: int,
    /// Developer working on the threat at the last simulated tick.
    pub assigned_dev: Option<int>,
    /// Terminal: cured.
    pub is_cured: bool,
    /// Terminal: failed.
    pub is_failed: bool,
}

impl View for Threat {
    type V = ThreatModel;

    open spec fn view(&self) -> ThreatModel {
        ThreatModel {
            spawn_time_ms: self.spawn_time_ms as int,
            required_skills: self.required_skill_indices@,
            damage_rate: self.damage_rate as int,
            current_damage: self.current_damage as int,
            cure_progress: self.cure_progress as int,
            assigned_dev: match self.assigned_dev {
                Some(d) => Some(d as int),
                None => None,
            },
            is_cured: self.is_cured,
            is_failed: self.is_failed,
        }
    }
}

/// The models of a sequence of threats.
pub open spec fn threats_view(s: Seq<Threat>) -> Seq<ThreatModel> {
    s.map_values(|t: Threat| t@)
}

/// Spawn interval in ms for a pattern name; an unrecognised name takes the
/// steady interval.
pub open spec fn spec_spawn_interval(p: Seq<char>) -> int {
    if p == "steady"@ {
        8000
    } else if p == "burst"@ {
        3000
    } else if p == "crescendo"@ {
        12000
    } else {
        8000
    }
}

/// Required-skill count for a diversity name; an unrecognised name takes
/// the medium count.
pub open spec fn spec_skill_count(d: Seq<char>) -> int {
    if d == "low"@ {
        2
    } else if d == "medium"@ {
        3
    } else if d == "high"@ {
        4
    } else {
        3
    }
}

/// Spawn time of threat `i`: a fixed interval per index, compressed for the
/// crescendo pattern by the factor 1000 / (1000 + 150 i), truncating.
pub open spec fn spec_spawn_time(p: Seq<char>, i: int) -> int {
    if p == "crescendo"@ {
        let numer = spec_spawn_interval(p) * i;
        let denom = 1000 + i * 150;
        numer * 1000 / (if denom < 1 {
            1int
        } else {
            denom
        })
    } else {
        spec_spawn_interval(p) * i
    }
}

/// The skill pool as the identity sequence of its indices.
pub open spec fn spec_skill_pool_indices() -> Seq<usize> {
    seq![0usize, 1usize, 2usize, 3usize, 4usize, 5usize, 6usize, 7usize, 8usize]
}

/// Fisher-Yates from position `j` down to 1: draw, swap, recurse.  Returns
/// the shuffled sequence and the generator state after the draws.
pub open spec fn spec_shuffle_down(indices: Seq<usize>, state: u64, j: int) -> (Seq<usize>, u64)
    decreases j,
{
    if j < 1 {
        (indices, state)
    } else {
        let ns = rng_step(state);
        let k = ns as usize % ((j + 1) as usize);
        let swapped = indices.update(j, indices[k as int]).update(k as int, indices[j]);
        spec_shuffle_down(swapped, ns, j - 1)
    }
}

/// The required skills drawn for one threat: shuffle the whole pool, take
/// the first `k` entries.
pub open spec fn spec_threat_skills(state: u64, k: int) -> Seq<usize> {
    spec_shuffle_down(spec_skill_pool_indices(), state, 8).0.take(k)
}

/// Generator state after one threat's skill draws.
pub open spec fn spec_state_after_shuffle(state: u64) -> u64 {
    spec_shuffle_down(spec_skill_pool_indices(), state, 8).1
}

/// The model of threat `i`, given its drawn skills.
pub open spec fn spec_threat_at(p: Seq<char>, skills: Seq<usize>, dm: int, i: int) -> ThreatModel {
    ThreatModel {
        spawn_time_ms: spec_spawn_time(p, i),
        required_skills: skills,
        damage_rate: dm * 12 / 100,
        current_damage: 0,
        cure_progress: 0,
        assigned_dev: None,
        is_cured: false,
        is_failed: false,
    }
}

/// Threats `i..count`, with the generator in state `state` before threat
/// `i`'s draws.
pub open spec fn spec_gen_from(
    p: Seq<char>,
    k: int,
    dm: int,
    state: u64,
    i: int,
    count: int,
) -> Seq<ThreatModel>
    decreases count - i,
{
    if i >= count {
        Seq::empty()
    } else {
        seq![spec_threat_at(p, spec_threat_skills(state, k), dm, i)] + spec_gen_from(
            p,
            k,
            dm,
            spec_state_after_shuffle(state),
            i + 1,
            count,
        )
    }
}

/// The full threat population of a round, as a function of the pattern and
/// diversity names, the damage multiplier, the seed bytes and the count.
pub open spec fn spec_generate_threats(
    p: Seq<char>,
    d: Seq<char>,
    dm: int,
    seed_bytes: Seq<u8>,
    count: int,
) -> Seq<ThreatModel> {
    spec_gen_from(p, spec_skill_count(d), dm, seed_state(seed_bytes), 0, count)
}

/// String equality through the views.
pub fn str_eq(a: &str, b: &str) -> (r: bool)
    ensures
        r == (a@ == b@),
{
    let s1 = a.to_owned();
    let s2 = b.to_owned();
    s1 == s2
}

/// Spawn interval in ms for a pattern name; unknown names take the steady
/// interval.
pub fn get_spawn_interval_ms(pattern: &str) -> (r: u32)
    ensures
        r == spec_spawn_interval(pattern@),
{
    if str_eq(pattern, "steady") {
        8_000
    } else if str_eq(pattern, "burst") {
        3_000
    } else if str_eq(pattern, "crescendo") {
        12_000
    } else {
        8_000
    }
}

/// Required-skill count for a diversity name; unknown names take the
/// medium count.
pub fn get_skill_count(diversity: &str) -> (r: usize)
    ensures
        r == spec_skill_count(diversity@),
        2 <= r <= 4,
{
    if str_eq(diversity, "low") {
        2
    } else if str_eq(diversity, "medium") {
        3
    } else if str_eq(diversity, "high") {
        4
    } else {
        3
    }
}

/// The views of a pushed sequence are the views, pushed.
proof fn lemma_threats_view_push(s: Seq<Threat>, t: Threat)
    ensures
        threats_view(s.push(t)) =~= threats_view(s).push(t@),
{
}

/// Generates the round's threat population.  The output length always
/// equals the configured threat count, and the whole sequence of models is
/// the spec-level generation function of the configuration and seed.
pub fn generate_threats(config: &SimConfig, seed: &str) -> (threats: Vec<Threat>)
    requires
        50 <= config.damage_multiplier <= 200,
        3 <= config.threat_count <= 8,
    ensures
        threats@.len() == config.threat_count,
        threats_view(threats@) == spec_generate_threats(
            config.spawn_pattern@,
            config.skill_diversity@,
            config.damage_multiplier as int,
            seed.spec_bytes(),
            config.threat_count as int,
        ),
{
    let mut rng = Rng::new(seed);
    let interval_ms = get_spawn_interval_ms(config.spawn_pattern.as_str());
    let skill_count = get_skill_count(config.skill_diversity.as_str());
    let is_crescendo = str_eq(config.spawn_pattern.as_str(), "crescendo");
    let count = config.threat_count as usize;

    let ghost pattern = config.spawn_pattern@;
    let ghost k = spec_skill_count(config.skill_diversity@);
    let ghost dm = config.damage_multiplier as int;
    let ghost full = spec_gen_from(pattern, k, dm, rng.state, 0, count as int);

    let mut threats: Vec<Threat> = Vec::new();
    let mut i: usize = 0;
    while i < count
        invariant
            0 <= i <= count,
            count == config.threat_count,
            3 <= count <= 8,
            50 <= dm <= 200,
            dm == config.damage_multiplier,
            threats@.len() == i,
            interval_ms == spec_spawn_interval(pattern),
            skill_count == k,
            2 <= skill_count <= 4,
            is_crescendo == (pattern == "crescendo"@),
            full == threats_view(threats@) + spec_gen_from(
                pattern,
                k,
                dm,
                rng.state,
                i as int,
                count as int,
            ),
        decreases count - i,
    {
        let ghost state0 = rng.state;

        let it = i as u32;
        proof {
            assert(interval_ms <= 12000);
        }
        let spawn_time_ms: u32 = if is_crescendo {
            let numer = interval_ms * it;
            let denom = 1000 + it * 150;
            let safe_denom = if denom < 1 {
                1
            } else {
                denom
            };
            numer * 1000 / safe_denom
        } else {
            interval_ms * it
        };

        // Fisher-Yates shuffle over the full skill pool, last index down
        // to 1, swapping with a bounded draw.
        let mut indices: Vec<usize> = Vec::new();
        let mut p: usize = 0;
        while p < SKILL_POOL_LEN
            invariant
                0 <= p <= SKILL_POOL_LEN,
                indices@.len() == p,
                forall|q: int| 0 <= q < p ==> indices@[q] == q,
            decreases SKILL_POOL_LEN - p,
        {
            indices.push(p);
            p += 1;
        }
        proof {
            assert(indices@ =~= spec_skill_pool_indices());
        }

        let mut j: usize = 8;
        while j >= 1
            invariant
                j <= 8,
                indices@.len() == 9,
                spec_shuffle_down(spec_skill_pool_indices(), state0, 8) == spec_shuffle_down(
                    indices@,
                    rng.state,
                    j as int,
                ),
            decreases j,
        {
            let ghost before = indices@;
            let ghost state_before = rng.state;
            let kk = rng.next_usize(j + 1);
            let a = indices[j];
            let b = indices[kk];
            indices[j] = b;
            indices[kk] = a;
            proof {
                assert(indices@ =~= before.update(j as int, before[kk as int]).update(
                    kk as int,
                    before[j as int],
                ));
            }
            j -= 1;
        }
        proof {
            assert(indices@ == spec_shuffle_down(spec_skill_pool_indices(), state0, 8).0);
            assert(rng.state == spec_state_after_shuffle(state0));
        }

        let mut required = indices;
        required.truncate(skill_count);
        proof {
            assert(required@ == spec_threat_skills(state0, k));
        }

        let damage_rate = config.damage_multiplier * 12 / 100;

        let t = Threat {
            spawn_time_ms,
            required_skill_indices: required,
            damage_rate,
            current_damage: 0,
            cure_progress: 0,
            assigned_dev: None,
            is_cured: false,
            is_failed: false,
        };
        proof {
            assert(t@ == spec_threat_at(pattern, spec_threat_skills(state0, k), dm, i as int));
            lemma_threats_view_push(threats@, t);
            assert((threats_view(threats@) + seq![t@]) + spec_gen_from(
                pattern,
                k,
                dm,
                rng.state,
                i + 1,
                count as int,
            ) =~= threats_view(threats@) + (seq![t@] + spec_gen_from(
                pattern,
                k,
                dm,
                rng.state,
                i + 1,
                count as int,
            )));
            assert(threats_view(threats@).push(t@) =~= threats_view(threats@) + seq![t@]);
        }
        threats.push(t);
        i += 1;
    }
    proof {
        assert(spec_gen_from(pattern, k, dm, rng.state, count as int, count as int)
            =~= Seq::<ThreatModel>::empty());
        assert(threats_view(threats@) + Seq::<ThreatModel>::empty() =~= threats_view(threats@));
    }
    threats
}

/// Determinism: two generated populations over the same configuration
/// values and seed bytes carry identical models.
pub proof fn lemma_generate_deterministic(
    t1: Seq<Threat>,
    t2: Seq<Threat>,
    p: Seq<char>,
    d: Seq<char>,
    dm: int,
    seed_bytes: Seq<u8>,
    count: int,
)
    requires
        threats_view(t1) == spec_generate_threats(p, d, dm, seed_bytes, count),
        threats_view(t2) == spec_generate_threats(p, d, dm, seed_bytes, count),
    ensures
        threats_view(t1) == threats_view(t2),
{
}

/// A shuffle of the identity pool keeps its length and keeps every entry
/// below the pool size.
proof fn lemma_shuffle_down_wf(indices: Seq<usize>, state: u64, j: int)
    requires
        0 <= j <= 8,
        indices.len() == 9,
        forall|e: int| 0 <= e < 9 ==> indices[e] < 9,
    ensures
        spec_shuffle_down(indices, state, j).0.len() == 9,
        forall|e: int| 0 <= e < 9 ==> spec_shuffle_down(indices, state, j).0[e] < 9,
    decreases j,
{
    if j >= 1 {
        let ns = rng_step(state);
        let k = ns as usize % ((j + 1) as usize);
        let swapped = indices.update(j, indices[k as int]).update(k as int, indices[j]);
        assert(k < j + 1);
        lemma_shuffle_down_wf(swapped, ns, j - 1);
    }
}

/// Structural bounds of every generated threat: the drawn skills number
/// `k` and index into the pool, the damage rate is the multiplier's fixed
/// twelve hundredths, the accumulators start at zero and no flag is set.
pub proof fn lemma_gen_from_wf(p: Seq<char>, k: int, dm: int, state: u64, i: int, count: int)
    requires
        2 <= k <= 4,
    ensures
        spec_gen_from(p, k, dm, state, i, count).len() == if count - i >= 0 {
            count - i
        } else {
            0
        },
        forall|q: int|
            0 <= q < spec_gen_from(p, k, dm, state, i, count).len() ==> {
                let m = #[trigger] spec_gen_from(p, k, dm, state, i, count)[q];
                &&& m.required_skills.len() == k
                &&& (forall|e: int| 0 <= e < m.required_skills.len() ==> m.required_skills[e] < 9)
                &&& m.damage_rate == dm * 12 / 100
                &&& m.spawn_time_ms == spec_spawn_time(p, i + q)
                &&& m.current_damage == 0
                &&& m.cure_progress == 0
                &&& m.assigned_dev is None
                &&& !m.is_cured
                &&& !m.is_failed
            },
    decreases count - i,
{
    if i < count {
        lemma_shuffle_down_wf(spec_skill_pool_indices(), state, 8);
        lemma_gen_from_wf(p, k, dm, spec_state_after_shuffle(state), i + 1, count);
    }
}

} // verus!
