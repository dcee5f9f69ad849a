//! The round simulator: validation of the untrusted action log, and the
//! tick-by-tick replay that derives the outcome counters.
//!
//! Ticks advance in fixed 100 ms steps from 0 up to (but not including)
//! 90 000 ms.  At each tick every spawned, non-terminal threat either takes
//! damage (no active assignment) or gains cure progress (one active
//! assignment); crossing a threshold makes the threat terminal, cure
//! checked first.  The spec functions mirror every step, so the counters
//! and the final threat states are pinned as a function of the threats and
//! the log.

use vstd::prelude::*;
use crate::cure::spec_cure_speed;
use crate::cure::cure_speed;
use crate::threats::Threat;
use crate::threats::ThreatModel;
use crate::threats::threats_view;

verus! {

/// Round length in ms; not configurable per round.
pub const ROUND_DURATION_MS: u32 = 90_000;

/// Length of one tick in ms.
pub const TICK_MS: u32 = 100;

/// One claim of the action log: a developer was assigned to a threat for
/// the half-open window `[assigned_at_ms, unassigned_at_ms)`.
#[derive(Clone, Copy, Debug, PartialEq, Eq, Structural)]
pub struct ActionEntry {
    /// Index of the developer, below 10.
    pub dev_index: u32,
    /// Index of the threat the developer works on.
    pub threat_index: u32,
    /// Start of the window, inclusive.
    pub assigned_at_ms: u32,
    /// End of the window, exclusive.
    pub unassigned_at_ms: u32,
}

/// Rejection cases of action-log validation; each fails the whole request.
#[derive(Clone, Copy, Debug, PartialEq, Eq, Structural)]
pub enum SimError {
    /// A developer index is out of range.
    DevIndexOutOfBounds,
    /// A threat index is out of range.
    ThreatIndexOutOfBounds,
    /// A window ends at or before its start.
    InvalidWindow,
    /// A window starts after the round ends.
    WindowAfterRoundEnd,
    /// Two windows of one developer intersect.
    DevDoubleAssigned,
}

/// Field-level validity of one entry against a threat population size.
pub open spec fn spec_entry_valid(e: ActionEntry, n_threats: int) -> bool {
    &&& e.dev_index < 10
    &&& (e.threat_index as int) < n_threats
    &&& e.unassigned_at_ms > e.assigned_at_ms
    &&& e.assigned_at_ms <= 90_000
}

/// Whether two windows do not intersect: one ends before the other starts.
pub open spec fn spec_windows_disjoint(a: ActionEntry, b: ActionEntry) -> bool {
    a.unassigned_at_ms <= b.assigned_at_ms || b.unassigned_at_ms <= a.assigned_at_ms
}

/// Full validity of a log: every entry in range and well-formed, and no
/// two entries of one developer with intersecting windows.
pub open spec fn spec_log_valid(log: Seq<ActionEntry>, n_threats: int) -> bool {
    &&& (forall|i: int| 0 <= i < log.len() ==> spec_entry_valid(#[trigger] log[i], n_threats))
    &&& (forall|i: int, j: int|
        0 <= i < j < log.len() && log[i].dev_index == log[j].dev_index
            ==> spec_windows_disjoint(#[trigger] log[i], #[trigger] log[j]))
}

/// The error one entry draws, in check order: developer range, threat
/// range, window shape, window start.
pub open spec fn spec_entry_error(e: ActionEntry, n_threats: int) -> Option<SimError> {
    if e.dev_index >= 10 {
        Some(SimError::DevIndexOutOfBounds)
    } else if e.threat_index as int >= n_threats {
        Some(SimError::ThreatIndexOutOfBounds)
    } else if e.unassigned_at_ms <= e.assigned_at_ms {
        Some(SimError::InvalidWindow)
    } else if e.assigned_at_ms > 90_000 {
        Some(SimError::WindowAfterRoundEnd)
    } else {
        None
    }
}

/// The first entry-level error at or after index `i`.
pub open spec fn spec_entries_error_from(log: Seq<ActionEntry>, n_threats: int, i: int) -> Option<
    SimError,
>
    decreases log.len() - i,
{
    if i < 0 || i >= log.len() {
        None
    } else if spec_entry_error(log[i], n_threats) is Some {
        spec_entry_error(log[i], n_threats)
    } else {
        spec_entries_error_from(log, n_threats, i + 1)
    }
}

/// The first same-developer overlap at or after the pair `(i, j)`, pairs
/// ordered by first index, then second.
pub open spec fn spec_overlap_error_from(log: Seq<ActionEntry>, i: int, j: int) -> Option<SimError>
    decreases log.len() - i, log.len() - j,
{
    if i < 0 || j <= i || i >= log.len() {
        None
    } else if j >= log.len() {
        spec_overlap_error_from(log, i + 1, i + 2)
    } else if log[i].dev_index == log[j].dev_index && !spec_windows_disjoint(log[i], log[j]) {
        Some(SimError::DevDoubleAssigned)
    } else {
        spec_overlap_error_from(log, i, j + 1)
    }
}

/// The error validation reports: entry checks over the whole log first,
/// then the pairwise overlap check.
pub open spec fn spec_validate_log(log: Seq<ActionEntry>, n_threats: int) -> Option<SimError> {
    if spec_entries_error_from(log, n_threats, 0) is Some {
        spec_entries_error_from(log, n_threats, 0)
    } else {
        spec_overlap_error_from(log, 0, 1)
    }
}

/// Overlap is symmetric: two windows intersect no matter which entry
/// stands first in the log.
pub proof fn lemma_overlap_symmetric(a: ActionEntry, b: ActionEntry)
    ensures
        spec_windows_disjoint(a, b) == spec_windows_disjoint(b, a),
{
}

/// Two entries of one developer with intersecting windows make the whole
/// log invalid, whatever their order in the list.
pub proof fn lemma_overlap_rejected(log: Seq<ActionEntry>, n_threats: int, i: int, j: int)
    requires
        0 <= i < log.len(),
        0 <= j < log.len(),
        i != j,
        log[i].dev_index == log[j].dev_index,
        !spec_windows_disjoint(log[i], log[j]),
    ensures
        !spec_log_valid(log, n_threats),
{
    if i < j {
        assert(!spec_windows_disjoint(log[i], log[j]));
    } else {
        lemma_overlap_symmetric(log[i], log[j]);
        assert(!spec_windows_disjoint(log[j], log[i]));
    }
}

/// Validates the action log against the threat population size.  Returns
/// exactly the first error of the documented check order, and succeeds if
/// and only if the log is valid.
pub fn validate_action_log(log: &Vec<ActionEntry>, n_threats: usize) -> (r: Result<(), SimError>)
    ensures
        r == match spec_validate_log(log@, n_threats as int) {
            Option::None => Result::<(), SimError>::Ok(()),
            Option::Some(e) => Result::<(), SimError>::Err(e),
        },
        r is Ok <==> spec_log_valid(log@, n_threats as int),
{
    let n = log.len();
    let mut i: usize = 0;
    while i < n
        invariant
            0 <= i <= n,
            n == log@.len(),
            spec_entries_error_from(log@, n_threats as int, 0) == spec_entries_error_from(
                log@,
                n_threats as int,
                i as int,
            ),
            forall|q: int| 0 <= q < i ==> spec_entry_valid(#[trigger] log@[q], n_threats as int),
        decreases n - i,
    {
        let e = log[i];
        if e.dev_index >= 10 {
            return Err(SimError::DevIndexOutOfBounds);
        }
        if e.threat_index as usize >= n_threats {
            return Err(SimError::ThreatIndexOutOfBounds);
        }
        if e.unassigned_at_ms <= e.assigned_at_ms {
            return Err(SimError::InvalidWindow);
        }
        if e.assigned_at_ms > ROUND_DURATION_MS {
            return Err(SimError::WindowAfterRoundEnd);
        }
        i += 1;
    }

    let mut a: usize = 0;
    while a < n
        invariant
            0 <= a <= n,
            n == log@.len(),
            spec_entries_error_from(log@, n_threats as int, 0) is None,
            forall|q: int| 0 <= q < n ==> spec_entry_valid(#[trigger] log@[q], n_threats as int),
            spec_overlap_error_from(log@, 0, 1) == spec_overlap_error_from(
                log@,
                a as int,
                a as int + 1,
            ),
            forall|q: int, w: int|
                0 <= q < w < n && q < a && log@[q].dev_index == log@[w].dev_index
                    ==> spec_windows_disjoint(#[trigger] log@[q], #[trigger] log@[w]),
        decreases n - a,
    {
        let mut b: usize = a + 1;
        while b < n
            invariant
                0 <= a < n,
                a < b <= n,
                n == log@.len(),
                spec_entries_error_from(log@, n_threats as int, 0) is None,
                forall|q: int| 0 <= q < n ==> spec_entry_valid(#[trigger] log@[q], n_threats as int),
                spec_overlap_error_from(log@, 0, 1) == spec_overlap_error_from(
                    log@,
                    a as int,
                    b as int,
                ),
                forall|q: int, w: int|
                    0 <= q < w < n && q < a && log@[q].dev_index == log@[w].dev_index
                        ==> spec_windows_disjoint(#[trigger] log@[q], #[trigger] log@[w]),
                forall|w: int|
                    a < w < b && log@[a as int].dev_index == log@[w].dev_index
                        ==> spec_windows_disjoint(log@[a as int], #[trigger] log@[w]),
            decreases n - b,
        {
            let x = log[a];
            let y = log[b];
            if x.dev_index == y.dev_index {
                if !(x.unassigned_at_ms <= y.assigned_at_ms || y.unassigned_at_ms
                    <= x.assigned_at_ms) {
                    proof {
                        lemma_overlap_rejected(log@, n_threats as int, a as int, b as int);
                        assert(spec_overlap_error_from(log@, a as int, b as int) == Some(
                            SimError::DevDoubleAssigned,
                        ));
                    }
                    return Err(SimError::DevDoubleAssigned);
                }
            }
            b += 1;
        }
        a += 1;
    }
    Ok(())
}

/// The first log entry assigning threat `ti` at time `tick`, scanning from
/// index `i`; mirrors a front-to-back search.
pub open spec fn spec_find_active_from(
    log: Seq<ActionEntry>,
    ti: int,
    tick: int,
    i: int,
) -> Option<ActionEntry>
    decreases log.len() - i,
{
    if i < 0 || i >= log.len() {
        None
    } else if log[i].threat_index == ti && log[i].assigned_at_ms <= tick && tick < log[
        i
    ].unassigned_at_ms {
        Some(log[i])
    } else {
        spec_find_active_from(log, ti, tick, i + 1)
    }
}

/// The active assignment of threat `ti` at time `tick`: the first matching
/// log entry whose half-open window covers the tick.
pub open spec fn spec_find_active(log: Seq<ActionEntry>, ti: int, tick: int) -> Option<
    ActionEntry,
> {
    spec_find_active_from(log, ti, tick, 0)
}

/// One threat's advance at one tick, together with the deltas of the
/// cured, destroyed and unattended-failure counters.  Terminal or
/// not-yet-spawned threats do not move.  Otherwise the threat takes damage
/// when unattended and cure progress when attended, and the thresholds are
/// checked cure first.
pub open spec fn spec_threat_tick(
    t: ThreatModel,
    ti: int,
    tick: int,
    log: Seq<ActionEntry>,
) -> (ThreatModel, int, int, int) {
    if t.is_cured || t.is_failed {
        (t, 0, 0, 0)
    } else if t.spawn_time_ms > tick {
        (t, 0, 0, 0)
    } else {
        let active = spec_find_active(log, ti, tick);
        let t1 = match active {
            Some(e) => ThreatModel {
                assigned_dev: Some(e.dev_index as int),
                cure_progress: t.cure_progress + spec_cure_speed(
                    t.required_skills,
                    e.dev_index as int,
                ),
                ..t
            },
            None => ThreatModel {
                assigned_dev: None,
                current_damage: t.current_damage + t.damage_rate,
                ..t
            },
        };
        if t1.cure_progress >= 100_000 {
            (ThreatModel { is_cured: true, ..t1 }, 1, 0, 0)
        } else if t1.current_damage >= 100_000 {
            (
                ThreatModel { is_failed: true, ..t1 },
                0,
                1,
                if active is None {
                    1int
                } else {
                    0int
                },
            )
        } else {
            (t1, 0, 0, 0)
        }
    }
}

/// One tick applied to threats `ti..`, in index order, accumulating the
/// counter deltas.
pub open spec fn spec_tick_from(
    threats: Seq<ThreatModel>,
    log: Seq<ActionEntry>,
    tick: int,
    ti: int,
) -> (Seq<ThreatModel>, int, int, int)
    decreases threats.len() - ti,
{
    if ti < 0 || ti >= threats.len() {
        (threats, 0, 0, 0)
    } else {
        let r = spec_threat_tick(threats[ti], ti, tick, log);
        let rest = spec_tick_from(threats.update(ti, r.0), log, tick, ti + 1);
        (rest.0, r.1 + rest.1, r.2 + rest.2, r.3 + rest.3)
    }
}

/// The round after `n_ticks` ticks: threat states and accumulated
/// counters, ticks at 0, 100, 200, ... ms.
pub open spec fn spec_sim_upto(
    threats: Seq<ThreatModel>,
    log: Seq<ActionEntry>,
    n_ticks: int,
) -> (Seq<ThreatModel>, int, int, int)
    decreases n_ticks,
{
    if n_ticks <= 0 {
        (threats, 0, 0, 0)
    } else {
        let prev = spec_sim_upto(threats, log, n_ticks - 1);
        let step = spec_tick_from(prev.0, log, (n_ticks - 1) * 100, 0);
        (step.0, prev.1 + step.1, prev.2 + step.2, prev.3 + step.3)
    }
}

/// A freshly generated threat: fixed fields in range, accumulators zero,
/// no terminal flag.
pub open spec fn spec_threat_fresh(t: ThreatModel) -> bool {
    &&& 0 <= t.damage_rate <= 24
    &&& 1 <= t.required_skills.len() <= 4
    &&& t.current_damage == 0
    &&& t.cure_progress == 0
    &&& !t.is_cured
    &&& !t.is_failed
}

/// What the simulator maintains of every threat while it runs: fixed
/// fields in range, accumulators below their threshold while the threat is
/// non-terminal, and bounded by threshold plus one step once terminal.
pub open spec fn spec_threat_running_wf(t: ThreatModel) -> bool {
    &&& 0 <= t.damage_rate <= 24
    &&& 1 <= t.required_skills.len() <= 4
    &&& 0 <= t.current_damage < 100_024
    &&& 0 <= t.cure_progress < 100_300
    &&& (!t.is_cured && !t.is_failed ==> t.current_damage < 100_000 && t.cure_progress < 100_000)
}

/// Running well-formedness of every threat of a population.
pub open spec fn spec_threats_running_wf(s: Seq<ThreatModel>) -> bool {
    forall|q: int| 0 <= q < s.len() ==> spec_threat_running_wf(#[trigger] s[q])
}

/// The views of an updated sequence are the views, updated.
proof fn lemma_threats_view_update(s: Seq<Threat>, i: int, t: Threat)
    requires
        0 <= i < s.len(),
    ensures
        threats_view(s.update(i, t)) =~= threats_view(s).update(i, t@),
{
}

/// Replays the whole round over the given threats and a validated action
/// log.  Returns the cured, destroyed and unattended-failure counters; the
/// threats end in the states the spec-level replay assigns them.
pub fn simulate(threats: &mut Vec<Threat>, log: &Vec<ActionEntry>) -> (r: (u32, u32, u32))
    requires
        old(threats)@.len() <= 8,
        spec_log_valid(log@, old(threats)@.len() as int),
        forall|q: int|
            0 <= q < old(threats)@.len() ==> spec_threat_fresh(
                #[trigger] threats_view(old(threats)@)[q],
            ),
    ensures
        ({
            let s = spec_sim_upto(threats_view(old(threats)@), log@, 900);
            &&& threats_view(final(threats)@) == s.0
            &&& r.0 == s.1
            &&& r.1 == s.2
            &&& r.2 == s.3
        }),
{
    let ghost init = threats_view(threats@);
    let n = threats.len();
    let mut tick_ms: u32 = 0;
    let mut cured: u32 = 0;
    let mut destroyed: u32 = 0;
    let mut unattended: u32 = 0;

    proof {
        assert(spec_threats_running_wf(init));
    }

    while tick_ms < ROUND_DURATION_MS
        invariant
            tick_ms % 100 == 0,
            tick_ms <= 90_000,
            n == threats@.len(),
            init.len() == n,
            n <= 8,
            init == threats_view(old(threats)@),
            spec_log_valid(log@, n as int),
            spec_threats_running_wf(threats_view(threats@)),
            cured as int + destroyed as int <= 8 * (tick_ms as int / 100),
            unattended <= destroyed,
            ({
                let s = spec_sim_upto(init, log@, tick_ms as int / 100);
                &&& threats_view(threats@) == s.0
                &&& cured == s.1
                &&& destroyed == s.2
                &&& unattended == s.3
            }),
        decreases 90_000 - tick_ms,
    {
        let ghost pre = threats_view(threats@);
        let ghost pre_c = cured as int;
        let ghost pre_d = destroyed as int;
        let ghost pre_u = unattended as int;
        let ghost k_tick = tick_ms as int;

        let mut ti: usize = 0;
        while ti < n
            invariant
                0 <= ti <= n,
                n == threats@.len(),
                n <= 8,
                pre.len() == n,
                spec_log_valid(log@, n as int),
                spec_threats_running_wf(threats_view(threats@)),
                pre_c <= cured,
                pre_d <= destroyed,
                pre_u <= unattended,
                unattended <= destroyed,
                pre_u <= pre_d,
                cured as int + destroyed as int <= pre_c + pre_d + ti,
                pre_c + pre_d <= 8 * (k_tick / 100),
                k_tick == tick_ms,
                tick_ms <= 89_900,
                unattended as int - pre_u <= destroyed as int - pre_d,
                ({
                    let full = spec_tick_from(pre, log@, k_tick, 0);
                    let rem = spec_tick_from(threats_view(threats@), log@, k_tick, ti as int);
                    &&& full.0 == rem.0
                    &&& full.1 == (cured - pre_c) + rem.1
                    &&& full.2 == (destroyed - pre_d) + rem.2
                    &&& full.3 == (unattended - pre_u) + rem.3
                }),
            decreases n - ti,
        {
            let ghost cur = threats_view(threats@);
            let ghost tm = cur[ti as int];

            let is_terminal = threats[ti].is_cured || threats[ti].is_failed;
            let spawned = threats[ti].spawn_time_ms <= tick_ms;
            if is_terminal || !spawned {
                proof {
                    assert(spec_threat_tick(tm, ti as int, k_tick, log@) == (tm, 0int, 0int, 0int));
                    assert(cur.update(ti as int, tm) =~= cur);
                }
                ti += 1;
                continue;
            }

            let spawn = threats[ti].spawn_time_ms;
            let dr = threats[ti].damage_rate;
            let cd = threats[ti].current_damage;
            let cp = threats[ti].cure_progress;

            // Front-to-back search for the active assignment at this tick.
            let mut active: Option<u32> = None;
            let mut q: usize = 0;
            while q < log.len() && active.is_none()
                invariant
                    0 <= q <= log@.len(),
                    spec_log_valid(log@, n as int),
                    k_tick == tick_ms,
                    active is None ==> spec_find_active(log@, ti as int, k_tick)
                        == spec_find_active_from(log@, ti as int, k_tick, q as int),
                    active matches Some(d) ==> (spec_find_active(log@, ti as int, k_tick) matches
                        Some(e) && e.dev_index == d && d < 10),
                decreases log@.len() - q, (if active is None { 1int } else { 0int }),
            {
                let e = log[q];
                if e.threat_index as usize == ti && e.assigned_at_ms <= tick_ms && tick_ms
                    < e.unassigned_at_ms {
                    proof {
                        assert(spec_find_active_from(log@, ti as int, k_tick, q as int) == Some(
                            log@[q as int],
                        ));
                        assert(spec_entry_valid(log@[q as int], n as int));
                    }
                    active = Some(e.dev_index);
                } else {
                    q += 1;
                }
            }
            proof {
                if active is None {
                    assert(q == log@.len());
                    assert(spec_find_active(log@, ti as int, k_tick) is None);
                }
            }

            let mut nd = cd;
            let mut np = cp;
            let mut nad: Option<usize> = None;
            match active {
                None => {
                    nd = cd + dr;
                },
                Some(d) => {
                    let rate = cure_speed(&threats[ti].required_skill_indices, d as usize);
                    np = cp + rate;
                    nad = Some(d as usize);
                },
            }
            let mut ncured = false;
            let mut nfailed = false;
            if np >= 100_000 {
                ncured = true;
            } else if nd >= 100_000 {
                nfailed = true;
            }

            let skills = threats[ti].required_skill_indices.clone();
            proof {
                assert(skills@.len() == threats@[ti as int].required_skill_indices@.len());
                assert forall|w: int| 0 <= w < skills@.len() implies skills@[w] == threats@[
                    ti as int
                ].required_skill_indices@[w] by {
                    assert(skills.deep_view()[w] == threats@[
                        ti as int
                    ].required_skill_indices.deep_view()[w]);
                }
                assert(skills@ =~= threats@[ti as int].required_skill_indices@);
            }
            let new_t = Threat {
                spawn_time_ms: spawn,
                required_skill_indices: skills,
                damage_rate: dr,
                current_damage: nd,
                cure_progress: np,
                assigned_dev: nad,
                is_cured: ncured,
                is_failed: nfailed,
            };
            let ghost step = spec_threat_tick(tm, ti as int, k_tick, log@);
            proof {
                assert(new_t@ == step.0);
            }
            let ghost before_vec = threats@;
            threats[ti] = new_t;
            proof {
                lemma_threats_view_update(before_vec, ti as int, new_t);
                assert(threats@ == before_vec.update(ti as int, new_t));
            }
            if ncured {
                cured += 1;
            } else if nfailed {
                destroyed += 1;
                if active.is_none() {
                    unattended += 1;
                }
            }
            proof {
                assert(threats_view(threats@) =~= cur.update(ti as int, new_t@));
            }
            ti += 1;
        }
        proof {
            assert(spec_tick_from(threats_view(threats@), log@, k_tick, n as int) == (
                threats_view(threats@),
                0int,
                0int,
                0int,
            ));
            assert(spec_sim_upto(init, log@, (k_tick + 100) / 100) == spec_sim_upto(
                init,
                log@,
                k_tick / 100 + 1,
            ));
        }
        tick_ms = tick_ms + TICK_MS;
    }
    (cured, destroyed, unattended)
}


/// Number of cured threats of a population.
pub open spec fn spec_count_cured(s: Seq<ThreatModel>) -> int
    decreases s.len(),
{
    if s.len() == 0 {
        0
    } else {
        spec_count_cured(s.drop_last()) + if s.last().is_cured {
            1int
        } else {
            0int
        }
    }
}

/// Number of failed threats of a population.
pub open spec fn spec_count_failed(s: Seq<ThreatModel>) -> int
    decreases s.len(),
{
    if s.len() == 0 {
        0
    } else {
        spec_count_failed(s.drop_last()) + if s.last().is_failed {
            1int
        } else {
            0int
        }
    }
}

/// What the simulation lemmas ask of a population: no threat carries both
/// terminal flags, and no damage rate is negative.
pub open spec fn spec_threats_sim_pre(s: Seq<ThreatModel>) -> bool {
    forall|q: int|
        0 <= q < s.len() ==> (!(#[trigger] s[q]).is_cured || !s[q].is_failed) && s[q].damage_rate
            >= 0
}

proof fn lemma_count_bounds(s: Seq<ThreatModel>)
    ensures
        0 <= spec_count_cured(s) <= s.len(),
        0 <= spec_count_failed(s) <= s.len(),
    decreases s.len(),
{
    if s.len() > 0 {
        lemma_count_bounds(s.drop_last());
    }
}

proof fn lemma_count_update(s: Seq<ThreatModel>, i: int, t: ThreatModel)
    requires
        0 <= i < s.len(),
    ensures
        spec_count_cured(s.update(i, t)) == spec_count_cured(s) + (if t.is_cured {
            1int
        } else {
            0int
        }) - (if s[i].is_cured {
            1int
        } else {
            0int
        }),
        spec_count_failed(s.update(i, t)) == spec_count_failed(s) + (if t.is_failed {
            1int
        } else {
            0int
        }) - (if s[i].is_failed {
            1int
        } else {
            0int
        }),
    decreases s.len(),
{
    let u = s.update(i, t);
    if i == s.len() - 1 {
        assert(u.drop_last() =~= s.drop_last());
        assert(u.last() == t);
    } else {
        assert(u.drop_last() =~= s.drop_last().update(i, t));
        assert(u.last() == s.last());
        lemma_count_update(s.drop_last(), i, t);
    }
}

/// How one threat may move in one tick: deltas match the flag changes, a
/// terminal threat is frozen, accumulators never shrink, fixed fields stay.
proof fn lemma_threat_tick_props(t: ThreatModel, ti: int, tick: int, log: Seq<ActionEntry>)
    requires
        !t.is_cured || !t.is_failed,
        t.damage_rate >= 0,
    ensures
        ({
            let r = spec_threat_tick(t, ti, tick, log);
            &&& r.1 == (if r.0.is_cured {
                1int
            } else {
                0int
            }) - (if t.is_cured {
                1int
            } else {
                0int
            })
            &&& r.2 == (if r.0.is_failed {
                1int
            } else {
                0int
            }) - (if t.is_failed {
                1int
            } else {
                0int
            })
            &&& 0 <= r.1 <= 1
            &&& 0 <= r.2 <= 1
            &&& 0 <= r.3 <= r.2
            &&& (!r.0.is_cured || !r.0.is_failed)
            &&& (t.is_cured || t.is_failed ==> r.0 == t)
            &&& t.current_damage <= r.0.current_damage
            &&& t.cure_progress <= r.0.cure_progress
            &&& (t.is_cured ==> r.0.is_cured)
            &&& (t.is_failed ==> r.0.is_failed)
            &&& r.0.damage_rate == t.damage_rate
            &&& r.0.required_skills == t.required_skills
            &&& r.0.spawn_time_ms == t.spawn_time_ms
        }),
{
}

/// One tick over threats `ti..`: length kept, earlier threats untouched,
/// the counter deltas equal the flag changes, per-threat movement as in
/// the single-threat lemma.
proof fn lemma_tick_from_props(s: Seq<ThreatModel>, log: Seq<ActionEntry>, tick: int, ti: int)
    requires
        spec_threats_sim_pre(s),
        0 <= ti,
    ensures
        ({
            let r = spec_tick_from(s, log, tick, ti);
            &&& r.0.len() == s.len()
            &&& spec_threats_sim_pre(r.0)
            &&& r.1 == spec_count_cured(r.0) - spec_count_cured(s)
            &&& r.2 == spec_count_failed(r.0) - spec_count_failed(s)
            &&& 0 <= r.1
            &&& 0 <= r.2
            &&& 0 <= r.3 <= r.2
            &&& (forall|q: int| 0 <= q < ti && q < s.len() ==> #[trigger] r.0[q] == s[q])
            &&& (forall|q: int|
                0 <= q < s.len() ==> {
                    let b = #[trigger] r.0[q];
                    let a = s[q];
                    &&& a.current_damage <= b.current_damage
                    &&& a.cure_progress <= b.cure_progress
                    &&& (a.is_cured || a.is_failed ==> b == a)
                    &&& (a.is_cured ==> b.is_cured)
                    &&& (a.is_failed ==> b.is_failed)
                    &&& b.damage_rate == a.damage_rate
                    &&& b.required_skills == a.required_skills
                    &&& b.spawn_time_ms == a.spawn_time_ms
                })
        }),
    decreases s.len() - ti,
{
    if 0 <= ti && ti < s.len() {
        let r1 = spec_threat_tick(s[ti], ti, tick, log);
        lemma_threat_tick_props(s[ti], ti, tick, log);
        let u = s.update(ti, r1.0);
        lemma_count_update(s, ti, r1.0);
        assert(spec_threats_sim_pre(u));
        lemma_tick_from_props(u, log, tick, ti + 1);
    }
}

/// The replay after any number of ticks: length kept, counters equal the
/// flag changes, the unattended count never exceeds the failure count, and
/// no threat ever carries both terminal flags.
pub proof fn lemma_sim_upto_props(init: Seq<ThreatModel>, log: Seq<ActionEntry>, n: int)
    requires
        spec_threats_sim_pre(init),
    ensures
        ({
            let r = spec_sim_upto(init, log, n);
            &&& r.0.len() == init.len()
            &&& spec_threats_sim_pre(r.0)
            &&& r.1 == spec_count_cured(r.0) - spec_count_cured(init)
            &&& r.2 == spec_count_failed(r.0) - spec_count_failed(init)
            &&& 0 <= r.3 <= r.2
            &&& 0 <= r.1
            &&& 0 <= r.2
        }),
    decreases n,
{
    if n <= 0 {
        lemma_count_bounds(init);
    } else {
        lemma_sim_upto_props(init, log, n - 1);
        let prev = spec_sim_upto(init, log, n - 1);
        lemma_tick_from_props(prev.0, log, (n - 1) * 100, 0);
        let step = spec_tick_from(prev.0, log, (n - 1) * 100, 0);
        lemma_count_bounds(prev.0);
        lemma_count_bounds(step.0);
    }
}

/// Mutual exclusion: no threat of the replayed population is ever both
/// cured and failed.
pub proof fn lemma_sim_mutual_exclusion(init: Seq<ThreatModel>, log: Seq<ActionEntry>, n: int)
    requires
        spec_threats_sim_pre(init),
    ensures
        forall|q: int|
            0 <= q < spec_sim_upto(init, log, n).0.len() ==> !((#[trigger] spec_sim_upto(
                init,
                log,
                n,
            ).0[q]).is_cured && spec_sim_upto(init, log, n).0[q].is_failed),
{
    lemma_sim_upto_props(init, log, n);
}

/// The counters never exceed the population size when the replay starts
/// from fresh threats.
pub proof fn lemma_sim_counter_bounds(init: Seq<ThreatModel>, log: Seq<ActionEntry>, n: int)
    requires
        spec_threats_sim_pre(init),
        spec_count_cured(init) == 0,
        spec_count_failed(init) == 0,
    ensures
        ({
            let r = spec_sim_upto(init, log, n);
            &&& 0 <= r.1 <= init.len()
            &&& 0 <= r.2 <= init.len()
            &&& 0 <= r.3 <= r.2
        }),
{
    lemma_sim_upto_props(init, log, n);
    lemma_count_bounds(spec_sim_upto(init, log, n).0);
}

/// Monotone accumulators: between any two tick counts, damage and cure
/// progress never shrink, and a threat that was terminal at the earlier
/// count stands unchanged at the later one.
pub proof fn lemma_sim_monotonic(init: Seq<ThreatModel>, log: Seq<ActionEntry>, k1: int, k2: int)
    requires
        spec_threats_sim_pre(init),
        0 <= k1 <= k2,
    ensures
        forall|q: int|
            0 <= q < init.len() ==> {
                let a = #[trigger] spec_sim_upto(init, log, k1).0[q];
                let b = spec_sim_upto(init, log, k2).0[q];
                &&& a.current_damage <= b.current_damage
                &&& a.cure_progress <= b.cure_progress
                &&& (a.is_cured || a.is_failed ==> b == a)
            },
    decreases k2 - k1,
{
    lemma_sim_upto_props(init, log, k1);
    if k2 > k1 {
        lemma_sim_monotonic(init, log, k1, k2 - 1);
        lemma_sim_upto_props(init, log, k2 - 1);
        lemma_tick_from_props(spec_sim_upto(init, log, k2 - 1).0, log, (k2 - 1) * 100, 0);
    }
}

} // verus!
