//! Cure model: how fast a fixed developer profile neutralises a threat.
//!
//! Ten fixed developer profiles exist, each with exactly three skill indices
//! into the nine-entry skill pool.  The cure rate depends only on how many of
//! the threat's required skills the developer holds: the match ratio is
//! truncated to thirds and mapped to one of four fixed-point rates per
//! 100 ms tick (scale x1000).

use vstd::prelude::*;

verus! {

/// Number of fixed developer profiles.
pub const DEV_COUNT: usize = 10;

/// Number of entries in the fixed skill pool.
pub const SKILL_POOL_LEN: usize = 9;

/// The three skill indices of developer `d`, as an ordered triple.
pub open spec fn spec_dev_skills(d: int) -> (int, int, int) {
    if d == 0 {
        (0, 3, 5)
    } else if d == 1 {
        (1, 4, 6)
    } else if d == 2 {
        (2, 7, 8)
    } else if d == 3 {
        (5, 0, 8)
    } else if d == 4 {
        (3, 4, 7)
    } else if d == 5 {
        (6, 1, 0)
    } else if d == 6 {
        (7, 2, 6)
    } else if d == 7 {
        (8, 3, 1)
    } else if d == 8 {
        (4, 5, 2)
    } else {
        (0, 6, 7)
    }
}

/// Whether developer `d` holds skill `s`.
pub open spec fn spec_dev_has_skill(d: int, s: int) -> bool {
    let (a, b, c) = spec_dev_skills(d);
    s == a || s == b || s == c
}

/// Number of entries of `skills` that developer `d` holds.
pub open spec fn spec_match_count(skills: Seq<usize>, d: int) -> nat
    decreases skills.len(),
{
    if skills.len() == 0 {
        0
    } else {
        spec_match_count(skills.drop_last(), d) + if spec_dev_has_skill(
            d,
            skills.last() as int,
        ) {
            1nat
        } else {
            0nat
        }
    }
}

/// Fixed-point cure rate (x1000 per 100 ms tick) for a required-skill set
/// and a developer: the match ratio truncated to thirds picks one of four
/// fixed rates.
pub open spec fn spec_cure_speed(skills: Seq<usize>, d: int) -> u32 {
    let ratio_x3 = spec_match_count(skills, d) * 3 / skills.len();
    if ratio_x3 == 3 {
        300
    } else if ratio_x3 == 2 {
        200
    } else if ratio_x3 == 1 {
        100
    } else {
        50
    }
}

proof fn lemma_match_count_le(skills: Seq<usize>, d: int)
    ensures
        spec_match_count(skills, d) <= skills.len(),
    decreases skills.len(),
{
    if skills.len() > 0 {
        lemma_match_count_le(skills.drop_last(), d);
    }
}

/// The three skill indices of developer `dev_index`.
pub fn dev_skills(dev_index: usize) -> (r: (usize, usize, usize))
    requires
        dev_index < DEV_COUNT,
    ensures
        (r.0 as int, r.1 as int, r.2 as int) == spec_dev_skills(dev_index as int),
        r.0 < SKILL_POOL_LEN && r.1 < SKILL_POOL_LEN && r.2 < SKILL_POOL_LEN,
{
    if dev_index == 0 {
        (0, 3, 5)
    } else if dev_index == 1 {
        (1, 4, 6)
    } else if dev_index == 2 {
        (2, 7, 8)
    } else if dev_index == 3 {
        (5, 0, 8)
    } else if dev_index == 4 {
        (3, 4, 7)
    } else if dev_index == 5 {
        (6, 1, 0)
    } else if dev_index == 6 {
        (7, 2, 6)
    } else if dev_index == 7 {
        (8, 3, 1)
    } else if dev_index == 8 {
        (4, 5, 2)
    } else {
        (0, 6, 7)
    }
}

/// Cure rate for the given required skills and developer, fixed-point x1000
/// per tick.  Matches the rate table exactly: full match 300, two thirds
/// 200, one third 100, otherwise 50.
pub fn cure_speed(threat_skills: &Vec<usize>, dev_index: usize) -> (r: u32)
    requires
        0 < threat_skills@.len() <= 4,
        dev_index < DEV_COUNT,
    ensures
        r == spec_cure_speed(threat_skills@, dev_index as int),
        r == 300 || r == 200 || r == 100 || r == 50,
{
    let (a, b, c) = dev_skills(dev_index);
    let mut match_count: usize = 0;
    let mut i: usize = 0;
    while i < threat_skills.len()
        invariant
            0 <= i <= threat_skills@.len(),
            match_count == spec_match_count(threat_skills@.take(i as int), dev_index as int),
            match_count <= i,
            (a as int, b as int, c as int) == spec_dev_skills(dev_index as int),
        decreases threat_skills@.len() - i,
    {
        let s = threat_skills[i];
        proof {
            assert(threat_skills@.take(i + 1).drop_last() =~= threat_skills@.take(i as int));
        }
        if s == a || s == b || s == c {
            match_count += 1;
        }
        i += 1;
    }
    proof {
        assert(threat_skills@.take(threat_skills@.len() as int) =~= threat_skills@);
        lemma_match_count_le(threat_skills@, dev_index as int);
    }
    let ratio_x3 = match_count * 3 / threat_skills.len();
    if ratio_x3 == 3 {
        300
    } else if ratio_x3 == 2 {
        200
    } else if ratio_x3 == 1 {
        100
    } else {
        50
    }
}

} // verus!
