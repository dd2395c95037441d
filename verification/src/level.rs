//! Leveling: the cumulative experience table and the level-up rule.
//!
//! On every experience gain the level rises while the next threshold is met,
//! and each level grants +1 to one attribute in strict round-robin order
//! (level 1 strength, level 2 agility, level 3 intellect, and so on), capped
//! at [`MAX_ATTRIBUTE`]. The loop form matters: one large award may cross
//! several thresholds at once.
use vstd::prelude::*;

use crate::state::{PlayerState, player_wf, MAX_ATTRIBUTE, MAX_LEVEL};

verus! {

/// Cumulative experience required to hold `level`.
///
/// The table is fixed: 0, 5, 15, 30, 50, 75, 105, 140, 180, 225, 275 for
/// levels 0 through 10.
pub open spec fn xp_threshold(level: int) -> int {
    if level <= 0 {
        0
    } else if level == 1 {
        5
    } else if level == 2 {
        15
    } else if level == 3 {
        30
    } else if level == 4 {
        50
    } else if level == 5 {
        75
    } else if level == 6 {
        105
    } else if level == 7 {
        140
    } else if level == 8 {
        180
    } else if level == 9 {
        225
    } else {
        275
    }
}

/// Experience required to hold `level`, for levels 1 through 10.
pub fn xp_threshold_at(level: u8) -> (t: u32)
    requires
        1 <= level <= MAX_LEVEL,
    ensures
        t == xp_threshold(level as int),
{
    match level {
        1 => 5,
        2 => 15,
        3 => 30,
        4 => 50,
        5 => 75,
        6 => 105,
        7 => 140,
        8 => 180,
        9 => 225,
        _ => 275,
    }
}

/// One level gained: the level rises by one and the attribute picked by
/// `level % 3` rises by one unless it already sits at the cap.
pub open spec fn apply_level_gain(p: PlayerState) -> PlayerState
    recommends
        p.level < MAX_LEVEL,
{
    let q = PlayerState { level: (p.level + 1) as u8, ..p };
    if q.level % 3 == 1 {
        if q.strength < MAX_ATTRIBUTE {
            PlayerState { strength: (q.strength + 1) as u8, ..q }
        } else {
            q
        }
    } else if q.level % 3 == 2 {
        if q.agility < MAX_ATTRIBUTE {
            PlayerState { agility: (q.agility + 1) as u8, ..q }
        } else {
            q
        }
    } else {
        if q.intellect < MAX_ATTRIBUTE {
            PlayerState { intellect: (q.intellect + 1) as u8, ..q }
        } else {
            q
        }
    }
}

/// The player after all level-ups its experience affords: levels are gained
/// one by one while the next threshold is met and the cap is not reached.
pub open spec fn levelup_spec(p: PlayerState) -> PlayerState
    decreases MAX_LEVEL - p.level,
{
    if p.level < MAX_LEVEL && p.xp >= xp_threshold(p.level + 1) {
        levelup_spec(apply_level_gain(p))
    } else {
        p
    }
}

/// Applies every level-up the player's experience affords.
pub fn check_and_apply_levelup(p: &mut PlayerState)
    ensures
        *final(p) == levelup_spec(*old(p)),
{
    let ghost p0: PlayerState = *p;
    while p.level < MAX_LEVEL
        invariant
            levelup_spec(*p) == levelup_spec(p0),
        ensures
            p.level >= MAX_LEVEL || p.xp < xp_threshold(p.level + 1),
        decreases MAX_LEVEL - p.level,
    {
        let next_threshold = xp_threshold_at(p.level + 1);
        if p.xp < next_threshold {
            break;
        }
        let ghost prev: PlayerState = *p;
        p.level = p.level + 1;
        if p.level % 3 == 1 {
            if p.strength < MAX_ATTRIBUTE {
                p.strength = p.strength + 1;
            }
        } else if p.level % 3 == 2 {
            if p.agility < MAX_ATTRIBUTE {
                p.agility = p.agility + 1;
            }
        } else {
            if p.intellect < MAX_ATTRIBUTE {
                p.intellect = p.intellect + 1;
            }
        }
        proof {
            assert(*p == apply_level_gain(prev));
        }
    }
}

/// Law: leveling never lowers the level.
pub proof fn lemma_level_monotonic(p: PlayerState)
    ensures
        levelup_spec(p).level >= p.level,
    decreases MAX_LEVEL - p.level,
{
    if p.level < MAX_LEVEL && p.xp >= xp_threshold(p.level + 1) {
        lemma_level_monotonic(apply_level_gain(p));
    }
}

/// Law: leveling never pushes the level past the cap.
pub proof fn lemma_level_bounded(p: PlayerState)
    requires
        p.level <= MAX_LEVEL,
    ensures
        levelup_spec(p).level <= MAX_LEVEL,
    decreases MAX_LEVEL - p.level,
{
    if p.level < MAX_LEVEL && p.xp >= xp_threshold(p.level + 1) {
        lemma_level_bounded(apply_level_gain(p));
    }
}

/// Law: 275 experience exhausts the table, landing exactly on the cap.
pub proof fn lemma_levelup_exhausts_table(p: PlayerState)
    requires
        p.level <= MAX_LEVEL,
        p.xp >= 275,
    ensures
        levelup_spec(p).level == MAX_LEVEL,
    decreases MAX_LEVEL - p.level,
{
    if p.level < MAX_LEVEL {
        assert(xp_threshold(p.level + 1) <= 275);
        lemma_levelup_exhausts_table(apply_level_gain(p));
    }
}

/// Leveling touches only the level and the attributes; every other field of
/// the session record rides through unchanged, and attributes never shrink
/// nor pass the cap.
pub proof fn lemma_levelup_frame(p: PlayerState)
    ensures
        levelup_spec(p) == (PlayerState {
            level: levelup_spec(p).level,
            strength: levelup_spec(p).strength,
            agility: levelup_spec(p).agility,
            intellect: levelup_spec(p).intellect,
            ..p
        }),
        levelup_spec(p).strength >= p.strength,
        levelup_spec(p).agility >= p.agility,
        levelup_spec(p).intellect >= p.intellect,
        p.strength <= MAX_ATTRIBUTE ==> levelup_spec(p).strength <= MAX_ATTRIBUTE,
        p.agility <= MAX_ATTRIBUTE ==> levelup_spec(p).agility <= MAX_ATTRIBUTE,
        p.intellect <= MAX_ATTRIBUTE ==> levelup_spec(p).intellect <= MAX_ATTRIBUTE,
    decreases MAX_LEVEL - p.level,
{
    if p.level < MAX_LEVEL && p.xp >= xp_threshold(p.level + 1) {
        lemma_levelup_frame(apply_level_gain(p));
    }
}

/// Leveling preserves the session invariant.
pub proof fn lemma_levelup_wf(p: PlayerState)
    requires
        player_wf(p),
    ensures
        player_wf(levelup_spec(p)),
{
    lemma_level_bounded(p);
    lemma_levelup_frame(p);
}

} // verus!
