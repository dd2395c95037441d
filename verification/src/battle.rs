//! The battle resolution engine: a turn-by-turn simulator that consumes one
//! 32-byte random buffer and nothing else, so that the outcome is a pure
//! function of the two fighters' attributes and the buffer — identical
//! inputs replay to the identical winner, hit points and turn count.
//!
//! Rules per turn, up to [`MAX_BATTLE_TURNS`]:
//! - the side with higher agility acts first; an exact tie consumes one
//!   byte and lets the attacker go first only when that byte is zero (the
//!   asymmetric tie rule is kept deliberately, byte-for-byte);
//! - each half-turn rolls one byte for a dodge (chance: ten percent per
//!   point of the dodger's agility surplus, capped), and, if not dodged,
//!   one byte for a crit (five percent per point of the striker's agility,
//!   capped); damage is strength, half again on a crit, less half the
//!   target's intellect, floored at zero;
//! - bytes are drawn cyclically from the buffer (`index % 32`); one index
//!   advances per turn for the order decision whether or not a tie read it;
//! - a side dropping to zero hit points ends the battle mid-exchange;
//! - if both survive, the higher remaining hit points win; an exact tie
//!   falls to the higher attribute sum, and the attacker wins ties on that
//!   too.
use vstd::prelude::*;

use crate::errors::PandaBattleError;
use crate::level::{check_and_apply_levelup, lemma_levelup_wf, levelup_spec};
use crate::state::{
    GameRound, PlayerState, player_wf, spec_hp, spec_power, MAX_BATTLE_TURNS, XP_PER_WIN,
};

verus! {

/// A fighter's attributes as the simulator reads them.
pub struct FighterStats {
    pub strength: int,
    pub agility: int,
    pub intellect: int,
}

/// The attribute triple of a session record.
pub open spec fn stats_of(p: PlayerState) -> FighterStats {
    FighterStats {
        strength: p.strength as int,
        agility: p.agility as int,
        intellect: p.intellect as int,
    }
}

/// The byte the cyclic cursor reads at position `i`.
pub open spec fn byte_at(r: Seq<u8>, i: int) -> int
    recommends
        r.len() == 32,
{
    r[i % 32] as int
}

/// A random byte mapped onto the range 0 through 100.
pub open spec fn roll100(b: int) -> int {
    b * 100 / 255
}

/// The dodger's agility surplus over the striker, floored at zero.
pub open spec fn agility_surplus(dodger_agi: int, striker_agi: int) -> int {
    if dodger_agi > striker_agi {
        dodger_agi - striker_agi
    } else {
        0
    }
}

/// Dodge chance in percent: ten per surplus agility point, capped at 100.
pub open spec fn dodge_chance(dodger_agi: int, striker_agi: int) -> int {
    vstd::math::min(agility_surplus(dodger_agi, striker_agi) * 10, 100)
}

/// Crit chance in percent: five per striker agility point, capped at 100.
pub open spec fn crit_chance(striker_agi: int) -> int {
    vstd::math::min(striker_agi * 5, 100)
}

/// Damage of one landed hit: strength, half again on a crit (in basis
/// points, floored), less half the target's intellect, never negative.
pub open spec fn attack_damage(att_str: int, crit: bool, tgt_int: int) -> int {
    let base = att_str * (if crit {
        15000int
    } else {
        10000int
    }) / 10000;
    let mitigation = tgt_int / 2;
    if base >= mitigation {
        base - mitigation
    } else {
        0
    }
}

/// One half-turn: the striker swings at the target. Returns the target's
/// new hit points and the advanced byte cursor: one byte on a dodge, two
/// otherwise.
#[verifier::opaque]
pub open spec fn half_attack(
    att_str: int,
    att_agi: int,
    tgt_agi: int,
    tgt_int: int,
    tgt_hp: int,
    r: Seq<u8>,
    ri: int,
) -> (int, int) {
    let droll = roll100(byte_at(r, ri));
    if droll < dodge_chance(tgt_agi, att_agi) {
        (tgt_hp, ri + 1)
    } else {
        let croll = roll100(byte_at(r, ri + 1));
        let crit = croll < crit_chance(att_agi);
        let dmg = attack_damage(att_str, crit, tgt_int);
        (
            if tgt_hp >= dmg {
                tgt_hp - dmg
            } else {
                0
            },
            ri + 2,
        )
    }
}

/// One full turn from a live state: decide the order (consuming the order
/// byte's index either way), run the first half, and run the second half
/// only if the first left its target standing.
#[verifier::opaque]
pub open spec fn turn_step(
    a: FighterStats,
    d: FighterStats,
    r: Seq<u8>,
    ahp: int,
    dhp: int,
    ri: int,
) -> (int, int, int) {
    let attacker_first = if a.agility == d.agility {
        byte_at(r, ri) == 0
    } else {
        a.agility > d.agility
    };
    let ri1 = ri + 1;
    if attacker_first {
        let first = half_attack(a.strength, a.agility, d.agility, d.intellect, dhp, r, ri1);
        if first.0 == 0 {
            (ahp, first.0, first.1)
        } else {
            let second = half_attack(d.strength, d.agility, a.agility, a.intellect, ahp, r, first.1);
            (second.0, first.0, second.1)
        }
    } else {
        let first = half_attack(d.strength, d.agility, a.agility, a.intellect, ahp, r, ri1);
        if first.0 == 0 {
            (first.0, dhp, first.1)
        } else {
            let second = half_attack(a.strength, a.agility, d.agility, d.intellect, dhp, r, first.1);
            (first.0, second.0, second.1)
        }
    }
}

/// Battle state — attacker hit points, defender hit points, byte cursor —
/// after `n` turns have had their chance to run. A turn from a state with
/// a side already at zero changes nothing.
pub open spec fn battle_state(a: FighterStats, d: FighterStats, r: Seq<u8>, n: nat) -> (
    int,
    int,
    int,
)
    decreases n,
{
    if n == 0 {
        (spec_hp(a.strength, a.intellect), spec_hp(d.strength, d.intellect), 0)
    } else {
        let s = battle_state(a, d, r, (n - 1) as nat);
        if s.0 == 0 || s.1 == 0 {
            s
        } else {
            turn_step(a, d, r, s.0, s.1, s.2)
        }
    }
}

/// How many of the first `n` turns actually ran.
pub open spec fn battle_turns_used(a: FighterStats, d: FighterStats, r: Seq<u8>, n: nat) -> int
    decreases n,
{
    if n == 0 {
        0
    } else {
        let s = battle_state(a, d, r, (n - 1) as nat);
        if s.0 == 0 || s.1 == 0 {
            battle_turns_used(a, d, r, (n - 1) as nat)
        } else {
            battle_turns_used(a, d, r, (n - 1) as nat) + 1
        }
    }
}

/// Who won: a felled defender loses, a felled attacker loses, and a double
/// survival compares hit points, then total power, with the attacker
/// winning ties on power.
pub open spec fn battle_attacker_wins(a: FighterStats, d: FighterStats, r: Seq<u8>) -> bool {
    let s = battle_state(a, d, r, MAX_BATTLE_TURNS as nat);
    if s.1 == 0 {
        true
    } else if s.0 == 0 {
        false
    } else if s.0 == s.1 {
        spec_power(a.strength, a.agility, a.intellect) >= spec_power(
            d.strength,
            d.agility,
            d.intellect,
        )
    } else {
        s.0 > s.1
    }
}

/// A terminal state never changes again: hit points and cursor freeze, and
/// no further turn is counted.
proof fn lemma_battle_stable(a: FighterStats, d: FighterStats, r: Seq<u8>, m: nat, n: nat)
    requires
        m <= n,
        battle_state(a, d, r, m).0 == 0 || battle_state(a, d, r, m).1 == 0,
    ensures
        battle_state(a, d, r, n) == battle_state(a, d, r, m),
        battle_turns_used(a, d, r, n) == battle_turns_used(a, d, r, m),
    decreases n - m,
{
    if n > m {
        lemma_battle_stable(a, d, r, m, (n - 1) as nat);
    }
}

/// What one resolved battle reports.
#[derive(Clone, Copy, PartialEq, Eq, Structural, Debug)]
pub struct BattleOutcome {
    /// True when the attacker won.
    pub attacker_wins: bool,
    /// Attacker's remaining hit points.
    pub attacker_hp: u16,
    /// Defender's remaining hit points.
    pub defender_hp: u16,
    /// Turns that actually ran, at most [`MAX_BATTLE_TURNS`].
    pub turns_fought: u8,
}

/// One executable half-turn; mirrors [`half_attack`] exactly.
fn half_attack_exec(
    att_str: u8,
    att_agi: u8,
    tgt_agi: u8,
    tgt_int: u8,
    tgt_hp: u16,
    randomness: &[u8; 32],
    ri: usize,
) -> (res: (u16, usize))
    requires
        ri <= 1000,
    ensures
        ({
            let s = half_attack(
                att_str as int,
                att_agi as int,
                tgt_agi as int,
                tgt_int as int,
                tgt_hp as int,
                randomness@,
                ri as int,
            );
            res.0 as int == s.0 && res.1 as int == s.1
        }),
        ri + 1 <= res.1 <= ri + 2,
{
    proof {
        reveal(half_attack);
    }
    let dodge_byte: u8 = randomness[ri % 32];
    let droll: u16 = (dodge_byte as u16) * 100 / 255;
    let surplus: u8 = if tgt_agi > att_agi {
        tgt_agi - att_agi
    } else {
        0
    };
    let dodge_c: u16 = if (surplus as u16) * 10 > 100 {
        100
    } else {
        (surplus as u16) * 10
    };
    if droll < dodge_c {
        return (tgt_hp, ri + 1);
    }
    let crit_byte: u8 = randomness[(ri + 1) % 32];
    let croll: u16 = (crit_byte as u16) * 100 / 255;
    let crit_c: u16 = if (att_agi as u16) * 5 > 100 {
        100
    } else {
        (att_agi as u16) * 5
    };
    let crit = croll < crit_c;
    let base: u16 = ((att_str as u32) * (if crit {
        15000
    } else {
        10000
    }) / 10000) as u16;
    let mitigation: u16 = (tgt_int as u16) / 2;
    let dmg: u16 = if base >= mitigation {
        base - mitigation
    } else {
        0
    };
    let new_hp: u16 = if tgt_hp >= dmg {
        tgt_hp - dmg
    } else {
        0
    };
    (new_hp, ri + 2)
}

/// One executable full turn from a live state; mirrors [`turn_step`].
fn battle_turn_exec(
    a_str: u8,
    a_agi: u8,
    a_int: u8,
    d_str: u8,
    d_agi: u8,
    d_int: u8,
    ahp: u16,
    dhp: u16,
    ri: usize,
    randomness: &[u8; 32],
) -> (res: (u16, u16, usize))
    requires
        ri <= 900,
    ensures
        ({
            let step = turn_step(
                FighterStats {
                    strength: a_str as int,
                    agility: a_agi as int,
                    intellect: a_int as int,
                },
                FighterStats {
                    strength: d_str as int,
                    agility: d_agi as int,
                    intellect: d_int as int,
                },
                randomness@,
                ahp as int,
                dhp as int,
                ri as int,
            );
            res.0 as int == step.0 && res.1 as int == step.1 && res.2 as int == step.2
        }),
        ri + 1 <= res.2 <= ri + 5,
{
    proof {
        reveal(turn_step);
    }
    let mut ahp_new: u16 = ahp;
    let mut dhp_new: u16 = dhp;
    let mut cursor: usize = ri;
    let attacker_first: bool = if a_agi == d_agi {
        randomness[cursor % 32] == 0
    } else {
        a_agi > d_agi
    };
    cursor = cursor + 1;
    if attacker_first {
        let first = half_attack_exec(a_str, a_agi, d_agi, d_int, dhp_new, randomness, cursor);
        dhp_new = first.0;
        cursor = first.1;
        if dhp_new > 0 {
            let second = half_attack_exec(d_str, d_agi, a_agi, a_int, ahp_new, randomness, cursor);
            ahp_new = second.0;
            cursor = second.1;
        }
    } else {
        let first = half_attack_exec(d_str, d_agi, a_agi, a_int, ahp_new, randomness, cursor);
        ahp_new = first.0;
        cursor = first.1;
        if ahp_new > 0 {
            let second = half_attack_exec(a_str, a_agi, d_agi, d_int, dhp_new, randomness, cursor);
            dhp_new = second.0;
            cursor = second.1;
        }
    }
    (ahp_new, dhp_new, cursor)
}

/// Runs the whole battle simulation. The result is pinned to a pure
/// function of the six attributes and the random buffer: replaying the
/// same inputs yields the same winner, hit points and turn count.
#[verifier::rlimit(60)]
pub fn simulate_battle(
    a_str: u8,
    a_agi: u8,
    a_int: u8,
    d_str: u8,
    d_agi: u8,
    d_int: u8,
    randomness: &[u8; 32],
) -> (o: BattleOutcome)
    ensures
        ({
            let a = FighterStats {
                strength: a_str as int,
                agility: a_agi as int,
                intellect: a_int as int,
            };
            let d = FighterStats {
                strength: d_str as int,
                agility: d_agi as int,
                intellect: d_int as int,
            };
            let s = battle_state(a, d, randomness@, MAX_BATTLE_TURNS as nat);
            &&& o.attacker_hp as int == s.0
            &&& o.defender_hp as int == s.1
            &&& o.attacker_wins == battle_attacker_wins(a, d, randomness@)
            &&& o.turns_fought as int == battle_turns_used(a, d, randomness@, MAX_BATTLE_TURNS as nat)
        }),
{
    let ghost a = FighterStats {
        strength: a_str as int,
        agility: a_agi as int,
        intellect: a_int as int,
    };
    let ghost d = FighterStats {
        strength: d_str as int,
        agility: d_agi as int,
        intellect: d_int as int,
    };
    let mut ahp: u16 = 100 + (a_str as u16 + a_int as u16) * 2;
    let mut dhp: u16 = 100 + (d_str as u16 + d_int as u16) * 2;
    let mut ri: usize = 0;
    let mut turn: u8 = 0;
    while turn < MAX_BATTLE_TURNS && ahp > 0 && dhp > 0
        invariant
            a == (FighterStats {
                strength: a_str as int,
                agility: a_agi as int,
                intellect: a_int as int,
            }),
            d == (FighterStats {
                strength: d_str as int,
                agility: d_agi as int,
                intellect: d_int as int,
            }),
            turn <= MAX_BATTLE_TURNS,
            ri <= 5 * turn as usize,
            ahp as int == battle_state(a, d, randomness@, turn as nat).0,
            dhp as int == battle_state(a, d, randomness@, turn as nat).1,
            ri as int == battle_state(a, d, randomness@, turn as nat).2,
            battle_turns_used(a, d, randomness@, turn as nat) == turn as int,
        decreases MAX_BATTLE_TURNS - turn,
    {
        let ghost ahp0 = ahp;
        let ghost dhp0 = dhp;
        let ghost ri0 = ri;
        let stepped = battle_turn_exec(
            a_str,
            a_agi,
            a_int,
            d_str,
            d_agi,
            d_int,
            ahp,
            dhp,
            ri,
            randomness,
        );
        ahp = stepped.0;
        dhp = stepped.1;
        ri = stepped.2;
        proof {
            let s = battle_state(a, d, randomness@, turn as nat);
            assert(s.0 == ahp0 as int && s.1 == dhp0 as int && s.2 == ri0 as int);
            assert(s.0 != 0 && s.1 != 0);
            assert(battle_state(a, d, randomness@, (turn + 1) as nat) == turn_step(
                a,
                d,
                randomness@,
                s.0,
                s.1,
                s.2,
            ));
            assert(battle_turns_used(a, d, randomness@, (turn + 1) as nat) == battle_turns_used(
                a,
                d,
                randomness@,
                turn as nat,
            ) + 1);
        }
        turn = turn + 1;
    }
    proof {
        if turn < MAX_BATTLE_TURNS {
            lemma_battle_stable(a, d, randomness@, turn as nat, MAX_BATTLE_TURNS as nat);
        }
    }
    let attacker_wins: bool = if dhp == 0 {
        true
    } else if ahp == 0 {
        false
    } else if ahp == dhp {
        let power_a: u16 = a_str as u16 + a_agi as u16 + a_int as u16;
        let power_d: u16 = d_str as u16 + d_agi as u16 + d_int as u16;
        power_a >= power_d
    } else {
        ahp > dhp
    };
    BattleOutcome { attacker_wins, attacker_hp: ahp, defender_hp: dhp, turns_fought: turn }
}

/// The winner's bookkeeping before level-ups: one more battle, one more
/// win, one leaderboard point, [`XP_PER_WIN`] experience.
pub open spec fn winner_update(p: PlayerState, now: i64) -> PlayerState {
    PlayerState {
        battles_fought: (p.battles_fought + 1) as u16,
        last_battle: now,
        wins: (p.wins + 1) as u16,
        points: (p.points + 1) as u16,
        xp: (p.xp + XP_PER_WIN) as u32,
        ..p
    }
}

/// The loser's bookkeeping: one more battle, one more loss, nothing else.
pub open spec fn loser_update(p: PlayerState, now: i64) -> PlayerState {
    PlayerState {
        battles_fought: (p.battles_fought + 1) as u16,
        last_battle: now,
        losses: (p.losses + 1) as u16,
        ..p
    }
}

/// True when some battle counter would wrap; the resolution then aborts
/// whole, with no partial write.
pub open spec fn battle_counters_overflow(
    a: PlayerState,
    d: PlayerState,
    g: GameRound,
    win: bool,
) -> bool {
    ||| a.battles_fought == u16::MAX
    ||| d.battles_fought == u16::MAX
    ||| g.total_battles == u32::MAX
    ||| (if win {
        a.wins == u16::MAX || a.points == u16::MAX || a.xp + XP_PER_WIN > u32::MAX
            || d.losses == u16::MAX
    } else {
        d.wins == u16::MAX || d.points == u16::MAX || d.xp + XP_PER_WIN > u32::MAX
            || a.losses == u16::MAX
    })
}

/// Second phase of a battle, run when the oracle delivers the random
/// buffer: simulates the fight from both fighters' attributes, then writes
/// back both records and the round's battle counter in one piece — the
/// winner gains a point, experience and any level-ups it affords, the
/// loser a loss.
pub fn callback_resolve_battle(
    attacker: &mut PlayerState,
    defender: &mut PlayerState,
    round: &mut GameRound,
    randomness: &[u8; 32],
    now: i64,
) -> (r: Result<(), PandaBattleError>)
    requires
        player_wf(*old(attacker)),
        player_wf(*old(defender)),
    ensures
        player_wf(*final(attacker)),
        player_wf(*final(defender)),
        match r {
            Ok(()) => {
                let win = battle_attacker_wins(
                    stats_of(*old(attacker)),
                    stats_of(*old(defender)),
                    randomness@,
                );
                &&& !battle_counters_overflow(*old(attacker), *old(defender), *old(round), win)
                &&& *final(round) == (GameRound {
                    total_battles: (old(round).total_battles + 1) as u32,
                    ..*old(round)
                })
                &&& *final(attacker) == if win {
                    levelup_spec(winner_update(*old(attacker), now))
                } else {
                    loser_update(*old(attacker), now)
                }
                &&& *final(defender) == if win {
                    loser_update(*old(defender), now)
                } else {
                    levelup_spec(winner_update(*old(defender), now))
                }
            },
            Err(e) => {
                &&& e == PandaBattleError::Overflow
                &&& battle_counters_overflow(
                    *old(attacker),
                    *old(defender),
                    *old(round),
                    battle_attacker_wins(
                        stats_of(*old(attacker)),
                        stats_of(*old(defender)),
                        randomness@,
                    ),
                )
                &&& *final(attacker) == *old(attacker)
                &&& *final(defender) == *old(defender)
                &&& *final(round) == *old(round)
            },
        },
{
    let outcome = simulate_battle(
        attacker.strength,
        attacker.agility,
        attacker.intellect,
        defender.strength,
        defender.agility,
        defender.intellect,
        randomness,
    );
    let win = outcome.attacker_wins;
    if attacker.battles_fought == u16::MAX || defender.battles_fought == u16::MAX
        || round.total_battles == u32::MAX {
        return Err(PandaBattleError::Overflow);
    }
    if win {
        if attacker.wins == u16::MAX || attacker.points == u16::MAX || attacker.xp > u32::MAX
            - XP_PER_WIN || defender.losses == u16::MAX {
            return Err(PandaBattleError::Overflow);
        }
    } else {
        if defender.wins == u16::MAX || defender.points == u16::MAX || defender.xp > u32::MAX
            - XP_PER_WIN || attacker.losses == u16::MAX {
            return Err(PandaBattleError::Overflow);
        }
    }
    attacker.battles_fought = attacker.battles_fought + 1;
    defender.battles_fought = defender.battles_fought + 1;
    attacker.last_battle = now;
    defender.last_battle = now;
    if win {
        attacker.wins = attacker.wins + 1;
        attacker.points = attacker.points + 1;
        attacker.xp = attacker.xp + XP_PER_WIN;
        defender.losses = defender.losses + 1;
        proof {
            lemma_levelup_wf(*attacker);
        }
        check_and_apply_levelup(attacker);
    } else {
        defender.wins = defender.wins + 1;
        defender.points = defender.points + 1;
        defender.xp = defender.xp + XP_PER_WIN;
        attacker.losses = attacker.losses + 1;
        proof {
            lemma_levelup_wf(*defender);
        }
        check_and_apply_levelup(defender);
    }
    round.total_battles = round.total_battles + 1;
    Ok(())
}

} // verus!
