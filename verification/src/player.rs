//! Player operations: joining a round (a two-phase request/callback pair
//! around the randomness oracle), buying attack packs, rerolling attributes,
//! initiating battles and claiming the prize.
//!
//! Each function works on plain state handed in by the caller; the caller
//! performs the token transfer or randomness request that a successful
//! result calls for, and delivers the oracle's 32 random bytes to the
//! matching callback function.
use vstd::prelude::*;

use crate::errors::PandaBattleError;
use crate::state::{
    GameRound, PlayerState, player_wf, round_wf, DEFAULT_MAX_TURNS, EARLY_BIRD_TURNS,
    MAX_PACKS_PER_CALL, MAX_REROLLS, REROLL_FEE, STARTING_TURNS, TURNS_PER_PACK,
};

verus! {

// ============== ENTRY FEE ==============

/// Whole hours elapsed since the round started.
pub open spec fn hours_since_start(start: int, now: int) -> int {
    (now - start) / 3600
}

/// Entry fee under continuous hourly compounding, with ceiling division so
/// rounding never undercharges: `ceil(base * (100 + pct * hours) / 100)`.
pub open spec fn entry_fee_at(base: int, pct: int, start: int, now: int) -> int {
    (base * (100 + pct * hours_since_start(start, now)) + 99) / 100
}

/// Computes the entry fee owed for joining at time `now`.
///
/// `now >= start` holds because the round was created at `start` and the
/// clock never runs backwards.
pub fn compute_entry_fee(base: u64, pct: u8, start: i64, now: i64) -> (r: Result<
    u64,
    PandaBattleError,
>)
    requires
        0 <= start <= now,
    ensures
        match r {
            Ok(fee) => fee == entry_fee_at(base as int, pct as int, start as int, now as int),
            Err(e) => e == PandaBattleError::Overflow && entry_fee_at(
                base as int,
                pct as int,
                start as int,
                now as int,
            ) > u64::MAX,
        },
{
    let elapsed: u64 = (now - start) as u64;
    let hours: u64 = elapsed / 3600;
    proof {
        vstd::arithmetic::div_mod::lemma_fundamental_div_mod(elapsed as int, 3600);
        assert((pct as int) * (hours as int) <= 255 * (hours as int)) by (nonlinear_arith)
            requires
                pct <= 255,
                hours >= 0,
        ;
    }
    let mult: u128 = 100 + (pct as u128) * (hours as u128);
    proof {
        assert((base as int) * (mult as int) + 99 < 0x100000000000000000000000000000000int)
            by (nonlinear_arith)
            requires
                0 <= base <= 0xffffffffffffffffint,
                0 <= mult <= 0x2000000000000000int,
        ;
    }
    let fee_wide: u128 = ((base as u128) * mult + 99) / 100;
    if fee_wide > u64::MAX as u128 {
        Err(PandaBattleError::Overflow)
    } else {
        Ok(fee_wide as u64)
    }
}

// ============== JOIN: REQUEST PHASE ==============

/// The session record as it stands between the join request and the
/// oracle's callback: fee bookkeeping done, attributes not yet drawn.
pub open spec fn join_placeholder(player: u64, round_number: u64, fee: u64) -> PlayerState {
    PlayerState {
        player: player,
        round: round_number,
        strength: 0,
        agility: 0,
        intellect: 0,
        level: 0,
        xp: 0,
        points: 0,
        turns: 0,
        max_turns: DEFAULT_MAX_TURNS,
        last_turn_regen: 0,
        rerolls_used: 0,
        packs_bought_hour: 0,
        last_pack_hour: -1i64,
        last_battle: 0,
        battles_fought: 0,
        wins: 0,
        losses: 0,
        prize_share: 0,
        prize_claimed: false,
        joined_at: 0,
        entry_fee_paid: fee,
    }
}

/// First phase of joining: charges the time-scaled entry fee into the prize
/// pool, counts the player, and returns the placeholder session record.
///
/// On success the caller owes two side effects: moving `entry_fee_paid`
/// tokens from the player to the vault, and requesting randomness whose
/// delivery lands in [`callback_join_round`].
pub fn request_join_round(round: &mut GameRound, player: u64, now: i64) -> (r: Result<
    PlayerState,
    PandaBattleError,
>)
    requires
        round_wf(*old(round)),
        old(round).start_time <= now,
    ensures
        round_wf(*final(round)),
        match r {
            Ok(ps) => {
                let fee = entry_fee_at(
                    old(round).entry_fee as int,
                    old(round).entry_hourly_inc_pct as int,
                    old(round).start_time as int,
                    now as int,
                );
                &&& old(round).is_active
                &&& 0 <= fee <= u64::MAX
                &&& old(round).prize_pool + fee <= u64::MAX
                &&& old(round).player_count < u32::MAX
                &&& *final(round) == (GameRound {
                    prize_pool: (old(round).prize_pool + fee) as u64,
                    player_count: (old(round).player_count + 1) as u32,
                    ..*old(round)
                })
                &&& ps == join_placeholder(player, old(round).round_number, fee as u64)
                &&& player_wf(ps)
            },
            Err(e) => {
                let fee = entry_fee_at(
                    old(round).entry_fee as int,
                    old(round).entry_hourly_inc_pct as int,
                    old(round).start_time as int,
                    now as int,
                );
                &&& *final(round) == *old(round)
                &&& (e == PandaBattleError::RoundNotActive && !old(round).is_active) || (e
                    == PandaBattleError::Overflow && old(round).is_active && (fee > u64::MAX || old(
                    round,
                ).prize_pool + fee > u64::MAX || old(round).player_count == u32::MAX))
            },
        },
{
    if !round.is_active {
        return Err(PandaBattleError::RoundNotActive);
    }
    let fee = match compute_entry_fee(
        round.entry_fee,
        round.entry_hourly_inc_pct,
        round.start_time,
        now,
    ) {
        Ok(f) => f,
        Err(e) => {
            return Err(e);
        },
    };
    if round.prize_pool > u64::MAX - fee {
        return Err(PandaBattleError::Overflow);
    }
    if round.player_count == u32::MAX {
        return Err(PandaBattleError::Overflow);
    }
    round.prize_pool = round.prize_pool + fee;
    round.player_count = round.player_count + 1;
    Ok(
        PlayerState {
            player: player,
            round: round.round_number,
            strength: 0,
            agility: 0,
            intellect: 0,
            level: 0,
            xp: 0,
            points: 0,
            turns: 0,
            max_turns: DEFAULT_MAX_TURNS,
            last_turn_regen: 0,
            rerolls_used: 0,
            packs_bought_hour: 0,
            last_pack_hour: -1,
            last_battle: 0,
            battles_fought: 0,
            wins: 0,
            losses: 0,
            prize_share: 0,
            prize_claimed: false,
            joined_at: 0,
            entry_fee_paid: fee,
        },
    )
}

// ============== JOIN: CALLBACK PHASE ==============

/// One attribute drawn from one random byte: the range 5 through 15.
pub open spec fn attr_from_byte(b: int) -> int {
    b % 11 + 5
}

/// Turns granted at join time: the base grant, plus the early-bird bonus
/// within the first six hours, capped at the storage limit.
pub open spec fn join_turns(start: int, now: int, max_turns: int) -> int {
    if hours_since_start(start, now) < 6 {
        let boosted = STARTING_TURNS + EARLY_BIRD_TURNS;
        if boosted > max_turns {
            max_turns
        } else {
            boosted
        }
    } else {
        STARTING_TURNS as int
    }
}

/// Second phase of joining, run when the oracle delivers its 32 random
/// bytes: draws the three attributes from the first three bytes and opens
/// the session with its starting turns and timestamps.
pub fn callback_join_round(
    p: &mut PlayerState,
    round: &GameRound,
    randomness: &[u8; 32],
    now: i64,
)
    requires
        player_wf(*old(p)),
        round_wf(*round),
        round.start_time <= now,
        old(p).max_turns >= STARTING_TURNS,
    ensures
        player_wf(*final(p)),
        *final(p) == (PlayerState {
            strength: attr_from_byte(randomness@[0] as int) as u8,
            agility: attr_from_byte(randomness@[1] as int) as u8,
            intellect: attr_from_byte(randomness@[2] as int) as u8,
            level: 0,
            xp: 0,
            points: 0,
            turns: join_turns(
                round.start_time as int,
                now as int,
                old(p).max_turns as int,
            ) as u8,
            last_turn_regen: now,
            rerolls_used: 0,
            packs_bought_hour: 0,
            last_battle: now,
            battles_fought: 0,
            wins: 0,
            losses: 0,
            prize_share: 0,
            prize_claimed: false,
            joined_at: now,
            ..*old(p)
        }),
{
    p.strength = randomness[0] % 11 + 5;
    p.agility = randomness[1] % 11 + 5;
    p.intellect = randomness[2] % 11 + 5;
    p.level = 0;
    p.xp = 0;
    p.points = 0;
    p.turns = STARTING_TURNS;
    p.last_turn_regen = now;
    p.rerolls_used = 0;
    p.packs_bought_hour = 0;
    p.last_battle = now;
    p.battles_fought = 0;
    p.wins = 0;
    p.losses = 0;
    p.prize_share = 0;
    p.prize_claimed = false;
    p.joined_at = now;
    let elapsed: u64 = (now - round.start_time) as u64;
    let hours: u64 = elapsed / 3600;
    if hours < 6 {
        p.turns = STARTING_TURNS + EARLY_BIRD_TURNS;
        if p.turns > p.max_turns {
            p.turns = p.max_turns;
        }
    }
}

// ============== ATTACK PACKS ==============

/// Cost of `num` attack packs under progressive pricing: each pack already
/// bought this hour raises the price by half of the base, in basis points.
pub open spec fn pack_cost(price: int, packs_bought_hour: int, num: int) -> int {
    price * (10000 + 5000 * packs_bought_hour) * num / 10000
}

/// Buys up to [`MAX_PACKS_PER_CALL`] attack packs, each granting
/// [`TURNS_PER_PACK`] turns, at the progressive hourly price; the cost joins
/// the prize pool. Rejected outright if the resulting balance would pass the
/// storage cap.
///
/// On success the caller owes the token transfer of the computed cost from
/// the player to the vault.
pub fn buy_attack_packs(
    round: &mut GameRound,
    p: &mut PlayerState,
    num_packs: u8,
    now: i64,
) -> (r: Result<u64, PandaBattleError>)
    requires
        player_wf(*old(p)),
        0 <= now,
    ensures
        player_wf(*final(p)),
        match r {
            Ok(cost) => {
                &&& 0 < num_packs <= MAX_PACKS_PER_CALL
                &&& old(round).is_active
                &&& old(p).turns + num_packs * (TURNS_PER_PACK as int) <= old(p).max_turns
                &&& cost == pack_cost(
                    old(round).attack_pack_price as int,
                    old(p).packs_bought_hour as int,
                    num_packs as int,
                )
                &&& old(round).prize_pool + cost <= u64::MAX
                &&& *final(round) == (GameRound {
                    prize_pool: (old(round).prize_pool + cost) as u64,
                    ..*old(round)
                })
                &&& *final(p) == (PlayerState {
                    turns: (old(p).turns + num_packs * (TURNS_PER_PACK as int)) as u8,
                    packs_bought_hour: if old(p).packs_bought_hour + num_packs > u8::MAX {
                        u8::MAX
                    } else {
                        (old(p).packs_bought_hour + num_packs) as u8
                    },
                    last_pack_hour: now,
                    ..*old(p)
                })
            },
            Err(e) => {
                let cost = pack_cost(
                    old(round).attack_pack_price as int,
                    old(p).packs_bought_hour as int,
                    num_packs as int,
                );
                &&& *final(round) == *old(round)
                &&& *final(p) == *old(p)
                &&& (e == PandaBattleError::TooManyTurns && (num_packs == 0 || num_packs
                    > MAX_PACKS_PER_CALL)) || (e == PandaBattleError::RoundNotActive && 0
                    < num_packs <= MAX_PACKS_PER_CALL && !old(round).is_active) || (e
                    == PandaBattleError::TurnStorageFull && 0 < num_packs <= MAX_PACKS_PER_CALL
                    && old(round).is_active && old(p).turns + num_packs * (TURNS_PER_PACK as int)
                    > old(p).max_turns) || (e == PandaBattleError::Overflow && 0 < num_packs
                    <= MAX_PACKS_PER_CALL && old(round).is_active && old(p).turns + num_packs * (
                TURNS_PER_PACK as int) <= old(p).max_turns && (cost > u64::MAX || old(
                    round,
                ).prize_pool + cost > u64::MAX))
            },
        },
{
    if num_packs == 0 || num_packs > MAX_PACKS_PER_CALL {
        return Err(PandaBattleError::TooManyTurns);
    }
    if !round.is_active {
        return Err(PandaBattleError::RoundNotActive);
    }
    let turns_to_add: u8 = num_packs * TURNS_PER_PACK;
    let new_turns: u16 = p.turns as u16 + turns_to_add as u16;
    if new_turns > p.max_turns as u16 {
        return Err(PandaBattleError::TurnStorageFull);
    }
    let price_multiplier: u64 = 10000 + 5000 * (p.packs_bought_hour as u64);
    proof {
        assert((round.attack_pack_price as int) * (price_multiplier as int) * (num_packs as int)
            < 0x100000000000000000000000000000000int && (round.attack_pack_price as int) * (
        price_multiplier as int) < 0x100000000000000000000000000000000int) by (nonlinear_arith)
            requires
                0 <= round.attack_pack_price <= 0xffffffffffffffffint,
                0 <= price_multiplier <= 1285000,
                0 <= num_packs <= 5,
        ;
    }
    let cost_wide: u128 = (round.attack_pack_price as u128) * (price_multiplier as u128) * (
    num_packs as u128) / 10000;
    if cost_wide > u64::MAX as u128 {
        return Err(PandaBattleError::Overflow);
    }
    let cost: u64 = cost_wide as u64;
    if round.prize_pool > u64::MAX - cost {
        return Err(PandaBattleError::Overflow);
    }
    round.prize_pool = round.prize_pool + cost;
    p.turns = new_turns as u8;
    p.packs_bought_hour = if p.packs_bought_hour > u8::MAX - num_packs {
        u8::MAX
    } else {
        p.packs_bought_hour + num_packs
    };
    p.last_pack_hour = now;
    Ok(cost)
}

// ============== REROLL ==============

/// Pays the fixed reroll fee into the prize pool and consumes one of the
/// [`MAX_REROLLS`] allowed rerolls; irreversible per call.
///
/// On success the caller owes the fee transfer and a randomness request
/// whose delivery lands in [`callback_reroll_attributes`].
pub fn reroll_attributes(round: &mut GameRound, p: &mut PlayerState) -> (r: Result<
    u64,
    PandaBattleError,
>)
    requires
        player_wf(*old(p)),
    ensures
        player_wf(*final(p)),
        match r {
            Ok(fee) => {
                &&& old(round).is_active
                &&& old(p).rerolls_used < MAX_REROLLS
                &&& fee == REROLL_FEE
                &&& old(round).prize_pool + REROLL_FEE <= u64::MAX
                &&& *final(round) == (GameRound {
                    prize_pool: (old(round).prize_pool + REROLL_FEE) as u64,
                    ..*old(round)
                })
                &&& *final(p) == (PlayerState {
                    rerolls_used: (old(p).rerolls_used + 1) as u8,
                    ..*old(p)
                })
            },
            Err(e) => {
                &&& *final(round) == *old(round)
                &&& *final(p) == *old(p)
                &&& (e == PandaBattleError::RoundNotActive && !old(round).is_active) || (e
                    == PandaBattleError::MaxRerollsReached && old(round).is_active && old(
                    p,
                ).rerolls_used >= MAX_REROLLS) || (e == PandaBattleError::Overflow && old(
                    round,
                ).is_active && old(p).rerolls_used < MAX_REROLLS && old(round).prize_pool
                    + REROLL_FEE > u64::MAX)
            },
        },
{
    if !round.is_active {
        return Err(PandaBattleError::RoundNotActive);
    }
    if p.rerolls_used >= MAX_REROLLS {
        return Err(PandaBattleError::MaxRerollsReached);
    }
    if round.prize_pool > u64::MAX - REROLL_FEE {
        return Err(PandaBattleError::Overflow);
    }
    round.prize_pool = round.prize_pool + REROLL_FEE;
    p.rerolls_used = p.rerolls_used + 1;
    Ok(REROLL_FEE)
}

/// Replaces all three attributes from the oracle's fresh random bytes.
pub fn callback_reroll_attributes(p: &mut PlayerState, randomness: &[u8; 32])
    requires
        player_wf(*old(p)),
    ensures
        player_wf(*final(p)),
        *final(p) == (PlayerState {
            strength: attr_from_byte(randomness@[0] as int) as u8,
            agility: attr_from_byte(randomness@[1] as int) as u8,
            intellect: attr_from_byte(randomness@[2] as int) as u8,
            ..*old(p)
        }),
{
    p.strength = randomness[0] % 11 + 5;
    p.agility = randomness[1] % 11 + 5;
    p.intellect = randomness[2] % 11 + 5;
}

// ============== BATTLE: REQUEST PHASE ==============

/// First phase of a battle: validates the round, the attacker's turn
/// balance and the target, and consumes one turn immediately — before any
/// randomness request leaves — so a second request in flight can never
/// spend the same turn twice.
///
/// On success the caller owes a randomness request whose delivery lands in
/// the battle resolution callback.
pub fn initiate_battle(round: &GameRound, attacker: &mut PlayerState, defender_player: u64) -> (r:
    Result<(), PandaBattleError>)
    requires
        player_wf(*old(attacker)),
    ensures
        player_wf(*final(attacker)),
        match r {
            Ok(()) => {
                &&& round.is_active
                &&& old(attacker).turns > 0
                &&& old(attacker).player != defender_player
                &&& *final(attacker) == (PlayerState {
                    turns: (old(attacker).turns - 1) as u8,
                    ..*old(attacker)
                })
            },
            Err(e) => {
                &&& *final(attacker) == *old(attacker)
                &&& (e == PandaBattleError::RoundNotActive && !round.is_active) || (e
                    == PandaBattleError::InsufficientTurns && round.is_active && old(
                    attacker,
                ).turns == 0) || (e == PandaBattleError::CannotBattleSelf && round.is_active
                    && old(attacker).turns > 0 && old(attacker).player == defender_player)
            },
        },
{
    if !round.is_active {
        return Err(PandaBattleError::RoundNotActive);
    }
    if attacker.turns == 0 {
        return Err(PandaBattleError::InsufficientTurns);
    }
    if attacker.player == defender_player {
        return Err(PandaBattleError::CannotBattleSelf);
    }
    attacker.turns = attacker.turns - 1;
    Ok(())
}

// ============== PRIZE CLAIM ==============

/// Claims the prize share computed by the distribution pass: a pull-based,
/// one-shot operation. Returns the amount the caller owes as a vault-to-
/// player transfer.
pub fn claim_prize(round: &GameRound, p: &mut PlayerState, caller: u64) -> (r: Result<
    u64,
    PandaBattleError,
>)
    requires
        player_wf(*old(p)),
    ensures
        player_wf(*final(p)),
        match r {
            Ok(prize) => {
                &&& !round.is_active
                &&& round.payouts_processed
                &&& old(p).player == caller
                &&& !old(p).prize_claimed
                &&& prize == old(p).prize_share
                &&& prize > 0
                &&& *final(p) == (PlayerState { prize_claimed: true, ..*old(p) })
            },
            Err(e) => {
                &&& *final(p) == *old(p)
                &&& (e == PandaBattleError::RoundNotEnded && round.is_active) || (e
                    == PandaBattleError::NoRewardsAvailable && !round.is_active
                    && !round.payouts_processed) || (e == PandaBattleError::NotJoined
                    && !round.is_active && round.payouts_processed && old(p).player != caller) || (
                e == PandaBattleError::AlreadyClaimed && !round.is_active
                    && round.payouts_processed && old(p).player == caller && old(
                    p,
                ).prize_claimed) || (e == PandaBattleError::NoRewardsAvailable && !round.is_active
                    && round.payouts_processed && old(p).player == caller && !old(p).prize_claimed
                    && old(p).prize_share == 0)
            },
        },
{
    if round.is_active {
        return Err(PandaBattleError::RoundNotEnded);
    }
    if !round.payouts_processed {
        return Err(PandaBattleError::NoRewardsAvailable);
    }
    if p.player != caller {
        return Err(PandaBattleError::NotJoined);
    }
    if p.prize_claimed {
        return Err(PandaBattleError::AlreadyClaimed);
    }
    if p.prize_share == 0 {
        return Err(PandaBattleError::NoRewardsAvailable);
    }
    p.prize_claimed = true;
    Ok(p.prize_share)
}

} // verus!
