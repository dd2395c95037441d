//! Admin operations: game initialization, round creation and closing, and
//! configuration updates. The round lifecycle runs Pending → Active → Ended
//! → PayoutsProcessed; creation and early closing are admin-only, while
//! anyone may close a round whose time is up.
use vstd::prelude::*;

use crate::errors::PandaBattleError;
use crate::state::{GameRound, GlobalConfig, round_wf};

verus! {

/// Creates the process-wide configuration record, once, at deployment.
pub fn initialize_game(id: u64, admin: u64) -> (c: GlobalConfig)
    ensures
        c == (GlobalConfig { id, admin, current_round: 0, total_rounds: 0 }),
{
    GlobalConfig { id, admin, current_round: 0, total_rounds: 0 }
}

/// The round record as `create_round` builds it at time `now`.
pub open spec fn fresh_round(
    round_number: u64,
    entry_fee: u64,
    attack_pack_price: u64,
    duration_secs: i64,
    entry_hourly_inc_pct: u8,
    now: int,
) -> GameRound {
    GameRound {
        round_number,
        entry_fee,
        attack_pack_price,
        duration_secs,
        entry_hourly_inc_pct,
        start_time: now as i64,
        end_time: (now + duration_secs) as i64,
        leaderboard_reveal_ts: (now + (duration_secs as int) / 2) as i64,
        prize_pool: 0,
        player_count: 0,
        total_battles: 0,
        is_active: true,
        payouts_processed: false,
    }
}

/// Creates and activates a new round: admin-only, sequentially numbered,
/// running from `now` for `duration_secs`, with the leaderboard reveal
/// opening at the halfway point.
pub fn create_round(
    config: &mut GlobalConfig,
    caller: u64,
    entry_fee: u64,
    attack_pack_price: u64,
    duration_secs: i64,
    entry_hourly_inc_pct: u8,
    now: i64,
) -> (r: Result<GameRound, PandaBattleError>)
    requires
        0 <= now,
    ensures
        match r {
            Ok(g) => {
                &&& caller == old(config).admin
                &&& duration_secs > 0
                &&& now + duration_secs <= i64::MAX
                &&& old(config).total_rounds < u64::MAX
                &&& *final(config) == (GlobalConfig {
                    current_round: (old(config).total_rounds + 1) as u64,
                    total_rounds: (old(config).total_rounds + 1) as u64,
                    ..*old(config)
                })
                &&& g == fresh_round(
                    (old(config).total_rounds + 1) as u64,
                    entry_fee,
                    attack_pack_price,
                    duration_secs,
                    entry_hourly_inc_pct,
                    now as int,
                )
                &&& round_wf(g)
            },
            Err(e) => {
                &&& *final(config) == *old(config)
                &&& (e == PandaBattleError::Unauthorized && caller != old(config).admin) || (e
                    == PandaBattleError::InvalidConfig && caller == old(config).admin
                    && duration_secs <= 0) || (e == PandaBattleError::Overflow && caller == old(
                    config,
                ).admin && duration_secs > 0 && (now + duration_secs > i64::MAX || old(
                    config,
                ).total_rounds == u64::MAX))
            },
        },
{
    if caller != config.admin {
        return Err(PandaBattleError::Unauthorized);
    }
    if duration_secs <= 0 {
        return Err(PandaBattleError::InvalidConfig);
    }
    if duration_secs > i64::MAX - now {
        return Err(PandaBattleError::Overflow);
    }
    if config.total_rounds == u64::MAX {
        return Err(PandaBattleError::Overflow);
    }
    config.total_rounds = config.total_rounds + 1;
    config.current_round = config.total_rounds;
    let half_duration: i64 = ((duration_secs as u64) / 2) as i64;
    Ok(
        GameRound {
            round_number: config.total_rounds,
            entry_fee,
            attack_pack_price,
            duration_secs,
            entry_hourly_inc_pct,
            start_time: now,
            end_time: now + duration_secs,
            leaderboard_reveal_ts: now + half_duration,
            prize_pool: 0,
            player_count: 0,
            total_battles: 0,
            is_active: true,
            payouts_processed: false,
        },
    )
}

/// Ends a round: the admin may end it at any time, anyone may end it once
/// the clock has reached `end_time`. Deactivates the round and freezes
/// `end_time` to the actual closing moment.
pub fn end_round(config: &GlobalConfig, round: &mut GameRound, caller: u64, now: i64) -> (r: Result<
    (),
    PandaBattleError,
>)
    requires
        round_wf(*old(round)),
        0 <= now,
    ensures
        round_wf(*final(round)),
        match r {
            Ok(()) => {
                &&& old(round).is_active
                &&& caller == config.admin || now >= old(round).end_time
                &&& *final(round) == (GameRound {
                    is_active: false,
                    end_time: now,
                    ..*old(round)
                })
            },
            Err(e) => {
                &&& *final(round) == *old(round)
                &&& (e == PandaBattleError::RoundAlreadyEnded && !old(round).is_active) || (e
                    == PandaBattleError::Unauthorized && old(round).is_active && caller
                    != config.admin && now < old(round).end_time)
            },
        },
{
    if !round.is_active {
        return Err(PandaBattleError::RoundAlreadyEnded);
    }
    let is_admin = caller == config.admin;
    let is_expired = now >= round.end_time;
    if !is_admin && !is_expired {
        return Err(PandaBattleError::Unauthorized);
    }
    round.is_active = false;
    round.end_time = now;
    Ok(())
}

/// Updates the global configuration: admin-only. No tunable currently
/// lives behind it, so a successful call changes nothing.
pub fn update_config(config: &mut GlobalConfig, caller: u64) -> (r: Result<(), PandaBattleError>)
    ensures
        *final(config) == *old(config),
        match r {
            Ok(()) => caller == old(config).admin,
            Err(e) => e == PandaBattleError::Unauthorized && caller != old(config).admin,
        },
{
    if caller != config.admin {
        return Err(PandaBattleError::Unauthorized);
    }
    Ok(())
}

} // verus!
