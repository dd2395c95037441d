use panda_battle::crank::{regenerate_turns, reset_packs_if_new_hour};
use panda_battle::errors::PandaBattleError;
use panda_battle::player::buy_attack_packs;
use panda_battle::state::{GameRound, PlayerState};

fn test_round(active: bool) -> GameRound {
    GameRound {
        round_number: 1,
        entry_fee: 1_000_000,
        attack_pack_price: 100,
        duration_secs: 86_400,
        entry_hourly_inc_pct: 2,
        start_time: 0,
        end_time: 86_400,
        leaderboard_reveal_ts: 43_200,
        prize_pool: 0,
        player_count: 0,
        total_battles: 0,
        is_active: active,
        payouts_processed: false,
    }
}

fn test_player(turns: u8, max_turns: u8) -> PlayerState {
    PlayerState {
        player: 7,
        round: 1,
        strength: 10,
        agility: 10,
        intellect: 10,
        level: 0,
        xp: 0,
        points: 0,
        turns,
        max_turns,
        last_turn_regen: 1_000,
        rerolls_used: 0,
        packs_bought_hour: 0,
        last_pack_hour: -1,
        last_battle: 1_000,
        battles_fought: 0,
        wins: 0,
        losses: 0,
        prize_share: 0,
        prize_claimed: false,
        joined_at: 1_000,
        entry_fee_paid: 0,
    }
}

#[test]
fn regen_credits_whole_cycles_only() {
    // 7500 s after the last regeneration: exactly 2 cycles, 6 turns, and the
    // timestamp advances by exactly 7200 s, not to "now".
    let round = test_round(true);
    let mut p = test_player(0, 50);
    let r = regenerate_turns(&round, &mut p, 1_000 + 7_500);
    assert!(r.is_ok());
    assert_eq!(p.turns, 6);
    assert_eq!(p.last_turn_regen, 1_000 + 7_200);
}

#[test]
fn regen_caps_at_max_turns() {
    let round = test_round(true);
    let mut p = test_player(47, 50);
    let r = regenerate_turns(&round, &mut p, 1_000 + 7_500);
    assert!(r.is_ok());
    assert_eq!(p.turns, 50);
    assert_eq!(p.last_turn_regen, 1_000 + 7_200);
}

#[test]
fn regen_not_ready_before_full_interval() {
    let round = test_round(true);
    let mut p = test_player(0, 50);
    let r = regenerate_turns(&round, &mut p, 1_000 + 3_599);
    assert_eq!(r, Err(PandaBattleError::RegenNotReady));
    assert_eq!(p.turns, 0);
    assert_eq!(p.last_turn_regen, 1_000);
}

#[test]
fn regen_blocked_when_storage_full() {
    let round = test_round(true);
    let mut p = test_player(50, 50);
    let r = regenerate_turns(&round, &mut p, 1_000 + 7_500);
    assert_eq!(r, Err(PandaBattleError::TurnStorageFull));
    assert_eq!(p.turns, 50);
    assert_eq!(p.last_turn_regen, 1_000);
}

#[test]
fn regen_requires_active_round() {
    let round = test_round(false);
    let mut p = test_player(0, 50);
    let r = regenerate_turns(&round, &mut p, 1_000 + 7_500);
    assert_eq!(r, Err(PandaBattleError::RoundNotActive));
}

#[test]
fn buy_packs_flat_then_progressive_price() {
    let mut round = test_round(true);
    let mut p = test_player(0, 50);
    // First call: no packs bought this hour, multiplier 100%.
    let cost = buy_attack_packs(&mut round, &mut p, 2, 5_000).unwrap();
    assert_eq!(cost, 200);
    assert_eq!(p.turns, 20);
    assert_eq!(p.packs_bought_hour, 2);
    assert_eq!(p.last_pack_hour, 5_000);
    assert_eq!(round.prize_pool, 200);
    // Second call: two packs already bought, multiplier 200%.
    let cost2 = buy_attack_packs(&mut round, &mut p, 1, 5_100).unwrap();
    assert_eq!(cost2, 200);
    assert_eq!(p.turns, 30);
    assert_eq!(p.packs_bought_hour, 3);
    assert_eq!(round.prize_pool, 400);
}

#[test]
fn buy_packs_rejects_zero_and_too_many() {
    let mut round = test_round(true);
    let mut p = test_player(0, 50);
    assert_eq!(
        buy_attack_packs(&mut round, &mut p, 0, 5_000),
        Err(PandaBattleError::TooManyTurns)
    );
    assert_eq!(
        buy_attack_packs(&mut round, &mut p, 6, 5_000),
        Err(PandaBattleError::TooManyTurns)
    );
    assert_eq!(p.turns, 0);
    assert_eq!(round.prize_pool, 0);
}

#[test]
fn buy_packs_respects_storage_cap() {
    let mut round = test_round(true);
    let mut p = test_player(45, 50);
    let r = buy_attack_packs(&mut round, &mut p, 1, 5_000);
    assert_eq!(r, Err(PandaBattleError::TurnStorageFull));
    assert_eq!(p.turns, 45);
}

#[test]
fn buy_packs_requires_active_round() {
    let mut round = test_round(false);
    let mut p = test_player(0, 50);
    let r = buy_attack_packs(&mut round, &mut p, 1, 5_000);
    assert_eq!(r, Err(PandaBattleError::RoundNotActive));
}

#[test]
fn buy_packs_overflow_aborts_whole() {
    let mut round = test_round(true);
    round.attack_pack_price = u64::MAX;
    let mut p = test_player(0, 50);
    let r = buy_attack_packs(&mut round, &mut p, 5, 5_000);
    assert_eq!(r, Err(PandaBattleError::Overflow));
    assert_eq!(p.turns, 0);
    assert_eq!(round.prize_pool, 0);
}

#[test]
fn pack_counter_resets_after_an_hour() {
    let mut p = test_player(0, 50);
    p.packs_bought_hour = 3;
    p.last_pack_hour = 5_000;
    reset_packs_if_new_hour(&mut p, 5_000 + 3_599);
    assert_eq!(p.packs_bought_hour, 3);
    reset_packs_if_new_hour(&mut p, 5_000 + 3_600);
    assert_eq!(p.packs_bought_hour, 0);
}

#[test]
fn pack_counter_untouched_before_first_purchase() {
    let mut p = test_player(0, 50);
    p.packs_bought_hour = 3;
    p.last_pack_hour = -1;
    reset_packs_if_new_hour(&mut p, 1_000_000);
    assert_eq!(p.packs_bought_hour, 3);
}

#[test]
fn turn_cap_holds_across_operation_sequences() {
    // Regeneration, purchases and battles never push turns past max_turns.
    let mut round = test_round(true);
    let mut p = test_player(0, 30);
    let _ = buy_attack_packs(&mut round, &mut p, 3, 5_000);
    assert!(p.turns <= p.max_turns);
    let _ = regenerate_turns(&round, &mut p, 1_000 + 100 * 3_600);
    assert!(p.turns <= p.max_turns);
    let _ = buy_attack_packs(&mut round, &mut p, 1, 6_000);
    assert!(p.turns <= p.max_turns);
    assert_eq!(p.turns, 30);
}
