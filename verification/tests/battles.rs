use panda_battle::battle::{callback_resolve_battle, simulate_battle};
use panda_battle::errors::PandaBattleError;
use panda_battle::level::check_and_apply_levelup;
use panda_battle::player::initiate_battle;
use panda_battle::state::{GameRound, PlayerState};

fn live_round() -> GameRound {
    GameRound {
        round_number: 1,
        entry_fee: 1_000_000,
        attack_pack_price: 100,
        duration_secs: 86_400,
        entry_hourly_inc_pct: 2,
        start_time: 0,
        end_time: 86_400,
        leaderboard_reveal_ts: 43_200,
        prize_pool: 0,
        player_count: 2,
        total_battles: 0,
        is_active: true,
        payouts_processed: false,
    }
}

fn fighter(id: u64, strength: u8, agility: u8, intellect: u8) -> PlayerState {
    PlayerState {
        player: id,
        round: 1,
        strength,
        agility,
        intellect,
        level: 0,
        xp: 0,
        points: 0,
        turns: 5,
        max_turns: 50,
        last_turn_regen: 0,
        rerolls_used: 0,
        packs_bought_hour: 0,
        last_pack_hour: -1,
        last_battle: 0,
        battles_fought: 0,
        wins: 0,
        losses: 0,
        prize_share: 0,
        prize_claimed: false,
        joined_at: 0,
        entry_fee_paid: 0,
    }
}

#[test]
fn zero_buffer_battle_plays_out_exactly() {
    // Attacker STR 10 / AGI 15 / INT 5 (130 HP) against defender
    // STR 8 / AGI 5 / INT 10 (136 HP), all-zero random buffer.
    // The attacker acts first every turn (AGI 15 > 5). A zero dodge roll
    // never dodges a zero dodge chance, so the attacker's hits all land;
    // a zero crit roll always crits (chance 75%), so each hit deals
    // floor(10 * 1.5) - floor(10 / 2) = 10. The defender's swings are all
    // dodged (the attacker's 10-point agility surplus gives 100% dodge).
    // Ten turns drain the defender from 136 to 36; the attacker wins on
    // remaining hit points.
    let o = simulate_battle(10, 15, 5, 8, 5, 10, &[0u8; 32]);
    assert!(o.attacker_wins);
    assert_eq!(o.attacker_hp, 130);
    assert_eq!(o.defender_hp, 36);
    assert_eq!(o.turns_fought, 10);
}

#[test]
fn identical_inputs_replay_identically() {
    let mut buf = [0u8; 32];
    for i in 0..32 {
        buf[i] = (i as u8).wrapping_mul(37).wrapping_add(11);
    }
    let a = simulate_battle(12, 9, 14, 11, 13, 6, &buf);
    let b = simulate_battle(12, 9, 14, 11, 13, 6, &buf);
    assert_eq!(a, b);
}

#[test]
fn agility_tie_with_zero_byte_lets_attacker_start() {
    // Mirror fighters, zero buffer: the tie byte is 0, so the attacker goes
    // first; both always crit (chance 50%) for 10 damage, nobody dodges.
    // After ten turns both sit at 140 - 100 = 40: an exact tie on hit
    // points and on power, which the attacker wins.
    let o = simulate_battle(10, 10, 10, 10, 10, 10, &[0u8; 32]);
    assert!(o.attacker_wins);
    assert_eq!(o.attacker_hp, 40);
    assert_eq!(o.defender_hp, 40);
    assert_eq!(o.turns_fought, 10);
}

#[test]
fn stronger_defender_wins_on_points() {
    // The defender's agility surplus dodges everything while its own hits
    // land: the attacker must lose.
    let o = simulate_battle(5, 5, 5, 20, 20, 10, &[128u8; 32]);
    assert!(!o.attacker_wins);
}

#[test]
fn initiate_battle_consumes_turn_first() {
    let round = live_round();
    let mut attacker = fighter(1, 10, 15, 5);
    let r = initiate_battle(&round, &mut attacker, 2);
    assert!(r.is_ok());
    assert_eq!(attacker.turns, 4);
}

#[test]
fn initiate_battle_needs_a_turn() {
    let round = live_round();
    let mut attacker = fighter(1, 10, 15, 5);
    attacker.turns = 0;
    let r = initiate_battle(&round, &mut attacker, 2);
    assert_eq!(r, Err(PandaBattleError::InsufficientTurns));
    assert_eq!(attacker.turns, 0);
}

#[test]
fn initiate_battle_rejects_self_and_closed_round() {
    let mut round = live_round();
    let mut attacker = fighter(1, 10, 15, 5);
    assert_eq!(
        initiate_battle(&round, &mut attacker, 1),
        Err(PandaBattleError::CannotBattleSelf)
    );
    round.is_active = false;
    assert_eq!(
        initiate_battle(&round, &mut attacker, 2),
        Err(PandaBattleError::RoundNotActive)
    );
    assert_eq!(attacker.turns, 5);
}

#[test]
fn battle_callback_rewards_winner_and_counts_loss() {
    let mut round = live_round();
    let mut attacker = fighter(1, 10, 15, 5);
    let mut defender = fighter(2, 8, 5, 10);
    let r = callback_resolve_battle(&mut attacker, &mut defender, &mut round, &[0u8; 32], 9_000);
    assert!(r.is_ok());
    assert_eq!(attacker.wins, 1);
    assert_eq!(attacker.points, 1);
    assert_eq!(attacker.xp, 3);
    assert_eq!(attacker.losses, 0);
    assert_eq!(attacker.battles_fought, 1);
    assert_eq!(attacker.last_battle, 9_000);
    assert_eq!(attacker.level, 0); // 3 XP is below the first threshold of 5
    assert_eq!(defender.losses, 1);
    assert_eq!(defender.wins, 0);
    assert_eq!(defender.points, 0);
    assert_eq!(defender.xp, 0);
    assert_eq!(defender.battles_fought, 1);
    assert_eq!(round.total_battles, 1);
}

#[test]
fn two_wins_reach_the_first_level() {
    let mut round = live_round();
    let mut attacker = fighter(1, 10, 15, 5);
    let mut defender = fighter(2, 8, 5, 10);
    callback_resolve_battle(&mut attacker, &mut defender, &mut round, &[0u8; 32], 1).unwrap();
    callback_resolve_battle(&mut attacker, &mut defender, &mut round, &[0u8; 32], 2).unwrap();
    // 6 XP passes the level-1 threshold of 5: level 1 grants +1 strength.
    assert_eq!(attacker.xp, 6);
    assert_eq!(attacker.level, 1);
    assert_eq!(attacker.strength, 11);
    assert_eq!(round.total_battles, 2);
}

#[test]
fn level_table_exhausts_at_ten() {
    // 275 XP granted at once climbs the whole table and stops at level 10.
    let mut p = fighter(1, 5, 5, 5);
    p.xp = 275;
    check_and_apply_levelup(&mut p);
    assert_eq!(p.level, 10);
    // Round-robin gains: strength at levels 1, 4, 7, 10; agility at
    // 2, 5, 8; intellect at 3, 6, 9.
    assert_eq!(p.strength, 9);
    assert_eq!(p.agility, 8);
    assert_eq!(p.intellect, 8);
}

#[test]
fn level_is_monotone_under_xp_grants() {
    let mut p = fighter(1, 5, 5, 5);
    let mut last_level = p.level;
    for grant in [4u32, 1, 10, 0, 60, 200] {
        p.xp += grant;
        check_and_apply_levelup(&mut p);
        assert!(p.level >= last_level);
        last_level = p.level;
    }
    assert_eq!(p.level, 10);
}

#[test]
fn level_thresholds_are_exact() {
    let mut p = fighter(1, 5, 5, 5);
    p.xp = 4;
    check_and_apply_levelup(&mut p);
    assert_eq!(p.level, 0);
    p.xp = 5;
    check_and_apply_levelup(&mut p);
    assert_eq!(p.level, 1);
    p.xp = 14;
    check_and_apply_levelup(&mut p);
    assert_eq!(p.level, 1);
    p.xp = 15;
    check_and_apply_levelup(&mut p);
    assert_eq!(p.level, 2);
}

#[test]
fn attributes_cap_during_levelups() {
    let mut p = fighter(1, 20, 20, 20);
    p.xp = 275;
    check_and_apply_levelup(&mut p);
    assert_eq!(p.level, 10);
    assert_eq!((p.strength, p.agility, p.intellect), (20, 20, 20));
}
