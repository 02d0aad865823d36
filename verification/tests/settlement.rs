use score_prediction::errors::ErrorCode;
use score_prediction::state::{GameState, MatchShares, MatchStatus};

const ADMIN: u64 = 10;
const ORACLE: u64 = 20;
const VAULT: u64 = 7;

fn live_match(liquidity: u64) -> GameState {
    let mut gs = GameState::initialize(
        1,
        liquidity,
        String::from("A"),
        String::from("B"),
        ADMIN,
        ORACLE,
        VAULT,
    )
    .unwrap();
    gs.start_game(ADMIN).unwrap();
    gs
}

fn empty_shares() -> MatchShares {
    MatchShares { team_a_shares: 0, team_b_shares: 0 }
}

#[test]
fn end_game_requires_admin_and_live_match() {
    let mut gs = live_match(1000);
    assert_eq!(gs.end_game(ORACLE, 0, 0).unwrap_err(), ErrorCode::UnauthorizedAdmin);
    let mut fresh = GameState::initialize(
        1,
        1000,
        String::from("A"),
        String::from("B"),
        ADMIN,
        ORACLE,
        VAULT,
    )
    .unwrap();
    assert_eq!(fresh.end_game(ADMIN, 0, 0).unwrap_err(), ErrorCode::MatchNotLive);
    gs.end_game(ADMIN, 0, 0).unwrap();
    assert_eq!(gs.match_status, MatchStatus::Ended);
    assert_eq!(gs.end_game(ADMIN, 0, 0).unwrap_err(), ErrorCode::MatchNotLive);
}

#[test]
fn end_game_takes_five_percent_fee() {
    let mut gs = live_match(1000);
    let name = String::from("A");
    let mut sh = empty_shares();
    gs.deposit(&mut sh, VAULT, 500, &name).unwrap();
    let (fee, moved) = gs.end_game(ADMIN, 500, 500).unwrap();
    assert_eq!(fee, 25);
    assert_eq!(moved, 25);
    assert_eq!(gs.vault_sol_balance, 475);
    assert_eq!(gs.match_status, MatchStatus::Ended);
}

#[test]
fn end_game_caps_the_transfer_but_books_the_full_fee() {
    let mut gs = live_match(1000);
    let name = String::from("A");
    let mut sh = empty_shares();
    gs.deposit(&mut sh, VAULT, 500, &name).unwrap();
    let (fee, moved) = gs.end_game(ADMIN, 500, 10).unwrap();
    assert_eq!(fee, 25);
    assert_eq!(moved, 10);
    assert_eq!(gs.vault_sol_balance, 475);
}

#[test]
fn end_game_fee_arithmetic_failures() {
    let mut gs = live_match(1000);
    // 5 * balance leaves u64
    assert_eq!(gs.end_game(ADMIN, u64::MAX / 4, 0).unwrap_err(), ErrorCode::Overflow);
    // fee exceeds the tracked balance (nothing was ever deposited)
    assert_eq!(gs.end_game(ADMIN, 100, 0).unwrap_err(), ErrorCode::Overflow);
    assert_eq!(gs.match_status, MatchStatus::Live);
}

#[test]
fn claim_requires_ended_match() {
    let gs = live_match(1000);
    let mut sh = empty_shares();
    assert_eq!(gs.claim_rewards(&mut sh, 0).unwrap_err(), ErrorCode::MatchNotEndedYet);
}

#[test]
fn claim_with_no_winning_pool_fails() {
    let mut gs = live_match(1000);
    gs.end_game(ADMIN, 0, 0).unwrap();
    // scores 0-0: the tie routes to side B, where nothing was minted
    let mut sh = empty_shares();
    assert_eq!(gs.claim_rewards(&mut sh, 0).unwrap_err(), ErrorCode::DivisionByZero);
}

#[test]
fn tie_pays_side_b() {
    let mut gs = live_match(1000);
    let name_b = String::from("B");
    let mut sh = empty_shares();
    gs.deposit(&mut sh, VAULT, 500, &name_b).unwrap();
    gs.update_score(ORACLE, 2, 2, 0).unwrap();
    gs.end_game(ADMIN, 500, 500).unwrap();
    let (reward, moved) = gs.claim_rewards(&mut sh, 475).unwrap();
    assert_eq!(reward, 475);
    assert_eq!(moved, 475);
}

#[test]
fn full_match_scenario() {
    let mut gs = live_match(1000);
    let name = String::from("A");
    let mut u1 = empty_shares();
    gs.deposit(&mut u1, VAULT, 500, &name).unwrap();
    assert_eq!(u1.team_a_shares, 334);
    assert_eq!(gs.virtual_team_a_pool_tokens, 1500);
    assert!(gs.virtual_team_b_pool_tokens < 1000);
    let ev = gs.update_score(ORACLE, 1, 0, 0).unwrap();
    assert_eq!(gs.virtual_team_a_pool_tokens, 1875);
    assert_eq!(gs.virtual_team_b_pool_tokens, 666 * 7_500 / 10_000);
    assert_eq!(ev.new_virtual_a, 1875);
    let (fee, _) = gs.end_game(ADMIN, 500, 500).unwrap();
    assert_eq!(fee, 25);
    assert_eq!(gs.match_status, MatchStatus::Ended);
    // U1 holds all of side A's shares and side A leads 1-0
    let (reward, moved) = gs.claim_rewards(&mut u1, 475).unwrap();
    assert_eq!(reward, 475);
    assert_eq!(moved, 475);
    assert_eq!(u1.team_a_shares, 0);
    assert_eq!(u1.team_b_shares, 0);
}

#[test]
fn claim_twice_pays_once() {
    let mut gs = live_match(1000);
    let name = String::from("A");
    let mut sh = empty_shares();
    gs.deposit(&mut sh, VAULT, 500, &name).unwrap();
    gs.update_score(ORACLE, 1, 0, 0).unwrap();
    gs.end_game(ADMIN, 500, 500).unwrap();
    let (first, _) = gs.claim_rewards(&mut sh, u64::MAX).unwrap();
    assert!(first > 0);
    let (second, moved) = gs.claim_rewards(&mut sh, u64::MAX).unwrap();
    assert_eq!(second, 0);
    assert_eq!(moved, 0);
}

#[test]
fn claim_payout_is_capped_by_available_balance() {
    let mut gs = live_match(1000);
    let name = String::from("A");
    let mut sh = empty_shares();
    gs.deposit(&mut sh, VAULT, 500, &name).unwrap();
    gs.update_score(ORACLE, 1, 0, 0).unwrap();
    gs.end_game(ADMIN, 500, 500).unwrap();
    let (reward, moved) = gs.claim_rewards(&mut sh, 100).unwrap();
    assert_eq!(reward, 475);
    assert_eq!(moved, 100);
}

#[test]
fn rewards_never_exceed_the_settled_balance() {
    let mut gs = live_match(1000);
    let name = String::from("A");
    let mut u1 = empty_shares();
    let mut u2 = empty_shares();
    let mut u3 = empty_shares();
    gs.deposit(&mut u1, VAULT, 500, &name).unwrap();
    gs.deposit(&mut u2, VAULT, 700, &name).unwrap();
    gs.deposit(&mut u3, VAULT, 301, &name).unwrap();
    gs.update_score(ORACLE, 1, 0, 0).unwrap();
    gs.end_game(ADMIN, 1501, 1501).unwrap();
    let settled = gs.vault_sol_balance;
    let (r1, _) = gs.claim_rewards(&mut u1, u64::MAX).unwrap();
    let (r2, _) = gs.claim_rewards(&mut u2, u64::MAX).unwrap();
    let (r3, _) = gs.claim_rewards(&mut u3, u64::MAX).unwrap();
    assert!(r1 > 0 && r2 > 0 && r3 > 0);
    assert!(r1 + r2 + r3 <= settled);
}
