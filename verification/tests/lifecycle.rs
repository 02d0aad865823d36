use score_prediction::errors::ErrorCode;
use score_prediction::state::{GameState, MatchShares, MatchStatus};

const ADMIN: u64 = 10;
const ORACLE: u64 = 20;
const VAULT: u64 = 7;

fn fresh_match(liquidity: u64) -> GameState {
    GameState::initialize(
        1,
        liquidity,
        String::from("A"),
        String::from("B"),
        ADMIN,
        ORACLE,
        VAULT,
    )
    .unwrap()
}

#[test]
fn initialize_sets_equal_reserves_and_k() {
    let gs = fresh_match(1000);
    assert_eq!(gs.seed, 1);
    assert_eq!(gs.admin_address, ADMIN);
    assert_eq!(gs.oracle_address, ORACLE);
    assert_eq!(gs.team_a_name, "A");
    assert_eq!(gs.team_b_name, "B");
    assert_eq!(gs.virtual_team_a_pool_tokens, 1000);
    assert_eq!(gs.virtual_team_b_pool_tokens, 1000);
    assert_eq!(gs.k, 1_000_000);
    assert_eq!(gs.vault, VAULT);
    assert_eq!(gs.vault_sol_balance, 0);
    assert_eq!(gs.total_team_a_shares, 0);
    assert_eq!(gs.total_team_b_shares, 0);
    assert_eq!(gs.team_a_score, 0);
    assert_eq!(gs.team_b_score, 0);
    assert_eq!(gs.match_status, MatchStatus::NotStarted);
}

#[test]
fn initialize_rejects_overlong_team_name() {
    let long = "x".repeat(33);
    let r = GameState::initialize(1, 1000, long, String::from("B"), ADMIN, ORACLE, VAULT);
    assert_eq!(r.unwrap_err(), ErrorCode::InvalidTeamName);
    let exact = "y".repeat(32);
    assert!(GameState::initialize(1, 1000, exact, String::from("B"), ADMIN, ORACLE, VAULT).is_ok());
}

#[test]
fn start_game_requires_admin() {
    let mut gs = fresh_match(1000);
    assert_eq!(gs.start_game(99).unwrap_err(), ErrorCode::UnauthorizedAdmin);
    assert_eq!(gs.match_status, MatchStatus::NotStarted);
}

#[test]
fn start_game_moves_to_live_once() {
    let mut gs = fresh_match(1000);
    gs.start_game(ADMIN).unwrap();
    assert_eq!(gs.match_status, MatchStatus::Live);
    assert_eq!(gs.start_game(ADMIN).unwrap_err(), ErrorCode::MatchAlreadyStarted);
    assert_eq!(gs.match_status, MatchStatus::Live);
}

#[test]
fn deposit_requires_live_match() {
    let mut gs = fresh_match(1000);
    let mut sh = MatchShares { team_a_shares: 0, team_b_shares: 0 };
    let name = String::from("A");
    let r = gs.deposit(&mut sh, VAULT, 500, &name);
    assert_eq!(r.unwrap_err(), ErrorCode::MatchNotLiveYet);
    assert_eq!(gs.vault_sol_balance, 0);
}

#[test]
fn deposit_rejects_unknown_team_name() {
    let mut gs = fresh_match(1000);
    gs.start_game(ADMIN).unwrap();
    let mut sh = MatchShares { team_a_shares: 0, team_b_shares: 0 };
    let name = String::from("C");
    assert_eq!(gs.deposit(&mut sh, VAULT, 500, &name).unwrap_err(), ErrorCode::InvalidTeamName);
}

#[test]
fn deposit_rejects_wrong_vault() {
    let mut gs = fresh_match(1000);
    gs.start_game(ADMIN).unwrap();
    let mut sh = MatchShares { team_a_shares: 0, team_b_shares: 0 };
    let name = String::from("A");
    assert_eq!(gs.deposit(&mut sh, 8, 500, &name).unwrap_err(), ErrorCode::InvalidVaultAddress);
}

#[test]
fn deposit_rejects_zero_amount() {
    let mut gs = fresh_match(1000);
    gs.start_game(ADMIN).unwrap();
    let mut sh = MatchShares { team_a_shares: 0, team_b_shares: 0 };
    let name = String::from("A");
    assert_eq!(gs.deposit(&mut sh, VAULT, 0, &name).unwrap_err(), ErrorCode::InvalidAmount);
    assert_eq!(gs.virtual_team_a_pool_tokens, 1000);
    assert_eq!(sh.team_a_shares, 0);
}

#[test]
fn deposit_prices_on_the_curve_and_recomputes_k() {
    let mut gs = fresh_match(1000);
    gs.start_game(ADMIN).unwrap();
    let mut sh = MatchShares { team_a_shares: 0, team_b_shares: 0 };
    let name = String::from("A");
    gs.deposit(&mut sh, VAULT, 500, &name).unwrap();
    // out = 1000 - floor(1000*1000 / 1500) = 1000 - 666 = 334
    assert_eq!(sh.team_a_shares, 334);
    assert_eq!(sh.team_b_shares, 0);
    assert_eq!(gs.virtual_team_a_pool_tokens, 1500);
    assert_eq!(gs.virtual_team_b_pool_tokens, 666);
    assert_eq!(gs.k, 1500 * 666);
    assert_eq!(gs.total_team_a_shares, 334);
    assert_eq!(gs.vault_sol_balance, 500);
}

#[test]
fn deposit_into_side_b_is_symmetric() {
    let mut gs = fresh_match(1000);
    gs.start_game(ADMIN).unwrap();
    let mut sh = MatchShares { team_a_shares: 0, team_b_shares: 0 };
    let name = String::from("B");
    gs.deposit(&mut sh, VAULT, 500, &name).unwrap();
    assert_eq!(sh.team_b_shares, 334);
    assert_eq!(sh.team_a_shares, 0);
    assert_eq!(gs.virtual_team_a_pool_tokens, 666);
    assert_eq!(gs.virtual_team_b_pool_tokens, 1500);
    assert_eq!(gs.k, 666 * 1500);
    assert_eq!(gs.total_team_b_shares, 334);
}

#[test]
fn deposit_overflow_leaves_state_unchanged() {
    let mut gs = fresh_match(u64::MAX);
    gs.start_game(ADMIN).unwrap();
    let mut sh = MatchShares { team_a_shares: 0, team_b_shares: 0 };
    let name = String::from("A");
    let r = gs.deposit(&mut sh, VAULT, 1, &name);
    assert_eq!(r.unwrap_err(), ErrorCode::Overflow);
    assert_eq!(gs.virtual_team_a_pool_tokens, u64::MAX);
    assert_eq!(gs.virtual_team_b_pool_tokens, u64::MAX);
    assert_eq!(sh.team_a_shares, 0);
    assert_eq!(gs.vault_sol_balance, 0);
}

#[test]
fn later_deposits_on_a_crowded_side_mint_fewer_shares() {
    let mut gs = fresh_match(1000);
    gs.start_game(ADMIN).unwrap();
    let name = String::from("A");
    let mut first = MatchShares { team_a_shares: 0, team_b_shares: 0 };
    gs.deposit(&mut first, VAULT, 500, &name).unwrap();
    let mut second = MatchShares { team_a_shares: 0, team_b_shares: 0 };
    gs.deposit(&mut second, VAULT, 500, &name).unwrap();
    assert!(second.team_a_shares < first.team_a_shares);
}
