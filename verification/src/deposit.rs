use vstd::prelude::*;

use crate::curve::{
    k_from_xy, lemma_swap_out_bounds, product_k, shares_for_deposit_into_a,
    shares_for_deposit_into_b, swap_out, updated_reserve_after_deposit,
};
use crate::errors::ErrorCode;
use crate::state::{GameState, MatchShares, MatchStatus};

verus! {

/// A deposit must name one of the match's two teams, letter for letter.
pub open spec fn valid_team_name(gs: GameState, team: Seq<char>) -> bool {
    team == gs.team_a_name@ || team == gs.team_b_name@
}

/// The state after a deposit of `amount` into side A: the deposited reserve
/// grows by the amount, the opposite reserve shrinks by the curve's swap
/// output, `k` is recomputed from the new reserves, and the minted shares
/// are credited to the side's total and to the participant. Any sum that
/// leaves the 64-bit range fails the whole deposit.
pub open spec fn spec_deposit_into_side_a(gs: GameState, sh: MatchShares, amount: u64) -> Result<
    (GameState, MatchShares),
    ErrorCode,
>
    recommends
        amount > 0,
{
    let ra = gs.virtual_team_a_pool_tokens as int;
    let rb = gs.virtual_team_b_pool_tokens as int;
    let out = swap_out(ra, rb, amount as int);
    if ra + amount as int > u64::MAX as int {
        Err(ErrorCode::Overflow)
    } else if gs.total_team_a_shares as int + out > u64::MAX as int {
        Err(ErrorCode::Overflow)
    } else if gs.vault_sol_balance as int + amount as int > u64::MAX as int {
        Err(ErrorCode::Overflow)
    } else if sh.team_a_shares as int + out > u64::MAX as int {
        Err(ErrorCode::Overflow)
    } else {
        Ok(
            (
                GameState {
                    virtual_team_a_pool_tokens: (ra + amount as int) as u64,
                    virtual_team_b_pool_tokens: (rb - out) as u64,
                    k: product_k(ra + amount as int, rb - out) as u128,
                    total_team_a_shares: (gs.total_team_a_shares as int + out) as u64,
                    vault_sol_balance: (gs.vault_sol_balance as int + amount as int) as u64,
                    ..gs
                },
                MatchShares { team_a_shares: (sh.team_a_shares as int + out) as u64, ..sh },
            ),
        )
    }
}

/// The state after a deposit of `amount` into side B: the mirror image of
/// the side-A case.
pub open spec fn spec_deposit_into_side_b(gs: GameState, sh: MatchShares, amount: u64) -> Result<
    (GameState, MatchShares),
    ErrorCode,
>
    recommends
        amount > 0,
{
    let ra = gs.virtual_team_a_pool_tokens as int;
    let rb = gs.virtual_team_b_pool_tokens as int;
    let out = swap_out(rb, ra, amount as int);
    if rb + amount as int > u64::MAX as int {
        Err(ErrorCode::Overflow)
    } else if gs.total_team_b_shares as int + out > u64::MAX as int {
        Err(ErrorCode::Overflow)
    } else if gs.vault_sol_balance as int + amount as int > u64::MAX as int {
        Err(ErrorCode::Overflow)
    } else if sh.team_b_shares as int + out > u64::MAX as int {
        Err(ErrorCode::Overflow)
    } else {
        Ok(
            (
                GameState {
                    virtual_team_a_pool_tokens: (ra - out) as u64,
                    virtual_team_b_pool_tokens: (rb + amount as int) as u64,
                    k: product_k(ra - out, rb + amount as int) as u128,
                    total_team_b_shares: (gs.total_team_b_shares as int + out) as u64,
                    vault_sol_balance: (gs.vault_sol_balance as int + amount as int) as u64,
                    ..gs
                },
                MatchShares { team_b_shares: (sh.team_b_shares as int + out) as u64, ..sh },
            ),
        )
    }
}

/// The full deposit transition. Validation comes first and in a fixed
/// order — lifecycle state, team name, escrow reference, amount — and a
/// deposit naming team A is priced on side A even when both teams carry the
/// same name.
pub open spec fn spec_deposit(
    gs: GameState,
    sh: MatchShares,
    vault: u64,
    amount: u64,
    team: Seq<char>,
) -> Result<(GameState, MatchShares), ErrorCode> {
    if gs.match_status != MatchStatus::Live {
        Err(ErrorCode::MatchNotLiveYet)
    } else if !valid_team_name(gs, team) {
        Err(ErrorCode::InvalidTeamName)
    } else if vault != gs.vault {
        Err(ErrorCode::InvalidVaultAddress)
    } else if amount == 0 {
        Err(ErrorCode::InvalidAmount)
    } else if team == gs.team_a_name@ {
        spec_deposit_into_side_a(gs, sh, amount)
    } else {
        spec_deposit_into_side_b(gs, sh, amount)
    }
}

impl GameState {
    /// Prices a deposit on the constant-product curve, credits the minted
    /// shares, and books the deposited value. Either every mutation of the
    /// match record and the participant's record applies, or none does.
    ///
    /// The caller moves `amount` into the escrow only when this returns
    /// `Ok`.
    pub fn deposit(
        &mut self,
        user_shares: &mut MatchShares,
        vault: u64,
        amount: u64,
        team_name: &String,
    ) -> (r: Result<(), ErrorCode>)
        requires
            old(self).wf(),
        ensures
            final(self).wf(),
            ({
                let res = spec_deposit(*old(self), *old(user_shares), vault, amount, team_name@);
                match r {
                    Ok(()) => res == Ok::<_, ErrorCode>((*final(self), *final(user_shares))),
                    Err(e) => {
                        &&& res == Err::<(GameState, MatchShares), _>(e)
                        &&& *final(self) == *old(self)
                        &&& *final(user_shares) == *old(user_shares)
                    },
                }
            }),
    {
        if self.match_status != MatchStatus::Live {
            return Err(ErrorCode::MatchNotLiveYet);
        }
        let is_team_a = *team_name == self.team_a_name;
        let is_team_b = *team_name == self.team_b_name;
        if !is_team_a && !is_team_b {
            return Err(ErrorCode::InvalidTeamName);
        }
        if vault != self.vault {
            return Err(ErrorCode::InvalidVaultAddress);
        }
        if amount == 0 {
            return Err(ErrorCode::InvalidAmount);
        }
        let ra = self.virtual_team_a_pool_tokens;
        let rb = self.virtual_team_b_pool_tokens;
        if is_team_a {
            let out = match shares_for_deposit_into_a(ra, rb, amount) {
                Ok(o) => o,
                Err(e) => {
                    return Err(e);
                },
            };
            let new_ra = match updated_reserve_after_deposit(ra, amount) {
                Ok(v) => v,
                Err(e) => {
                    return Err(e);
                },
            };
            let new_total = match self.total_team_a_shares.checked_add(out) {
                Some(v) => v,
                None => {
                    return Err(ErrorCode::Overflow);
                },
            };
            let new_balance = match self.vault_sol_balance.checked_add(amount) {
                Some(v) => v,
                None => {
                    return Err(ErrorCode::Overflow);
                },
            };
            let new_user = match user_shares.team_a_shares.checked_add(out) {
                Some(v) => v,
                None => {
                    return Err(ErrorCode::Overflow);
                },
            };
            proof {
                lemma_swap_out_bounds(ra as int, rb as int, amount as int);
            }
            let new_rb = rb - out;
            self.virtual_team_a_pool_tokens = new_ra;
            self.virtual_team_b_pool_tokens = new_rb;
            self.k = k_from_xy(new_ra, new_rb);
            self.total_team_a_shares = new_total;
            self.vault_sol_balance = new_balance;
            user_shares.team_a_shares = new_user;
            Ok(())
        } else {
            let out = match shares_for_deposit_into_b(ra, rb, amount) {
                Ok(o) => o,
                Err(e) => {
                    return Err(e);
                },
            };
            let new_rb = match updated_reserve_after_deposit(rb, amount) {
                Ok(v) => v,
                Err(e) => {
                    return Err(e);
                },
            };
            let new_total = match self.total_team_b_shares.checked_add(out) {
                Some(v) => v,
                None => {
                    return Err(ErrorCode::Overflow);
                },
            };
            let new_balance = match self.vault_sol_balance.checked_add(amount) {
                Some(v) => v,
                None => {
                    return Err(ErrorCode::Overflow);
                },
            };
            let new_user = match user_shares.team_b_shares.checked_add(out) {
                Some(v) => v,
                None => {
                    return Err(ErrorCode::Overflow);
                },
            };
            proof {
                lemma_swap_out_bounds(rb as int, ra as int, amount as int);
            }
            let new_ra = ra - out;
            self.virtual_team_a_pool_tokens = new_ra;
            self.virtual_team_b_pool_tokens = new_rb;
            self.k = k_from_xy(new_ra, new_rb);
            self.total_team_b_shares = new_total;
            self.vault_sol_balance = new_balance;
            user_shares.team_b_shares = new_user;
            Ok(())
        }
    }
}

} // verus!
