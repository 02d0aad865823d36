use vstd::arithmetic::div_mod::{
    lemma_div_by_self, lemma_div_is_ordered, lemma_div_multiples_vanish, lemma_div_of0,
    lemma_div_pos_is_pos, lemma_fundamental_div_mod, lemma_mod_bound,
};
use vstd::arithmetic::mul::{lemma_mul_inequality, lemma_mul_upper_bound};
use vstd::prelude::*;

use crate::errors::ErrorCode;
use crate::state::{GameState, MatchShares, MatchStatus};

verus! {

/// Side A wins only on a strictly higher final score; an equal final score
/// therefore pays side B.
pub open spec fn team_a_wins(gs: GameState) -> bool {
    gs.team_a_score > gs.team_b_score
}

/// The participant's shares on the winning side.
pub open spec fn winning_user_shares(gs: GameState, sh: MatchShares) -> u64 {
    if team_a_wins(gs) {
        sh.team_a_shares
    } else {
        sh.team_b_shares
    }
}

/// All shares minted on the winning side.
pub open spec fn winning_total_shares(gs: GameState) -> u64 {
    if team_a_wins(gs) {
        gs.total_team_a_shares
    } else {
        gs.total_team_b_shares
    }
}

/// The floor share of the settled balance owed to `user` winning shares out
/// of `total`.
pub open spec fn reward_of(user: int, balance: int, total: int) -> int
    recommends
        total > 0,
{
    (user * balance) / total
}

/// The smaller of two amounts: what actually leaves the escrow when the
/// transferable balance above the runtime's reserve floor caps a payout.
pub open spec fn capped(amount: int, available: int) -> int {
    if amount <= available {
        amount
    } else {
        available
    }
}

/// The match-end transition: only the admin may end a live match. The
/// platform fee is five percent of the escrow's current native balance,
/// floored; the tracked balance drops by the full fee even when the floor
/// caps what actually moves, and the match becomes `Ended` — a terminal
/// state.
pub open spec fn spec_end_game(
    gs: GameState,
    caller: u64,
    vault_native_balance: u64,
    available_above_floor: u64,
) -> Result<(GameState, u64, u64), ErrorCode> {
    if caller != gs.admin_address {
        Err(ErrorCode::UnauthorizedAdmin)
    } else if gs.match_status != MatchStatus::Live {
        Err(ErrorCode::MatchNotLive)
    } else if vault_native_balance as int * 5 > u64::MAX as int {
        Err(ErrorCode::Overflow)
    } else {
        let fee = (vault_native_balance as int * 5) / 100;
        if fee > gs.vault_sol_balance as int {
            Err(ErrorCode::Overflow)
        } else {
            Ok(
                (
                    GameState {
                        vault_sol_balance: (gs.vault_sol_balance as int - fee) as u64,
                        match_status: MatchStatus::Ended,
                        ..gs
                    },
                    fee as u64,
                    capped(fee, available_above_floor as int) as u64,
                ),
            )
        }
    }
}

/// The claim transition: once the match has ended, any participant may
/// claim. The reward is the participant's winning shares' floor share of
/// the balance settled at match end; both share fields are then zeroed, so
/// a repeated claim computes a reward of zero instead of erroring. The
/// payout is capped by the balance available above the reserve floor.
pub open spec fn spec_claim(gs: GameState, sh: MatchShares, available_above_floor: u64) -> Result<
    (MatchShares, u64, u64),
    ErrorCode,
> {
    if gs.match_status != MatchStatus::Ended {
        Err(ErrorCode::MatchNotEndedYet)
    } else if winning_total_shares(gs) == 0 {
        Err(ErrorCode::DivisionByZero)
    } else {
        let reward = reward_of(
            winning_user_shares(gs, sh) as int,
            gs.vault_sol_balance as int,
            winning_total_shares(gs) as int,
        );
        if reward > u64::MAX as int {
            Err(ErrorCode::Overflow)
        } else {
            Ok(
                (
                    MatchShares { team_a_shares: 0u64, team_b_shares: 0u64 },
                    reward as u64,
                    capped(reward, available_above_floor as int) as u64,
                ),
            )
        }
    }
}

impl GameState {
    /// Ends a live match: computes the five-percent platform fee from the
    /// escrow's native balance, books it off the tracked balance, and makes
    /// the match `Ended`. Returns the fee and the amount the caller should
    /// actually move to the admin, capped by what is transferable above the
    /// reserve floor — the cap alone never fails the operation.
    pub fn end_game(
        &mut self,
        caller: u64,
        vault_native_balance: u64,
        available_above_floor: u64,
    ) -> (r: Result<(u64, u64), ErrorCode>)
        requires
            old(self).wf(),
        ensures
            final(self).wf(),
            ({
                let res = spec_end_game(*old(self), caller, vault_native_balance,
                    available_above_floor);
                match r {
                    Ok(outcome) => res == Ok::<_, ErrorCode>(
                        (*final(self), outcome.0, outcome.1),
                    ),
                    Err(e) => {
                        &&& res == Err::<(GameState, u64, u64), _>(e)
                        &&& *final(self) == *old(self)
                    },
                }
            }),
    {
        if caller != self.admin_address {
            return Err(ErrorCode::UnauthorizedAdmin);
        }
        if self.match_status != MatchStatus::Live {
            return Err(ErrorCode::MatchNotLive);
        }
        let fee_numerator = match vault_native_balance.checked_mul(5) {
            Some(v) => v,
            None => {
                return Err(ErrorCode::Overflow);
            },
        };
        let platform_fee = fee_numerator / 100;
        let new_balance = match self.vault_sol_balance.checked_sub(platform_fee) {
            Some(v) => v,
            None => {
                return Err(ErrorCode::Overflow);
            },
        };
        let transfer_amount = if platform_fee <= available_above_floor {
            platform_fee
        } else {
            available_above_floor
        };
        self.vault_sol_balance = new_balance;
        self.match_status = MatchStatus::Ended;
        Ok((platform_fee, transfer_amount))
    }

    /// Pays a participant's proportional reward out of the settled balance
    /// and zeroes both of the participant's share fields. Returns the
    /// computed reward and the amount the caller should actually move,
    /// capped by what is transferable above the reserve floor.
    pub fn claim_rewards(
        &self,
        user_shares: &mut MatchShares,
        available_above_floor: u64,
    ) -> (r: Result<(u64, u64), ErrorCode>)
        ensures
            ({
                let res = spec_claim(*self, *old(user_shares), available_above_floor);
                match r {
                    Ok(outcome) => res == Ok::<_, ErrorCode>(
                        (*final(user_shares), outcome.0, outcome.1),
                    ),
                    Err(e) => {
                        &&& res == Err::<(MatchShares, u64, u64), _>(e)
                        &&& *final(user_shares) == *old(user_shares)
                    },
                }
            }),
    {
        if self.match_status != MatchStatus::Ended {
            return Err(ErrorCode::MatchNotEndedYet);
        }
        let a_wins = self.team_a_score > self.team_b_score;
        let user_winning = if a_wins {
            user_shares.team_a_shares
        } else {
            user_shares.team_b_shares
        };
        let total_winning = if a_wins {
            self.total_team_a_shares
        } else {
            self.total_team_b_shares
        };
        if total_winning == 0 {
            return Err(ErrorCode::DivisionByZero);
        }
        proof {
            lemma_mul_upper_bound(
                user_winning as int,
                u64::MAX as int,
                self.vault_sol_balance as int,
                u64::MAX as int,
            );
            assert((u64::MAX as int) * (u64::MAX as int) < u128::MAX as int) by (nonlinear_arith);
        }
        let wide: u128 = (user_winning as u128) * (self.vault_sol_balance as u128);
        let reward_wide: u128 = wide / (total_winning as u128);
        if reward_wide > u64::MAX as u128 {
            return Err(ErrorCode::Overflow);
        }
        let reward = reward_wide as u64;
        let transfer_amount = if reward <= available_above_floor {
            reward
        } else {
            available_above_floor
        };
        user_shares.team_a_shares = 0;
        user_shares.team_b_shares = 0;
        Ok((reward, transfer_amount))
    }
}

/// Sum of a sequence of share holdings.
pub open spec fn sum_shares(s: Seq<int>) -> int
    decreases s.len(),
{
    if s.len() == 0 {
        0
    } else {
        sum_shares(s.drop_last()) + s.last()
    }
}

/// Sum of the floor rewards owed to a sequence of holdings out of `total`,
/// against a settled balance.
pub open spec fn sum_rewards(s: Seq<int>, balance: int, total: int) -> int
    recommends
        total > 0,
    decreases s.len(),
{
    if s.len() == 0 {
        0
    } else {
        sum_rewards(s.drop_last(), balance, total) + reward_of(s.last(), balance, total)
    }
}

/// Floor division is superadditive: splitting a numerator never grows the
/// sum of the quotients.
proof fn lemma_div_superadditive(x: int, y: int, t: int)
    requires
        t > 0,
        x >= 0,
        y >= 0,
    ensures
        x / t + y / t <= (x + y) / t,
{
    lemma_fundamental_div_mod(x, t);
    lemma_fundamental_div_mod(y, t);
    lemma_mod_bound(x, t);
    lemma_mod_bound(y, t);
    let q = x / t + y / t;
    assert(t * q <= x + y) by (nonlinear_arith)
        requires
            x == t * (x / t) + x % t,
            y == t * (y / t) + y % t,
            x % t >= 0,
            y % t >= 0,
            q == x / t + y / t,
    ;
    lemma_div_multiples_vanish(q, t);
    lemma_div_is_ordered(t * q, x + y, t);
}

/// The summed rewards of any split never exceed the reward of the whole.
proof fn lemma_sum_rewards_le_whole(s: Seq<int>, balance: int, total: int)
    requires
        total > 0,
        balance >= 0,
        forall|i: int| 0 <= i < s.len() ==> s[i] >= 0,
    ensures
        sum_shares(s) >= 0,
        sum_rewards(s, balance, total) <= reward_of(sum_shares(s), balance, total),
    decreases s.len(),
{
    if s.len() == 0 {
        lemma_div_of0(total);
        assert(reward_of(0, balance, total) == 0) by {
            assert(0int * balance == 0) by (nonlinear_arith);
        };
    } else {
        let dl = s.drop_last();
        lemma_sum_rewards_le_whole(dl, balance, total);
        assert(s.last() >= 0);
        assert(sum_shares(dl) * balance >= 0) by (nonlinear_arith)
            requires
                sum_shares(dl) >= 0,
                balance >= 0,
        ;
        assert(s.last() * balance >= 0) by (nonlinear_arith)
            requires
                s.last() >= 0,
                balance >= 0,
        ;
        lemma_div_superadditive(sum_shares(dl) * balance, s.last() * balance, total);
        assert(sum_shares(dl) * balance + s.last() * balance == sum_shares(s) * balance)
            by (nonlinear_arith)
            requires
                sum_shares(s) == sum_shares(dl) + s.last(),
        ;
    }
}

/// Reward distribution conserves value: however the winning side's shares
/// are split among participants, the floor rewards computed against the
/// balance settled at match end sum to no more than that balance.
pub proof fn lemma_rewards_conserved(s: Seq<int>, balance: int, total: int)
    requires
        total > 0,
        balance >= 0,
        forall|i: int| 0 <= i < s.len() ==> s[i] >= 0,
        sum_shares(s) <= total,
    ensures
        sum_rewards(s, balance, total) <= balance,
{
    lemma_sum_rewards_le_whole(s, balance, total);
    lemma_mul_inequality(sum_shares(s), total, balance);
    lemma_div_is_ordered(sum_shares(s) * balance, total * balance, total);
    lemma_div_multiples_vanish(balance, total);
    assert(total * balance == balance * total) by (nonlinear_arith);
}

/// Claiming twice pays once: a first claim on a position with shares on the
/// winning side succeeds and zeroes the position, and a claim on the zeroed
/// position succeeds again with a reward of exactly zero — no error and no
/// second payout. The first reward is nonzero whenever the participant's
/// winning shares, scaled by the settled balance, reach the side's total.
pub proof fn lemma_claim_twice(gs: GameState, sh: MatchShares, avail1: u64, avail2: u64)
    requires
        gs.match_status == MatchStatus::Ended,
        winning_total_shares(gs) > 0,
        winning_user_shares(gs, sh) <= winning_total_shares(gs),
    ensures
        spec_claim(gs, sh, avail1) is Ok,
        spec_claim(gs, sh, avail1)->Ok_0.0 == (MatchShares { team_a_shares: 0u64, team_b_shares: 0u64 }),
        spec_claim(gs, sh, avail1)->Ok_0.1 as int == reward_of(
            winning_user_shares(gs, sh) as int,
            gs.vault_sol_balance as int,
            winning_total_shares(gs) as int,
        ),
        spec_claim(gs, spec_claim(gs, sh, avail1)->Ok_0.0, avail2) == Ok::<_, ErrorCode>(
            (MatchShares { team_a_shares: 0u64, team_b_shares: 0u64 }, 0u64, 0u64),
        ),
        winning_user_shares(gs, sh) as int * gs.vault_sol_balance as int >= winning_total_shares(
            gs,
        ) as int ==> spec_claim(gs, sh, avail1)->Ok_0.1 >= 1,
{
    let user = winning_user_shares(gs, sh) as int;
    let total = winning_total_shares(gs) as int;
    let balance = gs.vault_sol_balance as int;
    lemma_mul_inequality(user, total, balance);
    lemma_div_is_ordered(user * balance, total * balance, total);
    assert(total * balance == balance * total) by (nonlinear_arith);
    lemma_div_multiples_vanish(balance, total);
    assert(reward_of(user, balance, total) <= balance);
    assert(user * balance >= 0) by (nonlinear_arith)
        requires
            user >= 0,
            balance >= 0,
    ;
    lemma_div_pos_is_pos(user * balance, total);
    let zeroed = MatchShares { team_a_shares: 0u64, team_b_shares: 0u64 };
    assert(winning_user_shares(gs, zeroed) == 0);
    assert(0int * balance == 0) by (nonlinear_arith);
    lemma_div_of0(total);
    assert(reward_of(0, balance, total) == 0);
    if user * balance >= total {
        lemma_div_by_self(total);
        lemma_div_is_ordered(total, user * balance, total);
        assert(reward_of(user, balance, total) >= 1);
    }
}

} // verus!
