use vstd::arithmetic::mul::lemma_mul_upper_bound;
use vstd::prelude::*;

use crate::curve::{k_from_xy, product_k};
use crate::errors::ErrorCode;
use crate::state::{GameState, MatchStatus, MAX_SCORE};

verus! {

/// Auditable record of one rebalance: the scores, reserves and invariant
/// before and after, the multipliers applied, and a caller-supplied
/// timestamp. Nothing further depends on it.
#[derive(Clone, Copy, Debug, PartialEq, Eq, Structural)]
pub struct ScoreUpdated {
    pub match_id: u64,
    pub oracle: u64,
    pub old_score_a: u8,
    pub new_score_a: u8,
    pub old_score_b: u8,
    pub new_score_b: u8,
    pub goal_diff: i16,
    pub old_virtual_a: u64,
    pub new_virtual_a: u64,
    pub old_virtual_b: u64,
    pub new_virtual_b: u64,
    pub old_k: u128,
    pub new_k: u128,
    pub mult_a: u16,
    pub mult_b: u16,
    pub timestamp: i64,
}

/// The fixed, symmetric multiplier table, in basis points, keyed by the
/// goal differential clamped to [-3, 3]. A lead of `n` goals scales the
/// leader's reserve up and the trailer's down by the paired factors.
pub open spec fn spec_multipliers(goal_diff: int) -> (u16, u16) {
    if goal_diff >= 3 {
        (14000u16, 6000u16)
    } else if goal_diff == 2 {
        (13500u16, 6500u16)
    } else if goal_diff == 1 {
        (12500u16, 7500u16)
    } else if goal_diff == 0 {
        (10000u16, 10000u16)
    } else if goal_diff == -1 {
        (7500u16, 12500u16)
    } else if goal_diff == -2 {
        (6500u16, 13500u16)
    } else {
        (6000u16, 14000u16)
    }
}

/// Looks the multiplier pair up in the table.
pub fn get_multipliers(goal_diff: i16) -> (r: (u16, u16))
    ensures
        r == spec_multipliers(goal_diff as int),
        r.0 <= 14000,
        r.1 <= 14000,
{
    if goal_diff >= 3 {
        (14_000, 6_000)
    } else if goal_diff == 2 {
        (13_500, 6_500)
    } else if goal_diff == 1 {
        (12_500, 7_500)
    } else if goal_diff == 0 {
        (10_000, 10_000)
    } else if goal_diff == -1 {
        (7_500, 12_500)
    } else if goal_diff == -2 {
        (6_500, 13_500)
    } else {
        (6_000, 14_000)
    }
}

/// The rebalance transition. Validation in order: the caller must be the
/// oracle, the match live, neither score below the stored one, at least one
/// score changed, and both scores within the sanity bound. The reserves are
/// then rescaled by the table's multipliers with the quotient floored, and
/// `k` is recomputed from the new reserves — a deliberate discrete
/// repricing, not a trade along the curve.
pub open spec fn spec_update_score(gs: GameState, caller: u64, na: u8, nb: u8) -> Result<
    GameState,
    ErrorCode,
> {
    if caller != gs.oracle_address {
        Err(ErrorCode::UnauthorizedOracle)
    } else if gs.match_status != MatchStatus::Live {
        Err(ErrorCode::MatchNotLiveYet)
    } else if na < gs.team_a_score || nb < gs.team_b_score {
        Err(ErrorCode::ScoreCannotDecrease)
    } else if na == gs.team_a_score && nb == gs.team_b_score {
        Err(ErrorCode::NoScoreChange)
    } else if na > MAX_SCORE || nb > MAX_SCORE {
        Err(ErrorCode::ScoreTooHigh)
    } else {
        let mults = spec_multipliers(na as int - nb as int);
        let new_ra = (gs.virtual_team_a_pool_tokens as int * mults.0 as int) / 10000;
        let new_rb = (gs.virtual_team_b_pool_tokens as int * mults.1 as int) / 10000;
        if new_ra > u64::MAX as int || new_rb > u64::MAX as int {
            Err(ErrorCode::MathOverflow)
        } else {
            Ok(
                GameState {
                    team_a_score: na,
                    team_b_score: nb,
                    virtual_team_a_pool_tokens: new_ra as u64,
                    virtual_team_b_pool_tokens: new_rb as u64,
                    k: product_k(new_ra, new_rb) as u128,
                    ..gs
                },
            )
        }
    }
}

impl GameState {
    /// Consumes one oracle score report: validates it, rescales the virtual
    /// reserves by the goal-differential multipliers, recomputes `k`, and
    /// persists the new scores. Returns the auditable record of the change;
    /// on any error the record is untouched.
    pub fn update_score(
        &mut self,
        caller: u64,
        new_team_a_score: u8,
        new_team_b_score: u8,
        timestamp: i64,
    ) -> (r: Result<ScoreUpdated, ErrorCode>)
        requires
            old(self).wf(),
        ensures
            final(self).wf(),
            ({
                let res = spec_update_score(*old(self), caller, new_team_a_score, new_team_b_score);
                match r {
                    Ok(ev) => {
                        &&& res == Ok::<GameState, ErrorCode>(*final(self))
                        &&& ev == (ScoreUpdated {
                            match_id: old(self).seed,
                            oracle: caller,
                            old_score_a: old(self).team_a_score,
                            new_score_a: new_team_a_score,
                            old_score_b: old(self).team_b_score,
                            new_score_b: new_team_b_score,
                            goal_diff: (new_team_a_score as int - new_team_b_score as int) as i16,
                            old_virtual_a: old(self).virtual_team_a_pool_tokens,
                            new_virtual_a: final(self).virtual_team_a_pool_tokens,
                            old_virtual_b: old(self).virtual_team_b_pool_tokens,
                            new_virtual_b: final(self).virtual_team_b_pool_tokens,
                            old_k: old(self).k,
                            new_k: final(self).k,
                            mult_a: spec_multipliers(
                                new_team_a_score as int - new_team_b_score as int,
                            ).0,
                            mult_b: spec_multipliers(
                                new_team_a_score as int - new_team_b_score as int,
                            ).1,
                            timestamp,
                        })
                    },
                    Err(e) => res == Err::<GameState, _>(e) && *final(self) == *old(self),
                }
            }),
    {
        if caller != self.oracle_address {
            return Err(ErrorCode::UnauthorizedOracle);
        }
        if self.match_status != MatchStatus::Live {
            return Err(ErrorCode::MatchNotLiveYet);
        }
        if new_team_a_score < self.team_a_score || new_team_b_score < self.team_b_score {
            return Err(ErrorCode::ScoreCannotDecrease);
        }
        if new_team_a_score == self.team_a_score && new_team_b_score == self.team_b_score {
            return Err(ErrorCode::NoScoreChange);
        }
        if new_team_a_score > MAX_SCORE || new_team_b_score > MAX_SCORE {
            return Err(ErrorCode::ScoreTooHigh);
        }
        let goal_diff: i16 = new_team_a_score as i16 - new_team_b_score as i16;
        let mults = get_multipliers(goal_diff);
        let old_virtual_a = self.virtual_team_a_pool_tokens;
        let old_virtual_b = self.virtual_team_b_pool_tokens;
        proof {
            lemma_mul_upper_bound(old_virtual_a as int, u64::MAX as int, mults.0 as int, 14000);
            lemma_mul_upper_bound(old_virtual_b as int, u64::MAX as int, mults.1 as int, 14000);
            assert((u64::MAX as int) * 14000int < u128::MAX as int) by (nonlinear_arith);
        }
        let wide_a: u128 = (old_virtual_a as u128) * (mults.0 as u128);
        let wide_b: u128 = (old_virtual_b as u128) * (mults.1 as u128);
        let scaled_a: u128 = wide_a / 10_000;
        let scaled_b: u128 = wide_b / 10_000;
        if scaled_a > u64::MAX as u128 || scaled_b > u64::MAX as u128 {
            return Err(ErrorCode::MathOverflow);
        }
        let new_virtual_a = scaled_a as u64;
        let new_virtual_b = scaled_b as u64;
        let old_k = self.k;
        let old_score_a = self.team_a_score;
        let old_score_b = self.team_b_score;
        let new_k = k_from_xy(new_virtual_a, new_virtual_b);
        self.team_a_score = new_team_a_score;
        self.team_b_score = new_team_b_score;
        self.virtual_team_a_pool_tokens = new_virtual_a;
        self.virtual_team_b_pool_tokens = new_virtual_b;
        self.k = new_k;
        Ok(
            ScoreUpdated {
                match_id: self.seed,
                oracle: caller,
                old_score_a: old_score_a,
                new_score_a: new_team_a_score,
                old_score_b: old_score_b,
                new_score_b: new_team_b_score,
                goal_diff,
                old_virtual_a,
                new_virtual_a,
                old_virtual_b,
                new_virtual_b,
                old_k,
                new_k,
                mult_a: mults.0,
                mult_b: mults.1,
                timestamp,
            },
        )
    }
}

/// A successful rebalance never lowers a stored score, and a report below a
/// stored score is rejected with `ScoreCannotDecrease`: over any run of
/// updates the scores form a non-decreasing sequence.
pub proof fn lemma_score_monotonic(gs: GameState, caller: u64, na: u8, nb: u8)
    ensures
        spec_update_score(gs, caller, na, nb) is Ok ==> {
            let ns = spec_update_score(gs, caller, na, nb)->Ok_0;
            &&& ns.team_a_score == na >= gs.team_a_score
            &&& ns.team_b_score == nb >= gs.team_b_score
        },
        caller == gs.oracle_address && gs.match_status == MatchStatus::Live && (na
            < gs.team_a_score || nb < gs.team_b_score) ==> spec_update_score(gs, caller, na, nb)
            == Err::<GameState, ErrorCode>(ErrorCode::ScoreCannotDecrease),
{
}

/// Repeating the stored scores exactly is rejected with `NoScoreChange`, so
/// feeding the same report twice cannot rescale the reserves twice.
pub proof fn lemma_identical_scores_rejected(gs: GameState, caller: u64)
    requires
        caller == gs.oracle_address,
        gs.match_status == MatchStatus::Live,
    ensures
        spec_update_score(gs, caller, gs.team_a_score, gs.team_b_score) == Err::<
            GameState,
            ErrorCode,
        >(ErrorCode::NoScoreChange),
{
}

} // verus!
