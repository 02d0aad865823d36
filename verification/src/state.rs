use vstd::prelude::*;

use crate::curve::product_k;
use crate::errors::ErrorCode;

verus! {

/// Lifecycle of a match; `Ended` is terminal.
#[derive(Clone, Copy, Debug, PartialEq, Eq, Structural)]
pub enum MatchStatus {
    Live,
    Ended,
    NotStarted,
}

/// Longest team name, in characters, that a match record accepts.
pub const MAX_TEAM_NAME_LEN: usize = 32;

/// Highest score the oracle may report for either team.
pub const MAX_SCORE: u8 = 50;

/// The authoritative record for one match.
///
/// Identities (admin, oracle, escrow) are plain 64-bit tokens: the engine
/// only ever compares them for equality, and the surrounding runtime maps
/// them to whatever credential scheme it uses.
#[derive(Clone, Debug)]
pub struct GameState {
    /// Caller-supplied match identifier; immutable after creation.
    pub seed: u64,
    /// Identity allowed to start and end the match.
    pub admin_address: u64,
    /// Identity allowed to report scores.
    pub oracle_address: u64,
    /// Name of team A; immutable after creation.
    pub team_a_name: String,
    /// Name of team B; immutable after creation.
    pub team_b_name: String,
    /// Virtual reserve of side A, driving the pricing curve.
    pub virtual_team_a_pool_tokens: u64,
    /// Virtual reserve of side B, driving the pricing curve.
    pub virtual_team_b_pool_tokens: u64,
    /// Constant-product invariant, recomputed from the reserves after every
    /// mutation that touches them.
    pub k: u128,
    /// Reference to the escrow that holds the deposited value.
    pub vault: u64,
    /// Value tracked as deposited, minus the fee deducted at settlement.
    pub vault_sol_balance: u64,
    /// Shares minted to all participants on side A.
    pub total_team_a_shares: u64,
    /// Shares minted to all participants on side B.
    pub total_team_b_shares: u64,
    /// Last reported score of team A.
    pub team_a_score: u8,
    /// Last reported score of team B.
    pub team_b_score: u8,
    /// Where the match stands in its lifecycle.
    pub match_status: MatchStatus,
}

/// A participant's accumulated shares in each team's pool for one match.
#[derive(Clone, Copy, Debug, PartialEq, Eq, Structural)]
pub struct MatchShares {
    pub team_a_shares: u64,
    pub team_b_shares: u64,
}

impl GameState {
    /// Well-formedness: `k` is exactly the product of the reserves, the team
    /// names are bounded, and the scores sit within the sanity bound.
    /// Creation establishes it and every operation preserves it.
    pub open spec fn wf(self) -> bool {
        &&& self.k as int == product_k(
            self.virtual_team_a_pool_tokens as int,
            self.virtual_team_b_pool_tokens as int,
        )
        &&& self.team_a_name@.len() <= MAX_TEAM_NAME_LEN
        &&& self.team_b_name@.len() <= MAX_TEAM_NAME_LEN
        &&& self.team_a_score <= MAX_SCORE
        &&& self.team_b_score <= MAX_SCORE
    }

    /// Creates the record for a fresh match: equal virtual reserves, `k`
    /// computed from them, every accumulator zero, status `NotStarted`.
    /// A team name longer than [`MAX_TEAM_NAME_LEN`] characters is rejected.
    pub fn initialize(
        seed: u64,
        initial_virtual_pool_liquidity: u64,
        team_a_name: String,
        team_b_name: String,
        admin_address: u64,
        oracle_address: u64,
        vault: u64,
    ) -> (r: Result<GameState, ErrorCode>)
        ensures
            match r {
                Ok(gs) => {
                    &&& team_a_name@.len() <= MAX_TEAM_NAME_LEN
                    &&& team_b_name@.len() <= MAX_TEAM_NAME_LEN
                    &&& gs == (GameState {
                        seed,
                        admin_address,
                        oracle_address,
                        team_a_name,
                        team_b_name,
                        virtual_team_a_pool_tokens: initial_virtual_pool_liquidity,
                        virtual_team_b_pool_tokens: initial_virtual_pool_liquidity,
                        k: product_k(
                            initial_virtual_pool_liquidity as int,
                            initial_virtual_pool_liquidity as int,
                        ) as u128,
                        vault,
                        vault_sol_balance: 0u64,
                        total_team_a_shares: 0u64,
                        total_team_b_shares: 0u64,
                        team_a_score: 0u8,
                        team_b_score: 0u8,
                        match_status: MatchStatus::NotStarted,
                    })
                    &&& gs.wf()
                },
                Err(e) => {
                    &&& (team_a_name@.len() > MAX_TEAM_NAME_LEN
                        || team_b_name@.len() > MAX_TEAM_NAME_LEN)
                    &&& e == ErrorCode::InvalidTeamName
                },
            },
    {
        if team_a_name.as_str().unicode_len() > MAX_TEAM_NAME_LEN
            || team_b_name.as_str().unicode_len() > MAX_TEAM_NAME_LEN {
            return Err(ErrorCode::InvalidTeamName);
        }
        let k = crate::curve::k_from_xy(
            initial_virtual_pool_liquidity,
            initial_virtual_pool_liquidity,
        );
        Ok(GameState {
            seed,
            admin_address,
            oracle_address,
            team_a_name,
            team_b_name,
            virtual_team_a_pool_tokens: initial_virtual_pool_liquidity,
            virtual_team_b_pool_tokens: initial_virtual_pool_liquidity,
            k,
            vault,
            vault_sol_balance: 0,
            total_team_a_shares: 0,
            total_team_b_shares: 0,
            team_a_score: 0,
            team_b_score: 0,
            match_status: MatchStatus::NotStarted,
        })
    }

    /// Moves a match that has not started yet to `Live`. Only the admin may
    /// do so, and only once.
    pub fn start_game(&mut self, caller: u64) -> (r: Result<(), ErrorCode>)
        requires
            old(self).wf(),
        ensures
            final(self).wf(),
            match r {
                Ok(()) => {
                    &&& old(self).admin_address == caller
                    &&& old(self).match_status == MatchStatus::NotStarted
                    &&& *final(self) == (GameState {
                        match_status: MatchStatus::Live,
                        ..*old(self)
                    })
                },
                Err(e) => {
                    &&& *final(self) == *old(self)
                    &&& if caller != old(self).admin_address {
                        e == ErrorCode::UnauthorizedAdmin
                    } else {
                        old(self).match_status != MatchStatus::NotStarted
                            && e == ErrorCode::MatchAlreadyStarted
                    }
                },
            },
    {
        if caller != self.admin_address {
            return Err(ErrorCode::UnauthorizedAdmin);
        }
        if self.match_status != MatchStatus::NotStarted {
            return Err(ErrorCode::MatchAlreadyStarted);
        }
        self.match_status = MatchStatus::Live;
        Ok(())
    }
}

} // verus!
