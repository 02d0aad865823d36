use vstd::prelude::*;

verus! {

/// Failure conditions reported by the accounting engine.
///
/// Every operation validates its inputs and the match's lifecycle state
/// before mutating anything, so an error always means zero side effects.
#[derive(Clone, Copy, Debug, PartialEq, Eq, Structural)]
pub enum ErrorCode {
    /// The chosen team name matches neither team of the match.
    InvalidTeamName,
    /// The escrow reference handed in does not belong to the match.
    InvalidVaultAddress,
    /// The operation needs a live match, but it has not started.
    MatchNotLiveYet,
    /// Claims are only possible once the match has ended.
    MatchNotEndedYet,
    /// The caller is not the match's oracle.
    UnauthorizedOracle,
    /// A reported score was below the stored one.
    ScoreCannotDecrease,
    /// A score report repeated the stored scores exactly.
    NoScoreChange,
    /// A reported score was above the sanity bound of 50.
    ScoreTooHigh,
    /// A rebalanced reserve left the 64-bit range.
    MathOverflow,
    /// A checked arithmetic step overflowed or underflowed.
    Overflow,
    /// A divisor was zero.
    DivisionByZero,
    /// No shares exist on the winning side.
    NoWinningShares,
    /// The caller is not the match's admin.
    UnauthorizedAdmin,
    /// Ending needs a live match.
    MatchNotLive,
    /// Starting needs a match that has not started yet.
    MatchAlreadyStarted,
    /// A deposit amount must be greater than zero.
    InvalidAmount,
}

/// The wording that belongs to each failure condition.
pub open spec fn spec_message(e: ErrorCode) -> Seq<char> {
    match e {
        ErrorCode::InvalidTeamName => "Invalid Team Name given"@,
        ErrorCode::InvalidVaultAddress => "Invalid Account Info of vault sent"@,
        ErrorCode::MatchNotLiveYet => "The Match is not live yet"@,
        ErrorCode::MatchNotEndedYet => "The Match has not yet ended"@,
        ErrorCode::UnauthorizedOracle => "This is an anauthorized oracle"@,
        ErrorCode::ScoreCannotDecrease => "The new score cannot be less than the previous one"@,
        ErrorCode::NoScoreChange => "There was no change in the score"@,
        ErrorCode::ScoreTooHigh => "Score is too high"@,
        ErrorCode::MathOverflow => "Mathematical Overflow"@,
        ErrorCode::Overflow => "Arithmetic overflow occurred"@,
        ErrorCode::DivisionByZero => "Division by zero"@,
        ErrorCode::NoWinningShares => "No winning shares available"@,
        ErrorCode::UnauthorizedAdmin => "Unauthorized admin"@,
        ErrorCode::MatchNotLive => "Match is not live"@,
        ErrorCode::MatchAlreadyStarted => "Match has already started"@,
        ErrorCode::InvalidAmount => "Deposit amount must be greater than zero"@,
    }
}

impl ErrorCode {
    /// A short description of the failure, for reporting to callers.
    pub fn message(&self) -> (m: &'static str)
        ensures
            m@ == spec_message(*self),
    {
        match *self {
            ErrorCode::InvalidTeamName => "Invalid Team Name given",
            ErrorCode::InvalidVaultAddress => "Invalid Account Info of vault sent",
            ErrorCode::MatchNotLiveYet => "The Match is not live yet",
            ErrorCode::MatchNotEndedYet => "The Match has not yet ended",
            ErrorCode::UnauthorizedOracle => "This is an anauthorized oracle",
            ErrorCode::ScoreCannotDecrease => "The new score cannot be less than the previous one",
            ErrorCode::NoScoreChange => "There was no change in the score",
            ErrorCode::ScoreTooHigh => "Score is too high",
            ErrorCode::MathOverflow => "Mathematical Overflow",
            ErrorCode::Overflow => "Arithmetic overflow occurred",
            ErrorCode::DivisionByZero => "Division by zero",
            ErrorCode::NoWinningShares => "No winning shares available",
            ErrorCode::UnauthorizedAdmin => "Unauthorized admin",
            ErrorCode::MatchNotLive => "Match is not live",
            ErrorCode::MatchAlreadyStarted => "Match has already started",
            ErrorCode::InvalidAmount => "Deposit amount must be greater than zero",
        }
    }
}

} // verus!
