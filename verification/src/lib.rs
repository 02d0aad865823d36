//! Pari-mutuel prediction market accounting for live two-team matches.
//!
//! Participants deposit value on one of two teams while a match is live; an
//! oracle reports scores; the market's constant-product pricing shifts toward
//! the leading team; at match end the pooled value (minus a platform fee) is
//! paid out to the winning side in proportion to each holder's shares.
//!
//! This crate holds the accounting engine alone: the pricing curve, the match
//! state machine, the oracle-driven rebalancing of the virtual reserves, and
//! settlement. Identity verification, persistence and the movement of real
//! value are left to the surrounding runtime, which hands this engine plain
//! values and applies the transfers it computes.

pub mod curve;
pub mod deposit;
pub mod errors;
pub mod score;
pub mod settlement;
pub mod state;
