//! The progression engine of an idle game: a fixed chain of eight resource
//! kinds, a ledger of how much of each is held, and the rules by which the
//! ledger moves: continuous production along the chain, discrete purchases,
//! and the reset that follows once the last kind is reached.
//!
//! Amounts are exact fixed-point numbers (see [`amount`]), so every rule is
//! stated, and proved, over mathematical integers.

pub mod amount;
pub mod engine;
pub mod kind;
pub mod laws;
pub mod ledger;
pub mod panel;
pub mod rules;
