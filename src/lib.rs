//! Verified core of a four-seat Spades server: the card model and trick resolution, the
//! scoring engine, move legality, the turn-clock and timeout decisions, seek matching,
//! challenge seat bookkeeping, and display-name validation.
use vstd::prelude::*;

pub mod cards;
pub mod challenge;
pub mod clock;
pub mod game;
pub mod outcomes;
pub mod rules;
pub mod scoring;
pub mod seats;
pub mod seeking;
pub mod validation;

verus! {

} // verus!
