//! A verifiable two-player chess match: every move travels in a signed
//! envelope, a deterministic transition engine authenticates the mover and
//! applies the move, and an attestation of each transition is chained into
//! the next one so that the final attestation covers the whole game.

pub mod game;
pub mod identity;
pub mod rules;
pub mod signing;
pub mod engine;
pub mod attest;
pub mod session;
pub mod chain;
