//! A crowdfunding escrow engine.
//!
//! The engine custodies donor funds for a fundraising campaign, enforces a
//! deadline and a goal threshold, and resolves the escrowed balance either
//! wholly to the campaign creator (goal met) or piecemeal back to the donors
//! (goal missed), each donation refundable exactly once.
//!
//! The engine itself is a set of pure transitions: given the current durable
//! records, the validated inputs and the caller-supplied current time, each
//! operation decides whether it is allowed, what records to write next, and
//! which token transfer (if any) the host must perform. Token movement and
//! signature checking are the host's collaborators; the engine only decides.
//! The registry is an in-memory record store over the engine, locating every
//! record by its content-addressed key; the seeds module holds the
//! derivation those keys and the campaign's signing authority come from.

pub mod engine;
pub mod laws;
pub mod registry;
pub mod seeds;
pub mod state;
