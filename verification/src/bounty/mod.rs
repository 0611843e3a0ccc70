//! Bounty escrow: a registry of funded tasks with a milestone state machine,
//! a per-bounty funding ledger and a per-bounty registry of work entries.

pub mod collaborators;
pub mod fingerprint;
pub mod funding;
pub mod laws;
pub mod lifecycle;
pub mod milestone;
pub mod model;
pub mod types;
pub mod work;
