//! Verified core of a bounty escrow registry and its companion runtime modules.

pub mod bounty;
pub mod handles;
pub mod memo;
pub mod staking;
pub mod storage;
