//! Authorization and one-way state transitions for two contracts: a claim
//! gate that issues reward instructions, and an NFT collection whose token
//! metadata can be edited by its creator until it is frozen.

pub mod claim;
pub mod decimal;
pub mod msg;
pub mod updatable;
pub mod whitelist;
