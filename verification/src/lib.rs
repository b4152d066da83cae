//! Chainhooks: an engine that evaluates registered predicates against chain
//! events of a UTXO chain and of a contract chain, and turns the matches into
//! payloads and action descriptors.
pub mod bitcoin;
pub mod chain;
pub mod clarity;
pub mod dispatch;
pub mod hex;
pub mod json;
pub mod laws;
pub mod payload;
pub mod render;
pub mod script;
pub mod stacks;
pub mod summary;
pub mod text;
pub mod types;
pub mod validation;

