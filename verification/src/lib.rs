//! Authorization and state-transition core of a token-issuance contract.
//!
//! The crate decodes a compact binary instruction stream
//! ([`instruction::ContractInstruction`]), validates caller authority against
//! persisted contract state ([`state::ContractState`],
//! [`state::MintPermission`]), and computes one of five state transitions
//! before a host applies the staged writes and dispatches at most one call to
//! the external token-ledger service.

pub mod engine;
pub mod errors;
pub mod instruction;
pub mod keys;
pub mod ledger;
pub mod state;
pub mod sysvars;
pub mod text;
