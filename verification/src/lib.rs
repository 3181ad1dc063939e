//! Execution-kernel building blocks of a deterministic smart-contract runtime:
//! a typed binary codec, a transactional substate track with per-key locking,
//! call-frame authorization over auth-zone stacks, the consensus (epoch)
//! manager, costing, and the transaction processor's decision logic.

pub mod addresses;
pub mod auth;
pub mod costing;
pub mod decode;
pub mod epoch_manager;
pub mod hrp;
pub mod identity;
pub mod kernel;
pub mod proofs;
pub mod resource;
pub mod runtime;
pub mod schema;
pub mod system;
pub mod track;
pub mod transaction;
pub mod util;
