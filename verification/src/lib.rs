//! Stateless chunk validation for a sharded chain: building chunk state
//! witnesses on the producer side, and pre-validating and replaying them on
//! the validator side, ending in a chunk endorsement.

pub mod bytes;
pub mod client;
pub mod epoch;
pub mod hash;
pub mod laws;
pub mod merkle;
pub mod receipts;
pub mod store;
pub mod types;
pub mod validator;
