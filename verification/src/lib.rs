//! An on-chain "option" instrument: a creator locks collateral behind a
//! counter-offer and an expiry height; the option's owner may exercise it
//! before expiry by paying the counter-offer exactly, and anyone may burn it
//! after expiry, refunding the collateral to the creator.
//!
//! The state machine is pure: each operation takes the stored record (or its
//! absence) and the invocation's context as plain values and returns the new
//! record together with the response or error. Storage, the block-height
//! clock and the execution of outgoing transfers are the host's business.

pub mod error;
pub mod funds;
pub mod machine;
pub mod msg;
pub mod response;
pub mod state;
pub mod contract;
