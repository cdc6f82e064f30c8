//! The messages an invocation carries.

use vstd::prelude::*;
use crate::state::Coin;

verus! {

/// The creation request: the exercise price and the expiry height. The funds
/// attached to the creation call become the collateral.
#[derive(Debug, PartialEq, Eq)]
pub struct InstantiateMsg {
    pub counter_offer: Vec<Coin>,
    pub expires: u64,
}

/// A mutating operation on a live option.
#[derive(Debug, PartialEq, Eq)]
pub enum ExecuteMsg {
    /// Hand ownership to `recipient`.
    Transfer { recipient: String },
    /// Exercise the option; the funds attached to the call are the payment.
    Finalize,
    /// Refund the collateral after expiry; no funds may be attached.
    Burn,
}

/// A read-only operation.
#[derive(Debug, PartialEq, Eq)]
pub enum QueryMsg {
    /// Return the stored record.
    Config,
}

} // verus!
