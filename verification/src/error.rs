//! Everything that can go wrong in one invocation, each failure carrying
//! the offending values.

use vstd::prelude::*;
use crate::state::{Coin, CoinV};

verus! {

/// A failed invocation's outcome. Every failure aborts the whole operation:
/// nothing is stored and no transfer is requested.
#[derive(Debug, PartialEq, Eq)]
pub enum ContractError {
    /// Creation with an expiry at or below the current height, or exercise
    /// at or past the expiry.
    Expired { expires: u64, height: u64 },
    /// Burn attempted before the expiry height.
    NotYetExpired { expires: u64, height: u64 },
    /// The caller is not the party the operation requires.
    Unauthorized,
    /// The funds attached to an exercise differ from the counter-offer.
    FundsMismatch { expected: Vec<Coin>, received: Vec<Coin> },
    /// Funds were attached to a burn.
    FundsNotEmpty { funds: Vec<Coin> },
    /// No record is stored: the option was never created, or was already
    /// finalized or burned.
    NotFound,
}

/// The mathematical value of a [`ContractError`].
#[verifier::ext_equal]
pub enum ErrorV {
    Expired { expires: u64, height: u64 },
    NotYetExpired { expires: u64, height: u64 },
    Unauthorized,
    FundsMismatch { expected: Seq<CoinV>, received: Seq<CoinV> },
    FundsNotEmpty { funds: Seq<CoinV> },
    NotFound,
}

impl DeepView for ContractError {
    type V = ErrorV;

    open spec fn deep_view(&self) -> ErrorV {
        match self {
            ContractError::Expired { expires, height } => ErrorV::Expired {
                expires: *expires,
                height: *height,
            },
            ContractError::NotYetExpired { expires, height } => ErrorV::NotYetExpired {
                expires: *expires,
                height: *height,
            },
            ContractError::Unauthorized => ErrorV::Unauthorized,
            ContractError::FundsMismatch { expected, received } => ErrorV::FundsMismatch {
                expected: expected.deep_view(),
                received: received.deep_view(),
            },
            ContractError::FundsNotEmpty { funds } => ErrorV::FundsNotEmpty {
                funds: funds.deep_view(),
            },
            ContractError::NotFound => ErrorV::NotFound,
        }
    }
}

} // verus!
