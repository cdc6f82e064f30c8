//! The option record and the plain values an invocation carries: coins,
//! the caller's address and funds, and the current block height.

use vstd::prelude::*;

verus! {

/// One denomination's worth of funds: an amount of some denomination.
#[derive(Debug, Clone, PartialEq, Eq)]
pub struct Coin {
    pub amount: u128,
    pub denom: String,
}

/// The mathematical value of a [`Coin`]: its amount and its denomination's
/// characters.
#[verifier::ext_equal]
pub struct CoinV {
    pub amount: nat,
    pub denom: Seq<char>,
}

impl DeepView for Coin {
    type V = CoinV;

    open spec fn deep_view(&self) -> CoinV {
        CoinV { amount: self.amount as nat, denom: self.denom@ }
    }
}

/// The option record: the singleton a live instance stores.
///
/// `creator`, `collateral`, `counter_offer` and `expires` are set once at
/// creation and never change; `owner` changes only through an authorized
/// transfer.
#[derive(Debug, PartialEq, Eq)]
pub struct State {
    pub creator: String,
    pub owner: String,
    pub collateral: Vec<Coin>,
    pub counter_offer: Vec<Coin>,
    pub expires: u64,
}

/// The mathematical value of a [`State`].
#[verifier::ext_equal]
pub struct StateV {
    pub creator: Seq<char>,
    pub owner: Seq<char>,
    pub collateral: Seq<CoinV>,
    pub counter_offer: Seq<CoinV>,
    pub expires: u64,
}

impl DeepView for State {
    type V = StateV;

    open spec fn deep_view(&self) -> StateV {
        StateV {
            creator: self.creator@,
            owner: self.owner@,
            collateral: self.collateral.deep_view(),
            counter_offer: self.counter_offer.deep_view(),
            expires: self.expires,
        }
    }
}

/// The block the invocation runs in.
#[derive(Debug, PartialEq, Eq)]
pub struct BlockInfo {
    pub height: u64,
}

/// The host-supplied context of an invocation.
#[derive(Debug, PartialEq, Eq)]
pub struct Env {
    pub block: BlockInfo,
}

/// Who called, and the funds attached to the call.
#[derive(Debug, PartialEq, Eq)]
pub struct MessageInfo {
    pub sender: String,
    pub funds: Vec<Coin>,
}

} // verus!
