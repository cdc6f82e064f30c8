//! What a successful invocation hands back to the host: outgoing fund
//! transfers to execute and attributes to emit.

use vstd::prelude::*;
use crate::state::{Coin, CoinV};

verus! {

/// One emitted key/value attribute.
#[derive(Debug, PartialEq, Eq)]
pub struct Attribute {
    pub key: String,
    pub value: String,
}

/// The mathematical value of an [`Attribute`].
#[verifier::ext_equal]
pub struct AttributeV {
    pub key: Seq<char>,
    pub value: Seq<char>,
}

impl DeepView for Attribute {
    type V = AttributeV;

    open spec fn deep_view(&self) -> AttributeV {
        AttributeV { key: self.key@, value: self.value@ }
    }
}

/// One outgoing fund transfer the host must execute.
#[derive(Debug, PartialEq, Eq)]
pub struct BankSend {
    pub to_address: String,
    pub amount: Vec<Coin>,
}

/// The mathematical value of a [`BankSend`].
#[verifier::ext_equal]
pub struct BankSendV {
    pub to_address: Seq<char>,
    pub amount: Seq<CoinV>,
}

impl DeepView for BankSend {
    type V = BankSendV;

    open spec fn deep_view(&self) -> BankSendV {
        BankSendV { to_address: self.to_address@, amount: self.amount.deep_view() }
    }
}

/// A successful invocation's visible outcome.
#[derive(Debug, PartialEq, Eq)]
pub struct Response {
    pub messages: Vec<BankSend>,
    pub attributes: Vec<Attribute>,
}

/// The mathematical value of a [`Response`].
#[verifier::ext_equal]
pub struct ResponseV {
    pub messages: Seq<BankSendV>,
    pub attributes: Seq<AttributeV>,
}

impl DeepView for Response {
    type V = ResponseV;

    open spec fn deep_view(&self) -> ResponseV {
        ResponseV {
            messages: self.messages.deep_view(),
            attributes: self.attributes.deep_view(),
        }
    }
}

} // verus!
