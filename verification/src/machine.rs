//! The option's lifecycle as a mathematical transition function: each
//! operation maps the stored record (or its absence) and the invocation's
//! inputs to the new record and the outcome. The executable operations in
//! [`crate::contract`] are each proved to follow these transitions exactly.

use vstd::prelude::*;
use crate::error::{ContractError, ErrorV};
use crate::funds::same_funds;
use crate::response::{AttributeV, BankSendV, Response, ResponseV};
use crate::state::{CoinV, StateV};

verus! {

/// The outcome a creation emits: no transfers, no attributes.
pub open spec fn empty_response() -> ResponseV {
    ResponseV { messages: Seq::empty(), attributes: Seq::empty() }
}

/// The outcome a transfer emits: no transfers, the action and the new owner.
pub open spec fn transfer_response(recipient: Seq<char>) -> ResponseV {
    ResponseV {
        messages: Seq::empty(),
        attributes: seq![
            AttributeV { key: "action"@, value: "transfer"@ },
            AttributeV { key: "owner"@, value: recipient },
        ],
    }
}

/// The outcome an exercise emits: the counter-offer to the creator, the
/// collateral to the owner.
pub open spec fn finalize_response(s: StateV) -> ResponseV {
    ResponseV {
        messages: seq![
            BankSendV { to_address: s.creator, amount: s.counter_offer },
            BankSendV { to_address: s.owner, amount: s.collateral },
        ],
        attributes: seq![AttributeV { key: "action"@, value: "execute"@ }],
    }
}

/// The outcome a burn emits: the collateral back to the creator.
pub open spec fn burn_response(s: StateV) -> ResponseV {
    ResponseV {
        messages: seq![BankSendV { to_address: s.creator, amount: s.collateral }],
        attributes: seq![AttributeV { key: "action"@, value: "burn"@ }],
    }
}

/// Creation: fails with `Expired` unless the expiry is strictly ahead of the
/// current height; otherwise the record is stored with the creator as owner
/// and the attached funds as collateral.
pub open spec fn instantiate_step(
    height: u64,
    sender: Seq<char>,
    funds: Seq<CoinV>,
    counter_offer: Seq<CoinV>,
    expires: u64,
) -> (Option<StateV>, Result<ResponseV, ErrorV>) {
    if expires <= height {
        (None, Err(ErrorV::Expired { expires, height }))
    } else {
        (
            Some(
                StateV {
                    creator: sender,
                    owner: sender,
                    collateral: funds,
                    counter_offer,
                    expires,
                },
            ),
            Ok(empty_response()),
        )
    }
}

/// Ownership transfer: only the current owner may hand the option on; no
/// funds move.
pub open spec fn transfer_step(
    store: Option<StateV>,
    sender: Seq<char>,
    recipient: Seq<char>,
) -> (Option<StateV>, Result<ResponseV, ErrorV>) {
    match store {
        None => (None, Err(ErrorV::NotFound)),
        Some(s) => if sender != s.owner {
            (Some(s), Err(ErrorV::Unauthorized))
        } else {
            (
                Some(
                    StateV {
                        creator: s.creator,
                        owner: recipient,
                        collateral: s.collateral,
                        counter_offer: s.counter_offer,
                        expires: s.expires,
                    },
                ),
                Ok(transfer_response(recipient)),
            )
        },
    }
}

/// Exercise: the owner, strictly before expiry, pays exactly the
/// counter-offer; the record is removed, the counter-offer goes to the
/// creator and the collateral to the owner. The guards run in this order:
/// authorization, then expiry, then fund matching.
pub open spec fn finalize_step(
    store: Option<StateV>,
    sender: Seq<char>,
    height: u64,
    funds: Seq<CoinV>,
) -> (Option<StateV>, Result<ResponseV, ErrorV>) {
    match store {
        None => (None, Err(ErrorV::NotFound)),
        Some(s) => if sender != s.owner {
            (Some(s), Err(ErrorV::Unauthorized))
        } else if height >= s.expires {
            (Some(s), Err(ErrorV::Expired { expires: s.expires, height }))
        } else if !same_funds(funds, s.counter_offer) {
            (
                Some(s),
                Err(ErrorV::FundsMismatch { expected: s.counter_offer, received: funds }),
            )
        } else {
            (None, Ok(finalize_response(s)))
        },
    }
}

/// Expiry refund: anyone, at or past expiry and with no funds attached, may
/// remove the record and send the collateral back to the creator.
pub open spec fn burn_step(
    store: Option<StateV>,
    height: u64,
    funds: Seq<CoinV>,
) -> (Option<StateV>, Result<ResponseV, ErrorV>) {
    match store {
        None => (None, Err(ErrorV::NotFound)),
        Some(s) => if height < s.expires {
            (Some(s), Err(ErrorV::NotYetExpired { expires: s.expires, height }))
        } else if funds.len() != 0 {
            (Some(s), Err(ErrorV::FundsNotEmpty { funds }))
        } else {
            (None, Ok(burn_response(s)))
        },
    }
}

/// Read: the record if one is stored, `NotFound` otherwise. Pure.
pub open spec fn query_step(store: Option<StateV>) -> Result<StateV, ErrorV> {
    match store {
        None => Err(ErrorV::NotFound),
        Some(s) => Ok(s),
    }
}

/// The mathematical value of an operation's outcome.
pub open spec fn result_view(r: Result<Response, ContractError>) -> Result<ResponseV, ErrorV> {
    match r {
        Ok(resp) => Ok(resp.deep_view()),
        Err(e) => Err(e.deep_view()),
    }
}

/// Creation fails with `Expired`, carrying the attempted expiry and the
/// current height, exactly when the expiry is at or below the current
/// height; otherwise it succeeds, nothing is sent, and the stored record
/// holds the creator as owner, the attached funds as collateral, and the
/// counter-offer and expiry as given.
pub proof fn lemma_instantiate_guard(
    height: u64,
    sender: Seq<char>,
    funds: Seq<CoinV>,
    counter_offer: Seq<CoinV>,
    expires: u64,
)
    ensures
        expires <= height ==> instantiate_step(height, sender, funds, counter_offer, expires)
            == (None::<StateV>, Err::<ResponseV, ErrorV>(ErrorV::Expired { expires, height })),
        expires > height ==> instantiate_step(height, sender, funds, counter_offer, expires) == (
            Some(
                StateV {
                    creator: sender,
                    owner: sender,
                    collateral: funds,
                    counter_offer,
                    expires,
                },
            ),
            Ok::<ResponseV, ErrorV>(empty_response()),
        ),
{
}

/// A transfer from anyone but the owner fails with `Unauthorized` and leaves
/// the record as it was; a transfer from the owner succeeds, moves no funds,
/// and changes the owner alone, so that a subsequent read shows the new
/// owner against an otherwise unchanged record.
pub proof fn lemma_transfer_guard(s: StateV, sender: Seq<char>, recipient: Seq<char>)
    ensures
        sender != s.owner ==> transfer_step(Some(s), sender, recipient) == (
            Some(s),
            Err::<ResponseV, ErrorV>(ErrorV::Unauthorized),
        ),
        sender == s.owner ==> ({
            let (store, res) = transfer_step(Some(s), sender, recipient);
            &&& res == Ok::<ResponseV, ErrorV>(transfer_response(recipient))
            &&& res->Ok_0.messages == Seq::<BankSendV>::empty()
            &&& query_step(store) == Ok::<StateV, ErrorV>(
                StateV {
                    creator: s.creator,
                    owner: recipient,
                    collateral: s.collateral,
                    counter_offer: s.counter_offer,
                    expires: s.expires,
                },
            )
        }),
{
}

/// Exercise succeeds exactly when the caller is the owner, the current
/// height is strictly below the expiry, and the payment equals the
/// counter-offer as a multiset. On success the record is gone, the creator
/// is sent the counter-offer and the owner the collateral; on any failure
/// the record is untouched and nothing is sent.
pub proof fn lemma_finalize_guard(s: StateV, sender: Seq<char>, height: u64, funds: Seq<CoinV>)
    ensures
        ({
            let (store, res) = finalize_step(Some(s), sender, height, funds);
            &&& (res is Ok <==> sender == s.owner && height < s.expires && same_funds(
                funds,
                s.counter_offer,
            ))
            &&& (res is Ok ==> store is None && res->Ok_0.messages == seq![
                BankSendV { to_address: s.creator, amount: s.counter_offer },
                BankSendV { to_address: s.owner, amount: s.collateral },
            ])
            &&& (res is Err ==> store == Some(s))
        }),
{
}

/// Burn succeeds exactly when the current height has reached the expiry and
/// no funds are attached, whoever the caller is. On success the record is
/// gone and the creator is sent the collateral; on failure the record is
/// untouched and nothing is sent.
pub proof fn lemma_burn_guard(s: StateV, height: u64, funds: Seq<CoinV>)
    ensures
        ({
            let (store, res) = burn_step(Some(s), height, funds);
            &&& (res is Ok <==> height >= s.expires && funds.len() == 0)
            &&& (res is Ok ==> store is None && res->Ok_0.messages == seq![
                BankSendV { to_address: s.creator, amount: s.collateral },
            ])
            &&& (res is Err ==> store == Some(s))
        }),
{
}

/// Finalize and burn both remove the record, and a removed record is
/// terminal: reading fails with `NotFound`, and so does every further
/// transfer, finalize or burn, each leaving the store empty.
pub proof fn lemma_removed_is_terminal(
    store: Option<StateV>,
    sender: Seq<char>,
    recipient: Seq<char>,
    height: u64,
    funds: Seq<CoinV>,
)
    ensures
        finalize_step(store, sender, height, funds).1 is Ok ==> finalize_step(
            store,
            sender,
            height,
            funds,
        ).0 is None,
        burn_step(store, height, funds).1 is Ok ==> burn_step(store, height, funds).0 is None,
        query_step(None) == Err::<StateV, ErrorV>(ErrorV::NotFound),
        transfer_step(None, sender, recipient) == (
            None::<StateV>,
            Err::<ResponseV, ErrorV>(ErrorV::NotFound),
        ),
        finalize_step(None, sender, height, funds) == (
            None::<StateV>,
            Err::<ResponseV, ErrorV>(ErrorV::NotFound),
        ),
        burn_step(None, height, funds) == (
            None::<StateV>,
            Err::<ResponseV, ErrorV>(ErrorV::NotFound),
        ),
{
}

/// Round trip: a record created with an expiry still ahead, read back
/// immediately, reproduces exactly the attached funds as collateral, the
/// given counter-offer and expiry, and the creator as owner.
pub proof fn lemma_instantiate_read_round_trip(
    height: u64,
    sender: Seq<char>,
    funds: Seq<CoinV>,
    counter_offer: Seq<CoinV>,
    expires: u64,
)
    requires
        expires > height,
    ensures
        query_step(instantiate_step(height, sender, funds, counter_offer, expires).0) == Ok::<
            StateV,
            ErrorV,
        >(
            StateV {
                creator: sender,
                owner: sender,
                collateral: funds,
                counter_offer,
                expires,
            },
        ),
{
}

} // verus!
