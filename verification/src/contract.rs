//! The executable operations. Each takes the stored record — `Some` while
//! the option is active, `None` otherwise — together with the invocation's
//! context, and is proved to follow the transitions of [`crate::machine`]
//! exactly: on failure the store is untouched and nothing is sent.

use vstd::prelude::*;
use crate::error::ContractError;
use crate::funds::{clone_coins, coins_equal};
use crate::machine::{
    burn_response, burn_step, empty_response, finalize_response, finalize_step, instantiate_step,
    query_step, result_view, transfer_response, transfer_step,
};
use crate::msg::{ExecuteMsg, InstantiateMsg, QueryMsg};
use crate::response::{Attribute, BankSend, Response};
use crate::state::{Env, MessageInfo, State};

verus! {

/// Create the option: store a record owned by its creator, holding the
/// attached funds as collateral, provided the expiry is still ahead of the
/// current height. The host guarantees creation happens against an empty
/// store, exactly once.
pub fn instantiate(
    store: &mut Option<State>,
    env: &Env,
    info: MessageInfo,
    msg: InstantiateMsg,
) -> (r: Result<Response, ContractError>)
    requires
        (*old(store)) is None,
    ensures
        ({
            let step = instantiate_step(
                env.block.height,
                info.sender@,
                info.funds.deep_view(),
                msg.counter_offer.deep_view(),
                msg.expires,
            );
            &&& final(store).deep_view() == step.0
            &&& result_view(r) == step.1
        }),
{
    if msg.expires <= env.block.height {
        return Err(ContractError::Expired { expires: msg.expires, height: env.block.height });
    }
    let owner = info.sender.clone();
    let state = State {
        creator: info.sender,
        owner,
        collateral: info.funds,
        counter_offer: msg.counter_offer,
        expires: msg.expires,
    };
    *store = Some(state);
    let resp = Response { messages: Vec::new(), attributes: Vec::new() };
    proof {
        assert(resp.deep_view() =~= empty_response());
    }
    Ok(resp)
}

/// Dispatch one mutating operation to [`transfer`], [`finalize`] or
/// [`burn`].
pub fn execute(
    store: &mut Option<State>,
    env: &Env,
    info: MessageInfo,
    msg: ExecuteMsg,
) -> (r: Result<Response, ContractError>)
    ensures
        ({
            let step = match msg {
                ExecuteMsg::Transfer { recipient } => transfer_step(
                    old(store).deep_view(),
                    info.sender@,
                    recipient@,
                ),
                ExecuteMsg::Finalize => finalize_step(
                    old(store).deep_view(),
                    info.sender@,
                    env.block.height,
                    info.funds.deep_view(),
                ),
                ExecuteMsg::Burn => burn_step(
                    old(store).deep_view(),
                    env.block.height,
                    info.funds.deep_view(),
                ),
            };
            &&& final(store).deep_view() == step.0
            &&& result_view(r) == step.1
        }),
{
    match msg {
        ExecuteMsg::Transfer { recipient } => transfer(store, env, info, recipient),
        ExecuteMsg::Finalize => finalize(store, env, info),
        ExecuteMsg::Burn => burn(store, env, info),
    }
}

/// Hand ownership to `recipient`. Only the current owner may do so; no
/// funds move either way.
pub fn transfer(
    store: &mut Option<State>,
    _env: &Env,
    info: MessageInfo,
    recipient: String,
) -> (r: Result<Response, ContractError>)
    ensures
        ({
            let step = transfer_step(old(store).deep_view(), info.sender@, recipient@);
            &&& final(store).deep_view() == step.0
            &&& result_view(r) == step.1
        }),
{
    match store.take() {
        None => Err(ContractError::NotFound),
        Some(mut s) => {
            if info.sender != s.owner {
                *store = Some(s);
                Err(ContractError::Unauthorized)
            } else {
                let value = recipient.clone();
                s.owner = recipient;
                *store = Some(s);
                let mut attributes: Vec<Attribute> = Vec::new();
                attributes.push(Attribute { key: "action".to_owned(), value: "transfer".to_owned() });
                attributes.push(Attribute { key: "owner".to_owned(), value });
                let resp = Response { messages: Vec::new(), attributes };
                proof {
                    assert(resp.deep_view() =~= transfer_response(recipient@));
                }
                Ok(resp)
            }
        },
    }
}

/// Exercise the option: the owner, strictly before expiry, pays exactly the
/// counter-offer. The record is removed and two transfers are issued: the
/// counter-offer to the creator and the collateral to the owner. The guards
/// run in order — authorization, then expiry, then fund matching — and the
/// first to fail decides the error.
pub fn finalize(
    store: &mut Option<State>,
    env: &Env,
    info: MessageInfo,
) -> (r: Result<Response, ContractError>)
    ensures
        ({
            let step = finalize_step(
                old(store).deep_view(),
                info.sender@,
                env.block.height,
                info.funds.deep_view(),
            );
            &&& final(store).deep_view() == step.0
            &&& result_view(r) == step.1
        }),
{
    match store.take() {
        None => Err(ContractError::NotFound),
        Some(s) => {
            if info.sender != s.owner {
                *store = Some(s);
                return Err(ContractError::Unauthorized);
            }
            if env.block.height >= s.expires {
                let e = ContractError::Expired { expires: s.expires, height: env.block.height };
                *store = Some(s);
                return Err(e);
            }
            if !coins_equal(&info.funds, &s.counter_offer) {
                let expected = clone_coins(&s.counter_offer);
                *store = Some(s);
                return Err(ContractError::FundsMismatch { expected, received: info.funds });
            }
            let ghost sv = s.deep_view();
            let mut messages: Vec<BankSend> = Vec::new();
            messages.push(BankSend { to_address: s.creator, amount: s.counter_offer });
            messages.push(BankSend { to_address: s.owner, amount: s.collateral });
            let mut attributes: Vec<Attribute> = Vec::new();
            attributes.push(Attribute { key: "action".to_owned(), value: "execute".to_owned() });
            let resp = Response { messages, attributes };
            proof {
                assert(resp.deep_view() =~= finalize_response(sv));
            }
            Ok(resp)
        },
    }
}

/// Refund after expiry: anyone, at or past the expiry height and with no
/// funds attached, removes the record; one transfer sends the collateral
/// back to the creator.
pub fn burn(
    store: &mut Option<State>,
    env: &Env,
    info: MessageInfo,
) -> (r: Result<Response, ContractError>)
    ensures
        ({
            let step = burn_step(old(store).deep_view(), env.block.height, info.funds.deep_view());
            &&& final(store).deep_view() == step.0
            &&& result_view(r) == step.1
        }),
{
    match store.take() {
        None => Err(ContractError::NotFound),
        Some(s) => {
            if s.expires > env.block.height {
                let e = ContractError::NotYetExpired {
                    expires: s.expires,
                    height: env.block.height,
                };
                *store = Some(s);
                return Err(e);
            }
            if info.funds.len() != 0 {
                *store = Some(s);
                return Err(ContractError::FundsNotEmpty { funds: info.funds });
            }
            let ghost sv = s.deep_view();
            let mut messages: Vec<BankSend> = Vec::new();
            messages.push(BankSend { to_address: s.creator, amount: s.collateral });
            let mut attributes: Vec<Attribute> = Vec::new();
            attributes.push(Attribute { key: "action".to_owned(), value: "burn".to_owned() });
            let resp = Response { messages, attributes };
            proof {
                assert(resp.deep_view() =~= burn_response(sv));
            }
            Ok(resp)
        },
    }
}

/// Read the record: its full contents while the option is active, and
/// `NotFound` once it has been finalized or burned, or before creation.
/// Pure: the store is untouched.
pub fn query<'a>(store: &'a Option<State>, msg: QueryMsg) -> (r: Result<&'a State, ContractError>)
    ensures
        ({
            match query_step(store.deep_view()) {
                Ok(sv) => r matches Ok(s) && s.deep_view() == sv,
                Err(ev) => r matches Err(e) && e.deep_view() == ev,
            }
        }),
{
    match msg {
        QueryMsg::Config => match store {
            None => Err(ContractError::NotFound),
            Some(s) => Ok(s),
        },
    }
}

} // verus!
