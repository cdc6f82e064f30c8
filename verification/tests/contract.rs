use cosmwasm_option::contract::{burn, execute, finalize, instantiate, query, transfer};
use cosmwasm_option::error::ContractError;
use cosmwasm_option::msg::{ExecuteMsg, InstantiateMsg, QueryMsg};
use cosmwasm_option::response::{Attribute, BankSend};
use cosmwasm_option::state::{BlockInfo, Coin, Env, MessageInfo, State};

// The default block height the mock environment runs at.
const MOCK_HEIGHT: u64 = 12_345;

fn mock_env() -> Env {
    Env { block: BlockInfo { height: MOCK_HEIGHT } }
}

fn env_at(height: u64) -> Env {
    Env { block: BlockInfo { height } }
}

fn coin(amount: u128, denom: &str) -> Coin {
    Coin { amount, denom: denom.to_owned() }
}

fn coins(amount: u128, denom: &str) -> Vec<Coin> {
    vec![coin(amount, denom)]
}

fn mock_info(sender: &str, funds: &[(u128, &str)]) -> MessageInfo {
    MessageInfo {
        sender: sender.to_owned(),
        funds: funds.iter().map(|&(amount, denom)| coin(amount, denom)).collect(),
    }
}

fn attr(key: &str, value: &str) -> Attribute {
    Attribute { key: key.to_owned(), value: value.to_owned() }
}

fn fresh_option(store: &mut Option<State>) {
    let msg = InstantiateMsg { counter_offer: coins(40, "ETH"), expires: 100_000 };
    let info = mock_info("creator", &[(1, "BTC")]);
    instantiate(store, &mock_env(), info, msg).unwrap();
}

#[test]
fn test_instantiate() {
    let counter_offer = coins(40, "ETH");
    let collateral = coins(1, "BTC");
    let mut store: Option<State> = None;
    let msg = InstantiateMsg { counter_offer: coins(40, "ETH"), expires: 100_000 };
    let info = MessageInfo { sender: "creator".to_owned(), funds: coins(1, "BTC") };
    let res = instantiate(&mut store, &mock_env(), info, msg).unwrap();
    assert_eq!(0, res.messages.len());

    let state = query(&store, QueryMsg::Config).unwrap();
    assert_eq!(state.creator, "creator");
    assert_eq!(state.owner, "creator");
    assert_eq!(state.collateral, collateral);
    assert_eq!(state.counter_offer, counter_offer);
    assert_eq!(state.expires, 100_000);
}

#[test]
fn test_transfer() {
    let mut store: Option<State> = None;
    fresh_option(&mut store);

    let info = mock_info("anyone", &[]);
    let err = transfer(&mut store, &mock_env(), info, "anyone".to_owned()).unwrap_err();
    match err {
        ContractError::Unauthorized => {}
        e => panic!("unexpected error: {:?}", e),
    }

    let info = mock_info("creator", &[]);
    let res = transfer(&mut store, &mock_env(), info, "someone".to_owned()).unwrap();
    assert_eq!(res.attributes.len(), 2);
    assert_eq!(res.attributes[0], attr("action", "transfer"));
    assert_eq!(res.attributes[1], attr("owner", "someone"));

    let state = query(&store, QueryMsg::Config).unwrap();
    assert_eq!(state.creator, "creator");
    assert_eq!(state.owner, "someone");
}

#[test]
fn test_execute() {
    let counter_offer = coins(40, "ETH");
    let collateral = coins(1, "BTC");
    let mut store: Option<State> = None;
    fresh_option(&mut store);

    let info = mock_info("creator", &[]);
    transfer(&mut store, &mock_env(), info, "someone".to_owned()).unwrap();

    let info = mock_info("creator", &[(40, "ETH")]);
    let err = finalize(&mut store, &mock_env(), info).unwrap_err();
    match err {
        ContractError::Unauthorized => {}
        e => panic!("unexpected error: {:?}", e),
    }

    let info = mock_info("someone", &[(40, "ETH")]);
    let err = finalize(&mut store, &env_at(200_000), info).unwrap_err();
    match err {
        ContractError::Expired { expires, height } => {
            assert_eq!(expires, 100_000);
            assert_eq!(height, 200_000);
        }
        e => panic!("unexpected error: {:?}", e),
    }

    let info = mock_info("someone", &[(39, "ETH")]);
    let err = finalize(&mut store, &mock_env(), info).unwrap_err();
    match err {
        ContractError::FundsMismatch { expected, received } => {
            assert_eq!(expected, counter_offer);
            assert_eq!(received, coins(39, "ETH"));
        }
        e => panic!("unexpected error: {:?}", e),
    }

    let info = mock_info("someone", &[(40, "ETH")]);
    let res = finalize(&mut store, &mock_env(), info).unwrap();
    assert_eq!(res.messages.len(), 2);
    assert_eq!(
        res.messages[0],
        BankSend { to_address: "creator".to_owned(), amount: counter_offer }
    );
    assert_eq!(
        res.messages[1],
        BankSend { to_address: "someone".to_owned(), amount: collateral }
    );
    assert_eq!(res.attributes.len(), 1);
    assert_eq!(res.attributes[0], attr("action", "execute"));

    query(&store, QueryMsg::Config).unwrap_err();
}

#[test]
fn test_burn() {
    let collateral = coins(1, "BTC");
    let mut store: Option<State> = None;
    fresh_option(&mut store);

    let info = mock_info("creator", &[]);
    let err = burn(&mut store, &mock_env(), info).unwrap_err();
    match err {
        ContractError::NotYetExpired { expires, height } => {
            assert_eq!(expires, 100_000);
            assert_eq!(height, MOCK_HEIGHT);
        }
        e => panic!("unexpected error: {:?}", e),
    }

    let info = mock_info("creator", &[(40, "ETH")]);
    let err = burn(&mut store, &env_at(200_000), info).unwrap_err();
    match err {
        ContractError::FundsNotEmpty { funds } => {
            assert_eq!(funds, coins(40, "ETH"));
        }
        e => panic!("unexpected error: {:?}", e),
    }

    let info = mock_info("creator", &[]);
    let res = burn(&mut store, &env_at(200_000), info).unwrap();
    assert_eq!(res.messages.len(), 1);
    assert_eq!(
        res.messages[0],
        BankSend { to_address: "creator".to_owned(), amount: collateral }
    );
    assert_eq!(res.attributes.len(), 1);
    assert_eq!(res.attributes[0], attr("action", "burn"));

    query(&store, QueryMsg::Config).unwrap_err();
}

#[test]
fn instantiate_at_or_past_expiry_fails() {
    // Expiry exactly at the current height is already too late.
    let mut store: Option<State> = None;
    let msg = InstantiateMsg { counter_offer: coins(40, "ETH"), expires: MOCK_HEIGHT };
    let info = mock_info("creator", &[(1, "BTC")]);
    let err = instantiate(&mut store, &mock_env(), info, msg).unwrap_err();
    assert_eq!(err, ContractError::Expired { expires: MOCK_HEIGHT, height: MOCK_HEIGHT });
    assert!(store.is_none());

    let msg = InstantiateMsg { counter_offer: coins(40, "ETH"), expires: 100 };
    let info = mock_info("creator", &[(1, "BTC")]);
    let err = instantiate(&mut store, &mock_env(), info, msg).unwrap_err();
    assert_eq!(err, ContractError::Expired { expires: 100, height: MOCK_HEIGHT });
}

#[test]
fn instantiate_one_block_ahead_succeeds() {
    let mut store: Option<State> = None;
    let msg = InstantiateMsg { counter_offer: coins(40, "ETH"), expires: MOCK_HEIGHT + 1 };
    let info = mock_info("creator", &[(1, "BTC")]);
    let res = instantiate(&mut store, &mock_env(), info, msg).unwrap();
    assert_eq!(res.messages.len(), 0);
    assert_eq!(res.attributes.len(), 0);
    let state = query(&store, QueryMsg::Config).unwrap();
    assert_eq!(state.owner, state.creator);
}

#[test]
fn operations_without_record_fail_not_found() {
    let mut store: Option<State> = None;
    assert_eq!(query(&store, QueryMsg::Config).unwrap_err(), ContractError::NotFound);

    let info = mock_info("anyone", &[]);
    let err = transfer(&mut store, &mock_env(), info, "other".to_owned()).unwrap_err();
    assert_eq!(err, ContractError::NotFound);

    let info = mock_info("anyone", &[(40, "ETH")]);
    assert_eq!(finalize(&mut store, &mock_env(), info).unwrap_err(), ContractError::NotFound);

    let info = mock_info("anyone", &[]);
    assert_eq!(burn(&mut store, &env_at(200_000), info).unwrap_err(), ContractError::NotFound);
}

#[test]
fn finalized_option_is_terminal() {
    let mut store: Option<State> = None;
    fresh_option(&mut store);
    let info = mock_info("creator", &[(40, "ETH")]);
    finalize(&mut store, &mock_env(), info).unwrap();

    assert_eq!(query(&store, QueryMsg::Config).unwrap_err(), ContractError::NotFound);
    let info = mock_info("creator", &[(40, "ETH")]);
    assert_eq!(finalize(&mut store, &mock_env(), info).unwrap_err(), ContractError::NotFound);
    let info = mock_info("creator", &[]);
    assert_eq!(burn(&mut store, &env_at(200_000), info).unwrap_err(), ContractError::NotFound);
    let info = mock_info("creator", &[]);
    let err = transfer(&mut store, &mock_env(), info, "other".to_owned()).unwrap_err();
    assert_eq!(err, ContractError::NotFound);
}

#[test]
fn burned_option_is_terminal() {
    let mut store: Option<State> = None;
    fresh_option(&mut store);
    let info = mock_info("anyone", &[]);
    burn(&mut store, &env_at(100_000), info).unwrap();

    assert_eq!(query(&store, QueryMsg::Config).unwrap_err(), ContractError::NotFound);
    let info = mock_info("anyone", &[]);
    assert_eq!(burn(&mut store, &env_at(100_000), info).unwrap_err(), ContractError::NotFound);
    let info = mock_info("creator", &[(40, "ETH")]);
    assert_eq!(finalize(&mut store, &mock_env(), info).unwrap_err(), ContractError::NotFound);
}

#[test]
fn finalize_accepts_reordered_funds() {
    // The counter-offer spans two denominations; payment in the reverse
    // order is the same multiset and must be accepted.
    let mut store: Option<State> = None;
    let msg = InstantiateMsg {
        counter_offer: vec![coin(40, "ETH"), coin(3, "BTC")],
        expires: 100_000,
    };
    let info = mock_info("creator", &[(1, "BTC")]);
    instantiate(&mut store, &mock_env(), info, msg).unwrap();

    let info = mock_info("creator", &[(3, "BTC"), (40, "ETH")]);
    let res = finalize(&mut store, &mock_env(), info).unwrap();
    assert_eq!(res.messages.len(), 2);
    assert_eq!(res.messages[0].to_address, "creator");
    assert_eq!(res.messages[0].amount, vec![coin(40, "ETH"), coin(3, "BTC")]);
    assert!(store.is_none());
}

#[test]
fn finalize_rejects_partially_overlapping_funds() {
    let mut store: Option<State> = None;
    let msg = InstantiateMsg {
        counter_offer: vec![coin(40, "ETH"), coin(3, "BTC")],
        expires: 100_000,
    };
    let info = mock_info("creator", &[(1, "BTC")]);
    instantiate(&mut store, &mock_env(), info, msg).unwrap();

    // One denomination right, the other missing and a stranger in its place.
    let info = mock_info("creator", &[(40, "ETH"), (3, "DOGE")]);
    let err = finalize(&mut store, &mock_env(), info).unwrap_err();
    assert!(matches!(err, ContractError::FundsMismatch { .. }));

    // A subset of the counter-offer is no payment either.
    let info = mock_info("creator", &[(40, "ETH")]);
    let err = finalize(&mut store, &mock_env(), info).unwrap_err();
    assert!(matches!(err, ContractError::FundsMismatch { .. }));

    // Over-payment is rejected too.
    let info = mock_info("creator", &[(40, "ETH"), (3, "BTC"), (1, "DOGE")]);
    let err = finalize(&mut store, &mock_env(), info).unwrap_err();
    assert!(matches!(err, ContractError::FundsMismatch { .. }));

    // The record is still there after every failure.
    assert!(store.is_some());
}

#[test]
fn finalize_counts_repeated_coins() {
    // Two entries of the same denomination are not one entry of their sum.
    let mut store: Option<State> = None;
    let msg = InstantiateMsg {
        counter_offer: vec![coin(20, "ETH"), coin(20, "ETH")],
        expires: 100_000,
    };
    let info = mock_info("creator", &[(1, "BTC")]);
    instantiate(&mut store, &mock_env(), info, msg).unwrap();

    let info = mock_info("creator", &[(40, "ETH")]);
    let err = finalize(&mut store, &mock_env(), info).unwrap_err();
    assert!(matches!(err, ContractError::FundsMismatch { .. }));

    let info = mock_info("creator", &[(20, "ETH"), (20, "ETH")]);
    finalize(&mut store, &mock_env(), info).unwrap();
    assert!(store.is_none());
}

#[test]
fn execute_dispatches_each_message() {
    let mut store: Option<State> = None;
    fresh_option(&mut store);

    let info = mock_info("creator", &[]);
    let msg = ExecuteMsg::Transfer { recipient: "someone".to_owned() };
    let res = execute(&mut store, &mock_env(), info, msg).unwrap();
    assert_eq!(res.attributes[0], attr("action", "transfer"));

    let info = mock_info("someone", &[(40, "ETH")]);
    let res = execute(&mut store, &mock_env(), info, ExecuteMsg::Finalize).unwrap();
    assert_eq!(res.attributes[0], attr("action", "execute"));

    fresh_option(&mut store);
    let info = mock_info("anyone", &[]);
    let res = execute(&mut store, &env_at(100_000), info, ExecuteMsg::Burn).unwrap();
    assert_eq!(res.attributes[0], attr("action", "burn"));
}

#[test]
fn transfer_moves_no_funds() {
    let mut store: Option<State> = None;
    fresh_option(&mut store);
    let before_collateral = query(&store, QueryMsg::Config).unwrap().collateral.clone();

    let info = mock_info("creator", &[]);
    let res = transfer(&mut store, &mock_env(), info, "someone".to_owned()).unwrap();
    assert_eq!(res.messages.len(), 0);

    let state = query(&store, QueryMsg::Config).unwrap();
    assert_eq!(state.collateral, before_collateral);
    assert_eq!(state.counter_offer, coins(40, "ETH"));
    assert_eq!(state.expires, 100_000);
}

#[test]
fn burn_ignores_the_caller() {
    // Anyone may burn once the expiry has passed; the refund still goes to
    // the creator.
    let mut store: Option<State> = None;
    fresh_option(&mut store);
    let info = mock_info("a_total_stranger", &[]);
    let res = burn(&mut store, &env_at(100_000), info).unwrap();
    assert_eq!(res.messages[0].to_address, "creator");
    assert_eq!(res.messages[0].amount, coins(1, "BTC"));
}

#[test]
fn empty_counter_offer_round_trip() {
    // An empty counter-offer is matched by attaching nothing.
    let mut store: Option<State> = None;
    let msg = InstantiateMsg { counter_offer: vec![], expires: 100_000 };
    let info = mock_info("creator", &[]);
    instantiate(&mut store, &mock_env(), info, msg).unwrap();

    let state = query(&store, QueryMsg::Config).unwrap();
    assert_eq!(state.collateral, Vec::<Coin>::new());
    assert_eq!(state.counter_offer, Vec::<Coin>::new());

    let info = mock_info("creator", &[]);
    let res = finalize(&mut store, &mock_env(), info).unwrap();
    assert_eq!(res.messages.len(), 2);
    assert!(store.is_none());
}
