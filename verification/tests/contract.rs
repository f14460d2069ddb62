use cosmwasm_std::testing::mock_dependencies;
use cosmwasm_std::{Deps, DepsMut};
use cw20_blocklist::contract::{instantiate, query, try_execute};
use cw20_blocklist::error::ContractError;
use cw20_blocklist::host::{Env, MessageInfo, Response};
use cw20_blocklist::msg::{
    BlockedResponse, ExecuteMsg, InstantiateMsg, QueryMsg, QueryResponse, TokenInfoResponse,
};

fn mock_env() -> Env {
    Env {
        height: 12_345,
        time: 1_571_797_419_879_305_533,
        chain_id: "cosmos-testnet-14002".to_string(),
        contract: "cosmos2contract".to_string(),
    }
}

fn mock_info(sender: &str) -> MessageInfo {
    MessageInfo { sender: sender.to_string(), funds: vec![] }
}

fn execute(
    mut deps: DepsMut,
    env: Env,
    info: MessageInfo,
    msg: ExecuteMsg,
) -> Result<Response, ContractError> {
    try_execute(&mut deps, env, info, msg).expect("the operation is within the ledger's limits")
}

fn get_balance(deps: Deps, address: &str) -> u128 {
    match query(deps, mock_env(), QueryMsg::Balance { address: address.to_string() }).unwrap() {
        QueryResponse::Balance(b) => b.balance,
        other => panic!("unexpected answer {:?}", other),
    }
}

fn query_token_info(deps: Deps) -> TokenInfoResponse {
    match query(deps, mock_env(), QueryMsg::TokenInfo {}).unwrap() {
        QueryResponse::TokenInfo(t) => t,
        other => panic!("unexpected answer {:?}", other),
    }
}

fn query_is_blocked(deps: Deps, address: &str) -> BlockedResponse {
    match query(deps, mock_env(), QueryMsg::IsBlocked { address: String::from(address) }).unwrap() {
        QueryResponse::IsBlocked(b) => b,
        other => panic!("unexpected answer {:?}", other),
    }
}

// this will set up the instantiation for other tests
fn do_instantiate(mut deps: DepsMut) -> TokenInfoResponse {
    let instantiate_msg = InstantiateMsg {
        name: "Auto Gen".to_string(),
        symbol: "AUTO".to_string(),
        decimals: 6,
    };
    let info = mock_info("creator");
    let env = mock_env();
    let res = instantiate(&mut deps, env, info, instantiate_msg).unwrap();
    assert_eq!(0, res.messages.len());

    let meta = query_token_info(deps.as_ref());
    assert_eq!(
        meta,
        TokenInfoResponse {
            name: "Auto Gen".to_string(),
            symbol: "AUTO".to_string(),
            decimals: 6,
            total_supply: 0,
        }
    );
    meta
}

#[test]
fn basic() {
    let mut deps = mock_dependencies(&[]);
    let amount: u128 = 11223344;
    do_instantiate(deps.as_mut());

    let msg = ExecuteMsg::Mint { recipient: "addr0000".into(), amount };

    let info = mock_info("creator");
    let env = mock_env();

    let res = execute(deps.as_mut(), env, info, msg).unwrap();
    assert_eq!(0, res.messages.len());

    assert_eq!(
        query_token_info(deps.as_ref()),
        TokenInfoResponse {
            name: "Auto Gen".to_string(),
            symbol: "AUTO".to_string(),
            decimals: 6,
            total_supply: amount,
        }
    );
    assert_eq!(get_balance(deps.as_ref(), "addr0000"), 11223344u128);
}

#[test]
fn blocked() {
    let mut deps = mock_dependencies(&[]);
    let amount: u128 = 11223344u128;
    do_instantiate(deps.as_mut());

    // Mint to addr0000 from creator.
    let msg = ExecuteMsg::Mint { recipient: "addr0000".into(), amount };
    let info = mock_info("creator");
    let env = mock_env();

    let res = execute(deps.as_mut(), env, info, msg).unwrap();
    assert_eq!(0, res.messages.len());

    // Block addr0000 from creator.
    let msg = ExecuteMsg::AddToBlockedList { address: "addr0000".into() };
    let info = mock_info("creator");
    let env = mock_env();

    let res = execute(deps.as_mut(), env, info, msg).unwrap();
    assert_eq!(0, res.messages.len());

    // Attempt a transfer from addr0000 to addr0001.
    let msg = ExecuteMsg::Transfer { recipient: "addr0001".into(), amount: 1000000u128 };
    let info = mock_info("addr0000");
    let env = mock_env();

    // Ensure transfer was blocked.
    let err = execute(deps.as_mut(), env, info, msg.clone()).unwrap_err();
    assert_eq!(err, ContractError::Blocked {});

    // Unblock addr0000.
    let unblock_msg = ExecuteMsg::RemoveFromBlockedList { address: "addr0000".into() };
    let info = mock_info("creator");
    let env = mock_env();

    let res = execute(deps.as_mut(), env, info, unblock_msg).unwrap();
    assert_eq!(0, res.messages.len());

    // Attempt a transfer from addr0000 to addr0001.
    let info = mock_info("addr0000");
    let env = mock_env();

    // Ensure transfer was successful.
    let res = execute(deps.as_mut(), env, info, msg.clone()).unwrap();
    assert_eq!(0, res.messages.len());
    assert_eq!(get_balance(deps.as_ref(), "addr0001"), 1000000u128);
}

#[test]
fn destroy_blocked_funds() {
    let mut deps = mock_dependencies(&[]);
    let amount: u128 = 11223344u128;
    do_instantiate(deps.as_mut());

    // Mint to addr0000 from creator.
    let msg = ExecuteMsg::Mint { recipient: "addr0000".into(), amount };
    let info = mock_info("creator");
    let env = mock_env();

    let res = execute(deps.as_mut(), env, info, msg).unwrap();
    assert_eq!(0, res.messages.len());

    // Attempt destroy
    let msg = ExecuteMsg::DestroyBlockedFunds { address: "addr0000".into() };

    let info = mock_info("creator");
    let env = mock_env();

    // funds of an address that is not blocked cannot be destroyed
    let err = execute(deps.as_mut(), env, info, msg).unwrap_err();
    assert_eq!(err, ContractError::NotBlocked {});

    // Block addr0000 from creator.
    let msg = ExecuteMsg::AddToBlockedList { address: "addr0000".into() };

    let info = mock_info("creator");
    let env = mock_env();

    let res = execute(deps.as_mut(), env, info, msg).unwrap();
    assert_eq!(0, res.messages.len());

    // Destroy blocked funds.
    let msg = ExecuteMsg::DestroyBlockedFunds { address: "addr0000".into() };

    let info = mock_info("creator");
    let env = mock_env();

    let res = execute(deps.as_mut(), env, info, msg).unwrap();
    assert_eq!(0, res.messages.len());

    assert_eq!(get_balance(deps.as_ref(), "addr0000"), 0u128);
}

#[test]
fn queries_work() {
    let mut deps = mock_dependencies(&[]);
    do_instantiate(deps.as_mut());
    let loaded: BlockedResponse = query_is_blocked(deps.as_ref(), "addr0000");
    assert_eq!(loaded.blocked, false);

    // Block addr0000 from creator.
    let msg = ExecuteMsg::AddToBlockedList { address: "addr0000".into() };
    let info = mock_info("creator");
    let env = mock_env();

    let res = execute(deps.as_mut(), env, info, msg).unwrap();
    assert_eq!(0, res.messages.len());

    let loaded: BlockedResponse = query_is_blocked(deps.as_ref(), "addr0000");
    assert_eq!(loaded.blocked, true);
}
