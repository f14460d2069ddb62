use cosmwasm_std::testing::{mock_dependencies, MockApi, MockQuerier, MockStorage};
use cosmwasm_std::{
    Addr, Api, Binary, CanonicalAddr, OwnedDeps, RecoverPubkeyError, StdError, StdResult, Uint128,
    VerificationError,
};
use cw20::Cw20ReceiveMsg;
use cw20_blocklist::contract::{
    destroy_blocked_funds as destroy, instantiate, is_blocked, migrate, query, query_blocked,
    try_add_to_blocklist, try_execute, try_query, try_remove_from_blocklist, update_minter,
};
use cw20_blocklist::error::ContractError;
use cw20_blocklist::host::{Attribute, Dispatch, Env, MessageInfo, Response};
use cw20_blocklist::ledger::{Allowance, Expiration};
use cw20_blocklist::msg::{ExecuteMsg, InstantiateMsg, MigrateMsg, QueryMsg, QueryResponse};

type Mock = OwnedDeps<MockStorage, MockApi, MockQuerier>;

/// A host that accepts every string as an address.
struct Lenient(MockApi);

impl Api for Lenient {
    fn addr_validate(&self, human: &str) -> StdResult<Addr> {
        Ok(Addr::unchecked(human))
    }

    fn addr_canonicalize(&self, human: &str) -> StdResult<CanonicalAddr> {
        self.0.addr_canonicalize(human)
    }

    fn addr_humanize(&self, canonical: &CanonicalAddr) -> StdResult<Addr> {
        self.0.addr_humanize(canonical)
    }

    fn secp256k1_verify(&self, hash: &[u8], signature: &[u8], key: &[u8]) -> Result<bool, VerificationError> {
        self.0.secp256k1_verify(hash, signature, key)
    }

    fn secp256k1_recover_pubkey(&self, hash: &[u8], signature: &[u8], param: u8) -> Result<Vec<u8>, RecoverPubkeyError> {
        self.0.secp256k1_recover_pubkey(hash, signature, param)
    }

    fn ed25519_verify(&self, message: &[u8], signature: &[u8], key: &[u8]) -> Result<bool, VerificationError> {
        self.0.ed25519_verify(message, signature, key)
    }

    fn ed25519_batch_verify(&self, messages: &[&[u8]], signatures: &[&[u8]], keys: &[&[u8]]) -> Result<bool, VerificationError> {
        self.0.ed25519_batch_verify(messages, signatures, keys)
    }

    fn debug(&self, message: &str) {
        self.0.debug(message)
    }
}

fn lenient() -> OwnedDeps<MockStorage, Lenient, MockQuerier> {
    let mock = mock_dependencies(&[]);
    let mut deps = OwnedDeps { storage: mock.storage, api: Lenient(mock.api), querier: mock.querier };
    let msg = InstantiateMsg { name: "Auto Gen".to_string(), symbol: "AUTO".to_string(), decimals: 6 };
    instantiate(&mut deps.as_mut(), env(), from("creator"), msg).unwrap();
    deps
}

fn env_at(height: u64, time: u64) -> Env {
    Env { height, time, chain_id: "chain".to_string(), contract: "ledger".to_string() }
}

fn env() -> Env {
    env_at(100, 1_000_000_000)
}

fn from(sender: &str) -> MessageInfo {
    MessageInfo { sender: sender.to_string(), funds: vec![] }
}

fn setup() -> Mock {
    let mut deps = mock_dependencies(&[]);
    let msg = InstantiateMsg { name: "Auto Gen".to_string(), symbol: "AUTO".to_string(), decimals: 6 };
    instantiate(&mut deps.as_mut(), env(), from("creator"), msg).unwrap();
    deps
}

fn run(deps: &mut Mock, sender: &str, msg: ExecuteMsg) -> Result<Response, ContractError> {
    try_execute(&mut deps.as_mut(), env(), from(sender), msg).expect("within the ledger's limits")
}

fn balance(deps: &Mock, address: &str) -> u128 {
    match query(deps.as_ref(), env(), QueryMsg::Balance { address: address.to_string() }).unwrap() {
        QueryResponse::Balance(b) => b.balance,
        other => panic!("unexpected answer {:?}", other),
    }
}

fn supply(deps: &Mock) -> u128 {
    match query(deps.as_ref(), env(), QueryMsg::TokenInfo {}).unwrap() {
        QueryResponse::TokenInfo(t) => t.total_supply,
        other => panic!("unexpected answer {:?}", other),
    }
}

fn allowance(deps: &Mock, owner: &str, spender: &str) -> Allowance {
    let msg = QueryMsg::Allowance { owner: owner.to_string(), spender: spender.to_string() };
    match query(deps.as_ref(), env(), msg).unwrap() {
        QueryResponse::Allowance(a) => a,
        other => panic!("unexpected answer {:?}", other),
    }
}

fn blocked(deps: &Mock, address: &str) -> bool {
    query_blocked(deps.as_ref(), address.to_string()).unwrap().blocked
}

fn attr(key: &str, value: &str) -> Attribute {
    Attribute { key: key.to_string(), value: value.to_string() }
}

fn mint(deps: &mut Mock, to: &str, amount: u128) {
    run(deps, "creator", ExecuteMsg::Mint { recipient: to.to_string(), amount }).unwrap();
}

fn block(deps: &mut Mock, address: &str) {
    run(deps, "creator", ExecuteMsg::AddToBlockedList { address: address.to_string() }).unwrap();
}

#[test]
fn supply_is_sum_of_balances_after_each_operation() {
    let mut deps = setup();
    assert_eq!(supply(&deps), 0);
    mint(&mut deps, "alice", 700);
    mint(&mut deps, "bobby", 300);
    assert_eq!(supply(&deps), balance(&deps, "alice") + balance(&deps, "bobby"));
    run(&mut deps, "alice", ExecuteMsg::Transfer { recipient: "carol".to_string(), amount: 250 }).unwrap();
    assert_eq!((balance(&deps, "alice"), balance(&deps, "carol")), (450, 250));
    assert_eq!(supply(&deps), 1000);
    mint(&mut deps, "creator", 40);
    run(&mut deps, "creator", ExecuteMsg::Redeem { amount: 15 }).unwrap();
    assert_eq!(balance(&deps, "creator"), 25);
    assert_eq!(supply(&deps), 1025);
    block(&mut deps, "bobby");
    run(&mut deps, "creator", ExecuteMsg::DestroyBlockedFunds { address: "bobby".to_string() }).unwrap();
    assert_eq!(balance(&deps, "bobby"), 0);
    assert_eq!(supply(&deps), 725);
    assert_eq!(supply(&deps), balance(&deps, "alice") + balance(&deps, "carol") + balance(&deps, "creator"));
}

#[test]
fn transfer_of_more_than_held_fails_and_moves_nothing() {
    let mut deps = setup();
    mint(&mut deps, "alice", 10);
    let err = run(&mut deps, "alice", ExecuteMsg::Transfer { recipient: "bobby".to_string(), amount: 11 }).unwrap_err();
    assert!(matches!(err, ContractError::Std(StdError::Overflow { .. })));
    assert_eq!((balance(&deps, "alice"), balance(&deps, "bobby")), (10, 0));
    run(&mut deps, "alice", ExecuteMsg::Transfer { recipient: "bobby".to_string(), amount: 10 }).unwrap();
    assert_eq!((balance(&deps, "alice"), balance(&deps, "bobby")), (0, 10));
}

#[test]
fn blocked_subject_cannot_move_funds_by_any_operation() {
    let mut deps = setup();
    mint(&mut deps, "alice", 500);
    run(&mut deps, "alice", ExecuteMsg::IncreaseAllowance { spender: "spender".to_string(), amount: 100, expires: None }).unwrap();
    block(&mut deps, "alice");
    let before = (balance(&deps, "alice"), balance(&deps, "bobby"), allowance(&deps, "alice", "spender"));

    let msgs = vec![
        ("alice", ExecuteMsg::Transfer { recipient: "bobby".to_string(), amount: 1 }),
        ("alice", ExecuteMsg::Send { contract: "bobby".to_string(), amount: 1, msg: vec![1, 2] }),
        ("spender", ExecuteMsg::TransferFrom { owner: "alice".to_string(), recipient: "bobby".to_string(), amount: 1 }),
        ("spender", ExecuteMsg::SendFrom { owner: "alice".to_string(), contract: "bobby".to_string(), amount: 1, msg: vec![] }),
        ("alice", ExecuteMsg::Transfer { recipient: "bobby".to_string(), amount: 0 }),
    ];
    for (sender, msg) in msgs {
        assert_eq!(run(&mut deps, sender, msg).unwrap_err(), ContractError::Blocked {});
        assert_eq!(before, (balance(&deps, "alice"), balance(&deps, "bobby"), allowance(&deps, "alice", "spender")));
    }
    // the spender's own funds are not held back by the block on the owner
    mint(&mut deps, "spender", 5);
    run(&mut deps, "spender", ExecuteMsg::Transfer { recipient: "bobby".to_string(), amount: 5 }).unwrap();
    assert_eq!(balance(&deps, "bobby"), 5);
}

#[test]
fn only_the_authority_may_manage() {
    let mut deps = setup();
    mint(&mut deps, "alice", 500);
    block(&mut deps, "bobby");
    let msgs = vec![
        ExecuteMsg::AddToBlockedList { address: "carol".to_string() },
        ExecuteMsg::RemoveFromBlockedList { address: "bobby".to_string() },
        ExecuteMsg::UpdateMinter { address: "alice".to_string() },
        ExecuteMsg::Mint { recipient: "alice".to_string(), amount: 1 },
        ExecuteMsg::Mint { recipient: "alice".to_string(), amount: 0 },
        ExecuteMsg::Mint { recipient: "NO".to_string(), amount: u128::MAX },
        ExecuteMsg::Redeem { amount: 1 },
        ExecuteMsg::Redeem { amount: 0 },
        ExecuteMsg::DestroyBlockedFunds { address: "bobby".to_string() },
    ];
    for msg in msgs {
        assert_eq!(run(&mut deps, "alice", msg).unwrap_err(), ContractError::Unauthorized {});
        assert_eq!((balance(&deps, "alice"), supply(&deps)), (500, 500));
        assert_eq!((blocked(&deps, "bobby"), blocked(&deps, "carol")), (true, false));
    }
    mint(&mut deps, "alice", 1);
    assert_eq!(supply(&deps), 501);
}

#[test]
fn operations_fail_with_host_error_before_instantiation() {
    let mut deps = mock_dependencies(&[]);
    let err = run(&mut deps, "creator", ExecuteMsg::AddToBlockedList { address: "alice".to_string() }).unwrap_err();
    assert!(matches!(err, ContractError::Std(StdError::NotFound { .. })));
    let err = run(&mut deps, "creator", ExecuteMsg::Redeem { amount: 1 }).unwrap_err();
    assert!(matches!(err, ContractError::Std(StdError::NotFound { .. })));
    assert!(query(deps.as_ref(), env(), QueryMsg::TokenInfo {}).is_err());
}

#[test]
fn minting_nothing_is_refused_for_the_authority_only() {
    let mut deps = setup();
    let msg = ExecuteMsg::Mint { recipient: "alice".to_string(), amount: 0 };
    assert_eq!(run(&mut deps, "alice", msg.clone()).unwrap_err(), ContractError::Unauthorized {});
    assert_eq!(run(&mut deps, "creator", msg).unwrap_err(), ContractError::InvalidZeroAmount {});
    assert_eq!(supply(&deps), 0);
}

#[test]
fn minting_to_a_rejected_address_fails() {
    let mut deps = setup();
    mint(&mut deps, "alice", 5);
    let msg = ExecuteMsg::Mint { recipient: "NO".to_string(), amount: 3 };
    let err = run(&mut deps, "creator", msg).unwrap_err();
    assert!(matches!(err, ContractError::Std(StdError::GenericErr { .. })));
    assert_eq!(balance(&deps, "alice"), 5);
}

#[test]
fn destroy_succeeds_exactly_on_blocked_addresses() {
    let mut deps = setup();
    mint(&mut deps, "alice", 11_223_344);
    mint(&mut deps, "bobby", 56);
    let msg = ExecuteMsg::DestroyBlockedFunds { address: "alice".to_string() };
    assert_eq!(run(&mut deps, "creator", msg.clone()).unwrap_err(), ContractError::NotBlocked {});
    assert_eq!((balance(&deps, "alice"), supply(&deps)), (11_223_344, 11_223_400));
    block(&mut deps, "alice");
    let res = run(&mut deps, "creator", msg.clone()).unwrap();
    assert_eq!(
        res.attributes,
        vec![
            attr("action", "destroy_blocked_funds"),
            attr("from", "alice"),
            attr("by", "creator"),
            attr("amount", "11223344"),
        ]
    );
    assert_eq!((balance(&deps, "alice"), balance(&deps, "bobby"), supply(&deps)), (0, 56, 56));
    // a second destruction finds nothing left and takes nothing off the supply
    let res = run(&mut deps, "creator", msg).unwrap();
    assert_eq!(res.attributes[3], attr("amount", "0"));
    assert_eq!(supply(&deps), 56);
    // an invalid address is never blocked
    let msg = ExecuteMsg::DestroyBlockedFunds { address: "x".to_string() };
    assert_eq!(run(&mut deps, "creator", msg).unwrap_err(), ContractError::NotBlocked {});
}

#[test]
fn destroy_without_guards_works_on_any_valid_address() {
    let mut deps = setup();
    mint(&mut deps, "alice", 30);
    let res = destroy(&mut deps.as_mut(), from("anyone"), "alice".to_string()).unwrap();
    assert_eq!(res.attributes[2], attr("by", "anyone"));
    assert_eq!((balance(&deps, "alice"), supply(&deps)), (0, 0));
    let err = destroy(&mut deps.as_mut(), from("anyone"), "A".to_string()).unwrap_err();
    assert!(matches!(err, ContractError::Std(StdError::GenericErr { .. })));
}

#[test]
fn blocklist_round_trip() {
    let mut deps = setup();
    assert_eq!(is_blocked(deps.as_ref(), "alice".to_string()), None);
    let res = try_add_to_blocklist(&mut deps.as_mut(), from("creator"), "alice".to_string()).unwrap();
    assert_eq!(res, Response { attributes: vec![attr("blocked", "true")], messages: vec![] });
    assert_eq!(is_blocked(deps.as_ref(), "alice".to_string()), Some(true));
    assert!(blocked(&deps, "alice"));
    // blocking twice changes nothing
    try_add_to_blocklist(&mut deps.as_mut(), from("creator"), "alice".to_string()).unwrap();
    assert!(blocked(&deps, "alice"));
    let res = try_remove_from_blocklist(&mut deps.as_mut(), from("creator"), "alice".to_string()).unwrap();
    assert_eq!(res, Response { attributes: vec![attr("blocked", "false")], messages: vec![] });
    assert_eq!(is_blocked(deps.as_ref(), "alice".to_string()), Some(false));
    assert!(!blocked(&deps, "alice"));
}

#[test]
fn invalid_address_is_not_blocked_and_cannot_be_blocked() {
    let mut deps = setup();
    assert_eq!(is_blocked(deps.as_ref(), "ab".to_string()), Some(false));
    assert_eq!(is_blocked(deps.as_ref(), "UPPER".to_string()), Some(false));
    assert!(!blocked(&deps, ""));
    let err = try_add_to_blocklist(&mut deps.as_mut(), from("creator"), "ab".to_string()).unwrap_err();
    assert!(matches!(err, ContractError::Std(StdError::GenericErr { .. })));
    let err = update_minter(&mut deps.as_mut(), from("creator"), "ab".to_string()).unwrap_err();
    assert!(matches!(err, ContractError::Std(StdError::GenericErr { .. })));
}

#[test]
fn scenario_block_then_unblock_transfer() {
    let mut deps = setup();
    mint(&mut deps, "addr0000", 11_223_344);
    assert_eq!((balance(&deps, "addr0000"), supply(&deps)), (11_223_344, 11_223_344));
    block(&mut deps, "addr0000");
    let transfer = ExecuteMsg::Transfer { recipient: "addr0001".to_string(), amount: 1_000_000 };
    assert_eq!(run(&mut deps, "addr0000", transfer.clone()).unwrap_err(), ContractError::Blocked {});
    run(&mut deps, "creator", ExecuteMsg::RemoveFromBlockedList { address: "addr0000".to_string() }).unwrap();
    let res = run(&mut deps, "addr0000", transfer).unwrap();
    assert_eq!(
        res.attributes,
        vec![attr("action", "transfer"), attr("from", "addr0000"), attr("to", "addr0001"), attr("amount", "1000000")]
    );
    assert_eq!((balance(&deps, "addr0001"), balance(&deps, "addr0000")), (1_000_000, 10_223_344));
}

#[test]
fn scenario_destroy_before_and_after_blocking() {
    let mut deps = setup();
    mint(&mut deps, "addr0000", 11_223_344);
    let msg = ExecuteMsg::DestroyBlockedFunds { address: "addr0000".to_string() };
    assert_eq!(run(&mut deps, "creator", msg.clone()).unwrap_err(), ContractError::NotBlocked {});
    block(&mut deps, "addr0000");
    run(&mut deps, "creator", msg).unwrap();
    assert_eq!((balance(&deps, "addr0000"), supply(&deps)), (0, 0));
}

#[test]
fn scenario_update_minter_hands_the_authority_on() {
    let mut deps = setup();
    let res = update_minter(&mut deps.as_mut(), from("creator"), "bobby".to_string()).unwrap();
    assert_eq!(res, Response { attributes: vec![attr("method", "update_minter")], messages: vec![] });
    let msg = ExecuteMsg::Mint { recipient: "alice".to_string(), amount: 9 };
    assert_eq!(run(&mut deps, "creator", msg.clone()).unwrap_err(), ContractError::Unauthorized {});
    let res = run(&mut deps, "bobby", msg).unwrap();
    assert_eq!(res.attributes, vec![attr("action", "mint"), attr("to", "alice"), attr("amount", "9")]);
    assert_eq!((balance(&deps, "alice"), supply(&deps)), (9, 9));
    let stored = cw20_base::state::TOKEN_INFO.load(&deps.storage).unwrap();
    assert_eq!(stored.mint.unwrap().minter, Addr::unchecked("bobby"));
    assert_eq!((stored.name.as_str(), stored.symbol.as_str(), stored.decimals), ("Auto Gen", "AUTO", 6));
}

#[test]
fn instantiate_records_token_and_version() {
    let mut deps = mock_dependencies(&[]);
    let msg = InstantiateMsg { name: "abc".to_string(), symbol: "X-y".to_string(), decimals: 18 };
    let res = instantiate(&mut deps.as_mut(), env(), from("maker"), msg).unwrap();
    assert_eq!(res, Response { attributes: vec![], messages: vec![] });
    let stored = cw20_base::state::TOKEN_INFO.load(&deps.storage).unwrap();
    assert_eq!(stored.name, "abc");
    assert_eq!(stored.symbol, "X-y");
    assert_eq!(stored.decimals, 18);
    assert_eq!(stored.total_supply, Uint128::zero());
    let minter = stored.mint.unwrap();
    assert_eq!((minter.minter, minter.cap), (Addr::unchecked("maker"), None));
    let version = cw2::get_contract_version(&deps.storage).unwrap();
    assert_eq!(version.contract, "crates.io:cw20-blocklist");
    assert_eq!(version.version, cw20_blocklist::contract::CONTRACT_VERSION);
}

#[test]
fn instantiate_refuses_a_token_out_of_bounds() {
    let cases = vec![
        (("x", "AUTO", 6), "Name is not in the expected format (3-50 UTF-8 bytes)"),
        (("Auto Gen", "A1B", 6), "Ticker symbol is not in expected format [a-zA-Z\\-]{3,12}"),
        (("Auto Gen", "AUTO", 19), "Decimals must not exceed 18"),
        (("", "", 200), "Name is not in the expected format (3-50 UTF-8 bytes)"),
    ];
    for ((name, symbol, decimals), text) in cases {
        let mut deps = mock_dependencies(&[]);
        let msg = InstantiateMsg { name: name.to_string(), symbol: symbol.to_string(), decimals };
        let err = instantiate(&mut deps.as_mut(), env(), from("maker"), msg).unwrap_err();
        assert_eq!(err, ContractError::Std(StdError::generic_err(text)));
        assert!(cw20_base::state::TOKEN_INFO.may_load(&deps.storage).unwrap().is_none());
        assert!(cw2::get_contract_version(&deps.storage).is_err());
    }
}

#[test]
fn migrate_changes_nothing() {
    let mut deps = setup();
    mint(&mut deps, "alice", 3);
    let res = migrate(&mut deps.as_mut(), env(), MigrateMsg {}).unwrap();
    assert_eq!(res, Response { attributes: vec![], messages: vec![] });
    assert_eq!((balance(&deps, "alice"), supply(&deps)), (3, 3));
}

fn set_cap(deps: &mut Mock, cap: u128) {
    let mut token = cw20_base::state::TOKEN_INFO.load(&deps.storage).unwrap();
    token.mint = Some(cw20_base::state::MinterData { minter: Addr::unchecked("creator"), cap: Some(Uint128::new(cap)) });
    cw20_base::state::TOKEN_INFO.save(&mut deps.storage, &token).unwrap();
}

#[test]
fn mint_respects_cap() {
    let mut deps = setup();
    set_cap(&mut deps, 100);
    mint(&mut deps, "alice", 100);
    let msg = ExecuteMsg::Mint { recipient: "alice".to_string(), amount: 1 };
    assert_eq!(run(&mut deps, "creator", msg).unwrap_err(), ContractError::CannotExceedCap {});
    assert_eq!(supply(&deps), 100);
}

#[test]
fn update_minter_keeps_the_cap() {
    let mut deps = setup();
    set_cap(&mut deps, 100);
    update_minter(&mut deps.as_mut(), from("creator"), "bobby".to_string()).unwrap();
    let stored = cw20_base::state::TOKEN_INFO.load(&deps.storage).unwrap();
    let minter = stored.mint.unwrap();
    assert_eq!((minter.minter, minter.cap), (Addr::unchecked("bobby"), Some(Uint128::new(100))));
    run(&mut deps, "bobby", ExecuteMsg::Mint { recipient: "alice".to_string(), amount: 100 }).unwrap();
    let over = ExecuteMsg::Mint { recipient: "alice".to_string(), amount: 1 };
    assert_eq!(run(&mut deps, "bobby", over).unwrap_err(), ContractError::CannotExceedCap {});
    // without a cap on record there is none afterwards
    let mut free = setup();
    update_minter(&mut free.as_mut(), from("creator"), "bobby".to_string()).unwrap();
    let stored = cw20_base::state::TOKEN_INFO.load(&free.storage).unwrap();
    assert_eq!(stored.mint.unwrap().cap, None);
}

#[test]
fn limits_apply_only_where_the_operation_gets_to_add() {
    let mut deps = setup();
    set_cap(&mut deps, u128::MAX);
    cw20_base::state::BALANCES.save(&mut deps.storage, &Addr::unchecked("bobby"), &Uint128::new(u128::MAX)).unwrap();
    // the recipient could not hold the amount, but the host rejects the other recipient first
    let rejected = ExecuteMsg::Mint { recipient: "NO".to_string(), amount: 1 };
    assert!(matches!(try_execute(&mut deps.as_mut(), env(), from("creator"), rejected), Some(Err(ContractError::Std(_)))));
    let held = ExecuteMsg::Mint { recipient: "bobby".to_string(), amount: 1 };
    assert_eq!(try_execute(&mut deps.as_mut(), env(), from("creator"), held), None);
    // a transfer to a rejected address, or on an allowance that is not there, adds nothing
    mint(&mut deps, "alice", 1);
    let rejected = ExecuteMsg::Transfer { recipient: "NO".to_string(), amount: 1 };
    assert!(matches!(try_execute(&mut deps.as_mut(), env(), from("alice"), rejected), Some(Err(ContractError::Std(_)))));
    let take = ExecuteMsg::TransferFrom { owner: "alice".to_string(), recipient: "bobby".to_string(), amount: 1 };
    assert_eq!(try_execute(&mut deps.as_mut(), env(), from("spender"), take.clone()), Some(Err(ContractError::NoAllowance {})));
    run(&mut deps, "alice", ExecuteMsg::IncreaseAllowance { spender: "spender".to_string(), amount: 1, expires: None }).unwrap();
    assert_eq!(try_execute(&mut deps.as_mut(), env(), from("spender"), take), None);
    // an allowance for oneself is refused before its amount is looked at
    run(&mut deps, "alice", ExecuteMsg::IncreaseAllowance { spender: "spender".to_string(), amount: u128::MAX - 1, expires: None }).unwrap();
    let own = ExecuteMsg::IncreaseAllowance { spender: "alice".to_string(), amount: u128::MAX, expires: None };
    assert_eq!(try_execute(&mut deps.as_mut(), env(), from("alice"), own), Some(Err(ContractError::CannotSetOwnAccount {})));
}

#[test]
fn mint_past_128_bits_is_not_carried_out() {
    let mut deps = setup();
    mint(&mut deps, "alice", u128::MAX - 1);
    let msg = ExecuteMsg::Mint { recipient: "bobby".to_string(), amount: 2 };
    assert_eq!(try_execute(&mut deps.as_mut(), env(), from("creator"), msg.clone()), None);
    assert_eq!((balance(&deps, "bobby"), supply(&deps)), (0, u128::MAX - 1));
    // for another caller the amount does not matter: the caller is refused
    assert_eq!(
        try_execute(&mut deps.as_mut(), env(), from("alice"), msg),
        Some(Err(ContractError::Unauthorized {}))
    );
    mint(&mut deps, "bobby", 1);
    assert_eq!(supply(&deps), u128::MAX);
}

#[test]
fn allowance_past_128_bits_is_not_carried_out() {
    let mut deps = setup();
    let grow = |amount: u128| ExecuteMsg::IncreaseAllowance { spender: "spender".to_string(), amount, expires: None };
    run(&mut deps, "alice", grow(u128::MAX)).unwrap();
    assert_eq!(try_execute(&mut deps.as_mut(), env(), from("alice"), grow(1)), None);
    assert_eq!(allowance(&deps, "alice", "spender").allowance, u128::MAX);
    let long = "a".repeat(0x10000);
    assert_eq!(try_execute(&mut deps.as_mut(), env(), from(&long), grow(1)), None);
    let fitting = "a".repeat(0xFFFF);
    assert!(matches!(try_execute(&mut deps.as_mut(), env(), from(&fitting), grow(1)), Some(Ok(_))));
}

#[test]
fn send_leaves_a_call_for_the_receiving_contract() {
    let mut deps = setup();
    mint(&mut deps, "alice", 50);
    let payload = vec![123u8, 34, 120, 34, 58, 49, 125];
    let msg = ExecuteMsg::Send { contract: "market".to_string(), amount: 20, msg: payload.clone() };
    let res = run(&mut deps, "alice", msg).unwrap();
    assert_eq!(
        res.attributes,
        vec![attr("action", "send"), attr("from", "alice"), attr("to", "market"), attr("amount", "20")]
    );
    let expected = Cw20ReceiveMsg { sender: "alice".to_string(), amount: Uint128::new(20), msg: Binary(payload) }
        .into_binary()
        .unwrap();
    assert_eq!(
        res.messages,
        vec![Dispatch::Execute { contract: "market".to_string(), payload: expected.0, funds: vec![] }]
    );
    assert_eq!((balance(&deps, "alice"), balance(&deps, "market")), (30, 20));
}

#[test]
fn allowances_are_spent_by_transfer_from() {
    let mut deps = setup();
    mint(&mut deps, "alice", 500);
    let res = run(&mut deps, "alice", ExecuteMsg::IncreaseAllowance { spender: "spender".to_string(), amount: 100, expires: Some(Expiration::AtHeight(200)) }).unwrap();
    assert_eq!(
        res.attributes,
        vec![attr("action", "increase_allowance"), attr("owner", "alice"), attr("spender", "spender"), attr("amount", "100")]
    );
    assert_eq!(allowance(&deps, "alice", "spender"), Allowance { allowance: 100, expires: Expiration::AtHeight(200) });
    let res = run(&mut deps, "spender", ExecuteMsg::TransferFrom { owner: "alice".to_string(), recipient: "bobby".to_string(), amount: 30 }).unwrap();
    assert_eq!(
        res.attributes,
        vec![attr("action", "transfer_from"), attr("from", "alice"), attr("to", "bobby"), attr("by", "spender"), attr("amount", "30")]
    );
    assert_eq!((balance(&deps, "alice"), balance(&deps, "bobby")), (470, 30));
    assert_eq!(allowance(&deps, "alice", "spender").allowance, 70);
    let res = run(&mut deps, "spender", ExecuteMsg::SendFrom { owner: "alice".to_string(), contract: "market".to_string(), amount: 70, msg: vec![] }).unwrap();
    assert_eq!(res.attributes[0], attr("action", "send_from"));
    assert_eq!(res.messages.len(), 1);
    assert_eq!((balance(&deps, "alice"), balance(&deps, "market")), (400, 70));
    assert_eq!(allowance(&deps, "alice", "spender").allowance, 0);
    let err = run(&mut deps, "spender", ExecuteMsg::TransferFrom { owner: "alice".to_string(), recipient: "bobby".to_string(), amount: 1 }).unwrap_err();
    assert!(matches!(err, ContractError::Std(StdError::Overflow { .. })));
}

#[test]
fn allowance_errors() {
    let mut deps = setup();
    mint(&mut deps, "alice", 500);
    let take = ExecuteMsg::TransferFrom { owner: "alice".to_string(), recipient: "bobby".to_string(), amount: 1 };
    assert_eq!(run(&mut deps, "spender", take.clone()).unwrap_err(), ContractError::NoAllowance {});
    let own = ExecuteMsg::IncreaseAllowance { spender: "alice".to_string(), amount: 1, expires: None };
    assert_eq!(run(&mut deps, "alice", own).unwrap_err(), ContractError::CannotSetOwnAccount {});
    run(&mut deps, "alice", ExecuteMsg::IncreaseAllowance { spender: "spender".to_string(), amount: 10, expires: Some(Expiration::AtTime(2_000_000_000)) }).unwrap();
    let late = try_execute(&mut deps.as_mut(), env_at(100, 2_000_000_000), from("spender"), take.clone()).unwrap();
    assert_eq!(late.unwrap_err(), ContractError::Expired {});
    let in_time = try_execute(&mut deps.as_mut(), env_at(100, 1_999_999_999), from("spender"), take).unwrap();
    in_time.unwrap();
    assert_eq!(balance(&deps, "bobby"), 1);
}

#[test]
fn decrease_allowance_lowers_or_removes() {
    let mut deps = setup();
    let lower = |amount: u128, expires| ExecuteMsg::DecreaseAllowance { spender: "spender".to_string(), amount, expires };
    let err = run(&mut deps, "alice", lower(1, None)).unwrap_err();
    assert!(matches!(err, ContractError::Std(StdError::NotFound { .. })));
    run(&mut deps, "alice", ExecuteMsg::IncreaseAllowance { spender: "spender".to_string(), amount: 10, expires: None }).unwrap();
    let res = run(&mut deps, "alice", lower(4, Some(Expiration::AtHeight(7)))).unwrap();
    assert_eq!(res.attributes[0], attr("action", "decrease_allowance"));
    assert_eq!(allowance(&deps, "alice", "spender"), Allowance { allowance: 6, expires: Expiration::AtHeight(7) });
    run(&mut deps, "alice", lower(6, None)).unwrap();
    assert_eq!(allowance(&deps, "alice", "spender"), Allowance { allowance: 0, expires: Expiration::Never {} });
    assert!(matches!(run(&mut deps, "alice", lower(1, None)).unwrap_err(), ContractError::Std(_)));
}

#[test]
fn zero_amounts_are_refused() {
    let mut deps = setup();
    mint(&mut deps, "creator", 5);
    let msgs = vec![
        ExecuteMsg::Transfer { recipient: "bobby".to_string(), amount: 0 },
        ExecuteMsg::Send { contract: "bobby".to_string(), amount: 0, msg: vec![] },
        ExecuteMsg::Redeem { amount: 0 },
    ];
    for msg in msgs {
        assert_eq!(run(&mut deps, "creator", msg).unwrap_err(), ContractError::InvalidZeroAmount {});
    }
}

#[test]
fn redeem_burns_the_authoritys_own_funds() {
    let mut deps = setup();
    mint(&mut deps, "creator", 5);
    let res = run(&mut deps, "creator", ExecuteMsg::Redeem { amount: 2 }).unwrap();
    assert_eq!(res.attributes, vec![attr("action", "burn"), attr("from", "creator"), attr("amount", "2")]);
    assert_eq!((balance(&deps, "creator"), supply(&deps)), (3, 3));
    let err = run(&mut deps, "creator", ExecuteMsg::Redeem { amount: 4 }).unwrap_err();
    assert!(matches!(err, ContractError::Std(StdError::Overflow { .. })));
}

#[test]
fn queries_reject_invalid_addresses() {
    let deps = setup();
    assert!(query(deps.as_ref(), env(), QueryMsg::Balance { address: "no".to_string() }).is_err());
    let msg = QueryMsg::Allowance { owner: "alice".to_string(), spender: "NO".to_string() };
    assert!(query(deps.as_ref(), env(), msg).is_err());
    assert_eq!(balance(&deps, "nobody"), 0);
    assert_eq!(allowance(&deps, "alice", "bobby"), Allowance { allowance: 0, expires: Expiration::Never {} });
}

#[test]
fn allowance_ends_at_its_height() {
    let mut deps = setup();
    mint(&mut deps, "alice", 500);
    run(&mut deps, "alice", ExecuteMsg::IncreaseAllowance { spender: "spender".to_string(), amount: 10, expires: Some(Expiration::AtHeight(150)) }).unwrap();
    let take = ExecuteMsg::TransferFrom { owner: "alice".to_string(), recipient: "bobby".to_string(), amount: 4 };
    let before = try_execute(&mut deps.as_mut(), env_at(149, 0), from("spender"), take.clone()).unwrap();
    before.unwrap();
    let at = try_execute(&mut deps.as_mut(), env_at(150, 0), from("spender"), take).unwrap();
    assert_eq!(at.unwrap_err(), ContractError::Expired {});
    assert_eq!((balance(&deps, "bobby"), allowance(&deps, "alice", "spender").allowance), (4, 6));
}

#[test]
fn transfer_past_128_bits_is_not_carried_out() {
    let mut deps = setup();
    // a store that holds more than the supply accounts for
    cw20_base::state::BALANCES.save(&mut deps.storage, &Addr::unchecked("bobby"), &Uint128::new(u128::MAX)).unwrap();
    cw20_base::state::BALANCES.save(&mut deps.storage, &Addr::unchecked("alice"), &Uint128::new(2)).unwrap();
    let give = |amount: u128| ExecuteMsg::Transfer { recipient: "bobby".to_string(), amount };
    assert_eq!(try_execute(&mut deps.as_mut(), env(), from("alice"), give(1)), None);
    assert_eq!((balance(&deps, "alice"), balance(&deps, "bobby")), (2, u128::MAX));
    // what alice cannot give cannot overflow
    let short = try_execute(&mut deps.as_mut(), env(), from("alice"), give(3)).unwrap();
    assert!(matches!(short.unwrap_err(), ContractError::Std(StdError::Overflow { .. })));
    // the block is looked at first
    block(&mut deps, "alice");
    assert_eq!(try_execute(&mut deps.as_mut(), env(), from("alice"), give(1)), Some(Err(ContractError::Blocked {})));
    // a transfer to oneself adds nothing
    let own = ExecuteMsg::Transfer { recipient: "bobby".to_string(), amount: 7 };
    try_execute(&mut deps.as_mut(), env(), from("bobby"), own).unwrap().unwrap();
    assert_eq!(balance(&deps, "bobby"), u128::MAX);
}

#[test]
fn allowance_of_an_owner_too_long_for_a_key_is_not_looked_up() {
    let ask = |owner: String| QueryMsg::Allowance { owner, spender: "spender".to_string() };
    // the mock host rejects a long owner itself
    let deps = setup();
    assert!(matches!(try_query(deps.as_ref(), env(), ask("a".repeat(0x10000))), Some(Err(_))));
    assert_eq!(
        try_query(deps.as_ref(), env(), ask("alice".to_string())),
        Some(Ok(QueryResponse::Allowance(Allowance { allowance: 0, expires: Expiration::Never {} })))
    );
    let long = QueryMsg::Balance { address: "a".repeat(0x10000) };
    assert!(matches!(try_query(deps.as_ref(), env(), long), Some(Err(_))));
    // a host that accepts it leaves the length to the ledger
    let deps = lenient();
    assert_eq!(try_query(deps.as_ref(), env(), ask("a".repeat(0x10000))), None);
    assert_eq!(
        try_query(deps.as_ref(), env(), ask("a".repeat(0xFFFF))),
        Some(Ok(QueryResponse::Allowance(Allowance { allowance: 0, expires: Expiration::Never {} })))
    );
}

#[test]
fn transfer_from_an_owner_too_long_for_a_key_is_not_carried_out() {
    let mut deps = lenient();
    let take = |owner: String| ExecuteMsg::TransferFrom { owner, recipient: "bobby".to_string(), amount: 1 };
    assert_eq!(try_execute(&mut deps.as_mut(), env(), from("spender"), take("a".repeat(0x10000))), None);
    assert_eq!(
        try_execute(&mut deps.as_mut(), env(), from("spender"), take("a".repeat(0xFFFF))),
        Some(Err(ContractError::NoAllowance {}))
    );
    let lower = ExecuteMsg::DecreaseAllowance { spender: "spender".to_string(), amount: 1, expires: None };
    assert_eq!(try_execute(&mut deps.as_mut(), env(), from(&"a".repeat(0x10000)), lower), None);
}

#[test]
fn a_run_goes_on_after_a_refusal() {
    let mut deps = setup();
    mint(&mut deps, "alice", 10);
    block(&mut deps, "alice");
    let give = ExecuteMsg::Transfer { recipient: "bobby".to_string(), amount: 4 };
    assert_eq!(run(&mut deps, "alice", give.clone()).unwrap_err(), ContractError::Blocked {});
    assert_eq!(run(&mut deps, "alice", ExecuteMsg::Redeem { amount: 1 }).unwrap_err(), ContractError::Unauthorized {});
    let over = ExecuteMsg::Transfer { recipient: "alice".to_string(), amount: 1 };
    assert!(matches!(run(&mut deps, "bobby", over).unwrap_err(), ContractError::Std(_)));
    run(&mut deps, "creator", ExecuteMsg::RemoveFromBlockedList { address: "alice".to_string() }).unwrap();
    run(&mut deps, "alice", give).unwrap();
    assert_eq!((balance(&deps, "alice"), balance(&deps, "bobby"), supply(&deps)), (6, 4, 10));
}
