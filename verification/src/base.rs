//! The operations that `cw20-base` carries out on the ledger.
//!
//! Each is called as it stands. What is stated of it here is read off its source:
//! when it goes through and what it then leaves, which kind of error it fails
//! with, and what a failure leaves in a well-typed store. A failure which is no
//! host error has written nothing; after a host error the store may hold the
//! first of the operation's writes, which the host discards. Every write is of a typed value, so a well-typed store stays
//! well typed whatever comes back. `cw20-base` adds amounts with a panic on overflow, and
//! `cw-storage-plus` panics on an allowance owner that is too long for a key:
//! each operation asks for the inputs on which it gets that far to fit.

use vstd::prelude::*;
use cosmwasm_std::Binary;
use cosmwasm_std::Deps;
use cosmwasm_std::DepsMut;
use cosmwasm_std::StdError;
use cosmwasm_std::Uint128;
use cw20::Expiration as HostExpiration;
use cw20_base::ContractError as BaseError;
use crate::error::ErrorKind;
use crate::error::base_failure;
use crate::host::DispatchView;
use crate::host::Env;
use crate::host::HostResponse;
use crate::host::MessageInfo;
use crate::host::Response;
use crate::host::decimal;
use crate::host::host_env;
use crate::host::host_info;
use crate::host::plain_response;
use crate::ledger::Allowance;
use crate::ledger::Expiration;
use crate::msg::TokenInfoResponse;
use crate::store::ledger;
use crate::store::ledger_mut;
use crate::store::well_typed;
use crate::store::well_typed_mut;

verus! {

/// `cw20::Expiration`, built from [`Expiration`] for calls into `cw20-base`.
#[verifier::external_type_specification]
#[verifier::external_body]
pub struct ExHostExpiration(HostExpiration);

/// The payload that `Cw20ReceiveMsg::into_binary` makes of a sender, an amount
/// and the payload that the sender passed on.
pub uninterp spec fn receive_payload(sender: Seq<char>, amount: u128, msg: Seq<u8>) -> Seq<u8>;

/// The event record of an operation that names one party.
pub open spec fn events_one(action: Seq<char>, role: Seq<char>, party: Seq<char>, amount: u128) -> Seq<(Seq<char>, Seq<char>)> {
    seq![("action"@, action), (role, party), ("amount"@, decimal(amount))]
}

/// The event record of an operation that names two parties.
pub open spec fn events_two(action: Seq<char>, first: (Seq<char>, Seq<char>), second: (Seq<char>, Seq<char>), amount: u128) -> Seq<(Seq<char>, Seq<char>)> {
    seq![("action"@, action), first, second, ("amount"@, decimal(amount))]
}

/// The event record of an operation that moves funds on an allowance.
pub open spec fn events_from(action: Seq<char>, owner: Seq<char>, to: Seq<char>, spender: Seq<char>, amount: u128) -> Seq<(Seq<char>, Seq<char>)> {
    seq![("action"@, action), ("from"@, owner), ("to"@, to), ("by"@, spender), ("amount"@, decimal(amount))]
}

/// The host's expiration with the same height or time.
#[verifier::external_body]
fn host_expiration(expires: Option<Expiration>) -> Option<HostExpiration> {
    expires.map(|e| match e {
        Expiration::AtHeight(h) => HostExpiration::AtHeight(h),
        Expiration::AtTime(t) => HostExpiration::AtTime(cosmwasm_std::Timestamp::from_nanos(t)),
        Expiration::Never {} => HostExpiration::Never {},
    })
}

/// `cw20_base::contract::execute_transfer`: moves `amount` from the sender to
/// `recipient`, where the amount is not zero, the host accepts the recipient
/// and the sender's balance covers the amount.
#[verifier::external_body]
pub(crate) fn base_transfer(deps: &mut DepsMut<'_>, env: &Env, info: &MessageInfo, recipient: &str, amount: u128) -> (r: Result<Response, BaseError>)
    requires
        ledger_mut(*old(deps)).transfer_fits(info.sender@, recipient@, amount),
    ensures
        r matches Ok(resp) ==> {
            &&& ledger_mut(*old(deps)).can_transfer(info.sender@, recipient@, amount)
            &&& ledger_mut(*final(deps)) == ledger_mut(*old(deps)).moved(info.sender@, recipient@, amount)
            &&& resp.events() == events_two("transfer"@, ("from"@, info.sender@), ("to"@, recipient@), amount)
            &&& resp.dispatches().len() == 0
        },
        r matches Err(e) ==> well_typed_mut(*old(deps)) ==> {
            &&& !ledger_mut(*old(deps)).can_transfer(info.sender@, recipient@, amount)
            &&& base_failure(e).kind() == ledger_mut(*old(deps)).transfer_refusal(amount)
        },
        r is Err && well_typed_mut(*old(deps)) ==> ledger_mut(*final(deps)) == ledger_mut(*old(deps)),
        r matches Err(e) && base_failure(e).kind() != ErrorKind::Std ==> ledger_mut(*final(deps)) == ledger_mut(*old(deps)),
        well_typed_mut(*old(deps)) ==> well_typed_mut(*final(deps)),
{
    cw20_base::contract::execute_transfer(deps.branch(), host_env(env), host_info(info), recipient.to_string(), Uint128::new(amount))
        .map(|inner| plain_response(HostResponse { inner }))
}

/// `cw20_base::contract::execute_send`: a transfer to a contract, with the
/// call of that contract as follow-up action.
#[verifier::external_body]
pub(crate) fn base_send(deps: &mut DepsMut<'_>, env: &Env, info: &MessageInfo, contract: &str, amount: u128, msg: Vec<u8>) -> (r: Result<Response, BaseError>)
    requires
        ledger_mut(*old(deps)).transfer_fits(info.sender@, contract@, amount),
    ensures
        r matches Ok(resp) ==> {
            &&& ledger_mut(*old(deps)).can_transfer(info.sender@, contract@, amount)
            &&& ledger_mut(*final(deps)) == ledger_mut(*old(deps)).moved(info.sender@, contract@, amount)
            &&& resp.events() == events_two("send"@, ("from"@, info.sender@), ("to"@, contract@), amount)
            &&& resp.dispatches().len() == 1
            &&& resp.dispatches()[0] == (DispatchView::Call { contract: contract@, payload: receive_payload(info.sender@, amount, msg@) })
        },
        r matches Err(e) ==> well_typed_mut(*old(deps)) ==> {
            &&& !ledger_mut(*old(deps)).can_transfer(info.sender@, contract@, amount)
            &&& base_failure(e).kind() == ledger_mut(*old(deps)).transfer_refusal(amount)
        },
        r is Err && well_typed_mut(*old(deps)) ==> ledger_mut(*final(deps)) == ledger_mut(*old(deps)),
        r matches Err(e) && base_failure(e).kind() != ErrorKind::Std ==> ledger_mut(*final(deps)) == ledger_mut(*old(deps)),
        well_typed_mut(*old(deps)) ==> well_typed_mut(*final(deps)),
{
    cw20_base::contract::execute_send(deps.branch(), host_env(env), host_info(info), contract.to_string(), Uint128::new(amount), Binary(msg))
        .map(|inner| plain_response(HostResponse { inner }))
}

/// `cw20_base::contract::execute_mint`: gives `amount` new units to
/// `recipient`, where the amount is not zero, the sender is the mint authority,
/// the cap is kept and the host accepts the recipient.
#[verifier::external_body]
pub(crate) fn base_mint(deps: &mut DepsMut<'_>, env: &Env, info: &MessageInfo, recipient: &str, amount: u128) -> (r: Result<Response, BaseError>)
    requires
        ledger_mut(*old(deps)).mint_fits(info.sender@, recipient@, amount),
    ensures
        r matches Ok(resp) ==> {
            &&& ledger_mut(*old(deps)).can_mint(info.sender@, recipient@, amount)
            &&& ledger_mut(*final(deps)) == ledger_mut(*old(deps)).minted(recipient@, amount)
            &&& resp.events() == events_one("mint"@, "to"@, recipient@, amount)
            &&& resp.dispatches().len() == 0
        },
        r matches Err(e) ==> well_typed_mut(*old(deps)) ==> {
            &&& !ledger_mut(*old(deps)).can_mint(info.sender@, recipient@, amount)
            &&& base_failure(e).kind() == ledger_mut(*old(deps)).mint_refusal(info.sender@, amount)
        },
        r is Err && well_typed_mut(*old(deps)) ==> ledger_mut(*final(deps)) == ledger_mut(*old(deps)).mint_failure(info.sender@, amount),
        r matches Err(e) && base_failure(e).kind() != ErrorKind::Std ==> ledger_mut(*final(deps)) == ledger_mut(*old(deps)),
        well_typed_mut(*old(deps)) ==> well_typed_mut(*final(deps)),
{
    cw20_base::contract::execute_mint(deps.branch(), host_env(env), host_info(info), recipient.to_string(), Uint128::new(amount))
        .map(|inner| plain_response(HostResponse { inner }))
}

/// `cw20_base::contract::execute_burn`: takes `amount` of the sender's units
/// out of circulation, where the amount is not zero and both the sender's
/// balance and the total supply cover it.
#[verifier::external_body]
pub(crate) fn base_burn(deps: &mut DepsMut<'_>, env: &Env, info: &MessageInfo, amount: u128) -> (r: Result<Response, BaseError>)
    ensures
        r matches Ok(resp) ==> {
            &&& ledger_mut(*old(deps)).can_burn(info.sender@, amount)
            &&& ledger_mut(*final(deps)) == ledger_mut(*old(deps)).burned(info.sender@, amount)
            &&& resp.events() == events_one("burn"@, "from"@, info.sender@, amount)
            &&& resp.dispatches().len() == 0
        },
        r matches Err(e) ==> well_typed_mut(*old(deps)) ==> {
            &&& !ledger_mut(*old(deps)).can_burn(info.sender@, amount)
            &&& base_failure(e).kind() == ledger_mut(*old(deps)).transfer_refusal(amount)
        },
        r is Err && well_typed_mut(*old(deps)) ==> ledger_mut(*final(deps)) == ledger_mut(*old(deps)).burn_failure(info.sender@, amount),
        r matches Err(e) && base_failure(e).kind() != ErrorKind::Std ==> ledger_mut(*final(deps)) == ledger_mut(*old(deps)),
        well_typed_mut(*old(deps)) ==> well_typed_mut(*final(deps)),
{
    cw20_base::contract::execute_burn(deps.branch(), host_env(env), host_info(info), Uint128::new(amount))
        .map(|inner| plain_response(HostResponse { inner }))
}

/// `cw20_base::allowances::execute_increase_allowance`: raises what `spender`
/// may take from the sender, where the host accepts the spender and the spender
/// is not the sender.
#[verifier::external_body]
pub(crate) fn base_increase_allowance(deps: &mut DepsMut<'_>, env: &Env, info: &MessageInfo, spender: &str, amount: u128, expires: Option<Expiration>) -> (r: Result<Response, BaseError>)
    requires
        ledger_mut(*old(deps)).increase_fits(info.sender@, spender@, amount),
    ensures
        r matches Ok(resp) ==> {
            &&& ledger_mut(*old(deps)).can_set_allowance(info.sender@, spender@)
            &&& ledger_mut(*final(deps)) == ledger_mut(*old(deps)).increased(info.sender@, spender@, amount, expires)
            &&& resp.events() == events_two("increase_allowance"@, ("owner"@, info.sender@), ("spender"@, spender@), amount)
            &&& resp.dispatches().len() == 0
        },
        r matches Err(e) ==> well_typed_mut(*old(deps)) ==> {
            &&& !ledger_mut(*old(deps)).can_set_allowance(info.sender@, spender@)
            &&& base_failure(e).kind() == ledger_mut(*old(deps)).allowance_refusal(info.sender@, spender@)
        },
        r is Err && well_typed_mut(*old(deps)) ==> ledger_mut(*final(deps)) == ledger_mut(*old(deps)),
        r matches Err(e) && base_failure(e).kind() != ErrorKind::Std ==> ledger_mut(*final(deps)) == ledger_mut(*old(deps)),
        well_typed_mut(*old(deps)) ==> well_typed_mut(*final(deps)),
{
    cw20_base::allowances::execute_increase_allowance(deps.branch(), host_env(env), host_info(info), spender.to_string(), Uint128::new(amount), host_expiration(expires))
        .map(|inner| plain_response(HostResponse { inner }))
}

/// `cw20_base::allowances::execute_decrease_allowance`: lowers what `spender`
/// may take from the sender, where the host accepts the spender, the spender is
/// not the sender and an allowance is on record.
#[verifier::external_body]
pub(crate) fn base_decrease_allowance(deps: &mut DepsMut<'_>, env: &Env, info: &MessageInfo, spender: &str, amount: u128, expires: Option<Expiration>) -> (r: Result<Response, BaseError>)
    requires
        ledger_mut(*old(deps)).decrease_fits(info.sender@, spender@),
    ensures
        r matches Ok(resp) ==> {
            &&& ledger_mut(*old(deps)).can_set_allowance(info.sender@, spender@)
            &&& ledger_mut(*old(deps)).allowances.contains_key((info.sender@, spender@))
            &&& ledger_mut(*final(deps)) == ledger_mut(*old(deps)).decreased(info.sender@, spender@, amount, expires)
            &&& resp.events() == events_two("decrease_allowance"@, ("owner"@, info.sender@), ("spender"@, spender@), amount)
            &&& resp.dispatches().len() == 0
        },
        r matches Err(e) ==> well_typed_mut(*old(deps)) ==> {
            &&& !(ledger_mut(*old(deps)).can_set_allowance(info.sender@, spender@) && ledger_mut(*old(deps)).allowances.contains_key((info.sender@, spender@)))
            &&& base_failure(e).kind() == ledger_mut(*old(deps)).allowance_refusal(info.sender@, spender@)
        },
        r is Err && well_typed_mut(*old(deps)) ==> ledger_mut(*final(deps)) == ledger_mut(*old(deps)),
        r matches Err(e) && base_failure(e).kind() != ErrorKind::Std ==> ledger_mut(*final(deps)) == ledger_mut(*old(deps)),
        well_typed_mut(*old(deps)) ==> well_typed_mut(*final(deps)),
{
    cw20_base::allowances::execute_decrease_allowance(deps.branch(), host_env(env), host_info(info), spender.to_string(), Uint128::new(amount), host_expiration(expires))
        .map(|inner| plain_response(HostResponse { inner }))
}

/// `cw20_base::allowances::execute_transfer_from`: moves `amount` from `owner`
/// to `recipient` on the sender's allowance, where the host accepts both
/// addresses, the allowance is on record, has not ended and covers the amount,
/// and the owner's balance covers it too.
#[verifier::external_body]
pub(crate) fn base_transfer_from(deps: &mut DepsMut<'_>, env: &Env, info: &MessageInfo, owner: &str, recipient: &str, amount: u128) -> (r: Result<Response, BaseError>)
    requires
        ledger_mut(*old(deps)).transfer_from_fits(owner@, info.sender@, recipient@, amount, env.height, env.time),
    ensures
        r matches Ok(resp) ==> {
            &&& ledger_mut(*old(deps)).can_transfer_from(owner@, info.sender@, recipient@, amount, env.height, env.time)
            &&& ledger_mut(*final(deps)) == ledger_mut(*old(deps)).moved_from(owner@, info.sender@, recipient@, amount)
            &&& resp.events() == events_from("transfer_from"@, owner@, recipient@, info.sender@, amount)
            &&& resp.dispatches().len() == 0
        },
        r matches Err(e) ==> well_typed_mut(*old(deps)) ==> {
            &&& !ledger_mut(*old(deps)).can_transfer_from(owner@, info.sender@, recipient@, amount, env.height, env.time)
            &&& base_failure(e).kind() == ledger_mut(*old(deps)).transfer_from_refusal(owner@, info.sender@, recipient@, env.height, env.time)
        },
        r is Err && well_typed_mut(*old(deps)) ==> ledger_mut(*final(deps)) == ledger_mut(*old(deps)).transfer_from_failure(owner@, info.sender@, recipient@, amount, env.height, env.time),
        r matches Err(e) && base_failure(e).kind() != ErrorKind::Std ==> ledger_mut(*final(deps)) == ledger_mut(*old(deps)),
        well_typed_mut(*old(deps)) ==> well_typed_mut(*final(deps)),
{
    cw20_base::allowances::execute_transfer_from(deps.branch(), host_env(env), host_info(info), owner.to_string(), recipient.to_string(), Uint128::new(amount))
        .map(|inner| plain_response(HostResponse { inner }))
}

/// `cw20_base::allowances::execute_send_from`: a transfer on the sender's
/// allowance to a contract, with the call of that contract as follow-up action.
#[verifier::external_body]
pub(crate) fn base_send_from(deps: &mut DepsMut<'_>, env: &Env, info: &MessageInfo, owner: &str, contract: &str, amount: u128, msg: Vec<u8>) -> (r: Result<Response, BaseError>)
    requires
        ledger_mut(*old(deps)).transfer_from_fits(owner@, info.sender@, contract@, amount, env.height, env.time),
    ensures
        r matches Ok(resp) ==> {
            &&& ledger_mut(*old(deps)).can_transfer_from(owner@, info.sender@, contract@, amount, env.height, env.time)
            &&& ledger_mut(*final(deps)) == ledger_mut(*old(deps)).moved_from(owner@, info.sender@, contract@, amount)
            &&& resp.events() == events_from("send_from"@, owner@, contract@, info.sender@, amount)
            &&& resp.dispatches().len() == 1
            &&& resp.dispatches()[0] == (DispatchView::Call { contract: contract@, payload: receive_payload(info.sender@, amount, msg@) })
        },
        r matches Err(e) ==> well_typed_mut(*old(deps)) ==> {
            &&& !ledger_mut(*old(deps)).can_transfer_from(owner@, info.sender@, contract@, amount, env.height, env.time)
            &&& base_failure(e).kind() == ledger_mut(*old(deps)).transfer_from_refusal(owner@, info.sender@, contract@, env.height, env.time)
        },
        r is Err && well_typed_mut(*old(deps)) ==> ledger_mut(*final(deps)) == ledger_mut(*old(deps)).transfer_from_failure(owner@, info.sender@, contract@, amount, env.height, env.time),
        r matches Err(e) && base_failure(e).kind() != ErrorKind::Std ==> ledger_mut(*final(deps)) == ledger_mut(*old(deps)),
        well_typed_mut(*old(deps)) ==> well_typed_mut(*final(deps)),
{
    cw20_base::allowances::execute_send_from(deps.branch(), host_env(env), host_info(info), owner.to_string(), contract.to_string(), Uint128::new(amount), Binary(msg))
        .map(|inner| plain_response(HostResponse { inner }))
}

/// `cw20_base::contract::query_balance`: the balance of an address that the
/// host accepts.
#[verifier::external_body]
pub(crate) fn base_query_balance(deps: Deps<'_>, address: &str) -> (r: Result<u128, StdError>)
    ensures
        r matches Ok(v) ==> ledger(deps).addresses.contains(address@) && v == ledger(deps).balance(address@),
        r is Err && well_typed(deps) ==> !ledger(deps).addresses.contains(address@),
{
    cw20_base::contract::query_balance(deps, address.to_string()).map(|b| b.balance.u128())
}

/// `cw20_base::contract::query_token_info`: the token's name, symbol, decimal
/// places and total supply, where a token record can be read.
#[verifier::external_body]
pub(crate) fn base_query_token_info(deps: Deps<'_>) -> (r: Result<TokenInfoResponse, StdError>)
    ensures
        r matches Ok(t) ==> {
            &&& ledger(deps).token matches Some(token)
            &&& t.name@ == token.name
            &&& t.symbol@ == token.symbol
            &&& t.decimals == token.decimals
            &&& t.total_supply == token.total_supply
        },
        r is Err ==> ledger(deps).token is None,
{
    cw20_base::contract::query_token_info(deps).map(|t| TokenInfoResponse {
        name: t.name,
        symbol: t.symbol,
        decimals: t.decimals,
        total_supply: t.total_supply.u128(),
    })
}

/// `cw20_base::allowances::query_allowance`: what `spender` may take from
/// `owner`, where the host accepts both.
#[verifier::external_body]
pub(crate) fn base_query_allowance(deps: Deps<'_>, owner: &str, spender: &str) -> (r: Result<Allowance, StdError>)
    requires
        ledger(deps).lookup_fits(owner@, spender@),
    ensures
        r matches Ok(a) ==> {
            &&& ledger(deps).addresses.contains(owner@)
            &&& ledger(deps).addresses.contains(spender@)
            &&& a == ledger(deps).allowance(owner@, spender@)
        },
        r is Err && well_typed(deps) ==> !(ledger(deps).addresses.contains(owner@) && ledger(deps).addresses.contains(spender@)),
{
    cw20_base::allowances::query_allowance(deps, owner.to_string(), spender.to_string()).map(|a| Allowance {
        allowance: a.allowance.u128(),
        expires: match a.expires {
            HostExpiration::AtHeight(h) => Expiration::AtHeight(h),
            HostExpiration::AtTime(t) => Expiration::AtTime(t.nanos()),
            HostExpiration::Never {} => Expiration::Never {},
        },
    })
}

} // verus!
