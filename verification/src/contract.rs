//! The ledger's operations: the blocklist, the authority checks, the forced
//! destruction of blocked funds, and the guards in front of `cw20-base`.

use vstd::prelude::*;
use cosmwasm_std::Deps;
use cosmwasm_std::DepsMut;
use cosmwasm_std::StdError;
use crate::base::base_burn;
use crate::base::base_decrease_allowance;
use crate::base::base_increase_allowance;
use crate::base::base_mint;
use crate::base::base_query_allowance;
use crate::base::base_query_balance;
use crate::base::base_query_token_info;
use crate::base::base_send;
use crate::base::base_send_from;
use crate::base::base_transfer;
use crate::base::base_transfer_from;
use crate::base::events_from;
use crate::base::events_one;
use crate::base::events_two;
use crate::base::receive_payload;
use crate::error::ContractError;
use crate::error::ErrorKind;
use crate::host::DispatchView;
use crate::host::Env;
use crate::host::MessageInfo;
use crate::host::Response;
use crate::host::amount_text;
use crate::host::decimal;
use crate::ledger::Allowance;
use crate::ledger::Expiration;
use crate::ledger::Ledger;
use crate::ledger::MinterData;
use crate::ledger::MinterView;
use crate::ledger::TokenInfo;
use crate::ledger::TokenView;
use crate::ledger::short;
use crate::msg::BalanceResponse;
use crate::msg::BlockedResponse;
use crate::msg::ExecuteMsg;
use crate::msg::InstantiateMsg;
use crate::msg::MigrateMsg;
use crate::msg::QueryMsg;
use crate::msg::QueryResponse;
use crate::store::as_reader;
use crate::store::checked_sub;
use crate::store::ledger;
use crate::store::ledger_mut;
use crate::store::load_allowance;
use crate::store::load_balance;
use crate::store::load_blocked;
use crate::store::load_token;
use crate::store::save_balance;
use crate::store::save_blocked;
use crate::store::save_token;
use crate::store::set_version;
use crate::store::validate_address;
use crate::store::well_typed_mut;

verus! {

/// Rules of the operations that only the mint authority may carry out.
impl Ledger {
    /// What a caller who is not the mint authority is refused with: a host error
    /// where no token record can be read, `Unauthorized` otherwise.
    pub open spec fn authority_refusal(self) -> ErrorKind {
        if self.token is None {
            ErrorKind::Std
        } else {
            ErrorKind::Unauthorized
        }
    }

    /// What the blocklist answers for an address: `false` for a string that the
    /// host does not accept, else the flag on record, if any.
    pub open spec fn blocked_entry(self, address: Seq<char>) -> Option<bool> {
        if !self.addresses.contains(address) {
            Some(false)
        } else {
            self.blocked.get(address)
        }
    }

    /// Whether the authority may edit the blocklist entry of `address`, or hand
    /// the authority on to it.
    pub open spec fn can_manage(self, caller: Seq<char>, address: Seq<char>) -> bool {
        self.is_authority(caller) && self.addresses.contains(address)
    }

    /// What an operation of the authority on `address` is refused with.
    pub open spec fn manage_refusal(self, caller: Seq<char>) -> ErrorKind {
        if self.is_authority(caller) {
            ErrorKind::Std
        } else {
            self.authority_refusal()
        }
    }

    /// The token with `address` as its mint authority; the cap stays as it is.
    pub open spec fn with_minter(self, address: Seq<char>) -> Ledger {
        match self.token {
            Some(t) => self.with_token(TokenView { mint: Some(MinterView { minter: address, cap: self.cap() }), ..t }),
            None => self,
        }
    }

    /// Whether the funds at `address` can be destroyed: the host accepts the
    /// address, and the total supply on record covers its balance.
    pub open spec fn can_destroy(self, address: Seq<char>) -> bool {
        &&& self.addresses.contains(address)
        &&& self.token is Some
        &&& self.total_supply() >= self.balance(address)
    }

    /// The balance of `address` set to zero and taken off the total supply.
    pub open spec fn destroyed(self, address: Seq<char>) -> Ledger {
        self.with_balance(address, 0).with_total_supply((self.total_supply() - self.balance(address)) as u128)
    }

    /// The token as `instantiate` records it: nothing in circulation, `minter`
    /// as the mint authority, no cap.
    pub open spec fn instantiated(self, minter: Seq<char>, name: Seq<char>, symbol: Seq<char>, decimals: u8) -> Ledger {
        self.with_token(
            TokenView {
                name: name,
                symbol: symbol,
                decimals: decimals,
                total_supply: 0,
                mint: Some(MinterView { minter: minter, cap: None }),
            },
        )
    }
}

/// The event record of a blocklist edit.
pub open spec fn blocklist_events(flag: bool) -> Seq<(Seq<char>, Seq<char>)> {
    if flag {
        seq![("blocked"@, "true"@)]
    } else {
        seq![("blocked"@, "false"@)]
    }
}

/// The event record of a destruction of blocked funds.
pub open spec fn destroy_events(address: Seq<char>, by: Seq<char>, amount: u128) -> Seq<(Seq<char>, Seq<char>)> {
    seq![("action"@, "destroy_blocked_funds"@), ("from"@, address), ("by"@, by), ("amount"@, decimal(amount))]
}

/// The blocklist's answer for an address.
pub fn is_blocked(deps: Deps<'_>, address: String) -> (r: Option<bool>)
    ensures
        r == ledger(deps).blocked_entry(address@),
        r.unwrap_or(false) == ledger(deps).is_blocked(address@),
{
    match validate_address(deps, address.as_str()) {
        Err(_) => Some(false),
        Ok(addr) => match load_blocked(deps, addr.as_str()) {
            Ok(flag) => flag,
            Err(_) => None,
        },
    }
}

/// Whether an address is blocked; a string that the host does not accept is not.
pub fn query_blocked(deps: Deps<'_>, address: String) -> (r: Result<BlockedResponse, StdError>)
    ensures
        r matches Ok(b) && b.blocked == ledger(deps).is_blocked(address@),
{
    let blocked = match is_blocked(deps, address) {
        Some(flag) => flag,
        None => false,
    };
    Ok(BlockedResponse { blocked })
}

/// The token record, for a caller who is the mint authority.
fn authorize(deps: Deps<'_>, caller: &String) -> (r: Result<TokenInfo, ContractError>)
    ensures
        r matches Ok(t) ==> ledger(deps).token == Some(t@) && ledger(deps).is_authority(caller@),
        r matches Err(e) ==> {
            &&& !ledger(deps).is_authority(caller@)
            &&& e.kind() == ledger(deps).authority_refusal()
            &&& ledger(deps).token is Some ==> e == (ContractError::Unauthorized {})
        },
{
    let config = match load_token(deps) {
        Ok(config) => config,
        Err(e) => {
            return Err(ContractError::Std(e));
        },
    };
    let allowed = match &config.mint {
        Some(m) => m.minter == *caller,
        None => false,
    };
    if !allowed {
        return Err(ContractError::Unauthorized {});
    }
    Ok(config)
}

/// Sets the blocklist entry of `address` for a caller who is the mint authority.
fn set_blocked(deps: &mut DepsMut<'_>, info: MessageInfo, address: String, flag: bool) -> (r: Result<Response, ContractError>)
    ensures
        blocklist_edit(ledger_mut(*old(deps)), well_typed_mut(*old(deps)), info.sender@, address@, flag, r, ledger_mut(*final(deps))),
        well_typed_mut(*old(deps)) ==> well_typed_mut(*final(deps)),
        !ledger_mut(*old(deps)).can_manage(info.sender@, address@) ==> *final(deps) == *old(deps),
{
    match authorize(as_reader(deps), &info.sender) {
        Ok(_) => {},
        Err(e) => {
            return Err(e);
        },
    }
    let validated = match validate_address(as_reader(deps), address.as_str()) {
        Ok(a) => a,
        Err(e) => {
            return Err(ContractError::Std(e));
        },
    };
    match save_blocked(deps, validated.as_str(), flag) {
        Ok(()) => {},
        Err(e) => {
            return Err(ContractError::Std(e));
        },
    }
    Ok(Response::new().add_attribute("blocked", if flag { "true" } else { "false" }))
}

/// What a blocklist edit returns and leaves: the entry of `address` is set where
/// the caller is the mint authority and the host accepts the address; else the
/// ledger stays as it was.
pub open spec fn blocklist_edit(pre: Ledger, sound: bool, caller: Seq<char>, address: Seq<char>, flag: bool, r: Result<Response, ContractError>, post: Ledger) -> bool {
    match r {
        Ok(resp) => {
            &&& pre.can_manage(caller, address)
            &&& post == pre.with_blocked(address, flag)
            &&& resp.events() == blocklist_events(flag)
            &&& resp.dispatches().len() == 0
        },
        Err(e) => {
            &&& post == pre
            &&& sound ==> !pre.can_manage(caller, address)
            &&& e.kind() == pre.manage_refusal(caller)
            &&& pre.token is Some && !pre.is_authority(caller) ==> e == (ContractError::Unauthorized {})
        },
    }
}

pub fn try_add_to_blocklist(deps: &mut DepsMut<'_>, info: MessageInfo, address: String) -> (r: Result<Response, ContractError>)
    ensures
        blocklist_edit(ledger_mut(*old(deps)), well_typed_mut(*old(deps)), info.sender@, address@, true, r, ledger_mut(*final(deps))),
        well_typed_mut(*old(deps)) ==> well_typed_mut(*final(deps)),
        !ledger_mut(*old(deps)).can_manage(info.sender@, address@) ==> *final(deps) == *old(deps),
{
    set_blocked(deps, info, address, true)
}

pub fn try_remove_from_blocklist(deps: &mut DepsMut<'_>, info: MessageInfo, address: String) -> (r: Result<Response, ContractError>)
    ensures
        blocklist_edit(ledger_mut(*old(deps)), well_typed_mut(*old(deps)), info.sender@, address@, false, r, ledger_mut(*final(deps))),
        well_typed_mut(*old(deps)) ==> well_typed_mut(*final(deps)),
        !ledger_mut(*old(deps)).can_manage(info.sender@, address@) ==> *final(deps) == *old(deps),
{
    set_blocked(deps, info, address, false)
}

/// What `update_minter` returns and leaves: `address` becomes the mint
/// authority, under the cap that was on record, where the caller is the mint
/// authority and the host accepts the address; else the ledger stays as it was.
pub open spec fn minter_update(pre: Ledger, sound: bool, caller: Seq<char>, address: Seq<char>, r: Result<Response, ContractError>, post: Ledger) -> bool {
    match r {
        Ok(resp) => {
            &&& pre.can_manage(caller, address)
            &&& post == pre.with_minter(address)
            &&& resp.events() == seq![("method"@, "update_minter"@)]
            &&& resp.dispatches().len() == 0
        },
        Err(e) => {
            &&& post == pre
            &&& sound ==> !pre.can_manage(caller, address)
            &&& e.kind() == pre.manage_refusal(caller)
            &&& pre.token is Some && !pre.is_authority(caller) ==> e == (ContractError::Unauthorized {})
        },
    }
}

pub fn update_minter(deps: &mut DepsMut<'_>, info: MessageInfo, address: String) -> (r: Result<Response, ContractError>)
    ensures
        minter_update(ledger_mut(*old(deps)), well_typed_mut(*old(deps)), info.sender@, address@, r, ledger_mut(*final(deps))),
        well_typed_mut(*old(deps)) ==> well_typed_mut(*final(deps)),
        !ledger_mut(*old(deps)).can_manage(info.sender@, address@) ==> *final(deps) == *old(deps),
{
    let config = match authorize(as_reader(deps), &info.sender) {
        Ok(config) => config,
        Err(e) => {
            return Err(e);
        },
    };
    let new_minter = match validate_address(as_reader(deps), address.as_str()) {
        Ok(a) => a,
        Err(e) => {
            return Err(ContractError::Std(e));
        },
    };
    let cap = match &config.mint {
        Some(m) => m.cap,
        None => None,
    };
    let state = TokenInfo {
        name: config.name,
        symbol: config.symbol,
        decimals: config.decimals,
        total_supply: config.total_supply,
        mint: Some(MinterData { minter: new_minter, cap }),
    };
    match save_token(deps, &state) {
        Ok(()) => {},
        Err(e) => {
            return Err(ContractError::Std(e));
        },
    }
    Ok(Response::new().add_attribute("method", "update_minter"))
}

/// What `destroy_blocked_funds` returns and leaves: the balance of `address` is
/// set to zero and taken off the total supply. Where it fails, the ledger is as
/// it was, or only the balance is gone, for the host to discard.
pub open spec fn destruction(pre: Ledger, sound: bool, caller: Seq<char>, address: Seq<char>, r: Result<Response, ContractError>, post: Ledger) -> bool {
    match r {
        Ok(resp) => {
            &&& pre.can_destroy(address)
            &&& post == pre.destroyed(address)
            &&& resp.events() == destroy_events(address, caller, pre.balance(address))
            &&& resp.dispatches().len() == 0
        },
        Err(e) => {
            &&& e.kind() == ErrorKind::Std
            &&& sound ==> !pre.can_destroy(address)
            &&& post == pre || (post == pre.with_balance(address, 0) && pre.addresses.contains(address))
        },
    }
}

/// Destroys all funds at `address`. Whether the caller may, and whether the
/// address is blocked, is for `execute` to check first.
pub fn destroy_blocked_funds(deps: &mut DepsMut<'_>, info: MessageInfo, address: String) -> (r: Result<Response, ContractError>)
    ensures
        destruction(ledger_mut(*old(deps)), well_typed_mut(*old(deps)), info.sender@, address@, r, ledger_mut(*final(deps))),
        well_typed_mut(*old(deps)) ==> well_typed_mut(*final(deps)),
{
    let address_to_check = match validate_address(as_reader(deps), address.as_str()) {
        Ok(a) => a,
        Err(e) => {
            return Err(ContractError::Std(e));
        },
    };
    let balance: u128 = match load_balance(as_reader(deps), address_to_check.as_str()) {
        Ok(Some(amount)) => amount,
        Ok(None) => 0,
        Err(e) => {
            return Err(ContractError::Std(e));
        },
    };
    let amount: u128 = balance;

    // lower balance
    let lowered: u128 = match checked_sub(balance, amount) {
        Ok(v) => v,
        Err(e) => {
            return Err(ContractError::Std(e));
        },
    };
    match save_balance(deps, address_to_check.as_str(), lowered) {
        Ok(()) => {},
        Err(e) => {
            return Err(ContractError::Std(e));
        },
    }

    // reduce total_supply
    let meta = match load_token(as_reader(deps)) {
        Ok(meta) => meta,
        Err(e) => {
            return Err(ContractError::Std(e));
        },
    };
    let supply: u128 = match checked_sub(meta.total_supply, amount) {
        Ok(v) => v,
        Err(e) => {
            return Err(ContractError::Std(e));
        },
    };
    let reduced = TokenInfo {
        name: meta.name,
        symbol: meta.symbol,
        decimals: meta.decimals,
        total_supply: supply,
        mint: meta.mint,
    };
    match save_token(deps, &reduced) {
        Ok(()) => {},
        Err(e) => {
            return Err(ContractError::Std(e));
        },
    }

    let shown = amount_text(amount);
    let res = Response::new()
        .add_attribute("action", "destroy_blocked_funds")
        .add_attribute("from", address_to_check.as_str())
        .add_attribute("by", info.sender.as_str())
        .add_attribute("amount", shown.as_str());
    proof {
        let pre = ledger_mut(*old(deps));
        assert(res.events() =~= destroy_events(address@, info.sender@, pre.balance(address@)));
        assert(reduced@ == (TokenView { total_supply: supply, ..meta@ }));
        assert(ledger_mut(*deps) =~= pre.destroyed(address@));
    }
    Ok(res)
}

/// The name that the store records for this contract.
pub const CONTRACT_NAME: &'static str = "crates.io:cw20-blocklist";

/// The version that the store records for this contract.
pub const CONTRACT_VERSION: &'static str = "0.1.0";

/// Sets the token up, where its name, symbol and decimal places are within
/// bounds: nothing in circulation, the sender as mint authority, no cap. The
/// balances, allowances and blocklist stay as they are. A message out of bounds
/// is refused with the error of `validate`, and nothing is written.
pub fn instantiate(deps: &mut DepsMut<'_>, _env: Env, info: MessageInfo, msg: InstantiateMsg) -> (r: Result<Response, ContractError>)
    ensures
        r matches Ok(resp) ==> {
            &&& msg.validation() is Ok
            &&& ledger_mut(*final(deps)) == ledger_mut(*old(deps)).instantiated(info.sender@, msg.name@, msg.symbol@, msg.decimals)
            &&& resp.events().len() == 0
            &&& resp.dispatches().len() == 0
        },
        r matches Err(e) ==> e.kind() == ErrorKind::Std && ledger_mut(*final(deps)) == ledger_mut(*old(deps)),
        msg.validation() matches Err(refusal) ==> r == Err::<Response, ContractError>(ContractError::Std(refusal)) && *final(deps)
            == *old(deps),
        msg.validation() is Ok && well_typed_mut(*old(deps)) ==> r is Ok,
        well_typed_mut(*old(deps)) ==> well_typed_mut(*final(deps)),
{
    match msg.validate() {
        Ok(()) => {},
        Err(e) => {
            return Err(ContractError::Std(e));
        },
    }
    match set_version(deps, CONTRACT_NAME, CONTRACT_VERSION) {
        Ok(()) => {},
        Err(e) => {
            return Err(ContractError::Std(e));
        },
    }

    // store token info using cw20-base format
    let data = TokenInfo {
        name: msg.name,
        symbol: msg.symbol,
        decimals: msg.decimals,
        total_supply: 0,
        mint: Some(MinterData { minter: info.sender, cap: None }),
    };
    match save_token(deps, &data) {
        Ok(()) => {},
        Err(e) => {
            return Err(ContractError::Std(e));
        },
    }

    Ok(Response::new())
}

/// A migration changes nothing.
pub fn migrate(deps: &mut DepsMut<'_>, _env: Env, _msg: MigrateMsg) -> (r: Result<Response, StdError>)
    ensures
        r matches Ok(resp) && resp.events().len() == 0 && resp.dispatches().len() == 0,
        *final(deps) == *old(deps),
{
    Ok(Response::new())
}

/// What an operation returns and leaves that `cw20-base` carries out once the
/// guard has let it pass. Where it goes through, the ledger is `after` and the
/// response holds `events` and the one call `sent`, if any. Where it fails in a
/// well-typed store, it was not `allowed`, fails with `refusal` and leaves the
/// ledger `left`. A failure that is no host error leaves the ledger as it was
/// in any store.
pub open spec fn carried_out(
    pre: Ledger,
    sound: bool,
    allowed: bool,
    refusal: ErrorKind,
    left: Ledger,
    after: Ledger,
    events: Seq<(Seq<char>, Seq<char>)>,
    sent: Option<DispatchView>,
    r: Result<Response, ContractError>,
    post: Ledger,
) -> bool {
    match r {
        Ok(resp) => {
            &&& allowed
            &&& post == after
            &&& resp.events() == events
            &&& match sent {
                Some(call) => resp.dispatches().len() == 1 && resp.dispatches()[0] == call,
                None => resp.dispatches().len() == 0,
            }
        },
        Err(e) => {
            &&& sound ==> !allowed && e.kind() == refusal && post == left
            &&& e.kind() != ErrorKind::Std ==> post == pre
        },
    }
}

/// The guard that keeps a blocked address from moving funds: `Blocked`, and the
/// ledger as it was.
pub open spec fn kept_blocked(pre: Ledger, r: Result<Response, ContractError>, post: Ledger) -> bool {
    r == Err::<Response, ContractError>(ContractError::Blocked {}) && post == pre
}

/// The guard that keeps everyone but the mint authority out: `Unauthorized`, or
/// a host error where no token record can be read, and the ledger as it was.
pub open spec fn kept_out(pre: Ledger, r: Result<Response, ContractError>, post: Ledger) -> bool {
    &&& post == pre
    &&& r matches Err(e)
    &&& e.kind() == pre.authority_refusal()
    &&& pre.token is Some ==> e == (ContractError::Unauthorized {})
}

/// Whether a guard of the ledger refuses the operation before anything is
/// handed to `cw20-base` or written: the funds would leave a blocked address,
/// the caller of an operation of the mint authority is not the authority, or
/// the funds to destroy are at an address that is not blocked.
pub open spec fn refused_by_guard(pre: Ledger, sender: Seq<char>, msg: ExecuteMsg) -> bool {
    match msg {
        ExecuteMsg::AddToBlockedList { address } => !pre.is_authority(sender),
        ExecuteMsg::RemoveFromBlockedList { address } => !pre.is_authority(sender),
        ExecuteMsg::UpdateMinter { address } => !pre.is_authority(sender),
        ExecuteMsg::Mint { recipient, amount } => !pre.is_authority(sender),
        ExecuteMsg::Redeem { amount } => !pre.is_authority(sender),
        ExecuteMsg::DestroyBlockedFunds { address } => !pre.is_authority(sender) || !pre.is_blocked(address@),
        ExecuteMsg::Transfer { recipient, amount } => pre.is_blocked(sender),
        ExecuteMsg::Send { contract, amount, msg } => pre.is_blocked(sender),
        ExecuteMsg::TransferFrom { owner, recipient, amount } => pre.is_blocked(owner@),
        ExecuteMsg::SendFrom { owner, contract, amount, msg } => pre.is_blocked(owner@),
        _ => false,
    }
}

/// The call that a send leaves for the host: the receiving contract gets the
/// receive message.
pub open spec fn receive_call(contract: Seq<char>, sender: Seq<char>, amount: u128, msg: Seq<u8>) -> Option<DispatchView> {
    Some(DispatchView::Call { contract: contract, payload: receive_payload(sender, amount, msg) })
}

/// What `execute` returns and leaves, operation by operation.
pub open spec fn executed(
    pre: Ledger,
    sound: bool,
    env: Env,
    sender: Seq<char>,
    msg: ExecuteMsg,
    r: Result<Response, ContractError>,
    post: Ledger,
) -> bool {
    match msg {
        ExecuteMsg::AddToBlockedList { address } => blocklist_edit(pre, sound, sender, address@, true, r, post),
        ExecuteMsg::RemoveFromBlockedList { address } => blocklist_edit(pre, sound, sender, address@, false, r, post),
        ExecuteMsg::UpdateMinter { address } => minter_update(pre, sound, sender, address@, r, post),
        ExecuteMsg::Mint { recipient, amount } => if !pre.is_authority(sender) {
            kept_out(pre, r, post)
        } else {
            carried_out(
                pre,
                sound,
                pre.can_mint(sender, recipient@, amount),
                pre.mint_refusal(sender, amount),
                pre.mint_failure(sender, amount),
                pre.minted(recipient@, amount),
                events_one("mint"@, "to"@, recipient@, amount),
                None,
                r,
                post,
            )
        },
        ExecuteMsg::Transfer { recipient, amount } => if pre.is_blocked(sender) {
            kept_blocked(pre, r, post)
        } else {
            carried_out(
                pre,
                sound,
                pre.can_transfer(sender, recipient@, amount),
                pre.transfer_refusal(amount),
                pre,
                pre.moved(sender, recipient@, amount),
                events_two("transfer"@, ("from"@, sender), ("to"@, recipient@), amount),
                None,
                r,
                post,
            )
        },
        ExecuteMsg::Redeem { amount } => if !pre.is_authority(sender) {
            kept_out(pre, r, post)
        } else {
            carried_out(
                pre,
                sound,
                pre.can_burn(sender, amount),
                pre.transfer_refusal(amount),
                pre.burn_failure(sender, amount),
                pre.burned(sender, amount),
                events_one("burn"@, "from"@, sender, amount),
                None,
                r,
                post,
            )
        },
        ExecuteMsg::Send { contract, amount, msg } => if pre.is_blocked(sender) {
            kept_blocked(pre, r, post)
        } else {
            carried_out(
                pre,
                sound,
                pre.can_transfer(sender, contract@, amount),
                pre.transfer_refusal(amount),
                pre,
                pre.moved(sender, contract@, amount),
                events_two("send"@, ("from"@, sender), ("to"@, contract@), amount),
                receive_call(contract@, sender, amount, msg@),
                r,
                post,
            )
        },
        ExecuteMsg::IncreaseAllowance { spender, amount, expires } => carried_out(
            pre,
            sound,
            pre.can_set_allowance(sender, spender@),
            pre.allowance_refusal(sender, spender@),
            pre,
            pre.increased(sender, spender@, amount, expires),
            events_two("increase_allowance"@, ("owner"@, sender), ("spender"@, spender@), amount),
            None,
            r,
            post,
        ),
        ExecuteMsg::DecreaseAllowance { spender, amount, expires } => carried_out(
            pre,
            sound,
            pre.can_set_allowance(sender, spender@) && pre.allowances.contains_key((sender, spender@)),
            pre.allowance_refusal(sender, spender@),
            pre,
            pre.decreased(sender, spender@, amount, expires),
            events_two("decrease_allowance"@, ("owner"@, sender), ("spender"@, spender@), amount),
            None,
            r,
            post,
        ),
        ExecuteMsg::TransferFrom { owner, recipient, amount } => if pre.is_blocked(owner@) {
            kept_blocked(pre, r, post)
        } else {
            carried_out(
                pre,
                sound,
                pre.can_transfer_from(owner@, sender, recipient@, amount, env.height, env.time),
                pre.transfer_from_refusal(owner@, sender, recipient@, env.height, env.time),
                pre.transfer_from_failure(owner@, sender, recipient@, amount, env.height, env.time),
                pre.moved_from(owner@, sender, recipient@, amount),
                events_from("transfer_from"@, owner@, recipient@, sender, amount),
                None,
                r,
                post,
            )
        },
        ExecuteMsg::DestroyBlockedFunds { address } => if !pre.is_authority(sender) {
            kept_out(pre, r, post)
        } else if !pre.is_blocked(address@) {
            r == Err::<Response, ContractError>(ContractError::NotBlocked {}) && post == pre
        } else {
            destruction(pre, sound, sender, address@, r, post)
        },
        ExecuteMsg::SendFrom { owner, contract, amount, msg } => if pre.is_blocked(owner@) {
            kept_blocked(pre, r, post)
        } else {
            carried_out(
                pre,
                sound,
                pre.can_transfer_from(owner@, sender, contract@, amount, env.height, env.time),
                pre.transfer_from_refusal(owner@, sender, contract@, env.height, env.time),
                pre.transfer_from_failure(owner@, sender, contract@, amount, env.height, env.time),
                pre.moved_from(owner@, sender, contract@, amount),
                events_from("send_from"@, owner@, contract@, sender, amount),
                receive_call(contract@, sender, amount, msg@),
                r,
                post,
            )
        },
    }
}

/// The bounds within which `cw20-base` carries out an operation that the guard
/// lets pass: where the operation gets as far as adding, no balance, supply or
/// allowance grows past what 128 bits hold, and where it gets as far as an
/// allowance, the owner fits a store key.
pub open spec fn within_limits(pre: Ledger, env: Env, sender: Seq<char>, msg: ExecuteMsg) -> bool {
    match msg {
        ExecuteMsg::Mint { recipient, amount } => pre.is_authority(sender) ==> pre.mint_fits(sender, recipient@, amount),
        ExecuteMsg::Transfer { recipient, amount } => !pre.is_blocked(sender) ==> pre.transfer_fits(sender, recipient@, amount),
        ExecuteMsg::Send { contract, amount, msg } => !pre.is_blocked(sender) ==> pre.transfer_fits(sender, contract@, amount),
        ExecuteMsg::IncreaseAllowance { spender, amount, expires } => pre.increase_fits(sender, spender@, amount),
        ExecuteMsg::DecreaseAllowance { spender, amount, expires } => pre.decrease_fits(sender, spender@),
        ExecuteMsg::TransferFrom { owner, recipient, amount } => !pre.is_blocked(owner@) ==> pre.transfer_from_fits(
            owner@,
            sender,
            recipient@,
            amount,
            env.height,
            env.time,
        ),
        ExecuteMsg::SendFrom { owner, contract, amount, msg } => !pre.is_blocked(owner@) ==> pre.transfer_from_fits(
            owner@,
            sender,
            contract@,
            amount,
            env.height,
            env.time,
        ),
        _ => true,
    }
}

/// Turns what `cw20-base` returned into the ledger's result.
fn finish(r: Result<Response, cw20_base::ContractError>) -> (out: Result<Response, ContractError>)
    ensures
        r matches Ok(resp) ==> out == Ok::<Response, ContractError>(resp),
        r matches Err(e) ==> out matches Err(f) && f.kind() == crate::error::base_failure(e).kind(),
{
    match r {
        Ok(resp) => Ok(resp),
        Err(e) => Err(ContractError::from(e)),
    }
}

/// Carries one operation out on the ledger.
pub fn execute(deps: &mut DepsMut<'_>, env: Env, info: MessageInfo, msg: ExecuteMsg) -> (r: Result<Response, ContractError>)
    requires
        within_limits(ledger_mut(*old(deps)), env, info.sender@, msg),
    ensures
        executed(ledger_mut(*old(deps)), well_typed_mut(*old(deps)), env, info.sender@, msg, r, ledger_mut(*final(deps))),
        well_typed_mut(*old(deps)) ==> well_typed_mut(*final(deps)),
        refused_by_guard(ledger_mut(*old(deps)), info.sender@, msg) ==> r is Err && *final(deps) == *old(deps),
{
    match msg {
        ExecuteMsg::AddToBlockedList { address } => try_add_to_blocklist(deps, info, address),
        ExecuteMsg::RemoveFromBlockedList { address } => try_remove_from_blocklist(deps, info, address),
        ExecuteMsg::UpdateMinter { address } => update_minter(deps, info, address),
        ExecuteMsg::Mint { recipient, amount } => {
            match authorize(as_reader(deps), &info.sender) {
                Ok(_) => {},
                Err(e) => {
                    return Err(e);
                },
            }
            finish(base_mint(deps, &env, &info, recipient.as_str(), amount))
        },
        ExecuteMsg::Transfer { recipient, amount } => {
            if is_blocked(as_reader(deps), info.sender.clone()).unwrap_or(false) {
                return Err(ContractError::Blocked {});
            }
            finish(base_transfer(deps, &env, &info, recipient.as_str(), amount))
        },
        ExecuteMsg::Redeem { amount } => {
            match authorize(as_reader(deps), &info.sender) {
                Ok(_) => {},
                Err(e) => {
                    return Err(e);
                },
            }
            finish(base_burn(deps, &env, &info, amount))
        },
        ExecuteMsg::Send { contract, amount, msg } => {
            if is_blocked(as_reader(deps), info.sender.clone()).unwrap_or(false) {
                return Err(ContractError::Blocked {});
            }
            finish(base_send(deps, &env, &info, contract.as_str(), amount, msg))
        },
        ExecuteMsg::IncreaseAllowance { spender, amount, expires } => finish(
            base_increase_allowance(deps, &env, &info, spender.as_str(), amount, expires),
        ),
        ExecuteMsg::DecreaseAllowance { spender, amount, expires } => finish(
            base_decrease_allowance(deps, &env, &info, spender.as_str(), amount, expires),
        ),
        ExecuteMsg::TransferFrom { owner, recipient, amount } => {
            if is_blocked(as_reader(deps), owner.clone()).unwrap_or(false) {
                return Err(ContractError::Blocked {});
            }
            finish(base_transfer_from(deps, &env, &info, owner.as_str(), recipient.as_str(), amount))
        },
        ExecuteMsg::DestroyBlockedFunds { address } => {
            match authorize(as_reader(deps), &info.sender) {
                Ok(_) => {},
                Err(e) => {
                    return Err(e);
                },
            }
            if !is_blocked(as_reader(deps), address.clone()).unwrap_or(false) {
                return Err(ContractError::NotBlocked {});
            }
            destroy_blocked_funds(deps, info, address)
        },
        ExecuteMsg::SendFrom { owner, contract, amount, msg } => {
            if is_blocked(as_reader(deps), owner.clone()).unwrap_or(false) {
                return Err(ContractError::Blocked {});
            }
            finish(base_send_from(deps, &env, &info, owner.as_str(), contract.as_str(), amount, msg))
        },
    }
}

/// The balance on record for an address, zero where none can be read.
fn balance_at(deps: Deps<'_>, address: &str) -> (balance: u128)
    ensures
        balance == ledger(deps).balance(address@),
{
    match load_balance(deps, address) {
        Ok(Some(amount)) => amount,
        Ok(None) => 0,
        Err(_) => 0,
    }
}

/// Whether the host accepts a string as an address.
fn accepts(deps: Deps<'_>, address: &str) -> (ok: bool)
    ensures
        ok == ledger(deps).addresses.contains(address@),
{
    validate_address(deps, address).is_ok()
}

/// Whether the balance of `to` can grow by `amount` within 128 bits.
fn holds_more(deps: Deps<'_>, to: &str, amount: u128) -> (ok: bool)
    ensures
        ok == ledger(deps).holds_more(to@, amount),
{
    amount <= u128::MAX - balance_at(deps, to)
}

/// Whether a string fits the two-byte length prefix of a store key.
fn is_short(s: &str) -> (ok: bool)
    ensures
        ok == short(s@),
{
    s.as_bytes().len() <= 0xFFFF
}

/// The allowance on record for an owner and a spender, if one can be read.
fn allowance_at(deps: Deps<'_>, owner: &str, spender: &str) -> (a: Option<Allowance>)
    requires
        short(owner@),
    ensures
        a == ledger(deps).allowances.get((owner@, spender@)),
{
    match load_allowance(deps, owner, spender) {
        Ok(a) => a,
        Err(_) => None,
    }
}

/// Whether an allowance has ended in a block of this height and time.
fn is_expired(expires: Expiration, height: u64, time: u64) -> (ended: bool)
    ensures
        ended == expires.is_expired(height, time),
{
    match expires {
        Expiration::AtHeight(h) => height >= h,
        Expiration::AtTime(t) => time >= t,
        Expiration::Never {} => false,
    }
}

fn transfer_fits(deps: Deps<'_>, from: &String, to: &String, amount: u128) -> (ok: bool)
    ensures
        ok == ledger(deps).transfer_fits(from@, to@, amount),
{
    if amount == 0 || *to == *from || !accepts(deps, to.as_str()) || balance_at(deps, from.as_str()) < amount {
        return true;
    }
    holds_more(deps, to.as_str(), amount)
}

fn mint_fits(deps: Deps<'_>, caller: &String, to: &String, amount: u128) -> (ok: bool)
    ensures
        ok == (ledger(deps).is_authority(caller@) ==> ledger(deps).mint_fits(caller@, to@, amount)),
{
    let config = match authorize(deps, caller) {
        Ok(config) => config,
        Err(_) => {
            return true;
        },
    };
    if amount == 0 {
        return true;
    }
    if amount > u128::MAX - config.total_supply {
        return false;
    }
    let raised: u128 = config.total_supply + amount;
    let under_cap = match &config.mint {
        Some(m) => match m.cap {
            Some(limit) => raised <= limit,
            None => true,
        },
        None => true,
    };
    if !under_cap || !accepts(deps, to.as_str()) {
        return true;
    }
    holds_more(deps, to.as_str(), amount)
}

fn sets_allowance(deps: Deps<'_>, owner: &String, spender: &String) -> (ok: bool)
    ensures
        ok == ledger(deps).can_set_allowance(owner@, spender@),
{
    accepts(deps, spender.as_str()) && !(*spender == *owner)
}

fn increase_fits(deps: Deps<'_>, owner: &String, spender: &String, amount: u128) -> (ok: bool)
    ensures
        ok == ledger(deps).increase_fits(owner@, spender@, amount),
{
    if !sets_allowance(deps, owner, spender) {
        return true;
    }
    if !is_short(owner.as_str()) {
        return false;
    }
    let current: u128 = match allowance_at(deps, owner.as_str(), spender.as_str()) {
        Some(a) => a.allowance,
        None => 0,
    };
    amount <= u128::MAX - current
}

fn transfer_from_fits(deps: Deps<'_>, env: &Env, owner: &String, spender: &String, to: &String, amount: u128) -> (ok: bool)
    ensures
        ok == ledger(deps).transfer_from_fits(owner@, spender@, to@, amount, env.height, env.time),
{
    if !accepts(deps, to.as_str()) || !accepts(deps, owner.as_str()) {
        return true;
    }
    if !is_short(owner.as_str()) {
        return false;
    }
    let spendable = match allowance_at(deps, owner.as_str(), spender.as_str()) {
        Some(a) => !is_expired(a.expires, env.height, env.time) && a.allowance >= amount,
        None => false,
    };
    if !spendable || *to == *owner || balance_at(deps, owner.as_str()) < amount {
        return true;
    }
    holds_more(deps, to.as_str(), amount)
}

/// Whether an operation stays within the bounds of `within_limits`.
fn fits(deps: Deps<'_>, env: &Env, info: &MessageInfo, msg: &ExecuteMsg) -> (ok: bool)
    ensures
        ok == within_limits(ledger(deps), *env, info.sender@, *msg),
{
    match msg {
        ExecuteMsg::Mint { recipient, amount } => mint_fits(deps, &info.sender, recipient, *amount),
        ExecuteMsg::Transfer { recipient, amount } => is_blocked(deps, info.sender.clone()).unwrap_or(false) || transfer_fits(
            deps,
            &info.sender,
            recipient,
            *amount,
        ),
        ExecuteMsg::Send { contract, amount, msg } => is_blocked(deps, info.sender.clone()).unwrap_or(false) || transfer_fits(
            deps,
            &info.sender,
            contract,
            *amount,
        ),
        ExecuteMsg::IncreaseAllowance { spender, amount, expires } => increase_fits(deps, &info.sender, spender, *amount),
        ExecuteMsg::DecreaseAllowance { spender, amount, expires } => !sets_allowance(deps, &info.sender, spender) || is_short(
            info.sender.as_str(),
        ),
        ExecuteMsg::TransferFrom { owner, recipient, amount } => is_blocked(deps, owner.clone()).unwrap_or(false)
            || transfer_from_fits(deps, env, owner, &info.sender, recipient, *amount),
        ExecuteMsg::SendFrom { owner, contract, amount, msg } => is_blocked(deps, owner.clone()).unwrap_or(false)
            || transfer_from_fits(deps, env, owner, &info.sender, contract, *amount),
        _ => true,
    }
}

/// Carries one operation out on the ledger where it stays within the bounds of
/// `within_limits`, and hands back `None`, with the ledger untouched, where it
/// does not.
pub fn try_execute(deps: &mut DepsMut<'_>, env: Env, info: MessageInfo, msg: ExecuteMsg) -> (r: Option<Result<Response, ContractError>>)
    ensures
        r is Some <==> within_limits(ledger_mut(*old(deps)), env, info.sender@, msg),
        r matches Some(done) ==> {
            &&& executed(ledger_mut(*old(deps)), well_typed_mut(*old(deps)), env, info.sender@, msg, done, ledger_mut(*final(deps)))
            &&& refused_by_guard(ledger_mut(*old(deps)), info.sender@, msg) ==> done is Err && *final(deps) == *old(deps)
        },
        r is None ==> *final(deps) == *old(deps),
        well_typed_mut(*old(deps)) ==> well_typed_mut(*final(deps)),
{
    if !fits(as_reader(deps), &env, &info, &msg) {
        return None;
    }
    Some(execute(deps, env, info, msg))
}

/// What `query` answers: whether an address is blocked always; a balance or an
/// allowance where the host accepts the addresses; the token's data where the
/// token is set up.
pub open spec fn answered(l: Ledger, sound: bool, msg: QueryMsg, r: Result<QueryResponse, StdError>) -> bool {
    match msg {
        QueryMsg::IsBlocked { address } => r matches Ok(QueryResponse::IsBlocked(b)) && b.blocked == l.is_blocked(address@),
        QueryMsg::TokenInfo {} => match r {
            Ok(answer) => {
                &&& answer matches QueryResponse::TokenInfo(t)
                &&& l.token matches Some(token)
                &&& t.name@ == token.name
                &&& t.symbol@ == token.symbol
                &&& t.decimals == token.decimals
                &&& t.total_supply == token.total_supply
            },
            Err(_) => l.token is None,
        },
        QueryMsg::Balance { address } => match r {
            Ok(answer) => {
                &&& answer matches QueryResponse::Balance(b)
                &&& l.addresses.contains(address@)
                &&& b.balance == l.balance(address@)
            },
            Err(_) => sound ==> !l.addresses.contains(address@),
        },
        QueryMsg::Allowance { owner, spender } => match r {
            Ok(answer) => {
                &&& answer matches QueryResponse::Allowance(a)
                &&& l.addresses.contains(owner@)
                &&& l.addresses.contains(spender@)
                &&& a == l.allowance(owner@, spender@)
            },
            Err(_) => sound ==> !(l.addresses.contains(owner@) && l.addresses.contains(spender@)),
        },
    }
}

/// Answers a question about the ledger.
pub fn query(deps: Deps<'_>, _env: Env, msg: QueryMsg) -> (r: Result<QueryResponse, StdError>)
    requires
        msg matches QueryMsg::Allowance { owner, spender } ==> ledger(deps).lookup_fits(owner@, spender@),
    ensures
        answered(ledger(deps), crate::store::well_typed(deps), msg, r),
{
    match msg {
        QueryMsg::IsBlocked { address } => match query_blocked(deps, address) {
            Ok(b) => Ok(QueryResponse::IsBlocked(b)),
            Err(e) => Err(e),
        },
        QueryMsg::TokenInfo {} => match base_query_token_info(deps) {
            Ok(t) => Ok(QueryResponse::TokenInfo(t)),
            Err(e) => Err(e),
        },
        QueryMsg::Balance { address } => match base_query_balance(deps, address.as_str()) {
            Ok(balance) => Ok(QueryResponse::Balance(BalanceResponse { balance })),
            Err(e) => Err(e),
        },
        QueryMsg::Allowance { owner, spender } => match base_query_allowance(deps, owner.as_str(), spender.as_str()) {
            Ok(a) => Ok(QueryResponse::Allowance(a)),
            Err(e) => Err(e),
        },
    }
}

/// Answers a question about the ledger, and hands back `None` where the host
/// accepts the owner and the spender of an allowance and the owner does not fit
/// a store key.
pub fn try_query(deps: Deps<'_>, env: Env, msg: QueryMsg) -> (r: Option<Result<QueryResponse, StdError>>)
    ensures
        r is None <==> (msg matches QueryMsg::Allowance { owner, spender } && !ledger(deps).lookup_fits(owner@, spender@)),
        r matches Some(answer) ==> answered(ledger(deps), crate::store::well_typed(deps), msg, answer),
{
    let fitting = match &msg {
        QueryMsg::Allowance { owner, spender } => !accepts(deps, owner.as_str()) || !accepts(deps, spender.as_str())
            || is_short(owner.as_str()),
        _ => true,
    };
    if !fitting {
        return None;
    }
    Some(query(deps, env, msg))
}

} // verus!
