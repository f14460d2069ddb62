//! The host's store and address validator, read and written through
//! `cw-storage-plus` under the keys that `cw20-base` uses.

use vstd::prelude::*;
use cosmwasm_std::Addr;
use cosmwasm_std::Deps;
use cosmwasm_std::DepsMut;
use cosmwasm_std::StdError;
use cosmwasm_std::Uint128;
use crate::ledger::Allowance;
use crate::ledger::Expiration;
use crate::ledger::Ledger;
use crate::ledger::MinterData;
use crate::ledger::TokenInfo;
use crate::ledger::TokenView;
use crate::ledger::short;

verus! {

/// The read-only handle that `DepsMut::as_ref` gives.
pub uninterp spec fn reader(deps: DepsMut<'_>) -> Deps<'_>;

/// The token record that the store holds under `token_info` and that reads as
/// one; `None` where there is none.
pub uninterp spec fn token_of(deps: Deps<'_>) -> Option<TokenView>;

/// The entries under `balance` that read as amounts, by address.
pub uninterp spec fn balances_of(deps: Deps<'_>) -> Map<Seq<char>, u128>;

/// The entries under `allowance` that read as allowances, by owner and spender.
pub uninterp spec fn allowances_of(deps: Deps<'_>) -> Map<(Seq<char>, Seq<char>), Allowance>;

/// The entries under `blocked` that read as flags, by address.
pub uninterp spec fn blocked_of(deps: Deps<'_>) -> Map<Seq<char>, bool>;

/// The strings that the host's address validator accepts.
pub uninterp spec fn addresses_of(deps: Deps<'_>) -> Set<Seq<char>>;

/// Whether every value that the store holds under the ledger's keys reads as
/// what belongs there, as it does in a store that only the ledger's operations
/// have written.
pub uninterp spec fn well_typed(deps: Deps<'_>) -> bool;

/// The ledger that a read-only handle shows.
pub open spec fn ledger(deps: Deps<'_>) -> Ledger {
    Ledger {
        token: token_of(deps),
        balances: balances_of(deps),
        allowances: allowances_of(deps),
        blocked: blocked_of(deps),
        addresses: addresses_of(deps),
    }
}

/// The ledger behind a handle that may write.
pub open spec fn ledger_mut(deps: DepsMut<'_>) -> Ledger {
    ledger(reader(deps))
}

/// Whether the store behind a handle that may write is well typed.
pub open spec fn well_typed_mut(deps: DepsMut<'_>) -> bool {
    well_typed(reader(deps))
}

/// `DepsMut::as_ref`: a read-only handle on the same store and address validator.
#[verifier::external_body]
pub(crate) fn as_reader<'a, 'b>(deps: &'b DepsMut<'a>) -> (r: Deps<'b>)
    ensures
        r == reader(*deps),
{
    deps.as_ref()
}

/// `Api::addr_validate`: accepts a string as an address, and then hands back the
/// same string. The strings that it accepts are `addresses_of`.
#[verifier::external_body]
pub(crate) fn validate_address(deps: Deps<'_>, input: &str) -> (r: Result<String, StdError>)
    ensures
        r is Ok <==> addresses_of(deps).contains(input@),
        r matches Ok(a) ==> a@ == input@,
{
    deps.api.addr_validate(input).map(|a| a.into_string())
}

/// `Map::may_load` under `blocked`: the flag on record for an address; an entry
/// that does not read as a flag gives an error.
#[verifier::external_body]
pub(crate) fn load_blocked(deps: Deps<'_>, address: &str) -> (r: Result<Option<bool>, StdError>)
    ensures
        r matches Ok(v) ==> v == blocked_of(deps).get(address@),
        r is Err ==> !blocked_of(deps).contains_key(address@),
{
    cw_storage_plus::Map::<&Addr, bool>::new("blocked").may_load(deps.storage, &Addr::unchecked(address))
}

/// `Map::save` under `blocked`: records the flag for an address and touches
/// nothing else; nothing is written where it fails. A flag can always be
/// written to a well-typed store, which stays well typed.
#[verifier::external_body]
pub(crate) fn save_blocked(deps: &mut DepsMut<'_>, address: &str, flag: bool) -> (r: Result<(), StdError>)
    ensures
        r is Ok ==> ledger_mut(*final(deps)) == ledger_mut(*old(deps)).with_blocked(address@, flag),
        r is Ok ==> blocked_of(reader(*final(deps))) == blocked_of(reader(*old(deps))).insert(address@, flag),
        r is Err ==> ledger_mut(*final(deps)) == ledger_mut(*old(deps)),
        well_typed_mut(*old(deps)) ==> r is Ok,
        well_typed_mut(*old(deps)) ==> well_typed(reader(*final(deps))),
{
    cw_storage_plus::Map::<&Addr, bool>::new("blocked").save(deps.storage, &Addr::unchecked(address), &flag)
}

/// `Map::may_load` under `balance`: the amount on record for an address; an
/// entry that does not read as an amount gives an error, and a well-typed store
/// has none.
#[verifier::external_body]
pub(crate) fn load_balance(deps: Deps<'_>, address: &str) -> (r: Result<Option<u128>, StdError>)
    ensures
        r matches Ok(v) ==> v == balances_of(deps).get(address@),
        r is Err ==> !balances_of(deps).contains_key(address@),
        well_typed(deps) ==> r is Ok,
{
    cw20_base::state::BALANCES.may_load(deps.storage, &Addr::unchecked(address)).map(|v| v.map(|u| u.u128()))
}

/// `Map::save` under `balance`: records the amount for an address and touches
/// nothing else; nothing is written where it fails. An amount can always be
/// written to a well-typed store, which stays well typed.
#[verifier::external_body]
pub(crate) fn save_balance(deps: &mut DepsMut<'_>, address: &str, amount: u128) -> (r: Result<(), StdError>)
    ensures
        r is Ok ==> ledger_mut(*final(deps)) == ledger_mut(*old(deps)).with_balance(address@, amount),
        r is Ok ==> balances_of(reader(*final(deps))) == balances_of(reader(*old(deps))).insert(address@, amount),
        r is Err ==> ledger_mut(*final(deps)) == ledger_mut(*old(deps)),
        well_typed_mut(*old(deps)) ==> r is Ok,
        well_typed_mut(*old(deps)) ==> well_typed(reader(*final(deps))),
{
    cw20_base::state::BALANCES.save(deps.storage, &Addr::unchecked(address), &Uint128::new(amount))
}

/// `Map::may_load` under `allowance`: the allowance on record for an owner and
/// a spender; an entry that does not read as an allowance gives an error. The
/// owner is part of the key and has to fit its length prefix.
#[verifier::external_body]
pub(crate) fn load_allowance(deps: Deps<'_>, owner: &str, spender: &str) -> (r: Result<Option<Allowance>, StdError>)
    requires
        short(owner@),
    ensures
        r matches Ok(v) ==> v == allowances_of(deps).get((owner@, spender@)),
        r is Err ==> !allowances_of(deps).contains_key((owner@, spender@)),
{
    cw20_base::state::ALLOWANCES.may_load(deps.storage, (&Addr::unchecked(owner), &Addr::unchecked(spender))).map(|v| v.map(|a| Allowance {
        allowance: a.allowance.u128(),
        expires: match a.expires {
            cw20::Expiration::AtHeight(h) => Expiration::AtHeight(h),
            cw20::Expiration::AtTime(t) => Expiration::AtTime(t.nanos()),
            cw20::Expiration::Never {} => Expiration::Never {},
        },
    }))
}

/// `Item::load` under `token_info`: the token record; an error where there is
/// none or it does not read as one.
#[verifier::external_body]
pub(crate) fn load_token(deps: Deps<'_>) -> (r: Result<TokenInfo, StdError>)
    ensures
        r matches Ok(t) ==> token_of(deps) == Some(t@),
        r is Err ==> token_of(deps) is None,
{
    cw20_base::state::TOKEN_INFO.load(deps.storage).map(|t| TokenInfo {
        name: t.name,
        symbol: t.symbol,
        decimals: t.decimals,
        total_supply: t.total_supply.u128(),
        mint: t.mint.map(|m| MinterData { minter: m.minter.into_string(), cap: m.cap.map(|c| c.u128()) }),
    })
}

/// `Item::save` under `token_info`: records the token and touches nothing else;
/// nothing is written where it fails. A token can always be written to a
/// well-typed store, which stays well typed.
#[verifier::external_body]
pub(crate) fn save_token(deps: &mut DepsMut<'_>, token: &TokenInfo) -> (r: Result<(), StdError>)
    ensures
        r is Ok ==> ledger_mut(*final(deps)) == ledger_mut(*old(deps)).with_token(token@),
        r is Ok ==> token_of(reader(*final(deps))) == Some(token@),
        r is Err ==> ledger_mut(*final(deps)) == ledger_mut(*old(deps)),
        well_typed_mut(*old(deps)) ==> r is Ok,
        well_typed_mut(*old(deps)) ==> well_typed(reader(*final(deps))),
{
    cw20_base::state::TOKEN_INFO.save(deps.storage, &cw20_base::state::TokenInfo {
        name: token.name.clone(),
        symbol: token.symbol.clone(),
        decimals: token.decimals,
        total_supply: Uint128::new(token.total_supply),
        mint: token.mint.as_ref().map(|m| cw20_base::state::MinterData {
            minter: Addr::unchecked(m.minter.clone()),
            cap: m.cap.map(Uint128::new),
        }),
    })
}

/// `cw2::set_contract_version`: records the contract's name and version under
/// a key of their own; the ledger stays as it is. They can always be written
/// to a well-typed store, which stays well typed.
#[verifier::external_body]
pub(crate) fn set_version(deps: &mut DepsMut<'_>, name: &str, version: &str) -> (r: Result<(), StdError>)
    ensures
        ledger_mut(*final(deps)) == ledger_mut(*old(deps)),
        well_typed_mut(*old(deps)) ==> well_typed(reader(*final(deps))),
        well_typed_mut(*old(deps)) ==> r is Ok,
{
    cw2::set_contract_version(deps.storage, name, version)
}

/// `Uint128::checked_sub`: the difference, or the host's overflow error where
/// `b` is more than `a`.
#[verifier::external_body]
pub(crate) fn checked_sub(a: u128, b: u128) -> (r: Result<u128, StdError>)
    ensures
        r matches Ok(v) ==> v == a - b,
        r is Ok <==> a >= b,
{
    Uint128::new(a).checked_sub(Uint128::new(b)).map(|v| v.u128()).map_err(StdError::from)
}

} // verus!
