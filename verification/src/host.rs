//! The host's types, and the plain values that stand for them in this crate.

use vstd::prelude::*;
use cosmwasm_std::Env as HostEnv;
use cosmwasm_std::MessageInfo as HostMessageInfo;

verus! {

/// `cosmwasm_std::DepsMut`: the handle on the store, the address validator and the
/// querier that the host lends to an operation that may write.
#[verifier::external_type_specification]
#[verifier::external_body]
pub struct ExDepsMut<'a>(cosmwasm_std::DepsMut<'a>);

/// `cosmwasm_std::Deps`: the read-only handle.
#[verifier::external_type_specification]
#[verifier::external_body]
pub struct ExDeps<'a>(cosmwasm_std::Deps<'a>);

/// `cosmwasm_std::StdError`, carried through as it came.
#[verifier::external_type_specification]
#[verifier::external_body]
pub struct ExStdError(cosmwasm_std::StdError);

/// `cosmwasm_std::Env`, built from [`Env`] for calls into `cw20-base`.
#[verifier::external_type_specification]
#[verifier::external_body]
pub struct ExHostEnv(HostEnv);

/// `cosmwasm_std::MessageInfo`, built from [`MessageInfo`] for calls into `cw20-base`.
#[verifier::external_type_specification]
#[verifier::external_body]
pub struct ExHostMessageInfo(HostMessageInfo);

/// The block and contract that an operation runs in.
#[derive(Debug, PartialEq, Eq, Clone)]
pub struct Env {
    pub height: u64,
    /// Block time in nanoseconds since the epoch.
    pub time: u64,
    pub chain_id: String,
    pub contract: String,
}

/// An amount of a native coin sent along with a message.
#[derive(Debug, PartialEq, Eq, Clone)]
pub struct Coin {
    pub denom: String,
    pub amount: u128,
}

/// Who sent a message, and the funds that came with it.
#[derive(Debug, PartialEq, Eq, Clone)]
pub struct MessageInfo {
    pub sender: String,
    pub funds: Vec<Coin>,
}

/// One key-value pair of an operation's event record.
#[derive(Debug, PartialEq, Eq, Clone)]
pub struct Attribute {
    pub key: String,
    pub value: String,
}

/// A follow-up action for the host.
#[derive(Debug, PartialEq, Eq, Clone)]
pub enum Dispatch {
    /// Call `contract` with `payload`, sending `funds` along.
    Execute { contract: String, payload: Vec<u8>, funds: Vec<Coin> },
    /// An action of another kind.
    Other,
}

/// What a successful operation hands back: its event record and the follow-up
/// actions, in order.
#[derive(Debug, PartialEq, Eq, Clone)]
pub struct Response {
    pub attributes: Vec<Attribute>,
    pub messages: Vec<Dispatch>,
}

/// A call of `contract` with `payload` and no funds, or an action of another kind.
pub enum DispatchView {
    Call { contract: Seq<char>, payload: Seq<u8> },
    Other,
}

impl View for Attribute {
    type V = (Seq<char>, Seq<char>);

    open spec fn view(&self) -> (Seq<char>, Seq<char>) {
        (self.key@, self.value@)
    }
}

impl View for Dispatch {
    type V = DispatchView;

    open spec fn view(&self) -> DispatchView {
        match self {
            Dispatch::Execute { contract, payload, funds } => if funds@.len() == 0 {
                DispatchView::Call { contract: contract@, payload: payload@ }
            } else {
                DispatchView::Other
            },
            Dispatch::Other => DispatchView::Other,
        }
    }
}

impl Response {
    /// The event record as pairs of key and value.
    pub open spec fn events(&self) -> Seq<(Seq<char>, Seq<char>)> {
        Seq::new(self.attributes@.len(), |i: int| self.attributes@[i]@)
    }

    /// The follow-up actions.
    pub open spec fn dispatches(&self) -> Seq<DispatchView> {
        Seq::new(self.messages@.len(), |i: int| self.messages@[i]@)
    }

    /// A response with no event and no follow-up action.
    pub fn new() -> (r: Response)
        ensures
            r.events() == Seq::<(Seq<char>, Seq<char>)>::empty(),
            r.dispatches() == Seq::<DispatchView>::empty(),
    {
        Response { attributes: Vec::new(), messages: Vec::new() }
    }

    /// Appends one pair to the event record.
    pub fn add_attribute(self, key: &str, value: &str) -> (r: Response)
        ensures
            r.events() == self.events().push((key@, value@)),
            r.dispatches() == self.dispatches(),
    {
        let mut next = self;
        next.attributes.push(Attribute { key: key.to_owned(), value: value.to_owned() });
        assert(next.events() =~= self.events().push((key@, value@)));
        assert(next.dispatches() =~= self.dispatches());
        next
    }
}

/// `cosmwasm_std::Response` as an operation of `cw20-base` returned it.
#[verifier::external_body]
pub(crate) struct HostResponse {
    pub(crate) inner: cosmwasm_std::Response,
}

/// The events and follow-up actions of a host response, each moved into its
/// plain form.
#[verifier::external_body]
pub(crate) fn plain_response(host: HostResponse) -> Response {
    Response {
        attributes: host.inner.attributes.into_iter().map(|a| Attribute { key: a.key, value: a.value }).collect(),
        messages: host.inner.messages.into_iter().map(|m| match m.msg {
            cosmwasm_std::CosmosMsg::Wasm(cosmwasm_std::WasmMsg::Execute { contract_addr, msg, funds }) => Dispatch::Execute {
                contract: contract_addr,
                payload: msg.0,
                funds: funds.into_iter().map(|c| Coin { denom: c.denom, amount: c.amount.u128() }).collect(),
            },
            _ => Dispatch::Other,
        }).collect(),
    }
}

/// The character of one decimal digit.
pub open spec fn digit(d: int) -> char {
    if d == 0 {
        '0'
    } else if d == 1 {
        '1'
    } else if d == 2 {
        '2'
    } else if d == 3 {
        '3'
    } else if d == 4 {
        '4'
    } else if d == 5 {
        '5'
    } else if d == 6 {
        '6'
    } else if d == 7 {
        '7'
    } else if d == 8 {
        '8'
    } else {
        '9'
    }
}

/// An amount in decimal digits, without leading zeros.
pub open spec fn decimal(amount: u128) -> Seq<char>
    decreases amount,
{
    if amount < 10 {
        seq![digit(amount as int)]
    } else {
        decimal((amount / 10) as u128).push(digit((amount % 10) as int))
    }
}

/// `Uint128::to_string`: the amount in decimal digits, without leading zeros.
#[verifier::external_body]
pub(crate) fn amount_text(amount: u128) -> (text: String)
    ensures
        text@ == decimal(amount),
{
    cosmwasm_std::Uint128::new(amount).to_string()
}

/// The error that `StdError::generic_err` makes of a message.
pub uninterp spec fn generic_error(msg: Seq<char>) -> cosmwasm_std::StdError;

/// `StdError::generic_err`: the generic error that carries `msg`.
#[verifier::external_body]
pub(crate) fn generic_err(msg: &str) -> (e: cosmwasm_std::StdError)
    ensures
        e == generic_error(msg@),
{
    cosmwasm_std::StdError::generic_err(msg)
}

/// The host's `Env` with the same block height, block time, chain id and
/// contract address.
#[verifier::external_body]
pub(crate) fn host_env(env: &Env) -> HostEnv {
    HostEnv {
        block: cosmwasm_std::BlockInfo {
            height: env.height,
            time: cosmwasm_std::Timestamp::from_nanos(env.time),
            chain_id: env.chain_id.clone(),
        },
        contract: cosmwasm_std::ContractInfo { address: cosmwasm_std::Addr::unchecked(env.contract.clone()) },
    }
}

/// The host's `MessageInfo` with the same sender and funds.
#[verifier::external_body]
pub(crate) fn host_info(info: &MessageInfo) -> HostMessageInfo {
    HostMessageInfo {
        sender: cosmwasm_std::Addr::unchecked(info.sender.clone()),
        funds: info.funds.iter().map(|c| cosmwasm_std::Coin::new(c.amount, c.denom.clone())).collect(),
    }
}

} // verus!
