//! The ledger as the contracts speak of it: the token record, the balances, the
//! allowances and the blocklist that the host's store holds, and the addresses
//! that the host accepts.

use vstd::prelude::*;
use crate::error::ErrorKind;

verus! {

/// When an allowance ends.
#[derive(Debug, PartialEq, Eq, Clone, Copy)]
pub enum Expiration {
    /// Ends once the block height has reached this height.
    AtHeight(u64),
    /// Ends once the block time, in nanoseconds, has reached this time.
    AtTime(u64),
    Never {},
}

impl Expiration {
    /// Whether the allowance has ended in a block of this height and time.
    pub open spec fn is_expired(self, height: u64, time: u64) -> bool {
        match self {
            Expiration::AtHeight(h) => height >= h,
            Expiration::AtTime(t) => time >= t,
            Expiration::Never {} => false,
        }
    }
}

/// What a spender may still take from an owner's balance, and until when.
#[derive(Debug, PartialEq, Eq, Clone, Copy)]
pub struct Allowance {
    pub allowance: u128,
    pub expires: Expiration,
}

/// Who may mint, and up to which total supply.
#[derive(Debug, PartialEq, Eq, Clone)]
pub struct MinterData {
    pub minter: String,
    pub cap: Option<u128>,
}

/// The token record.
#[derive(Debug, PartialEq, Eq, Clone)]
pub struct TokenInfo {
    pub name: String,
    pub symbol: String,
    pub decimals: u8,
    pub total_supply: u128,
    pub mint: Option<MinterData>,
}

pub struct MinterView {
    pub minter: Seq<char>,
    pub cap: Option<u128>,
}

pub struct TokenView {
    pub name: Seq<char>,
    pub symbol: Seq<char>,
    pub decimals: u8,
    pub total_supply: u128,
    pub mint: Option<MinterView>,
}

impl View for MinterData {
    type V = MinterView;

    open spec fn view(&self) -> MinterView {
        MinterView { minter: self.minter@, cap: self.cap }
    }
}

impl View for TokenInfo {
    type V = TokenView;

    open spec fn view(&self) -> TokenView {
        TokenView {
            name: self.name@,
            symbol: self.symbol@,
            decimals: self.decimals,
            total_supply: self.total_supply,
            mint: match self.mint {
                Some(m) => Some(m@),
                None => None,
            },
        }
    }
}

/// The state that every operation works on.
#[verifier::ext_equal]
pub struct Ledger {
    /// The token record; `None` before the token is set up.
    pub token: Option<TokenView>,
    /// The balances on record; an address without an entry holds nothing.
    pub balances: Map<Seq<char>, u128>,
    /// The allowances on record, by owner and spender.
    pub allowances: Map<(Seq<char>, Seq<char>), Allowance>,
    /// The blocklist; an address without an entry is not blocked.
    pub blocked: Map<Seq<char>, bool>,
    /// The strings that the host accepts as addresses.
    pub addresses: Set<Seq<char>>,
}

impl Ledger {
    pub open spec fn balance(self, address: Seq<char>) -> u128 {
        if self.balances.contains_key(address) {
            self.balances[address]
        } else {
            0
        }
    }

    pub open spec fn total_supply(self) -> u128 {
        match self.token {
            Some(t) => t.total_supply,
            None => 0,
        }
    }

    /// The mint authority, if the token has one.
    pub open spec fn authority(self) -> Option<Seq<char>> {
        match self.token {
            Some(t) => match t.mint {
                Some(m) => Some(m.minter),
                None => None,
            },
            None => None,
        }
    }

    /// The cap on the total supply, if the token has one.
    pub open spec fn cap(self) -> Option<u128> {
        match self.token {
            Some(t) => match t.mint {
                Some(m) => m.cap,
                None => None,
            },
            None => None,
        }
    }

    pub open spec fn is_authority(self, caller: Seq<char>) -> bool {
        self.authority() == Some(caller)
    }

    /// An address is blocked when the host accepts it and the blocklist holds
    /// `true` for it.
    pub open spec fn is_blocked(self, address: Seq<char>) -> bool {
        &&& self.addresses.contains(address)
        &&& self.blocked.contains_key(address)
        &&& self.blocked[address]
    }

    pub open spec fn allowance(self, owner: Seq<char>, spender: Seq<char>) -> Allowance {
        if self.allowances.contains_key((owner, spender)) {
            self.allowances[(owner, spender)]
        } else {
            Allowance { allowance: 0, expires: Expiration::Never {} }
        }
    }

    pub open spec fn with_balance(self, address: Seq<char>, amount: u128) -> Ledger {
        Ledger { balances: self.balances.insert(address, amount), ..self }
    }

    pub open spec fn with_total_supply(self, supply: u128) -> Ledger {
        match self.token {
            Some(t) => Ledger { token: Some(TokenView { total_supply: supply, ..t }), ..self },
            None => self,
        }
    }

    pub open spec fn with_blocked(self, address: Seq<char>, flag: bool) -> Ledger {
        Ledger { blocked: self.blocked.insert(address, flag), ..self }
    }

    pub open spec fn with_token(self, token: TokenView) -> Ledger {
        Ledger { token: Some(token), ..self }
    }

    /// `amount` taken from `from` and given to `to`.
    pub open spec fn moved(self, from: Seq<char>, to: Seq<char>, amount: u128) -> Ledger {
        let taken = self.with_balance(from, (self.balance(from) - amount) as u128);
        taken.with_balance(to, (taken.balance(to) + amount) as u128)
    }

    /// `amount` new units given to `to`.
    pub open spec fn minted(self, to: Seq<char>, amount: u128) -> Ledger {
        self.with_total_supply((self.total_supply() + amount) as u128).with_balance(
            to,
            (self.balance(to) + amount) as u128,
        )
    }

    /// `amount` units of `from` taken out of circulation.
    pub open spec fn burned(self, from: Seq<char>, amount: u128) -> Ledger {
        self.with_balance(from, (self.balance(from) - amount) as u128).with_total_supply(
            (self.total_supply() - amount) as u128,
        )
    }

    /// The allowance of `spender` on `owner` lowered by `amount`.
    pub open spec fn spent(self, owner: Seq<char>, spender: Seq<char>, amount: u128) -> Ledger {
        let a = self.allowance(owner, spender);
        Ledger {
            allowances: self.allowances.insert(
                (owner, spender),
                Allowance { allowance: (a.allowance - amount) as u128, expires: a.expires },
            ),
            ..self
        }
    }

    /// Whether `spender` may take `amount` from `owner` in a block of this
    /// height and time.
    pub open spec fn may_spend(self, owner: Seq<char>, spender: Seq<char>, amount: u128, height: u64, time: u64) -> bool {
        &&& self.allowances.contains_key((owner, spender))
        &&& !self.allowance(owner, spender).expires.is_expired(height, time)
        &&& self.allowance(owner, spender).allowance >= amount
    }
}

/// A string that fits the two-byte length prefix of a store key.
pub open spec fn short(s: Seq<char>) -> bool {
    vstd::utf8::encode_utf8(s).len() <= 0xFFFF
}

/// The rules of the operations that `cw20-base` carries out: when each goes
/// through, what it fails with, and the ledger it leaves.
impl Ledger {
    /// Whether the balance of `to` can grow by `amount` within 128 bits.
    pub open spec fn holds_more(self, to: Seq<char>, amount: u128) -> bool {
        self.balance(to) + amount <= u128::MAX
    }

    /// Whether a transfer adds within 128 bits: where it goes through to another
    /// address, that address can hold the amount.
    pub open spec fn transfer_fits(self, from: Seq<char>, to: Seq<char>, amount: u128) -> bool {
        self.can_transfer(from, to, amount) && to != from ==> self.holds_more(to, amount)
    }

    pub open spec fn can_transfer(self, from: Seq<char>, to: Seq<char>, amount: u128) -> bool {
        &&& amount != 0
        &&& self.addresses.contains(to)
        &&& self.balance(from) >= amount
    }

    pub open spec fn transfer_refusal(self, amount: u128) -> ErrorKind {
        if amount == 0 {
            ErrorKind::InvalidZeroAmount
        } else {
            ErrorKind::Std
        }
    }

    /// Whether minting `amount` keeps the supply under the cap, where there is one.
    pub open spec fn under_cap(self, amount: u128) -> bool {
        self.cap() matches Some(limit) ==> self.total_supply() + amount <= limit
    }

    pub open spec fn can_mint(self, caller: Seq<char>, to: Seq<char>, amount: u128) -> bool {
        &&& amount != 0
        &&& self.is_authority(caller)
        &&& self.under_cap(amount)
        &&& self.addresses.contains(to)
    }

    pub open spec fn mint_refusal(self, caller: Seq<char>, amount: u128) -> ErrorKind {
        if amount == 0 {
            ErrorKind::InvalidZeroAmount
        } else if self.token is None {
            ErrorKind::Std
        } else if !self.is_authority(caller) {
            ErrorKind::Unauthorized
        } else if !self.under_cap(amount) {
            ErrorKind::CannotExceedCap
        } else {
            ErrorKind::Std
        }
    }

    /// Whether a minting adds within 128 bits: the supply can grow by what the
    /// authority mints, and where the minting goes through, the recipient can
    /// hold it.
    pub open spec fn mint_fits(self, caller: Seq<char>, to: Seq<char>, amount: u128) -> bool {
        &&& amount != 0 && self.is_authority(caller) ==> self.total_supply() + amount <= u128::MAX
        &&& self.can_mint(caller, to, amount) ==> self.holds_more(to, amount)
    }

    pub open spec fn can_burn(self, from: Seq<char>, amount: u128) -> bool {
        &&& amount != 0
        &&& self.balance(from) >= amount
        &&& self.token is Some
        &&& self.total_supply() >= amount
    }

    /// What a burn that fails leaves in a well-typed store: where the balance
    /// covers the amount and the failure comes at the total supply, the balance
    /// is already lowered; else the ledger is as it was.
    pub open spec fn burn_failure(self, from: Seq<char>, amount: u128) -> Ledger {
        if amount != 0 && self.balance(from) >= amount {
            self.with_balance(from, (self.balance(from) - amount) as u128)
        } else {
            self
        }
    }

    /// What a minting that fails leaves in a well-typed store: where the
    /// failure comes at the recipient, the total supply is already raised; else
    /// the ledger is as it was.
    pub open spec fn mint_failure(self, caller: Seq<char>, amount: u128) -> Ledger {
        if amount != 0 && self.is_authority(caller) && self.under_cap(amount) {
            self.with_total_supply((self.total_supply() + amount) as u128)
        } else {
            self
        }
    }

    pub open spec fn can_set_allowance(self, owner: Seq<char>, spender: Seq<char>) -> bool {
        &&& self.addresses.contains(spender)
        &&& spender != owner
    }

    /// Whether an allowance can be raised: where the spender can be given one,
    /// the owner fits a store key and the allowance stays within 128 bits.
    pub open spec fn increase_fits(self, owner: Seq<char>, spender: Seq<char>, amount: u128) -> bool {
        self.can_set_allowance(owner, spender) ==> short(owner) && self.allowance(owner, spender).allowance + amount
            <= u128::MAX
    }

    /// Whether an allowance can be lowered: where the spender can be given one,
    /// the owner fits a store key.
    pub open spec fn decrease_fits(self, owner: Seq<char>, spender: Seq<char>) -> bool {
        self.can_set_allowance(owner, spender) ==> short(owner)
    }

    pub open spec fn allowance_refusal(self, owner: Seq<char>, spender: Seq<char>) -> ErrorKind {
        if self.addresses.contains(spender) && spender == owner {
            ErrorKind::CannotSetOwnAccount
        } else {
            ErrorKind::Std
        }
    }

    /// The allowance raised by `amount`, with a new end where one is given.
    pub open spec fn increased(self, owner: Seq<char>, spender: Seq<char>, amount: u128, expires: Option<Expiration>) -> Ledger {
        let a = self.allowance(owner, spender);
        Ledger {
            allowances: self.allowances.insert(
                (owner, spender),
                Allowance {
                    allowance: (a.allowance + amount) as u128,
                    expires: match expires {
                        Some(e) => e,
                        None => a.expires,
                    },
                },
            ),
            ..self
        }
    }

    /// The allowance lowered by `amount`, with a new end where one is given; an
    /// allowance that would reach zero is taken off the record.
    pub open spec fn decreased(self, owner: Seq<char>, spender: Seq<char>, amount: u128, expires: Option<Expiration>) -> Ledger {
        let a = self.allowance(owner, spender);
        if amount < a.allowance {
            Ledger {
                allowances: self.allowances.insert(
                    (owner, spender),
                    Allowance {
                        allowance: (a.allowance - amount) as u128,
                        expires: match expires {
                            Some(e) => e,
                            None => a.expires,
                        },
                    },
                ),
                ..self
            }
        } else {
            Ledger { allowances: self.allowances.remove((owner, spender)), ..self }
        }
    }

    pub open spec fn can_transfer_from(self, owner: Seq<char>, spender: Seq<char>, to: Seq<char>, amount: u128, height: u64, time: u64) -> bool {
        &&& self.addresses.contains(to)
        &&& self.addresses.contains(owner)
        &&& self.may_spend(owner, spender, amount, height, time)
        &&& self.balance(owner) >= amount
    }

    pub open spec fn transfer_from_refusal(self, owner: Seq<char>, spender: Seq<char>, to: Seq<char>, height: u64, time: u64) -> ErrorKind {
        if !self.addresses.contains(to) || !self.addresses.contains(owner) {
            ErrorKind::Std
        } else if !self.allowances.contains_key((owner, spender)) {
            ErrorKind::NoAllowance
        } else if self.allowance(owner, spender).expires.is_expired(height, time) {
            ErrorKind::Expired
        } else {
            ErrorKind::Std
        }
    }

    /// Whether a transfer on an allowance stays within the limits: where the
    /// host accepts both addresses, the owner fits a store key, and where the
    /// transfer goes through to another address, that address can hold the
    /// amount.
    pub open spec fn transfer_from_fits(self, owner: Seq<char>, spender: Seq<char>, to: Seq<char>, amount: u128, height: u64, time: u64) -> bool {
        &&& self.addresses.contains(to) && self.addresses.contains(owner) ==> short(owner)
        &&& self.can_transfer_from(owner, spender, to, amount, height, time) && to != owner ==> self.holds_more(to, amount)
    }

    /// Whether an allowance can be looked up: where the host accepts both
    /// addresses, the owner fits a store key.
    pub open spec fn lookup_fits(self, owner: Seq<char>, spender: Seq<char>) -> bool {
        self.addresses.contains(owner) && self.addresses.contains(spender) ==> short(owner)
    }

    /// What a transfer on an allowance that fails leaves in a well-typed store:
    /// where the failure comes at the owner's balance, the allowance is already
    /// spent; else the ledger is as it was.
    pub open spec fn transfer_from_failure(self, owner: Seq<char>, spender: Seq<char>, to: Seq<char>, amount: u128, height: u64, time: u64) -> Ledger {
        if self.addresses.contains(to) && self.addresses.contains(owner) && self.may_spend(owner, spender, amount, height, time) {
            self.spent(owner, spender, amount)
        } else {
            self
        }
    }

    /// `amount` moved from `owner` to `to` on the allowance of `spender`.
    pub open spec fn moved_from(self, owner: Seq<char>, spender: Seq<char>, to: Seq<char>, amount: u128) -> Ledger {
        self.spent(owner, spender, amount).moved(owner, to, amount)
    }
}

} // verus!
