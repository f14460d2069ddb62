//! The messages that the ledger takes and the answers it gives.

use vstd::prelude::*;
use vstd::string::StringSliceAdditionalSpecFns;
use crate::host::generic_err;
use crate::host::generic_error;
use crate::ledger::Allowance;
use crate::ledger::Expiration;

verus! {

/// Sets up the token: its name, ticker symbol and decimal places.
#[derive(Debug, PartialEq, Eq, Clone)]
pub struct InstantiateMsg {
    pub name: String,
    pub symbol: String,
    pub decimals: u8,
}

/// A name is 3 to 50 bytes of UTF-8.
pub open spec fn name_ok(name: Seq<char>) -> bool {
    3 <= vstd::utf8::encode_utf8(name).len() <= 50
}

/// The bytes of a symbol: ASCII letters and the hyphen.
pub open spec fn symbol_byte_ok(byte: u8) -> bool {
    byte == 45 || (65 <= byte <= 90) || (97 <= byte <= 122)
}

/// A symbol is 3 to 12 bytes, each a letter or a hyphen.
pub open spec fn symbol_ok(symbol: Seq<char>) -> bool {
    let bytes = vstd::utf8::encode_utf8(symbol);
    &&& 3 <= bytes.len() <= 12
    &&& forall|i: int| 0 <= i < bytes.len() ==> symbol_byte_ok(#[trigger] bytes[i])
}

/// The most decimal places a token may have.
pub const MAX_DECIMALS: u8 = 18;

pub fn is_valid_name(name: &str) -> (ok: bool)
    ensures
        ok == name_ok(name@),
{
    let bytes = name.as_bytes();
    if bytes.len() < 3 || bytes.len() > 50 {
        return false;
    }
    true
}

pub fn is_valid_symbol(symbol: &str) -> (ok: bool)
    ensures
        ok == symbol_ok(symbol@),
{
    let bytes = symbol.as_bytes();
    if bytes.len() < 3 || bytes.len() > 12 {
        return false;
    }
    let mut i: usize = 0;
    while i < bytes.len()
        invariant
            i <= bytes.len(),
            bytes@ == symbol.spec_bytes(),
            forall|j: int| 0 <= j < i ==> symbol_byte_ok(#[trigger] bytes@[j]),
        decreases bytes.len() - i,
    {
        let byte = bytes[i];
        if (byte != 45) && (byte < 65 || byte > 90) && (byte < 97 || byte > 122) {
            assert(!symbol_byte_ok(bytes@[i as int]));
            return false;
        }
        i += 1;
    }
    true
}

impl InstantiateMsg {
    /// What `validate` answers: the first of name, symbol and decimals that is out
    /// of bounds decides the error.
    pub open spec fn validation(&self) -> Result<(), cosmwasm_std::StdError> {
        if !name_ok(self.name@) {
            Err(generic_error("Name is not in the expected format (3-50 UTF-8 bytes)"@))
        } else if !symbol_ok(self.symbol@) {
            Err(generic_error("Ticker symbol is not in expected format [a-zA-Z\\-]{3,12}"@))
        } else if self.decimals > MAX_DECIMALS {
            Err(generic_error("Decimals must not exceed 18"@))
        } else {
            Ok(())
        }
    }

    pub fn validate(&self) -> (r: Result<(), cosmwasm_std::StdError>)
        ensures
            r == self.validation(),
    {
        if !is_valid_name(self.name.as_str()) {
            return Err(generic_err("Name is not in the expected format (3-50 UTF-8 bytes)"));
        }
        if !is_valid_symbol(self.symbol.as_str()) {
            return Err(generic_err("Ticker symbol is not in expected format [a-zA-Z\\-]{3,12}"));
        }
        if self.decimals > MAX_DECIMALS {
            return Err(generic_err("Decimals must not exceed 18"));
        }
        Ok(())
    }
}

/// The operations of the ledger.
#[derive(Debug, PartialEq, Eq, Clone)]
pub enum ExecuteMsg {
    /// Puts an address on the blocklist. Only the mint authority may.
    AddToBlockedList { address: String },
    /// Takes an address off the blocklist. Only the mint authority may.
    RemoveFromBlockedList { address: String },
    /// Gives new units to `recipient`. Only the mint authority may.
    Mint { recipient: String, amount: u128 },
    /// Destroys all funds of a blocked address. Only the mint authority may.
    DestroyBlockedFunds { address: String },
    /// Hands the mint authority on to another address.
    UpdateMinter { address: String },
    /// Moves units from the sender to `recipient`.
    Transfer { recipient: String, amount: u128 },
    /// Destroys units of the sender, who must be the mint authority.
    Redeem { amount: u128 },
    /// Moves units from the sender to a contract and calls it with `msg`.
    Send { contract: String, amount: u128, msg: Vec<u8> },
    /// Lets `spender` take `amount` more from the sender's balance; a given
    /// `expires` replaces the allowance's end.
    IncreaseAllowance { spender: String, amount: u128, expires: Option<Expiration> },
    /// Lets `spender` take `amount` less from the sender's balance; a given
    /// `expires` replaces the allowance's end.
    DecreaseAllowance { spender: String, amount: u128, expires: Option<Expiration> },
    /// Moves units from `owner` to `recipient` on the sender's allowance.
    TransferFrom { owner: String, recipient: String, amount: u128 },
    /// Moves units from `owner` to a contract on the sender's allowance and
    /// calls the contract with `msg`.
    SendFrom { owner: String, contract: String, amount: u128, msg: Vec<u8> },
}

/// Whether an address is blocked.
#[derive(Debug, PartialEq, Eq, Clone)]
pub struct BlockedResponse {
    pub blocked: bool,
}

/// The balance of an address.
#[derive(Debug, PartialEq, Eq, Clone)]
pub struct BalanceResponse {
    pub balance: u128,
}

/// The token's name, symbol, decimal places and total supply.
#[derive(Debug, PartialEq, Eq, Clone)]
pub struct TokenInfoResponse {
    pub name: String,
    pub symbol: String,
    pub decimals: u8,
    pub total_supply: u128,
}

/// The questions that the ledger answers.
#[derive(Debug, PartialEq, Eq, Clone)]
pub enum QueryMsg {
    IsBlocked { address: String },
    /// The balance of an address, 0 where none is on record.
    Balance { address: String },
    /// The token's name, symbol, decimal places and total supply.
    TokenInfo {},
    /// What `spender` may take from `owner`, 0 where nothing is on record.
    Allowance { owner: String, spender: String },
}

/// The answer to a [`QueryMsg`], one variant for each question.
#[derive(Debug, PartialEq, Eq, Clone)]
pub enum QueryResponse {
    IsBlocked(BlockedResponse),
    Balance(BalanceResponse),
    TokenInfo(TokenInfoResponse),
    Allowance(Allowance),
}

/// Nothing is asked of a migration.
#[derive(Debug, PartialEq, Eq, Clone)]
pub struct MigrateMsg {}

} // verus!
