//! The errors of the ledger's operations.

use vstd::prelude::*;
use cw20_base::ContractError as BaseError;
use crate::host::generic_err;
use crate::host::generic_error;

verus! {

/// `cw20_base::ContractError`: what an operation of `cw20-base` fails with.
#[verifier::external_type_specification]
#[verifier::external_body]
pub struct ExBaseError(BaseError);

/// Why an operation was refused.
#[derive(Debug, PartialEq)]
pub enum ContractError {
    /// An error of the host library: a store entry that is missing or cannot be
    /// read, an address that the host rejects, an amount that is not covered.
    Std(cosmwasm_std::StdError),
    /// The caller is not the mint authority.
    Unauthorized {},
    CannotSetOwnAccount {},
    /// The address whose funds would move is on the blocklist.
    Blocked {},
    /// Funds can only be destroyed at a blocked address.
    NotBlocked {},
    InvalidZeroAmount {},
    Expired {},
    NoAllowance {},
    CannotExceedCap {},
    DuplicateInitialBalanceAddresses {},
}

/// The variants of `cw20_base::ContractError`, with the host error that `Std` holds.
pub enum BaseFailure {
    Std(cosmwasm_std::StdError),
    Unauthorized,
    CannotSetOwnAccount,
    InvalidZeroAmount,
    Expired,
    NoAllowance,
    CannotExceedCap,
    LogoTooBig,
    InvalidXmlPreamble,
    InvalidPngHeader,
}

/// The kinds of error, without what `Std` carries.
pub enum ErrorKind {
    Std,
    Unauthorized,
    CannotSetOwnAccount,
    Blocked,
    NotBlocked,
    InvalidZeroAmount,
    Expired,
    NoAllowance,
    CannotExceedCap,
    DuplicateInitialBalanceAddresses,
}

impl BaseFailure {
    /// The kind of the ledger's error that this failure becomes.
    pub open spec fn kind(self) -> ErrorKind {
        match self {
            BaseFailure::Std(_) => ErrorKind::Std,
            BaseFailure::Unauthorized => ErrorKind::Unauthorized,
            BaseFailure::CannotSetOwnAccount => ErrorKind::CannotSetOwnAccount,
            BaseFailure::InvalidZeroAmount => ErrorKind::InvalidZeroAmount,
            BaseFailure::Expired => ErrorKind::Expired,
            BaseFailure::NoAllowance => ErrorKind::NoAllowance,
            BaseFailure::CannotExceedCap => ErrorKind::CannotExceedCap,
            BaseFailure::LogoTooBig => ErrorKind::Std,
            BaseFailure::InvalidXmlPreamble => ErrorKind::Std,
            BaseFailure::InvalidPngHeader => ErrorKind::Std,
        }
    }
}

/// Which variant an error of `cw20-base` is.
pub uninterp spec fn base_failure(err: BaseError) -> BaseFailure;

/// The text that an error of `cw20-base` displays as.
pub uninterp spec fn base_failure_text(err: BaseError) -> Seq<char>;

/// `ToString::to_string` on an error of `cw20-base`: its display text.
#[verifier::external_body]
fn describe(err: &BaseError) -> (text: String)
    ensures
        text@ == base_failure_text(*err),
{
    err.to_string()
}

/// The text that a host error displays as.
pub uninterp spec fn host_error_text(err: cosmwasm_std::StdError) -> Seq<char>;

/// `ToString::to_string` on a host error: its display text.
#[verifier::external_body]
fn show(err: &cosmwasm_std::StdError) -> (text: String)
    ensures
        text@ == host_error_text(*err),
{
    err.to_string()
}

/// Tells the variants of `cw20_base::ContractError` apart and moves the host
/// error out of `Std`.
#[verifier::external_body]
fn split(err: BaseError) -> (f: BaseFailure)
    ensures
        f == base_failure(err),
{
    match err {
        BaseError::Std(e) => BaseFailure::Std(e),
        BaseError::Unauthorized {} => BaseFailure::Unauthorized,
        BaseError::CannotSetOwnAccount {} => BaseFailure::CannotSetOwnAccount,
        BaseError::InvalidZeroAmount {} => BaseFailure::InvalidZeroAmount,
        BaseError::Expired {} => BaseFailure::Expired,
        BaseError::NoAllowance {} => BaseFailure::NoAllowance,
        BaseError::CannotExceedCap {} => BaseFailure::CannotExceedCap,
        BaseError::LogoTooBig {} => BaseFailure::LogoTooBig,
        BaseError::InvalidXmlPreamble {} => BaseFailure::InvalidXmlPreamble,
        BaseError::InvalidPngHeader {} => BaseFailure::InvalidPngHeader,
    }
}

/// The ledger's error for a failure of `cw20-base`: the same variant where the
/// ledger has it; a logo error, which no operation of the ledger can cause,
/// becomes a generic host error with the failure's text.
pub open spec fn error_of_failure(f: BaseFailure, text: Seq<char>) -> ContractError {
    match f {
        BaseFailure::Std(e) => ContractError::Std(e),
        BaseFailure::Unauthorized => ContractError::Unauthorized {},
        BaseFailure::CannotSetOwnAccount => ContractError::CannotSetOwnAccount {},
        BaseFailure::InvalidZeroAmount => ContractError::InvalidZeroAmount {},
        BaseFailure::Expired => ContractError::Expired {},
        BaseFailure::NoAllowance => ContractError::NoAllowance {},
        BaseFailure::CannotExceedCap => ContractError::CannotExceedCap {},
        BaseFailure::LogoTooBig | BaseFailure::InvalidXmlPreamble | BaseFailure::InvalidPngHeader =>
            ContractError::Std(generic_error(text)),
    }
}

impl ContractError {
    pub open spec fn kind(self) -> ErrorKind {
        match self {
            ContractError::Std(_) => ErrorKind::Std,
            ContractError::Unauthorized {} => ErrorKind::Unauthorized,
            ContractError::CannotSetOwnAccount {} => ErrorKind::CannotSetOwnAccount,
            ContractError::Blocked {} => ErrorKind::Blocked,
            ContractError::NotBlocked {} => ErrorKind::NotBlocked,
            ContractError::InvalidZeroAmount {} => ErrorKind::InvalidZeroAmount,
            ContractError::Expired {} => ErrorKind::Expired,
            ContractError::NoAllowance {} => ErrorKind::NoAllowance,
            ContractError::CannotExceedCap {} => ErrorKind::CannotExceedCap,
            ContractError::DuplicateInitialBalanceAddresses {} => ErrorKind::DuplicateInitialBalanceAddresses,
        }
    }

    /// The text that the error displays as.
    pub open spec fn message_text(self) -> Seq<char> {
        match self {
            ContractError::Std(e) => host_error_text(e),
            ContractError::Unauthorized {} => "Unauthorized"@,
            ContractError::CannotSetOwnAccount {} => "Cannot set to own account"@,
            ContractError::Blocked {} => "Address is on the blocklist"@,
            ContractError::NotBlocked {} => "Address is not on the blocklist"@,
            ContractError::InvalidZeroAmount {} => "Invalid zero amount"@,
            ContractError::Expired {} => "Allowance is expired"@,
            ContractError::NoAllowance {} => "No allowance for this account"@,
            ContractError::CannotExceedCap {} => "Minting cannot exceed the cap"@,
            ContractError::DuplicateInitialBalanceAddresses {} => "Duplicate initial balance addresses"@,
        }
    }

    /// The text that the error displays as.
    pub fn message(&self) -> (text: String)
        ensures
            text@ == self.message_text(),
    {
        match self {
            ContractError::Std(e) => show(e),
            ContractError::Unauthorized {} => "Unauthorized".to_owned(),
            ContractError::CannotSetOwnAccount {} => "Cannot set to own account".to_owned(),
            ContractError::Blocked {} => "Address is on the blocklist".to_owned(),
            ContractError::NotBlocked {} => "Address is not on the blocklist".to_owned(),
            ContractError::InvalidZeroAmount {} => "Invalid zero amount".to_owned(),
            ContractError::Expired {} => "Allowance is expired".to_owned(),
            ContractError::NoAllowance {} => "No allowance for this account".to_owned(),
            ContractError::CannotExceedCap {} => "Minting cannot exceed the cap".to_owned(),
            ContractError::DuplicateInitialBalanceAddresses {} => "Duplicate initial balance addresses".to_owned(),
        }
    }

    /// The ledger's error for a failure of `cw20-base` whose display text is `text`.
    pub fn from_failure(f: BaseFailure, text: &str) -> (e: ContractError)
        ensures
            e == error_of_failure(f, text@),
            e.kind() == f.kind(),
    {
        match f {
            BaseFailure::Std(e) => ContractError::Std(e),
            BaseFailure::Unauthorized => ContractError::Unauthorized {},
            BaseFailure::CannotSetOwnAccount => ContractError::CannotSetOwnAccount {},
            BaseFailure::InvalidZeroAmount => ContractError::InvalidZeroAmount {},
            BaseFailure::Expired => ContractError::Expired {},
            BaseFailure::NoAllowance => ContractError::NoAllowance {},
            BaseFailure::CannotExceedCap => ContractError::CannotExceedCap {},
            BaseFailure::LogoTooBig => ContractError::Std(generic_err(text)),
            BaseFailure::InvalidXmlPreamble => ContractError::Std(generic_err(text)),
            BaseFailure::InvalidPngHeader => ContractError::Std(generic_err(text)),
        }
    }
}

impl From<BaseError> for ContractError {
    fn from(err: BaseError) -> (e: ContractError)
        ensures
            e.kind() == base_failure(err).kind(),
    {
        let text = describe(&err);
        ContractError::from_failure(split(err), text.as_str())
    }
}

impl vstd::std_specs::convert::FromSpecImpl<BaseError> for ContractError {
    open spec fn obeys_from_spec() -> bool {
        true
    }

    open spec fn from_spec(err: BaseError) -> ContractError {
        error_of_failure(base_failure(err), base_failure_text(err))
    }
}

} // verus!
