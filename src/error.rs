use vstd::prelude::*;

verus! {

/// The category under which a rejected command is reported.
#[derive(Debug, Clone, Copy, PartialEq, Eq, Structural)]
pub enum ErrorKind {
    Validation,
    Authorization,
    UnsupportedOperation,
    Storage,
}

/// Why a command or query was rejected.
#[derive(Debug, Clone, Copy, PartialEq, Eq, Structural)]
pub enum ContractError {
    /// The risk score lies outside `1..=10`.
    RiskOutOfRange,
    /// The wallet address was refused by the host's address rules.
    InvalidWallet,
    /// The sender is not the current oracle.
    Unauthorized,
    /// An execute message that this registry does not implement.
    UnsupportedExecute,
    /// A query message that this registry does not implement.
    UnsupportedQuery,
    /// The store reported an error, as when it holds a value that does not decode.
    Storage,
}

pub open spec fn kind_of(e: ContractError) -> ErrorKind {
    match e {
        ContractError::RiskOutOfRange => ErrorKind::Validation,
        ContractError::InvalidWallet => ErrorKind::Validation,
        ContractError::Unauthorized => ErrorKind::Authorization,
        ContractError::UnsupportedExecute => ErrorKind::UnsupportedOperation,
        ContractError::UnsupportedQuery => ErrorKind::UnsupportedOperation,
        ContractError::Storage => ErrorKind::Storage,
    }
}

impl ContractError {
    pub fn kind(&self) -> (r: ErrorKind)
        ensures
            r == kind_of(*self),
    {
        match self {
            ContractError::RiskOutOfRange => ErrorKind::Validation,
            ContractError::InvalidWallet => ErrorKind::Validation,
            ContractError::Unauthorized => ErrorKind::Authorization,
            ContractError::UnsupportedExecute => ErrorKind::UnsupportedOperation,
            ContractError::UnsupportedQuery => ErrorKind::UnsupportedOperation,
            ContractError::Storage => ErrorKind::Storage,
        }
    }

    /// The human-readable message reported with the rejection.
    pub fn message(&self) -> (r: &'static str)
        ensures
            r@ == message_of(*self),
    {
        match self {
            ContractError::RiskOutOfRange => "risk out of range",
            ContractError::InvalidWallet => "invalid wallet address",
            ContractError::Unauthorized => "unauthorized",
            ContractError::UnsupportedExecute => "unsupported execute message",
            ContractError::UnsupportedQuery => "unsupported query message",
            ContractError::Storage => "storage error",
        }
    }
}

pub open spec fn message_of(e: ContractError) -> Seq<char> {
    match e {
        ContractError::RiskOutOfRange => "risk out of range"@,
        ContractError::InvalidWallet => "invalid wallet address"@,
        ContractError::Unauthorized => "unauthorized"@,
        ContractError::UnsupportedExecute => "unsupported execute message"@,
        ContractError::UnsupportedQuery => "unsupported query message"@,
        ContractError::Storage => "storage error"@,
    }
}

} // verus!
