//! The ways in which an operation on a store can fail.

use vstd::prelude::*;
use vstd::string::StringExecFns;

verus! {

/// Why an operation was refused. A refused operation changes nothing.
#[derive(Clone, Copy, Debug, PartialEq, Eq, Structural)]
pub enum ContractError {
    /// No record is stored under the key that the operation needs.
    NotFound,
    /// The caller is not the owner of the item.
    Unauthorized,
    /// The host's validator rejected an address.
    InvalidAddress,
}

impl ContractError {
    /// A short description of the error, for the caller to show.
    pub fn message(&self) -> (text: String)
        ensures
            text@ == match *self {
                ContractError::NotFound => "not found"@,
                ContractError::Unauthorized => "unauthorized"@,
                ContractError::InvalidAddress => "invalid address"@,
            },
    {
        match self {
            ContractError::NotFound => String::from_str("not found"),
            ContractError::Unauthorized => String::from_str("unauthorized"),
            ContractError::InvalidAddress => String::from_str("invalid address"),
        }
    }
}

} // verus!
