use vstd::prelude::*;

use cosmwasm_std::StdError;

use crate::store::std_error_text;

verus! {

/// The error taxonomy of the three entry points. Every failure is returned to
/// the host as one of these; no entry point panics or retries, and on any
/// failure the stored record is left exactly as it was.
#[derive(Debug)]
pub enum ContractError {
    /// An underlying storage or serialization fault, surfaced verbatim.
    Std(StdError),
    /// A load was attempted before any initialization stored a record.
    NotFound {},
    /// The caller of a mutating call is not the stored owner.
    Unauthorized {},
}

impl ContractError {
    /// The stable, human-readable text of this error. The `Unauthorized` text
    /// is part of the observable contract; callers may branch on it.
    pub fn to_string(&self) -> (r: String)
        ensures
            self is Unauthorized ==> r@ == "Unauthorized - only owner can update message"@,
            self is NotFound ==> r@ == "State not found"@,
    {
        match self {
            ContractError::Std(e) => std_error_text(e),
            ContractError::NotFound {} => "State not found".to_owned(),
            ContractError::Unauthorized {} => "Unauthorized - only owner can update message".to_owned(),
        }
    }
}

} // verus!
