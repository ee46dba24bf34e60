//! The ways in which the registry and the guard fail.
use vstd::prelude::*;

verus! {

/// `StdError` of cosmwasm-std, the host's error. The library carries such a
/// value along and never looks into it.
#[verifier::external_type_specification]
#[verifier::external_body]
pub struct ExStdError(cosmwasm_std::StdError);

/// Why an operation was turned down.
///
/// Errors that the host or the codec raised are carried along untouched, so
/// that a caller can hand them on as they came.
#[derive(Debug, PartialEq)]
pub enum Error {
    /// The caller is not in the admin set.
    Unauthorized,
    /// Nothing has ever been written under the admin key.
    NotFound,
    /// The host refused to convert an address.
    AddressConversion(cosmwasm_std::StdError),
    /// The bytes under the admin key are not an admin set.
    InvalidAdminSet(cosmwasm_std::StdError),
    /// The admin set could not be turned into bytes.
    Serialize(cosmwasm_std::StdError),
}

/// `StdError::unauthorized` of cosmwasm-std: the host's own error for a caller
/// without the right to act. Nothing is claimed of the value.
#[verifier::external_body]
fn unauthorized() -> cosmwasm_std::StdError {
    cosmwasm_std::StdError::unauthorized()
}

/// Builds the `StdError::SerializeErr` of cosmwasm-std that reports a missing
/// key on load. Nothing is claimed of the value.
#[verifier::external_body]
fn key_not_found() -> cosmwasm_std::StdError {
    cosmwasm_std::StdError::SerializeErr {
        source: "load".into(),
        msg: "key not found".into(),
        backtrace: None,
    }
}

impl Error {
    /// The error in the host's own vocabulary.
    ///
    /// An error that came from the host or the codec is given back as it
    /// came; `Unauthorized` and `NotFound` become the host errors of that
    /// meaning.
    pub fn into_std(self) -> (r: cosmwasm_std::StdError)
        ensures
            self matches Error::AddressConversion(e) ==> r == e,
            self matches Error::InvalidAdminSet(e) ==> r == e,
            self matches Error::Serialize(e) ==> r == e,
    {
        match self {
            Error::Unauthorized => unauthorized(),
            Error::NotFound => key_not_found(),
            Error::AddressConversion(e) => e,
            Error::InvalidAdminSet(e) => e,
            Error::Serialize(e) => e,
        }
    }
}

} // verus!
