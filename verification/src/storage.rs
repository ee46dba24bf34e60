//! How the admin set lies in the host's store: one value under one fixed key.
use vstd::prelude::*;
use crate::error::Error;
use crate::host::canonical_views;

verus! {

/// The key under which the admin set is kept. It must never change: under
/// another key the admins written so far would no longer be found.
pub const ADMINS_KEY: [u8; 10] = [105, 56, 48, 49, 111, 110, 76, 51, 107, 102];

/// The bytes that cosmwasm-std's `to_vec` gives for a list of canonical
/// addresses, or `None` where it fails.
pub uninterp spec fn encoded_admins(admins: Seq<Seq<u8>>) -> Option<Seq<u8>>;

/// The list of canonical addresses that cosmwasm-std's `from_slice` reads out
/// of `bytes`, or `None` where it fails.
pub uninterp spec fn decoded_admins(bytes: Seq<u8>) -> Option<Seq<Seq<u8>>>;

/// `to_vec` of cosmwasm-std on a `Vec<CanonicalAddr>`: JSON, each address a
/// base64 string. The result depends on the addresses alone. What it writes,
/// `from_slice` reads back as the same addresses: each address is written as
/// the base64 string that `Binary` decodes again.
#[verifier::external_body]
pub(crate) fn encode_admins(admins: &Vec<Vec<u8>>) -> (r: Result<Vec<u8>, cosmwasm_std::StdError>)
    ensures
        match r {
            Ok(bytes) => encoded_admins(canonical_views(admins@)) == Some(bytes@)
                && decoded_admins(bytes@) == Some(canonical_views(admins@)),
            Err(_) => encoded_admins(canonical_views(admins@)) is None,
        },
{
    let admins: Vec<cosmwasm_std::CanonicalAddr> = admins.iter().map(
        |a| cosmwasm_std::CanonicalAddr(cosmwasm_std::Binary(a.clone())),
    ).collect();
    cosmwasm_std::to_vec(&admins)
}

/// `from_slice` of cosmwasm-std, reading a `Vec<CanonicalAddr>`. The result
/// depends on the bytes alone.
#[verifier::external_body]
fn decode_admins(bytes: &Vec<u8>) -> (r: Result<Vec<Vec<u8>>, cosmwasm_std::StdError>)
    ensures
        match r {
            Ok(admins) => decoded_admins(bytes@) == Some(canonical_views(admins@)),
            Err(_) => decoded_admins(bytes@) is None,
        },
{
    let admins: Vec<cosmwasm_std::CanonicalAddr> = cosmwasm_std::from_slice(bytes)?;
    Ok(admins.into_iter().map(|a| a.0.0).collect())
}

/// The admin set that an addition starts from: what is stored, or nothing
/// where the key is absent or its value cannot be read.
pub open spec fn current_admins(stored: Option<Seq<u8>>) -> Seq<Seq<u8>> {
    match stored {
        Some(bytes) => match decoded_admins(bytes) {
            Some(admins) => admins,
            None => Seq::empty(),
        },
        None => Seq::empty(),
    }
}

/// Reads the admin set out of what the store holds under [`ADMINS_KEY`].
///
/// An absent key is an error here, and so is a value that is no admin set.
pub fn load(stored: &Option<Vec<u8>>) -> (r: Result<Vec<Vec<u8>>, Error>)
    ensures
        match r {
            Ok(admins) => stored matches Some(bytes) && decoded_admins(bytes@) == Some(
                canonical_views(admins@),
            ),
            Err(Error::NotFound) => stored is None,
            Err(Error::InvalidAdminSet(_)) => stored matches Some(bytes) && decoded_admins(bytes@)
                is None,
            Err(_) => false,
        },
{
    match stored {
        None => Err(Error::NotFound),
        Some(bytes) => match decode_admins(bytes) {
            Ok(admins) => Ok(admins),
            Err(e) => Err(Error::InvalidAdminSet(e)),
        },
    }
}

} // verus!
