use solana_sdk::pubkey::{ParsePubkeyError, Pubkey};
use std::str::FromStr;
use vstd::prelude::*;

use crate::error::TransferError;

verus! {

/// An account reference: a fixed 32-byte identifier. Two references are the
/// same account exactly when their bytes are equal.
#[derive(Clone, Copy, Debug)]
pub struct Address {
    pub bytes: [u8; 32],
}

impl View for Address {
    type V = Seq<u8>;

    open spec fn view(&self) -> Seq<u8> {
        self.bytes@
    }
}

#[verifier::external_type_specification]
#[verifier::external_body]
pub struct ExParsePubkeyError(ParsePubkeyError);

/// The 32 bytes that an account text stands for, or `None` where the text is
/// not the base-58 rendering of exactly 32 bytes.
pub uninterp spec fn account_bytes_of(s: Seq<char>) -> Option<Seq<u8>>;

/// Relies on solana_pubkey's `Pubkey::from_str`: it decodes the text as
/// base-58 into exactly 32 bytes, and refuses text longer than 44 bytes.
#[verifier::external_body]
fn pubkey_from_str(s: &str) -> (r: Result<[u8; 32], ParsePubkeyError>)
    ensures
        match r {
            Ok(b) => account_bytes_of(s@) == Some(b@),
            Err(_) => account_bytes_of(s@) is None,
        },
        s@.len() > 44 ==> r is Err,
{
    Pubkey::from_str(s).map(|p| p.to_bytes())
}

/// The outcome of reading an account text.
pub open spec fn parse_address_spec(s: Seq<char>) -> Result<Seq<u8>, TransferError> {
    match account_bytes_of(s) {
        Some(b) => Ok(b),
        None => Err(TransferError::InvalidAddress),
    }
}

impl Address {
    /// The account a 32-byte array names.
    pub fn from_array(bytes: [u8; 32]) -> (r: Address)
        ensures
            r@ == bytes@,
    {
        Address { bytes }
    }

    /// Reads an account reference from its base-58 text; text that does not
    /// name exactly 32 bytes is an `InvalidAddress`.
    pub fn parse(s: &str) -> (r: Result<Address, TransferError>)
        ensures
            match r {
                Ok(a) => parse_address_spec(s@) == Ok::<Seq<u8>, TransferError>(a@),
                Err(e) => parse_address_spec(s@) == Err::<Seq<u8>, TransferError>(e),
            },
    {
        match pubkey_from_str(s) {
            Ok(bytes) => Ok(Address { bytes }),
            Err(_) => Err(TransferError::InvalidAddress),
        }
    }
}

} // verus!
