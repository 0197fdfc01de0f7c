//! Validated account addresses.
//!
//! An address enters the pipeline as a base-58 string and is accepted only
//! if it denotes exactly 32 raw bytes.  Everything downstream compares
//! addresses by their base-58 string form, so a validated address keeps
//! both the string it was parsed from and the decoded bytes.

use vstd::prelude::*;

use crate::types::ActivityError;

verus! {

/// The bytes that a base-58 address string denotes: `Some` exactly for the
/// strings that the ledger's public-key parser accepts, and then the 32
/// decoded bytes.
pub uninterp spec fn pubkey_bytes_of(s: Seq<char>) -> Option<Seq<u8>>;

/// Relies on the `FromStr` impl of `solana_sdk::pubkey::Pubkey` (and its
/// `to_bytes` accessor): parsing succeeds exactly when the string is the
/// base-58 form of a 32-byte public key, and then yields those bytes.  The
/// outcome depends on the string alone.
#[verifier::external_body]
fn decode_base58_address(s: &str) -> (r: Option<Vec<u8>>)
    ensures
        (match r {
            Some(b) => pubkey_bytes_of(s@) == Some(b@) && b@.len() == 32,
            None => pubkey_bytes_of(s@) is None,
        }),
{
    match s.parse::<solana_sdk::pubkey::Pubkey>() {
        Ok(p) => Some(p.to_bytes().to_vec()),
        Err(_) => None,
    }
}

/// A validated account address: the base-58 string that was accepted and
/// the 32 raw bytes it denotes.
#[derive(Clone, Debug, PartialEq, Eq)]
pub struct Address {
    /// The accepted base-58 string.
    pub b58: String,
    /// The 32 bytes the string denotes.
    pub bytes: Vec<u8>,
}

impl Address {
    /// A string is a valid address exactly when the parser accepts it.
    pub open spec fn spec_valid(s: Seq<char>) -> bool {
        pubkey_bytes_of(s) is Some
    }

    /// The string and the bytes belong together and the length is fixed.
    pub open spec fn wf(self) -> bool {
        &&& pubkey_bytes_of(self.b58@) == Some(self.bytes@)
        &&& self.bytes@.len() == 32
    }

    /// Validate an address string before it may enter the pipeline.
    /// Malformed input is rejected as `InvalidAddress` and nothing else is
    /// ever done with it.
    pub fn parse(s: &str) -> (r: Result<Address, ActivityError>)
        ensures
            (match r {
                Ok(a) => Address::spec_valid(s@) && a.wf() && a.b58@ == s@,
                Err(e) => !Address::spec_valid(s@) && e == ActivityError::InvalidAddress,
            }),
    {
        match decode_base58_address(s) {
            Some(bytes) => Ok(Address { b58: s.to_owned(), bytes }),
            None => Err(ActivityError::InvalidAddress),
        }
    }
}

} // verus!
