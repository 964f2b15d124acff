//! The identities that requests are made under, and the one check on them.

use crate::error::CustomError;
use anchor_lang::prelude::Pubkey;
use vstd::prelude::*;

verus! {

/// `Pubkey`, the name under which `anchor_lang::prelude` re-exports the
/// Solana SDK's `Address`: the 32 bytes of an account's address. The registry
/// stores keys and hands them on; what a key holds is not visible to the
/// proofs, which tell keys apart by equality only.
#[verifier::external_type_specification]
#[verifier::external_body]
pub struct ExPubkey(anchor_lang::prelude::Pubkey);

/// Compares two keys with `Pubkey`'s own `PartialEq::eq`. The SDK derives it
/// for a struct whose single field is the array of 32 bytes, so the call
/// answers `true` exactly when both keys are the same value. This is taken on
/// trust: the proofs do not read the SDK.
#[verifier::external_body]
pub(crate) fn same_key(a: &Pubkey, b: &Pubkey) -> (same: bool)
    ensures
        same == (*a == *b),
{
    a.eq(b)
}

/// What [`authorize`] answers.
pub open spec fn authorization(caller: Pubkey, expected: Pubkey) -> Result<(), CustomError> {
    if caller == expected {
        Ok(())
    } else {
        Err(CustomError::Unauthorized)
    }
}

/// Lets `caller` through if it is the identity that controls the record.
pub fn authorize(caller: &Pubkey, expected: &Pubkey) -> (verdict: Result<(), CustomError>)
    ensures
        verdict == authorization(*caller, *expected),
{
    if same_key(caller, expected) {
        Ok(())
    } else {
        Err(CustomError::Unauthorized)
    }
}

} // verus!
