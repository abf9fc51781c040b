//! The account-address type of the surrounding host, carried through
//! fulfillment records and method selection. This core never reads what is
//! inside an address; it only copies addresses into the records it emits.

use vstd::prelude::*;

use solana_program::pubkey::Pubkey;

verus! {

/// `solana_program::pubkey::Pubkey`: a 32-byte account address, opaque to
/// this library.
#[verifier::external_type_specification]
#[verifier::external_body]
pub struct ExPubkey(Pubkey);

/// Relies on `Pubkey`'s derived `Clone`, which copies the 32-byte address
/// unchanged.
#[verifier::external_body]
pub fn clone_pubkey(key: &Pubkey) -> (r: Pubkey)
    ensures
        r == *key,
{
    key.clone()
}

} // verus!
