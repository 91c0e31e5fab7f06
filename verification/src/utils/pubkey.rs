use anchor_lang::prelude::Pubkey;
use vstd::prelude::*;

verus! {

/// Solana's 32-byte account address. The library stores, copies and compares
/// addresses and never looks inside one.
#[verifier::external_type_specification]
#[verifier::external_body]
pub struct ExPubkey(Pubkey);

/// `Pubkey`'s `clone`: an address is `Copy`, and its clone is the same
/// address.
pub assume_specification[ <Pubkey as Clone>::clone ](key: &Pubkey) -> (copy: Pubkey)
    ensures
        copy == *key,
;

/// `Pubkey`'s `==`, which compares the 32 bytes of the two addresses: it
/// answers `true` exactly when both are the same address.
#[verifier::external_body]
pub(crate) fn same_key(a: &Pubkey, b: &Pubkey) -> (same: bool)
    ensures
        same == (*a == *b),
{
    a == b
}

} // verus!
