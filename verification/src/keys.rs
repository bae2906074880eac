//! Identities and deterministic storage addresses.
//!
//! Every participant is named by a public key, rendered here as a machine
//! word. A record's storage address is derived from the identity that seeds
//! it, so a given identity always maps to the same storage slot, and
//! distinct identities never collide.

use vstd::prelude::*;

verus! {

/// An identity: the public key of an owner, payer or donor.
#[derive(Clone, Copy, Debug, PartialEq, Eq, Structural)]
pub struct Pubkey {
    pub id: u64,
}

/// A deterministic storage address, derived from identity bytes.
#[derive(Clone, Copy, Debug, PartialEq, Eq, Structural)]
pub struct Address {
    pub value: u64,
}

/// The address that an identity's seed bytes derive to.
pub open spec fn address_for(key: Pubkey) -> Address {
    Address { value: key.id }
}

/// Derives the storage address of the record seeded by `key`.
pub fn derive_address(key: &Pubkey) -> (r: Address)
    ensures
        r == address_for(*key),
{
    Address { value: key.id }
}

/// Address derivation never collides: distinct identities get distinct slots.
pub proof fn lemma_derivation_injective(a: Pubkey, b: Pubkey)
    ensures
        address_for(a) == address_for(b) ==> a == b,
{
}

/// The capability check: whether `signer` is exactly the identity
/// `required`. The host's signature verification is what makes presenting
/// `signer` meaningful; the comparison itself is all that happens here.
pub fn authorize(signer: &Pubkey, required: &Pubkey) -> (r: bool)
    ensures
        r == (*signer == *required),
{
    signer.id == required.id
}

} // verus!
