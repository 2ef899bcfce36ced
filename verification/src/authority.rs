//! Derivation of the pool authority.
//!
//! The pool's vaults are owned by a deterministically derived, credential-
//! less address, bound to the program identity by a fixed seed label.  The
//! derivation also yields a bump byte that must be handed back to the
//! ledger whenever the pool signs on its own behalf.

use vstd::prelude::*;
use crate::identity::{Identity, IDENTITY_LEN};

verus! {

/// The result of deriving a program-bound authority from a seed label and
/// a program identity: the derived address and its bump byte, or nothing
/// in the improbable case that no viable bump exists.  The derivation is a
/// pure function of its two arguments.
pub uninterp spec fn authority_of(seed: Seq<u8>, program_id: Seq<u8>) -> Option<(Seq<u8>, u8)>;

/// The fixed seed label, the ASCII bytes of "bravv".
pub open spec fn spec_pool_seed() -> Seq<u8> {
    seq![98u8, 114u8, 97u8, 118u8, 118u8]
}

/// The authority derivation for this pool program: the fixed seed applied
/// to the program identity.
pub open spec fn spec_derive_pool_authority(program_id: Seq<u8>) -> Option<(Seq<u8>, u8)> {
    authority_of(spec_pool_seed(), program_id)
}

/// Relies on Pubkey::try_find_program_address: the derived address and
/// bump are a deterministic function of the seed and the program identity
/// alone, the address holds 32 bytes, and the search fails only by
/// returning nothing.
#[verifier::external_body]
fn find_authority(seed: &[u8], program_id: &Identity) -> (r: Option<(Identity, u8)>)
    ensures
        match r {
            Some(p) => authority_of(seed@, program_id@) matches Some(q) && p.0@ == q.0
                && p.0@.len() == IDENTITY_LEN && p.1 == q.1,
            None => authority_of(seed@, program_id@) is None,
        },
{
    let mut arr = [0u8; 32];
    arr.copy_from_slice(program_id.as_bytes().as_slice());
    let pk = solana_program::pubkey::Pubkey::new_from_array(arr);
    match solana_program::pubkey::Pubkey::try_find_program_address(&[seed], &pk) {
        Some((addr, bump)) => Some((Identity::new(addr.to_bytes().to_vec()), bump)),
        None => None,
    }
}

/// The fixed seed label as bytes.
pub fn pool_seed() -> (s: Vec<u8>)
    ensures
        s@ == spec_pool_seed(),
{
    let mut s: Vec<u8> = Vec::new();
    s.push(98);
    s.push(114);
    s.push(97);
    s.push(118);
    s.push(118);
    proof {
        assert(s@ =~= spec_pool_seed());
    }
    s
}

/// Derives the pool authority and its bump for a program identity.
pub fn derive_pool_authority(program_id: &Identity) -> (r: Option<(Identity, u8)>)
    ensures
        match r {
            Some(p) => spec_derive_pool_authority(program_id@) matches Some(q) && p.0@ == q.0
                && p.1 == q.1,
            None => spec_derive_pool_authority(program_id@) is None,
        },
{
    let seed = pool_seed();
    find_authority(seed.as_slice(), program_id)
}

} // verus!
