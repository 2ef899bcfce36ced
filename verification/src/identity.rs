//! Opaque 32-byte account identities.
//!
//! Every account the pool touches is named by a 32-byte identifier.  The
//! processor only ever copies identities and compares them for equality, so
//! the library models them as an owned byte vector with the fixed length as
//! a type invariant.

use vstd::prelude::*;

verus! {

/// The number of bytes in an account identity.
pub const IDENTITY_LEN: usize = 32;

/// A 32-byte account identity.
#[derive(Debug)]
pub struct Identity {
    bytes: Vec<u8>,
}

impl View for Identity {
    type V = Seq<u8>;

    closed spec fn view(&self) -> Seq<u8> {
        self.bytes@
    }
}

#[verifier::type_invariant]
pub closed spec fn identity_inv(id: Identity) -> bool {
    id@.len() == IDENTITY_LEN
}

impl Identity {
    /// Wraps 32 bytes as an identity.
    pub fn new(bytes: Vec<u8>) -> (r: Identity)
        requires
            bytes@.len() == IDENTITY_LEN,
        ensures
            r@ == bytes@,
    {
        Identity { bytes }
    }

    /// The identity's bytes.
    pub fn as_bytes(&self) -> (r: &Vec<u8>)
        ensures
            r@ == self@,
            r@.len() == IDENTITY_LEN,
    {
        proof {
            use_type_invariant(self);
        }
        &self.bytes
    }

}

impl Clone for Identity {
    fn clone(&self) -> (r: Identity)
        ensures
            r@ == self@,
    {
        proof {
            use_type_invariant(self);
        }
        Identity { bytes: vstd::slice::slice_to_vec(self.bytes.as_slice()) }
    }
}

impl PartialEq for Identity {
    fn eq(&self, other: &Identity) -> (r: bool) {
        proof {
            use_type_invariant(self);
            use_type_invariant(other);
        }
        let mut i: usize = 0;
        while i < IDENTITY_LEN
            invariant
                0 <= i <= IDENTITY_LEN,
                self@.len() == IDENTITY_LEN,
                other@.len() == IDENTITY_LEN,
                forall|j: int| 0 <= j < i ==> self@[j] == other@[j],
            decreases IDENTITY_LEN - i,
        {
            if self.bytes[i] != other.bytes[i] {
                return false;
            }
            i += 1;
        }
        proof {
            assert(self@ =~= other@);
        }
        true
    }
}

impl Eq for Identity {}

impl vstd::std_specs::cmp::PartialEqSpecImpl for Identity {
    open spec fn obeys_eq_spec() -> bool {
        true
    }

    open spec fn eq_spec(&self, other: &Identity) -> bool {
        self@ == other@
    }
}

} // verus!
