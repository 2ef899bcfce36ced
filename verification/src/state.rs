//! The packed pool-state record.
//!
//! The record is exactly 129 bytes: one flag byte (`0` or `1`) followed by
//! the four 32-byte identities of the initializer and the three vaults, in
//! that order.

use vstd::prelude::*;
use vstd::slice::{slice_subrange, slice_to_vec};
use crate::error::AMMError;
use crate::identity::Identity;

verus! {

/// The packed width of the record.
pub const AMM_LEN: usize = 129;

/// One pool's persistent state.
pub struct AMM {
    /// Whether the pool has been initialized.
    pub is_initialized: bool,
    /// The account that created the pool; only it may close the pool.
    pub initializer_account_pubkey: Identity,
    /// The pool's asset-A vault.
    pub busd_token_account_pubkey: Identity,
    /// The pool's asset-B vault.
    pub bstock_token_account_pubkey: Identity,
    /// The pool's receipt-token vault.
    pub bstocklqdy_token_account_pubkey: Identity,
}

/// The mathematical model of a pool-state record.
#[verifier::ext_equal]
pub struct AMMV {
    pub is_initialized: bool,
    pub initializer: Seq<u8>,
    pub busd: Seq<u8>,
    pub bstock: Seq<u8>,
    pub bstocklqdy: Seq<u8>,
}

impl View for AMM {
    type V = AMMV;

    open spec fn view(&self) -> AMMV {
        AMMV {
            is_initialized: self.is_initialized,
            initializer: self.initializer_account_pubkey@,
            busd: self.busd_token_account_pubkey@,
            bstock: self.bstock_token_account_pubkey@,
            bstocklqdy: self.bstocklqdy_token_account_pubkey@,
        }
    }
}

/// A buffer that decodes: 129 bytes whose flag byte is `0` or `1`.
pub open spec fn valid_record(s: Seq<u8>) -> bool {
    s.len() == AMM_LEN && (s[0] == 0 || s[0] == 1)
}

/// The record a valid buffer decodes to.
pub open spec fn spec_unpack_amm(s: Seq<u8>) -> AMMV {
    AMMV {
        is_initialized: s[0] == 1,
        initializer: s.subrange(1, 33),
        busd: s.subrange(33, 65),
        bstock: s.subrange(65, 97),
        bstocklqdy: s.subrange(97, 129),
    }
}

/// The 129 bytes a record packs to.
pub open spec fn spec_pack_amm(a: AMMV) -> Seq<u8> {
    seq![if a.is_initialized { 1u8 } else { 0u8 }] + a.initializer + a.busd + a.bstock
        + a.bstocklqdy
}

impl AMM {
    /// Whether the record's flag is set.
    pub fn is_initialized(&self) -> (r: bool)
        ensures
            r == self@.is_initialized,
    {
        self.is_initialized
    }

    /// Decodes a record from its packed bytes, whatever the flag's value.
    pub fn unpack_from_slice(src: &[u8]) -> (r: Result<AMM, AMMError>)
        ensures
            valid_record(src@) ==> (r matches Ok(a) && a@ == spec_unpack_amm(src@)),
            !valid_record(src@) ==> r == Err::<AMM, AMMError>(AMMError::InvalidAccountData),
    {
        if src.len() != AMM_LEN {
            return Err(AMMError::InvalidAccountData);
        }
        let flag: u8 = *vstd::slice::slice_index_get(src, 0);
        let is_initialized = match flag {
            0 => false,
            1 => true,
            _ => {
                return Err(AMMError::InvalidAccountData);
            },
        };
        Ok(AMM {
            is_initialized,
            initializer_account_pubkey: Identity::new(slice_to_vec(slice_subrange(src, 1, 33))),
            busd_token_account_pubkey: Identity::new(slice_to_vec(slice_subrange(src, 33, 65))),
            bstock_token_account_pubkey: Identity::new(slice_to_vec(slice_subrange(src, 65, 97))),
            bstocklqdy_token_account_pubkey: Identity::new(
                slice_to_vec(slice_subrange(src, 97, 129)),
            ),
        })
    }

    /// Decodes a record and requires it to be initialized.
    pub fn unpack(src: &[u8]) -> (r: Result<AMM, AMMError>)
        ensures
            valid_record(src@) && src@[0] == 1 ==> (r matches Ok(a) && a@ == spec_unpack_amm(src@)),
            valid_record(src@) && src@[0] == 0 ==> r == Err::<AMM, AMMError>(
                AMMError::UninitializedAccount,
            ),
            !valid_record(src@) ==> r == Err::<AMM, AMMError>(AMMError::InvalidAccountData),
    {
        let amm = Self::unpack_from_slice(src)?;
        if amm.is_initialized() {
            Ok(amm)
        } else {
            Err(AMMError::UninitializedAccount)
        }
    }

    /// Encodes the record into fresh packed bytes.
    pub fn pack(&self) -> (r: Vec<u8>)
        ensures
            r@ == spec_pack_amm(self@),
            r@.len() == AMM_LEN,
    {
        let mut out: Vec<u8> = Vec::new();
        out.push(if self.is_initialized { 1u8 } else { 0u8 });
        let mut f = slice_to_vec(self.initializer_account_pubkey.as_bytes().as_slice());
        out.append(&mut f);
        let mut a = slice_to_vec(self.busd_token_account_pubkey.as_bytes().as_slice());
        out.append(&mut a);
        let mut b = slice_to_vec(self.bstock_token_account_pubkey.as_bytes().as_slice());
        out.append(&mut b);
        let mut l = slice_to_vec(self.bstocklqdy_token_account_pubkey.as_bytes().as_slice());
        out.append(&mut l);
        proof {
            assert(out@ =~= spec_pack_amm(self@));
        }
        out
    }

    /// Encodes the record over the first 129 bytes of an existing buffer,
    /// leaving the rest of the buffer untouched.
    pub fn pack_into_slice(&self, dst: &mut Vec<u8>)
        requires
            old(dst)@.len() >= AMM_LEN,
        ensures
            final(dst)@.len() == old(dst)@.len(),
            final(dst)@.subrange(0, AMM_LEN as int) == spec_pack_amm(self@),
            final(dst)@.skip(AMM_LEN as int) == old(dst)@.skip(AMM_LEN as int),
    {
        let mut out = self.pack();
        proof {
            assert(out@ =~= spec_pack_amm(self@) + dst@.subrange(AMM_LEN as int, AMM_LEN as int));
        }
        let mut i: usize = AMM_LEN;
        while i < dst.len()
            invariant
                AMM_LEN <= i <= dst@.len(),
                dst@ == old(dst)@,
                out@ == spec_pack_amm(self@) + dst@.subrange(AMM_LEN as int, i as int),
            decreases dst@.len() - i,
        {
            proof {
                assert(out@.push(dst@[i as int]) =~= spec_pack_amm(self@) + dst@.subrange(
                    AMM_LEN as int,
                    i + 1,
                ));
            }
            out.push(dst[i]);
            i += 1;
        }
        *dst = out;
        proof {
            assert(dst@.subrange(0, AMM_LEN as int) =~= spec_pack_amm(self@));
            assert(dst@.skip(AMM_LEN as int) =~= old(dst)@.skip(AMM_LEN as int));
        }
    }
}

/// Re-encoding the record decoded from any valid 129-byte buffer yields
/// that buffer back.
pub proof fn lemma_record_round_trip(s: Seq<u8>)
    requires
        valid_record(s),
    ensures
        spec_pack_amm(spec_unpack_amm(s)) == s,
{
    assert(spec_pack_amm(spec_unpack_amm(s)) =~= s);
}

/// Decoding the bytes a record packs to yields the record back, for every
/// record whose identities hold 32 bytes.
pub proof fn lemma_state_round_trip(a: AMMV)
    requires
        a.initializer.len() == 32,
        a.busd.len() == 32,
        a.bstock.len() == 32,
        a.bstocklqdy.len() == 32,
    ensures
        valid_record(spec_pack_amm(a)),
        spec_unpack_amm(spec_pack_amm(a)) == a,
{
    assert(spec_unpack_amm(spec_pack_amm(a)).initializer =~= a.initializer);
    assert(spec_unpack_amm(spec_pack_amm(a)).busd =~= a.busd);
    assert(spec_unpack_amm(spec_pack_amm(a)).bstock =~= a.bstock);
    assert(spec_unpack_amm(spec_pack_amm(a)).bstocklqdy =~= a.bstocklqdy);
    assert(spec_unpack_amm(spec_pack_amm(a)) =~= a);
}

} // verus!
