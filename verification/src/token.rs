//! Reading a vault's balance out of a packed ledger token account.
//!
//! The ledger stores each vault as a 165-byte packed token account.  The
//! processor only needs the balance, which sits at a fixed offset; parsing
//! is delegated to the ledger's own library and its result is pinned to the
//! byte layout here.

use vstd::prelude::*;
use vstd::bytes::spec_u64_from_le_bytes;
use solana_program::program_pack::Pack;
use crate::error::AMMError;

verus! {

/// The packed width of a ledger token account.
pub const TOKEN_ACCOUNT_LEN: usize = 165;

/// Whether the four-byte optional-value tag at `off` is well formed: it
/// must read 0 or 1.
pub open spec fn coption_tag_ok(s: Seq<u8>, off: int) -> bool {
    (s[off] == 0 || s[off] == 1) && s[off + 1] == 0 && s[off + 2] == 0 && s[off + 3] == 0
}

/// A buffer that parses as a ledger token account: 165 bytes whose three
/// optional-value tags (at 72, 109 and 129) and state byte (at 108) are
/// well formed.
pub open spec fn token_account_shaped(s: Seq<u8>) -> bool {
    &&& s.len() == TOKEN_ACCOUNT_LEN
    &&& coption_tag_ok(s, 72)
    &&& coption_tag_ok(s, 109)
    &&& coption_tag_ok(s, 129)
    &&& s[108] <= 2
}

/// A token account that parses and is initialized (state byte 1 or 2).
pub open spec fn token_account_ready(s: Seq<u8>) -> bool {
    token_account_shaped(s) && s[108] != 0
}

/// The balance a token account holds: the little-endian `u64` at bytes
/// 64..72.
pub open spec fn token_balance(s: Seq<u8>) -> u64 {
    spec_u64_from_le_bytes(s.subrange(64, 72))
}

/// The error reported for a token account that cannot be read: not yet
/// initialized, or outright malformed.
pub open spec fn token_account_error(s: Seq<u8>) -> AMMError {
    if token_account_shaped(s) {
        AMMError::UninitializedAccount
    } else {
        AMMError::InvalidAccountData
    }
}

/// Relies on spl_token::state::Account::unpack: a packed token account is
/// 165 bytes; parsing fails with invalid account data when the length is
/// wrong, an optional-value tag (bytes 72..76, 109..113, 129..133) reads
/// neither 0 nor 1, or the state byte (108) is above 2; it fails as
/// uninitialized when the state byte is 0; otherwise the balance is the
/// little-endian `u64` at bytes 64..72.
#[verifier::external_body]
#[allow(deprecated)]
pub fn token_account_balance(data: &[u8]) -> (r: Result<u64, AMMError>)
    ensures
        match r {
            Ok(amount) => token_account_ready(data@) && amount == token_balance(data@),
            Err(e) => !token_account_ready(data@) && e == token_account_error(data@),
        },
{
    match spl_token::state::Account::unpack(data) {
        Ok(acc) => Ok(acc.amount),
        Err(solana_program::program_error::ProgramError::UninitializedAccount) => {
            Err(AMMError::UninitializedAccount)
        },
        Err(_) => Err(AMMError::InvalidAccountData),
    }
}

} // verus!
