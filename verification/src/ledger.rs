//! What the processor hands to, and reads from, the surrounding host.
//!
//! An operation receives plain views of the accounts it was given — an
//! identity with a signer flag, or a vault identity with its packed token
//! bytes — and returns the calls it wants the external ledger transfer
//! service to perform.  The host executes them atomically.

use vstd::prelude::*;
use crate::identity::Identity;

verus! {

/// A presented caller account: its identity and whether it signed the
/// invocation.
pub struct AccountView {
    pub identity: Identity,
    pub is_signer: bool,
}

/// The model of a caller account.
pub struct AccountViewV {
    pub identity: Seq<u8>,
    pub is_signer: bool,
}

impl View for AccountView {
    type V = AccountViewV;

    open spec fn view(&self) -> AccountViewV {
        AccountViewV { identity: self.identity@, is_signer: self.is_signer }
    }
}

/// A presented vault account: its identity and its packed token-account
/// bytes.
pub struct VaultAccount {
    pub identity: Identity,
    pub data: Vec<u8>,
}

/// The model of a vault account.
pub struct VaultAccountV {
    pub identity: Seq<u8>,
    pub data: Seq<u8>,
}

impl View for VaultAccount {
    type V = VaultAccountV;

    open spec fn view(&self) -> VaultAccountV {
        VaultAccountV { identity: self.identity@, data: self.data@ }
    }
}

/// One call to the external ledger transfer service.
pub enum LedgerOp {
    /// Move `amount` tokens from `source` to `dest`, authorized by
    /// `authority`.  When `pool_signed` holds, `authority` is the derived
    /// pool authority and the call is signed with the pool's seed and bump.
    Transfer {
        source: Identity,
        dest: Identity,
        authority: Identity,
        amount: u64,
        pool_signed: bool,
    },
    /// Re-assign ownership of `account` from `current_owner` to
    /// `new_owner`.
    SetOwner { account: Identity, new_owner: Identity, current_owner: Identity },
    /// Close `account` and release its residual resources to `dest`,
    /// signed by the pool authority.
    CloseAccount { account: Identity, dest: Identity },
}

/// The model of a ledger call.
#[verifier::ext_equal]
pub enum LedgerOpV {
    Transfer { source: Seq<u8>, dest: Seq<u8>, authority: Seq<u8>, amount: u64, pool_signed: bool },
    SetOwner { account: Seq<u8>, new_owner: Seq<u8>, current_owner: Seq<u8> },
    CloseAccount { account: Seq<u8>, dest: Seq<u8> },
}

impl View for LedgerOp {
    type V = LedgerOpV;

    open spec fn view(&self) -> LedgerOpV {
        match *self {
            LedgerOp::Transfer { ref source, ref dest, ref authority, amount, pool_signed } => {
                LedgerOpV::Transfer {
                    source: source@,
                    dest: dest@,
                    authority: authority@,
                    amount,
                    pool_signed,
                }
            },
            LedgerOp::SetOwner { ref account, ref new_owner, ref current_owner } => {
                LedgerOpV::SetOwner {
                    account: account@,
                    new_owner: new_owner@,
                    current_owner: current_owner@,
                }
            },
            LedgerOp::CloseAccount { ref account, ref dest } => {
                LedgerOpV::CloseAccount { account: account@, dest: dest@ }
            },
        }
    }
}

/// The model of a list of ledger calls.
pub open spec fn ops_view(ops: Seq<LedgerOp>) -> Seq<LedgerOpV> {
    ops.map_values(|op: LedgerOp| op@)
}

} // verus!
