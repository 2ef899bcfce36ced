//! The error surface of the pool.
//!
//! The first five variants are the pool's own error codes; the remaining
//! ones are the conditions that the host environment surfaces for any
//! program (a missing signature, a record in the wrong state, malformed
//! account data, and the explicitly guarded division by zero).

use vstd::prelude::*;

verus! {

#[derive(Clone, Copy, Debug, PartialEq, Eq, Structural)]
pub enum AMMError {
    /// The instruction payload is malformed: unknown opcode or truncated
    /// arguments.
    InvalidInstruction,
    /// Close was attempted by an account other than the stored initializer.
    InvalidInitializer,
    /// The pool-state account is not rent exempt at initialization.
    NotRentExempt,
    /// The deposited amounts do not match the pool's current ratio.
    InvalidRatio,
    /// A checked addition or multiplication overflowed `u64`.
    AmountOverflow,
    /// The operation needs the caller's signature and it is missing.
    MissingRequiredSignature,
    /// Init found the pool-state record already initialized.
    AccountAlreadyInitialized,
    /// A record or token account that must be initialized is not.
    UninitializedAccount,
    /// An account's bytes do not parse, or a supplied vault does not match
    /// the identity stored in the pool state.
    InvalidAccountData,
    /// A pool-ratio computation would divide by a zero vault balance.
    DivisionByZero,
    /// No pool authority could be derived for the program identity.
    AuthorityNotFound,
}

} // verus!
