//! The instruction wire format.
//!
//! Byte 0 of a payload is the opcode; opcodes 1 through 4 are followed by
//! one or two little-endian `u64` arguments.  Anything else is rejected as
//! `InvalidInstruction`.

use vstd::prelude::*;
use vstd::bytes::{spec_u64_from_le_bytes, spec_u64_to_le_bytes, u64_from_le_bytes, u64_to_le_bytes};
use vstd::slice::slice_subrange;
use crate::error::AMMError;

verus! {

/// One decoded pool operation.
#[derive(Clone, Copy, Debug, PartialEq, Eq, Structural)]
pub enum AMMInstruction {
    /// Opcode 0: initialize the pool.
    InitAMM {},
    /// Opcode 1: provide `busd_amount` of asset A and `bstock_amount` of
    /// asset B as liquidity.
    ProvLiquidity { busd_amount: u64, bstock_amount: u64 },
    /// Opcode 2: redeem `amount` receipt tokens for pool assets.
    ClaimLiquidity { amount: u64 },
    /// Opcode 3: trade `amount` of asset A for asset B.
    TradeBUSD { amount: u64 },
    /// Opcode 4: trade `amount` of asset B for asset A.
    TradebStock { amount: u64 },
    /// Opcode 5: close the pool.
    CloseAMM {},
}

/// What `AMMInstruction::unpack` returns on any byte sequence.
pub open spec fn spec_unpack(input: Seq<u8>) -> Result<AMMInstruction, AMMError> {
    if input.len() == 0 {
        Err(AMMError::InvalidInstruction)
    } else {
        let rest = input.skip(1);
        if input[0] == 0 {
            Ok(AMMInstruction::InitAMM {})
        } else if input[0] == 1 {
            if rest.len() >= 16 {
                Ok(AMMInstruction::ProvLiquidity {
                    busd_amount: spec_u64_from_le_bytes(rest.subrange(0, 8)),
                    bstock_amount: spec_u64_from_le_bytes(rest.subrange(8, 16)),
                })
            } else {
                Err(AMMError::InvalidInstruction)
            }
        } else if input[0] == 2 {
            if rest.len() >= 8 {
                Ok(AMMInstruction::ClaimLiquidity {
                    amount: spec_u64_from_le_bytes(rest.subrange(0, 8)),
                })
            } else {
                Err(AMMError::InvalidInstruction)
            }
        } else if input[0] == 3 {
            if rest.len() >= 8 {
                Ok(AMMInstruction::TradeBUSD {
                    amount: spec_u64_from_le_bytes(rest.subrange(0, 8)),
                })
            } else {
                Err(AMMError::InvalidInstruction)
            }
        } else if input[0] == 4 {
            if rest.len() >= 8 {
                Ok(AMMInstruction::TradebStock {
                    amount: spec_u64_from_le_bytes(rest.subrange(0, 8)),
                })
            } else {
                Err(AMMError::InvalidInstruction)
            }
        } else if input[0] == 5 {
            Ok(AMMInstruction::CloseAMM {})
        } else {
            Err(AMMError::InvalidInstruction)
        }
    }
}

/// The encoding of an operation: the opcode byte followed by its
/// little-endian arguments.
pub open spec fn spec_pack(ins: AMMInstruction) -> Seq<u8> {
    match ins {
        AMMInstruction::InitAMM {} => seq![0u8],
        AMMInstruction::ProvLiquidity { busd_amount, bstock_amount } => seq![1u8]
            + spec_u64_to_le_bytes(busd_amount) + spec_u64_to_le_bytes(bstock_amount),
        AMMInstruction::ClaimLiquidity { amount } => seq![2u8] + spec_u64_to_le_bytes(amount),
        AMMInstruction::TradeBUSD { amount } => seq![3u8] + spec_u64_to_le_bytes(amount),
        AMMInstruction::TradebStock { amount } => seq![4u8] + spec_u64_to_le_bytes(amount),
        AMMInstruction::CloseAMM {} => seq![5u8],
    }
}

impl AMMInstruction {
    /// Decodes a binary payload into an operation.
    pub fn unpack(input: &[u8]) -> (r: Result<AMMInstruction, AMMError>)
        ensures
            r == spec_unpack(input@),
    {
        if input.len() == 0 {
            return Err(AMMError::InvalidInstruction);
        }
        let tag: u8 = *vstd::slice::slice_index_get(input, 0);
        let rest: &[u8] = slice_subrange(input, 1, input.len());
        assert(rest@ =~= input@.skip(1));
        match tag {
            0 => Ok(AMMInstruction::InitAMM {}),
            1 => {
                let busd_amount = Self::unpack_amount(rest)?;
                let bstock_amount = Self::unpack_second_amount(rest)?;
                Ok(AMMInstruction::ProvLiquidity { busd_amount, bstock_amount })
            },
            2 => {
                let amount = Self::unpack_amount(rest)?;
                Ok(AMMInstruction::ClaimLiquidity { amount })
            },
            3 => {
                let amount = Self::unpack_amount(rest)?;
                Ok(AMMInstruction::TradeBUSD { amount })
            },
            4 => {
                let amount = Self::unpack_amount(rest)?;
                Ok(AMMInstruction::TradebStock { amount })
            },
            5 => Ok(AMMInstruction::CloseAMM {}),
            _ => Err(AMMError::InvalidInstruction),
        }
    }

    /// Reads the little-endian argument at bytes 0..8 of the payload rest.
    fn unpack_amount(input: &[u8]) -> (r: Result<u64, AMMError>)
        ensures
            input@.len() >= 8 ==> r == Ok::<u64, AMMError>(
                spec_u64_from_le_bytes(input@.subrange(0, 8)),
            ),
            input@.len() < 8 ==> r == Err::<u64, AMMError>(AMMError::InvalidInstruction),
    {
        if input.len() < 8 {
            return Err(AMMError::InvalidInstruction);
        }
        Ok(u64_from_le_bytes(slice_subrange(input, 0, 8)))
    }

    /// Reads the little-endian argument at bytes 8..16 of the payload rest.
    fn unpack_second_amount(input: &[u8]) -> (r: Result<u64, AMMError>)
        ensures
            input@.len() >= 16 ==> r == Ok::<u64, AMMError>(
                spec_u64_from_le_bytes(input@.subrange(8, 16)),
            ),
            input@.len() < 16 ==> r == Err::<u64, AMMError>(AMMError::InvalidInstruction),
    {
        if input.len() < 16 {
            return Err(AMMError::InvalidInstruction);
        }
        Ok(u64_from_le_bytes(slice_subrange(input, 8, 16)))
    }

    /// Encodes the operation into its binary payload.
    pub fn pack(&self) -> (r: Vec<u8>)
        ensures
            r@ == spec_pack(*self),
    {
        let mut out: Vec<u8> = Vec::new();
        match *self {
            AMMInstruction::InitAMM {} => {
                out.push(0u8);
            },
            AMMInstruction::ProvLiquidity { busd_amount, bstock_amount } => {
                out.push(1u8);
                let mut a = u64_to_le_bytes(busd_amount);
                out.append(&mut a);
                let mut b = u64_to_le_bytes(bstock_amount);
                out.append(&mut b);
            },
            AMMInstruction::ClaimLiquidity { amount } => {
                out.push(2u8);
                let mut a = u64_to_le_bytes(amount);
                out.append(&mut a);
            },
            AMMInstruction::TradeBUSD { amount } => {
                out.push(3u8);
                let mut a = u64_to_le_bytes(amount);
                out.append(&mut a);
            },
            AMMInstruction::TradebStock { amount } => {
                out.push(4u8);
                let mut a = u64_to_le_bytes(amount);
                out.append(&mut a);
            },
            AMMInstruction::CloseAMM {} => {
                out.push(5u8);
            },
        }
        proof {
            assert(out@ =~= spec_pack(*self));
        }
        out
    }
}

/// Decoding an encoded operation yields the operation back, for every
/// operation.
pub proof fn lemma_instruction_round_trip(ins: AMMInstruction)
    ensures
        spec_unpack(spec_pack(ins)) == Ok::<AMMInstruction, AMMError>(ins),
{
    vstd::bytes::lemma_auto_spec_u64_to_from_le_bytes();
    let enc = spec_pack(ins);
    match ins {
        AMMInstruction::InitAMM {} => {
        },
        AMMInstruction::ProvLiquidity { busd_amount, bstock_amount } => {
            assert(enc.skip(1).subrange(0, 8) =~= spec_u64_to_le_bytes(busd_amount));
            assert(enc.skip(1).subrange(8, 16) =~= spec_u64_to_le_bytes(bstock_amount));
        },
        AMMInstruction::ClaimLiquidity { amount } => {
            assert(enc.skip(1).subrange(0, 8) =~= spec_u64_to_le_bytes(amount));
        },
        AMMInstruction::TradeBUSD { amount } => {
            assert(enc.skip(1).subrange(0, 8) =~= spec_u64_to_le_bytes(amount));
        },
        AMMInstruction::TradebStock { amount } => {
            assert(enc.skip(1).subrange(0, 8) =~= spec_u64_to_le_bytes(amount));
        },
        AMMInstruction::CloseAMM {} => {
        },
    }
}

} // verus!
