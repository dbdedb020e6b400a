//! The operation payload encoding: one leading tag byte selecting the
//! operation, followed by an eight-byte little-endian amount.
//!
//! Tag 0 is Initialize, 1 is Exchange, 2 is Cancel.  The amount is the
//! locked amount for Initialize and the expected amount for Exchange; it is
//! present but unused for Cancel.  An unknown tag, or a payload shorter
//! than nine bytes, is refused as an invalid instruction.

use vstd::prelude::*;
use vstd::bytes::{spec_u64_from_le_bytes, u64_from_le_bytes};
use vstd::slice::{slice_index_get, slice_subrange};
use crate::error::{EscrowError, OpError};

verus! {

/// One decoded operation request.
#[derive(Clone, Copy, Debug, PartialEq, Eq, Structural)]
pub enum EscrowInstruction {
    /// Open an escrow: lock the holding account and demand `amount`.
    InitEscrow { amount: u64 },
    /// Settle an escrow, declaring the holding account's balance.
    Exchange { amount: u64 },
    /// Close an escrow and return the locked asset to the maker.
    CancelEscrow { amount: u64 },
}

/// What decoding a payload yields: the instruction it encodes, or an
/// invalid-instruction failure for a short payload or an unknown tag.
pub open spec fn parse_instruction(s: Seq<u8>) -> Result<EscrowInstruction, OpError> {
    if s.len() < 9 {
        Err(OpError::Escrow(EscrowError::InvalidInstruction))
    } else {
        let amount = spec_u64_from_le_bytes(s.subrange(1, 9));
        if s[0] == 0 {
            Ok(EscrowInstruction::InitEscrow { amount })
        } else if s[0] == 1 {
            Ok(EscrowInstruction::Exchange { amount })
        } else if s[0] == 2 {
            Ok(EscrowInstruction::CancelEscrow { amount })
        } else {
            Err(OpError::Escrow(EscrowError::InvalidInstruction))
        }
    }
}

impl EscrowInstruction {
    /// Decodes an operation payload.
    pub fn unpack(input: &[u8]) -> (r: Result<EscrowInstruction, OpError>)
        ensures
            r == parse_instruction(input@),
    {
        if input.len() < 9 {
            return Err(OpError::Escrow(EscrowError::InvalidInstruction));
        }
        let tag = *slice_index_get(input, 0);
        let amount = u64_from_le_bytes(slice_subrange(input, 1, 9));
        match tag {
            0 => Ok(EscrowInstruction::InitEscrow { amount }),
            1 => Ok(EscrowInstruction::Exchange { amount }),
            2 => Ok(EscrowInstruction::CancelEscrow { amount }),
            _ => Err(OpError::Escrow(EscrowError::InvalidInstruction)),
        }
    }
}

} // verus!
