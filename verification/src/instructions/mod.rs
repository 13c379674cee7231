use vstd::bytes::{spec_u64_from_le_bytes, u64_from_le_bytes};
use vstd::prelude::*;

use crate::account::EscrowError;

pub mod make;
pub mod refund;
pub mod take;

verus! {

/// The instructions that instruction data encodes: a tag byte (0 for
/// `Make`, 1 for `Take`, 2 for `Refund`), for `Make` and `Take` followed by
/// two little-endian amounts.
#[derive(Clone, Copy, Debug, PartialEq, Eq)]
pub enum EscrowInstruction {
    Make { amount_a: u64, amount_b: u64 },
    Take { amount_a: u64, amount_b: u64 },
    Refund,
}

/// The little-endian `u64` at `offset` in `data`.
pub open spec fn le_u64_at(data: Seq<u8>, offset: int) -> u64 {
    spec_u64_from_le_bytes(data.subrange(offset, offset + 8))
}

/// Whether `unpack` can read `data`: a `Make` or `Take` tag must be
/// followed by at least the two amounts.
pub open spec fn unpack_readable(data: Seq<u8>) -> bool {
    data.len() == 0 || (data[0] != 0 && data[0] != 1) || data.len() >= 17
}

/// The instruction that `data` encodes, or the error for it.
pub open spec fn spec_unpack(data: Seq<u8>) -> Result<EscrowInstruction, EscrowError> {
    if data.len() == 0 {
        Err(EscrowError::InvalidInstructionData)
    } else if data[0] == 0 {
        Ok(EscrowInstruction::Make { amount_a: le_u64_at(data, 1), amount_b: le_u64_at(data, 9) })
    } else if data[0] == 1 {
        Ok(EscrowInstruction::Take { amount_a: le_u64_at(data, 1), amount_b: le_u64_at(data, 9) })
    } else if data[0] == 2 {
        Ok(EscrowInstruction::Refund)
    } else {
        Err(EscrowError::InvalidInstructionData)
    }
}

impl EscrowInstruction {
    /// Decodes instruction data: the tag, then for `Make` and `Take`
    /// `amount_a` and `amount_b`; bytes past them are ignored. The
    /// instructions themselves read the data after the tag in their own
    /// layout (for `make`: bump, amount wanted, amount deposited, so that
    /// `amount_a` spans the bump and seven bytes of the amount wanted); the
    /// decoded amounts serve only to tell the instructions apart. Empty data and an unknown tag are
    /// `InvalidInstructionData`.
    pub fn unpack(data: &[u8]) -> (r: Result<EscrowInstruction, EscrowError>)
        requires
            unpack_readable(data@),
        ensures
            r == spec_unpack(data@),
    {
        if data.len() == 0 {
            return Err(EscrowError::InvalidInstructionData);
        }
        let tag = data[0];
        if tag == 0 {
            let amount_a = u64_from_le_bytes(&data[1..9]);
            let amount_b = u64_from_le_bytes(&data[9..17]);
            Ok(EscrowInstruction::Make { amount_a, amount_b })
        } else if tag == 1 {
            let amount_a = u64_from_le_bytes(&data[1..9]);
            let amount_b = u64_from_le_bytes(&data[9..17]);
            Ok(EscrowInstruction::Take { amount_a, amount_b })
        } else if tag == 2 {
            Ok(EscrowInstruction::Refund)
        } else {
            Err(EscrowError::InvalidInstructionData)
        }
    }
}

} // verus!
