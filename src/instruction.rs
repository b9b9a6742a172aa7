use crate::error::EscrowError;
use vstd::bytes::{lemma_auto_spec_u64_to_from_le_bytes, spec_u64_from_le_bytes, spec_u64_to_le_bytes, u64_from_le_bytes};
use vstd::prelude::*;
use vstd::slice::slice_subrange;

verus! {

/// The three steps of the escrow protocol, as carried in instruction data
/// `[tag][payload..]`.
#[derive(Debug, Clone, Copy, PartialEq, Eq, Structural)]
pub enum EscrowInstruction {
    /// Tag 0, followed by the amount as 8 little-endian bytes: the signer
    /// deposits `amount` lamports into the escrow account.
    ///
    /// Accounts: initializer (signer), escrow account, system program.
    Initialize {
        /// Lamports the initializer deposits.
        amount: u64,
    },
    /// Tag 1: a taker settles the escrow.
    ///
    /// Accounts: taker (signer), initializer, escrow account, system program.
    Exchange,
    /// Tag 2: the initializer takes the deposit back.
    ///
    /// Accounts: initializer (signer), escrow account, system program.
    Cancel,
}

/// The instruction that `input` encodes, or the error that decoding it gives.
/// Bytes after the ones a tag needs are ignored.
pub open spec fn spec_unpack(input: Seq<u8>) -> Result<EscrowInstruction, EscrowError> {
    if input.len() == 0 {
        Err(EscrowError::InvalidInstructionData)
    } else if input[0] == 0 {
        if input.len() < 9 {
            Err(EscrowError::InvalidInstructionData)
        } else {
            Ok(EscrowInstruction::Initialize { amount: spec_u64_from_le_bytes(input.subrange(1, 9)) })
        }
    } else if input[0] == 1 {
        Ok(EscrowInstruction::Exchange)
    } else if input[0] == 2 {
        Ok(EscrowInstruction::Cancel)
    } else {
        Err(EscrowError::InvalidInstructionData)
    }
}

impl EscrowInstruction {
    /// Decodes instruction data.
    pub fn unpack(input: &[u8]) -> (r: Result<EscrowInstruction, EscrowError>)
        ensures
            r == spec_unpack(input@),
    {
        if input.len() == 0 {
            return Err(EscrowError::InvalidInstructionData);
        }
        let tag = input[0];
        if tag == 0 {
            if input.len() < 9 {
                return Err(EscrowError::InvalidInstructionData);
            }
            let amount = u64_from_le_bytes(slice_subrange(input, 1, 9));
            Ok(EscrowInstruction::Initialize { amount })
        } else if tag == 1 {
            Ok(EscrowInstruction::Exchange)
        } else if tag == 2 {
            Ok(EscrowInstruction::Cancel)
        } else {
            Err(EscrowError::InvalidInstructionData)
        }
    }
}

/// Decoding reads back the amount of an Initialize whatever follows it, and
/// maps the tags 1 and 2 to Exchange and Cancel; an empty buffer and every
/// other tag are rejected as invalid instruction data.
pub proof fn lemma_unpack_tags(amount: u64, rest: Seq<u8>, tag: u8)
    ensures
        spec_unpack(seq![0u8] + spec_u64_to_le_bytes(amount) + rest)
            == Ok::<EscrowInstruction, EscrowError>(EscrowInstruction::Initialize { amount }),
        spec_unpack(seq![1u8] + rest) == Ok::<EscrowInstruction, EscrowError>(EscrowInstruction::Exchange),
        spec_unpack(seq![2u8] + rest) == Ok::<EscrowInstruction, EscrowError>(EscrowInstruction::Cancel),
        spec_unpack(Seq::empty()) == Err::<EscrowInstruction, EscrowError>(EscrowError::InvalidInstructionData),
        tag > 2 ==> spec_unpack(seq![tag] + rest)
            == Err::<EscrowInstruction, EscrowError>(EscrowError::InvalidInstructionData),
{
    lemma_auto_spec_u64_to_from_le_bytes();
    let bytes = spec_u64_to_le_bytes(amount);
    let input = seq![0u8] + bytes + rest;
    assert(input.subrange(1, 9) =~= bytes);
    assert((seq![1u8] + rest)[0] == 1);
    assert((seq![2u8] + rest)[0] == 2);
    assert((seq![tag] + rest)[0] == tag);
}

} // verus!
