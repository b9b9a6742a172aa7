use crate::error::EscrowError;
use vstd::bytes::{
    lemma_auto_spec_u64_to_from_le_bytes, spec_u64_from_le_bytes, spec_u64_to_le_bytes,
    u64_from_le_bytes, u64_to_le_bytes,
};
use vstd::prelude::*;
use vstd::slice::slice_subrange;

verus! {

/// Length of the identity field at the start of a record.
pub const IDENTITY_LEN: usize = 32;

/// Offset of the active flag, the last byte of a record.
pub const FLAG_OFFSET: usize = 40;

/// The escrow record as stored in the first bytes of the escrow account:
/// `[0..32]` initializer address, `[32..40]` deposited amount (little
/// endian), `[40]` active flag.
#[derive(Debug, Clone, Copy, PartialEq, Eq, Default)]
pub struct EscrowState {
    /// Address of the account that opened the escrow.
    pub initializer_pubkey: [u8; 32],
    /// Lamports deposited at Initialize.
    pub initializer_amount: u64,
    /// True from Initialize until Exchange or Cancel.
    pub is_initialized: bool,
}

/// What a record holds, with the address as a sequence of bytes.
pub struct EscrowRecord {
    pub identity: Seq<u8>,
    pub amount: u64,
    pub active: bool,
}

impl EscrowRecord {
    /// A record whose address has the length of the identity field.
    pub open spec fn valid(self) -> bool {
        self.identity.len() == IDENTITY_LEN
    }
}

impl View for EscrowState {
    type V = EscrowRecord;

    open spec fn view(&self) -> EscrowRecord {
        EscrowRecord {
            identity: self.initializer_pubkey@,
            amount: self.initializer_amount,
            active: self.is_initialized,
        }
    }
}

/// The byte written for the active flag.
pub open spec fn flag_byte(active: bool) -> u8 {
    if active {
        1u8
    } else {
        0u8
    }
}

/// The 41 bytes that store `r`.
pub open spec fn encode_record(r: EscrowRecord) -> Seq<u8> {
    r.identity + spec_u64_to_le_bytes(r.amount) + seq![flag_byte(r.active)]
}

/// The record that the first 41 bytes of `s` hold; any non-zero flag byte
/// reads as active.
pub open spec fn decode_record(s: Seq<u8>) -> EscrowRecord {
    EscrowRecord {
        identity: s.subrange(0, IDENTITY_LEN as int),
        amount: spec_u64_from_le_bytes(s.subrange(IDENTITY_LEN as int, FLAG_OFFSET as int)),
        active: s[FLAG_OFFSET as int] != 0,
    }
}

impl EscrowState {
    /// Size of a stored record in bytes.
    pub const LEN: usize = 41;

    /// Writes the record into the first 41 bytes of `dst` and leaves the
    /// rest of it untouched; fails without writing if `dst` is shorter.
    pub fn pack(&self, dst: &mut [u8]) -> (r: Result<(), EscrowError>)
        ensures
            old(dst)@.len() < Self::LEN ==> r == Err::<(), EscrowError>(EscrowError::BufferTooSmall)
                && final(dst)@ == old(dst)@,
            old(dst)@.len() >= Self::LEN ==> r == Ok::<(), EscrowError>(())
                && final(dst)@ == encode_record(self@) + old(dst)@.subrange(
                Self::LEN as int,
                old(dst)@.len() as int,
            ),
    {
        if dst.len() < Self::LEN {
            return Err(EscrowError::BufferTooSmall);
        }
        let ghost old_dst = dst@;
        let mut i: usize = 0;
        while i < IDENTITY_LEN
            invariant
                i <= IDENTITY_LEN,
                dst@.len() == old_dst.len(),
                old_dst.len() >= Self::LEN,
                forall|j: int| 0 <= j < i ==> dst@[j] == self.initializer_pubkey@[j],
                forall|j: int| i <= j < dst@.len() ==> dst@[j] == old_dst[j],
            decreases IDENTITY_LEN - i,
        {
            dst[i] = self.initializer_pubkey[i];
            i = i + 1;
        }
        let amount = u64_to_le_bytes(self.initializer_amount);
        let mut k: usize = 0;
        while k < 8
            invariant
                k <= 8,
                amount@ == spec_u64_to_le_bytes(self.initializer_amount),
                amount@.len() == 8,
                dst@.len() == old_dst.len(),
                old_dst.len() >= Self::LEN,
                forall|j: int| 0 <= j < IDENTITY_LEN ==> dst@[j] == self.initializer_pubkey@[j],
                forall|j: int| 0 <= j < k ==> dst@[IDENTITY_LEN + j] == amount@[j],
                forall|j: int| IDENTITY_LEN + k <= j < dst@.len() ==> dst@[j] == old_dst[j],
            decreases 8 - k,
        {
            dst[IDENTITY_LEN + k] = amount[k];
            k = k + 1;
        }
        dst[FLAG_OFFSET] = if self.is_initialized {
            1u8
        } else {
            0u8
        };
        assert(dst@ =~= encode_record(self@) + old_dst.subrange(Self::LEN as int, old_dst.len() as int));
        Ok(())
    }

    /// Reads a record from the first 41 bytes of `src`.
    pub fn unpack(src: &[u8]) -> (r: Result<EscrowState, EscrowError>)
        ensures
            src@.len() < Self::LEN ==> r == Err::<EscrowState, EscrowError>(EscrowError::BufferTooSmall),
            src@.len() >= Self::LEN ==> (r matches Ok(s) && s@ == decode_record(src@)),
    {
        if src.len() < Self::LEN {
            return Err(EscrowError::BufferTooSmall);
        }
        let mut key = [0u8; 32];
        let mut i: usize = 0;
        while i < IDENTITY_LEN
            invariant
                i <= IDENTITY_LEN,
                src@.len() >= Self::LEN,
                key@.len() == IDENTITY_LEN,
                forall|j: int| 0 <= j < i ==> key@[j] == src@[j],
            decreases IDENTITY_LEN - i,
        {
            key[i] = src[i];
            i = i + 1;
        }
        let amount = u64_from_le_bytes(slice_subrange(src, IDENTITY_LEN, FLAG_OFFSET));
        let s = EscrowState {
            initializer_pubkey: key,
            initializer_amount: amount,
            is_initialized: src[FLAG_OFFSET] != 0,
        };
        assert(s@.identity =~= src@.subrange(0, IDENTITY_LEN as int));
        Ok(s)
    }
}

/// Decoding the bytes of a valid record gives the record back.
pub proof fn lemma_record_round_trip(r: EscrowRecord)
    requires
        r.valid(),
    ensures
        encode_record(r).len() == EscrowState::LEN,
        decode_record(encode_record(r)) == r,
{
    lemma_auto_spec_u64_to_from_le_bytes();
    let s = encode_record(r);
    assert(s.subrange(0, IDENTITY_LEN as int) =~= r.identity);
    assert(s.subrange(IDENTITY_LEN as int, FLAG_OFFSET as int) =~= spec_u64_to_le_bytes(r.amount));
}

} // verus!
