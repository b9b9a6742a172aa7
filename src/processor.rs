use crate::error::EscrowError;
use crate::instruction::{spec_unpack, EscrowInstruction};
use crate::state::{decode_record, encode_record, EscrowRecord, EscrowState, FLAG_OFFSET};
use vstd::prelude::*;

verus! {

/// What the program sees of one account during an invocation.
pub struct Account {
    /// The account's address.
    pub key: [u8; 32],
    /// The program that owns the account.
    pub owner: [u8; 32],
    /// Whether the account signed the invocation.
    pub is_signer: bool,
    /// The account's balance.
    pub lamports: u64,
    /// The account's storage region.
    pub data: Vec<u8>,
}

/// `after` is `before` with the given balance and storage bytes.
pub open spec fn updated(before: Account, after: Account, lamports: u64, data: Seq<u8>) -> bool {
    &&& after.key == before.key
    &&& after.owner == before.owner
    &&& after.is_signer == before.is_signer
    &&& after.lamports == lamports
    &&& after.data@ == data
}

/// `after` holds what `before` held.
pub open spec fn unchanged(before: Account, after: Account) -> bool {
    updated(before, after, before.lamports, before.data@)
}

/// The record stored in an account's region.
pub open spec fn stored_record(escrow: Account) -> EscrowRecord {
    decode_record(escrow.data@)
}

/// The region with its active flag cleared; the other bytes stay.
pub open spec fn closed_region(escrow: Account) -> Seq<u8> {
    escrow.data@.update(FLAG_OFFSET as int, 0u8)
}

/// The region after Initialize: the new record, then the old tail.
pub open spec fn opened_region(initializer: Account, escrow: Account, amount: u64) -> Seq<u8> {
    encode_record(EscrowRecord { identity: initializer.key@, amount, active: true })
        + escrow.data@.subrange(EscrowState::LEN as int, escrow.data@.len() as int)
}

/// The outcome of Initialize: the checks in the order they are made.
pub open spec fn initialize_outcome(
    program_id: Seq<u8>,
    initializer: Account,
    escrow: Account,
    amount: u64,
) -> Result<(), EscrowError> {
    if !initializer.is_signer {
        Err(EscrowError::MissingSignature)
    } else if escrow.owner@ != program_id {
        Err(EscrowError::WrongOwner)
    } else if escrow.data@.len() < EscrowState::LEN {
        Err(EscrowError::BufferTooSmall)
    } else if stored_record(escrow).active {
        Err(EscrowError::AlreadyInitialized)
    } else if amount == 0 {
        Err(EscrowError::InvalidArgument)
    } else if initializer.lamports < amount || escrow.lamports + amount > u64::MAX {
        Err(EscrowError::TransferFailed)
    } else {
        Ok(())
    }
}

/// The accounts after Initialize: the deposit has moved from the
/// initializer to the escrow account, which now holds an active record.
pub open spec fn initialize_effect(
    initializer: Account,
    escrow: Account,
    amount: u64,
    initializer_after: Account,
    escrow_after: Account,
) -> bool {
    &&& updated(initializer, initializer_after, (initializer.lamports - amount) as u64, initializer.data@)
    &&& updated(
        escrow,
        escrow_after,
        (escrow.lamports + amount) as u64,
        opened_region(initializer, escrow, amount),
    )
}

/// The outcome of Exchange: the settle amount, everything above the
/// reserve, or the first check that fails.
pub open spec fn exchange_outcome(
    program_id: Seq<u8>,
    taker: Account,
    initializer: Account,
    escrow: Account,
    reserve: u64,
) -> Result<u64, EscrowError> {
    if !taker.is_signer {
        Err(EscrowError::MissingSignature)
    } else if escrow.owner@ != program_id {
        Err(EscrowError::WrongOwner)
    } else if escrow.data@.len() < EscrowState::LEN {
        Err(EscrowError::BufferTooSmall)
    } else if !stored_record(escrow).active {
        Err(EscrowError::NotInitialized)
    } else if stored_record(escrow).identity != initializer.key@ {
        Err(EscrowError::AccountMismatch)
    } else if escrow.lamports <= reserve {
        Err(EscrowError::InsufficientFunds)
    } else if taker.lamports + (escrow.lamports - reserve) > u64::MAX {
        Err(EscrowError::ArithmeticOverflow)
    } else if initializer.lamports + (escrow.lamports - reserve) > u64::MAX {
        Err(EscrowError::TransferFailed)
    } else {
        Ok((escrow.lamports - reserve) as u64)
    }
}

/// The accounts after Exchange: the escrow keeps its reserve, the taker
/// received the settle amount and paid it on to the initializer, and the
/// record is closed.
pub open spec fn exchange_effect(
    taker: Account,
    initializer: Account,
    escrow: Account,
    settle: u64,
    taker_after: Account,
    initializer_after: Account,
    escrow_after: Account,
) -> bool {
    &&& unchanged(taker, taker_after)
    &&& updated(initializer, initializer_after, (initializer.lamports + settle) as u64, initializer.data@)
    &&& updated(escrow, escrow_after, (escrow.lamports - settle) as u64, closed_region(escrow))
}

/// The outcome of Cancel: the refund, everything above the reserve, or the
/// first check that fails.
pub open spec fn cancel_outcome(
    program_id: Seq<u8>,
    initializer: Account,
    escrow: Account,
    reserve: u64,
) -> Result<u64, EscrowError> {
    if !initializer.is_signer {
        Err(EscrowError::MissingSignature)
    } else if escrow.owner@ != program_id {
        Err(EscrowError::WrongOwner)
    } else if escrow.data@.len() < EscrowState::LEN {
        Err(EscrowError::BufferTooSmall)
    } else if !stored_record(escrow).active {
        Err(EscrowError::NotInitialized)
    } else if stored_record(escrow).identity != initializer.key@ {
        Err(EscrowError::AccountMismatch)
    } else if escrow.lamports <= reserve {
        Err(EscrowError::NoRefundAvailable)
    } else if initializer.lamports + (escrow.lamports - reserve) > u64::MAX {
        Err(EscrowError::ArithmeticOverflow)
    } else {
        Ok((escrow.lamports - reserve) as u64)
    }
}

/// The accounts after Cancel: the refund went back to the initializer and
/// the record is closed.
pub open spec fn cancel_effect(
    initializer: Account,
    escrow: Account,
    refund: u64,
    initializer_after: Account,
    escrow_after: Account,
) -> bool {
    &&& updated(initializer, initializer_after, (initializer.lamports + refund) as u64, initializer.data@)
    &&& updated(escrow, escrow_after, (escrow.lamports - refund) as u64, closed_region(escrow))
}

/// Compares two addresses byte by byte.
fn same_key(a: &[u8; 32], b: &[u8; 32]) -> (r: bool)
    ensures
        r == (a@ == b@),
{
    let mut i: usize = 0;
    while i < 32
        invariant
            i <= 32,
            a@.len() == 32,
            b@.len() == 32,
            forall|j: int| 0 <= j < i ==> a@[j] == b@[j],
        decreases 32 - i,
    {
        if a[i] != b[i] {
            assert(a@[i as int] != b@[i as int]);
            return false;
        }
        i = i + 1;
    }
    assert(a@ =~= b@);
    true
}

/// Opens an escrow: moves `amount` lamports from the signing initializer to
/// the escrow account and stores an active record naming the initializer.
/// On failure neither account changes.
pub fn process_initialize(
    program_id: &[u8; 32],
    initializer: &mut Account,
    escrow: &mut Account,
    amount: u64,
) -> (r: Result<(), EscrowError>)
    ensures
        r == initialize_outcome(program_id@, *old(initializer), *old(escrow), amount),
        r is Ok ==> initialize_effect(
            *old(initializer),
            *old(escrow),
            amount,
            *final(initializer),
            *final(escrow),
        ),
        r is Err ==> unchanged(*old(initializer), *final(initializer)) && unchanged(
            *old(escrow),
            *final(escrow),
        ),
{
    if !initializer.is_signer {
        return Err(EscrowError::MissingSignature);
    }
    if !same_key(&escrow.owner, program_id) {
        return Err(EscrowError::WrongOwner);
    }
    if escrow.data.len() < EscrowState::LEN {
        return Err(EscrowError::BufferTooSmall);
    }
    if escrow.data[FLAG_OFFSET] != 0 {
        return Err(EscrowError::AlreadyInitialized);
    }
    if amount == 0 {
        return Err(EscrowError::InvalidArgument);
    }
    if initializer.lamports < amount || escrow.lamports > u64::MAX - amount {
        return Err(EscrowError::TransferFailed);
    }
    let record = EscrowState {
        initializer_pubkey: initializer.key,
        initializer_amount: amount,
        is_initialized: true,
    };
    let packed = record.pack(escrow.data.as_mut_slice());
    initializer.lamports = initializer.lamports - amount;
    escrow.lamports = escrow.lamports + amount;
    packed
}

/// Settles an escrow: everything the escrow account holds above `reserve`
/// goes to the signing taker, who pays the same amount to the initializer
/// named in the record; the record is closed. Returns the settle amount.
/// On failure no account changes.
pub fn process_exchange(
    program_id: &[u8; 32],
    taker: &mut Account,
    initializer: &mut Account,
    escrow: &mut Account,
    reserve: u64,
) -> (r: Result<u64, EscrowError>)
    ensures
        r == exchange_outcome(program_id@, *old(taker), *old(initializer), *old(escrow), reserve),
        r matches Ok(settle) ==> exchange_effect(
            *old(taker),
            *old(initializer),
            *old(escrow),
            settle,
            *final(taker),
            *final(initializer),
            *final(escrow),
        ),
        r is Ok ==> final(taker).lamports + final(initializer).lamports == old(taker).lamports
            + old(initializer).lamports + old(escrow).lamports - reserve,
        r is Err ==> unchanged(*old(taker), *final(taker)) && unchanged(
            *old(initializer),
            *final(initializer),
        ) && unchanged(*old(escrow), *final(escrow)),
{
    if !taker.is_signer {
        return Err(EscrowError::MissingSignature);
    }
    if !same_key(&escrow.owner, program_id) {
        return Err(EscrowError::WrongOwner);
    }
    let record = match EscrowState::unpack(escrow.data.as_slice()) {
        Ok(record) => record,
        Err(e) => {
            return Err(e);
        },
    };
    if !record.is_initialized {
        return Err(EscrowError::NotInitialized);
    }
    if !same_key(&record.initializer_pubkey, &initializer.key) {
        return Err(EscrowError::AccountMismatch);
    }
    if escrow.lamports <= reserve {
        return Err(EscrowError::InsufficientFunds);
    }
    let settle = escrow.lamports - reserve;
    if taker.lamports > u64::MAX - settle {
        return Err(EscrowError::ArithmeticOverflow);
    }
    if initializer.lamports > u64::MAX - settle {
        return Err(EscrowError::TransferFailed);
    }
    // The escrow pays the taker directly, then the taker pays the initializer.
    escrow.lamports = escrow.lamports - settle;
    taker.lamports = taker.lamports + settle;
    taker.lamports = taker.lamports - settle;
    initializer.lamports = initializer.lamports + settle;
    escrow.data.set(FLAG_OFFSET, 0);
    Ok(settle)
}

/// Cancels an escrow: everything the escrow account holds above `reserve`
/// goes back to the signing initializer, who must be the one the record
/// names; the record is closed. Returns the refund. On failure no account
/// changes.
pub fn process_cancel(
    program_id: &[u8; 32],
    initializer: &mut Account,
    escrow: &mut Account,
    reserve: u64,
) -> (r: Result<u64, EscrowError>)
    ensures
        r == cancel_outcome(program_id@, *old(initializer), *old(escrow), reserve),
        r matches Ok(refund) ==> cancel_effect(
            *old(initializer),
            *old(escrow),
            refund,
            *final(initializer),
            *final(escrow),
        ),
        r is Err ==> unchanged(*old(initializer), *final(initializer)) && unchanged(
            *old(escrow),
            *final(escrow),
        ),
{
    if !initializer.is_signer {
        return Err(EscrowError::MissingSignature);
    }
    if !same_key(&escrow.owner, program_id) {
        return Err(EscrowError::WrongOwner);
    }
    let record = match EscrowState::unpack(escrow.data.as_slice()) {
        Ok(record) => record,
        Err(e) => {
            return Err(e);
        },
    };
    if !record.is_initialized {
        return Err(EscrowError::NotInitialized);
    }
    if !same_key(&record.initializer_pubkey, &initializer.key) {
        return Err(EscrowError::AccountMismatch);
    }
    if escrow.lamports <= reserve {
        return Err(EscrowError::NoRefundAvailable);
    }
    let refund = escrow.lamports - reserve;
    if initializer.lamports > u64::MAX - refund {
        return Err(EscrowError::ArithmeticOverflow);
    }
    escrow.lamports = escrow.lamports - refund;
    initializer.lamports = initializer.lamports + refund;
    escrow.data.set(FLAG_OFFSET, 0);
    Ok(refund)
}

/// A movement of lamports between two of the invocation's accounts, named
/// by their positions in the account list.
#[derive(Debug, Clone, Copy, PartialEq, Eq, Structural)]
pub struct Movement {
    pub from: usize,
    pub to: usize,
    pub amount: u64,
}

/// What the host carries out after a successful step.
#[derive(Debug, Clone, Copy, PartialEq, Eq, Structural)]
pub struct Effects {
    /// Position of the escrow account, whose new storage bytes are written back.
    pub escrow: usize,
    /// Lamports this program moves itself, out of the escrow account.
    pub release: Option<Movement>,
    /// A system transfer that the host performs.
    pub transfer: Option<Movement>,
}

/// An account that stands in a list position while the real one is lent out.
fn vacant() -> (r: Account)
{
    Account { key: [0u8; 32], owner: [0u8; 32], is_signer: false, lamports: 0, data: Vec::new() }
}

/// Every account from position `from` on is as it was.
pub open spec fn rest_unchanged(before: Seq<Account>, after: Seq<Account>, from: int) -> bool {
    &&& after.len() == before.len()
    &&& forall|i: int| from <= i < before.len() ==> unchanged(#[trigger] before[i], after[i])
}

/// The outcome of an invocation: the instruction is decoded, the accounts it
/// names are taken in order from the list, and the matching step runs.
/// `reserve` is the balance the escrow account must keep.
pub open spec fn dispatch_outcome(
    program_id: Seq<u8>,
    before: Seq<Account>,
    after: Seq<Account>,
    instruction_data: Seq<u8>,
    reserve: u64,
    r: Result<Effects, EscrowError>,
) -> bool {
    match spec_unpack(instruction_data) {
        Err(e) => r == Err::<Effects, EscrowError>(e) && rest_unchanged(before, after, 0),
        Ok(EscrowInstruction::Initialize { amount }) => if before.len() < 3 {
            r == Err::<Effects, EscrowError>(EscrowError::NotEnoughAccounts) && rest_unchanged(before, after, 0)
        } else {
            match initialize_outcome(program_id, before[0], before[1], amount) {
                Ok(_) => {
                    &&& r == Ok::<Effects, EscrowError>(
                        Effects {
                            escrow: 1,
                            release: None,
                            transfer: Some(Movement { from: 0, to: 1, amount }),
                        },
                    )
                    &&& initialize_effect(before[0], before[1], amount, after[0], after[1])
                    &&& rest_unchanged(before, after, 2)
                },
                Err(e) => r == Err::<Effects, EscrowError>(e) && rest_unchanged(before, after, 0),
            }
        },
        Ok(EscrowInstruction::Exchange) => if before.len() < 4 {
            r == Err::<Effects, EscrowError>(EscrowError::NotEnoughAccounts) && rest_unchanged(before, after, 0)
        } else {
            match exchange_outcome(program_id, before[0], before[1], before[2], reserve) {
                Ok(settle) => {
                    &&& r == Ok::<Effects, EscrowError>(
                        Effects {
                            escrow: 2,
                            release: Some(Movement { from: 2, to: 0, amount: settle }),
                            transfer: Some(Movement { from: 0, to: 1, amount: settle }),
                        },
                    )
                    &&& exchange_effect(
                        before[0],
                        before[1],
                        before[2],
                        settle,
                        after[0],
                        after[1],
                        after[2],
                    )
                    &&& rest_unchanged(before, after, 3)
                },
                Err(e) => r == Err::<Effects, EscrowError>(e) && rest_unchanged(before, after, 0),
            }
        },
        Ok(EscrowInstruction::Cancel) => if before.len() < 3 {
            r == Err::<Effects, EscrowError>(EscrowError::NotEnoughAccounts) && rest_unchanged(before, after, 0)
        } else {
            match cancel_outcome(program_id, before[0], before[1], reserve) {
                Ok(refund) => {
                    &&& r == Ok::<Effects, EscrowError>(
                        Effects {
                            escrow: 1,
                            release: Some(Movement { from: 1, to: 0, amount: refund }),
                            transfer: None,
                        },
                    )
                    &&& cancel_effect(before[0], before[1], refund, after[0], after[1])
                    &&& rest_unchanged(before, after, 2)
                },
                Err(e) => r == Err::<Effects, EscrowError>(e) && rest_unchanged(before, after, 0),
            }
        },
    }
}

/// Decodes `instruction_data` and runs the step it names on `accounts`,
/// returning what the host still has to carry out. Errors from decoding and
/// from the steps come back as they are, with every account unchanged.
pub fn process_instruction(
    program_id: &[u8; 32],
    accounts: &mut Vec<Account>,
    instruction_data: &[u8],
    reserve: u64,
) -> (r: Result<Effects, EscrowError>)
    ensures
        dispatch_outcome(program_id@, old(accounts)@, final(accounts)@, instruction_data@, reserve, r),
{
    let instruction = match EscrowInstruction::unpack(instruction_data) {
        Ok(instruction) => instruction,
        Err(e) => {
            return Err(e);
        },
    };
    match instruction {
        EscrowInstruction::Initialize { amount } => {
            if accounts.len() < 3 {
                return Err(EscrowError::NotEnoughAccounts);
            }
            let mut initializer = vacant();
            let mut escrow = vacant();
            accounts.set_and_swap(0, &mut initializer);
            accounts.set_and_swap(1, &mut escrow);
            let r = process_initialize(program_id, &mut initializer, &mut escrow, amount);
            accounts.set_and_swap(0, &mut initializer);
            accounts.set_and_swap(1, &mut escrow);
            match r {
                Ok(()) => Ok(
                    Effects {
                        escrow: 1,
                        release: None,
                        transfer: Some(Movement { from: 0, to: 1, amount }),
                    },
                ),
                Err(e) => Err(e),
            }
        },
        EscrowInstruction::Exchange => {
            if accounts.len() < 4 {
                return Err(EscrowError::NotEnoughAccounts);
            }
            let mut taker = vacant();
            let mut initializer = vacant();
            let mut escrow = vacant();
            accounts.set_and_swap(0, &mut taker);
            accounts.set_and_swap(1, &mut initializer);
            accounts.set_and_swap(2, &mut escrow);
            let r = process_exchange(program_id, &mut taker, &mut initializer, &mut escrow, reserve);
            accounts.set_and_swap(0, &mut taker);
            accounts.set_and_swap(1, &mut initializer);
            accounts.set_and_swap(2, &mut escrow);
            match r {
                Ok(settle) => Ok(
                    Effects {
                        escrow: 2,
                        release: Some(Movement { from: 2, to: 0, amount: settle }),
                        transfer: Some(Movement { from: 0, to: 1, amount: settle }),
                    },
                ),
                Err(e) => Err(e),
            }
        },
        EscrowInstruction::Cancel => {
            if accounts.len() < 3 {
                return Err(EscrowError::NotEnoughAccounts);
            }
            let mut initializer = vacant();
            let mut escrow = vacant();
            accounts.set_and_swap(0, &mut initializer);
            accounts.set_and_swap(1, &mut escrow);
            let r = process_cancel(program_id, &mut initializer, &mut escrow, reserve);
            accounts.set_and_swap(0, &mut initializer);
            accounts.set_and_swap(1, &mut escrow);
            match r {
                Ok(refund) => Ok(
                    Effects {
                        escrow: 1,
                        release: Some(Movement { from: 1, to: 0, amount: refund }),
                        transfer: None,
                    },
                ),
                Err(e) => Err(e),
            }
        },
    }
}

/// A closed record cannot be settled or cancelled again: once the signer and
/// the escrow account's owner are checked, Exchange and Cancel on a region
/// whose record is not active fail as not initialized, whoever calls.
pub proof fn lemma_no_double_settlement(
    program_id: Seq<u8>,
    caller: Account,
    initializer: Account,
    escrow: Account,
    reserve: u64,
)
    requires
        caller.is_signer,
        escrow.owner@ == program_id,
        escrow.data@.len() >= EscrowState::LEN,
        !stored_record(escrow).active,
    ensures
        exchange_outcome(program_id, caller, initializer, escrow, reserve)
            == Err::<u64, EscrowError>(EscrowError::NotInitialized),
        cancel_outcome(program_id, caller, escrow, reserve) == Err::<u64, EscrowError>(
            EscrowError::NotInitialized,
        ),
{
}

/// A step that closes a record leaves a region on which the next Exchange
/// or Cancel fails as not initialized.
pub proof fn lemma_closed_region_is_inert(
    program_id: Seq<u8>,
    caller: Account,
    initializer: Account,
    escrow: Account,
    escrow_after: Account,
    reserve: u64,
)
    requires
        escrow.data@.len() >= EscrowState::LEN,
        escrow_after.data@ == closed_region(escrow),
        escrow_after.owner@ == program_id,
        caller.is_signer,
    ensures
        exchange_outcome(program_id, caller, initializer, escrow_after, reserve)
            == Err::<u64, EscrowError>(EscrowError::NotInitialized),
        cancel_outcome(program_id, caller, escrow_after, reserve) == Err::<u64, EscrowError>(
            EscrowError::NotInitialized,
        ),
{
    assert(closed_region(escrow)[FLAG_OFFSET as int] == 0);
}

/// A record that is not active is inert: no Exchange or Cancel moves funds
/// against it, whatever the accounts and the reserve.
pub proof fn lemma_inactive_record_is_inert(
    program_id: Seq<u8>,
    caller: Account,
    initializer: Account,
    escrow: Account,
    reserve: u64,
)
    ensures
        exchange_outcome(program_id, caller, initializer, escrow, reserve) is Ok ==> stored_record(
            escrow,
        ).active,
        cancel_outcome(program_id, caller, escrow, reserve) is Ok ==> stored_record(escrow).active,
{
}

/// Only the initializer the record names is paid or refunded: with an active
/// record, a signer and the program's own escrow account, Exchange with
/// another initializer and Cancel by another signer fail with an account
/// mismatch, and every successful Exchange or Cancel names that initializer.
pub proof fn lemma_authorization(
    program_id: Seq<u8>,
    caller: Account,
    initializer: Account,
    escrow: Account,
    reserve: u64,
)
    ensures
        exchange_outcome(program_id, caller, initializer, escrow, reserve) is Ok
            ==> stored_record(escrow).identity == initializer.key@,
        cancel_outcome(program_id, initializer, escrow, reserve) is Ok
            ==> stored_record(escrow).identity == initializer.key@,
        ({
            &&& caller.is_signer
            &&& escrow.owner@ == program_id
            &&& escrow.data@.len() >= EscrowState::LEN
            &&& stored_record(escrow).active
            &&& stored_record(escrow).identity != initializer.key@
        }) ==> exchange_outcome(program_id, caller, initializer, escrow, reserve)
            == Err::<u64, EscrowError>(EscrowError::AccountMismatch),
        ({
            &&& initializer.is_signer
            &&& escrow.owner@ == program_id
            &&& escrow.data@.len() >= EscrowState::LEN
            &&& stored_record(escrow).active
            &&& stored_record(escrow).identity != initializer.key@
        }) ==> cancel_outcome(program_id, initializer, escrow, reserve) == Err::<u64, EscrowError>(
            EscrowError::AccountMismatch,
        ),
{
}

/// Exchange creates and destroys nothing: what the taker and the initializer
/// hold together grows by exactly what the escrow held above its reserve,
/// and the escrow account is left with the reserve.
pub proof fn lemma_exchange_conserves(
    taker: Account,
    initializer: Account,
    escrow: Account,
    settle: u64,
    reserve: u64,
    taker_after: Account,
    initializer_after: Account,
    escrow_after: Account,
)
    requires
        settle == escrow.lamports - reserve,
        initializer.lamports + settle <= u64::MAX,
        escrow.lamports > reserve,
        exchange_effect(taker, initializer, escrow, settle, taker_after, initializer_after, escrow_after),
    ensures
        taker_after.lamports + initializer_after.lamports == taker.lamports + initializer.lamports
            + escrow.lamports - reserve,
        escrow_after.lamports == reserve,
{
}

} // verus!
