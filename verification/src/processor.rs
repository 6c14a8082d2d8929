//! The instruction processor: validation rules and the two record-producing
//! handlers, with the exact success/failure contract of each.
//!
//! The host store runs the processor synchronously and serializes all
//! batches that touch the same record, and it commits a batch all-or-nothing.
//! The contracts below mirror that: a handler either performs its whole
//! effect or returns an error having changed nothing.
use vstd::prelude::*;

use crate::accounts::AccountInfo;
use crate::accounts::Rent;
use crate::accounts::spec_fund_amount;
use crate::accounts::spec_unallocated;
use crate::codec::is_instruction_encoding;
use crate::codec::is_time_slot_encoding;
use crate::codec::instruction_of_bytes;
use crate::codec::spec_reservation_bytes;
use crate::codec::spec_string_fits;
use crate::codec::spec_time_slot_bytes;
use crate::codec::spec_time_slot_fits;
use crate::codec::time_slot_of_bytes;
use crate::errors::ProgramError;
use crate::keys::Pubkey;
use crate::keys::allocator_id;
use crate::keys::spec_zero_key;
use crate::records::Reservation;
use crate::records::ReservationV;
use crate::records::SeeYouThenInstruction;
use crate::records::SeeYouThenInstructionV;
use crate::records::TimeSlot;
use crate::records::TimeSlotTime;
use crate::records::TimeSlotV;

verus! {

/// One instruction invocation: the processor's identity, the record handles
/// the caller supplied (in the documented order), the raw instruction bytes,
/// and the store's rent oracle.
pub struct Processor {
    pub program_id: Pubkey,
    pub accounts: Vec<AccountInfo>,
    pub data: Vec<u8>,
    pub rent: Rent,
}

/// The open slot a `CreateTimeSlot` call writes: owned by the funding
/// identity, unscheduled, claimant set to the empty sentinel.
pub open spec fn spec_new_time_slot(
    accounts: Seq<AccountInfo>,
    time: TimeSlotTime,
    meeting_id: Seq<char>,
) -> TimeSlotV {
    TimeSlotV {
        owner: accounts[0].key,
        time,
        is_scheduled: false,
        scheduled_with_account: spec_zero_key(),
        meeting_id,
    }
}

/// Why a `CreateTimeSlot` call is rejected, in the order the checks run;
/// `None` when it must succeed.
pub open spec fn spec_create_error(
    accounts: Seq<AccountInfo>,
    rent: Rent,
    time: TimeSlotTime,
    meeting_id: Seq<char>,
) -> Option<ProgramError> {
    if accounts.len() < 3 {
        Some(ProgramError::NotEnoughAccountKeys)
    } else if !accounts[0].is_signer {
        Some(ProgramError::MissingRequiredSignature)
    } else if accounts[0].owner != spec_zero_key() {
        Some(ProgramError::InvalidAccountData)
    } else if !spec_string_fits(meeting_id) {
        Some(ProgramError::RecordTooLarge)
    } else if !spec_unallocated(accounts[1]) {
        Some(ProgramError::AccountAlreadyInUse)
    } else if accounts[0].lamports < spec_fund_amount(
        rent,
        spec_time_slot_bytes(spec_new_time_slot(accounts, time, meeting_id)).len(),
    ) {
        Some(ProgramError::InsufficientFunds)
    } else {
        None
    }
}

/// The whole effect of a successful `CreateTimeSlot`: the new slot record
/// written in full at handle 1, its rent moved from the funding identity,
/// everything else untouched.
pub open spec fn spec_create_post(
    pre: Seq<AccountInfo>,
    post: Seq<AccountInfo>,
    program_id: Pubkey,
    rent: Rent,
    time: TimeSlotTime,
    meeting_id: Seq<char>,
) -> bool {
    let slot = spec_new_time_slot(pre, time, meeting_id);
    let bytes = spec_time_slot_bytes(slot);
    let amount = spec_fund_amount(rent, bytes.len());
    &&& post.len() == pre.len()
    &&& post[0].key == pre[0].key
    &&& post[0].is_signer == pre[0].is_signer
    &&& post[0].owner == pre[0].owner
    &&& post[0].lamports == pre[0].lamports - amount
    &&& post[0].data@ == pre[0].data@
    &&& post[1].key == pre[1].key
    &&& post[1].is_signer == pre[1].is_signer
    &&& post[1].owner == program_id
    &&& post[1].lamports == amount
    &&& post[1].data@ == bytes
    &&& forall|i: int| 2 <= i < pre.len() ==> post[i] == pre[i]
}

/// The reservation a `ScheduleMeeting` call writes: the claimed slot's
/// address and the claimant's display name.
pub open spec fn spec_new_reservation(
    accounts: Seq<AccountInfo>,
    user_name: Seq<char>,
) -> ReservationV {
    ReservationV { time_slot_account: accounts[2].key, name: user_name }
}

/// The slot record after a successful claim: the stored record with its
/// flag flipped and the claimant recorded, all other fields kept.
pub open spec fn spec_scheduled_slot(accounts: Seq<AccountInfo>) -> TimeSlotV {
    let v = time_slot_of_bytes(accounts[2].data@);
    TimeSlotV { is_scheduled: true, scheduled_with_account: accounts[0].key, ..v }
}

/// Why a `ScheduleMeeting` call is rejected, in the order the checks run;
/// `None` when it must succeed. The `InvalidInstructionData` arm is the
/// double-booking rejection: it fires exactly when the stored slot is
/// already scheduled.
pub open spec fn spec_schedule_error(
    accounts: Seq<AccountInfo>,
    rent: Rent,
    user_name: Seq<char>,
) -> Option<ProgramError> {
    if accounts.len() < 4 {
        Some(ProgramError::NotEnoughAccountKeys)
    } else if !accounts[0].is_signer {
        Some(ProgramError::MissingRequiredSignature)
    } else if !is_time_slot_encoding(accounts[2].data@) {
        Some(ProgramError::MalformedRecord)
    } else if time_slot_of_bytes(accounts[2].data@).is_scheduled {
        Some(ProgramError::InvalidInstructionData)
    } else if !spec_string_fits(user_name) {
        Some(ProgramError::RecordTooLarge)
    } else if !spec_unallocated(accounts[1]) {
        Some(ProgramError::AccountAlreadyInUse)
    } else if accounts[0].lamports < spec_fund_amount(
        rent,
        spec_reservation_bytes(spec_new_reservation(accounts, user_name)).len(),
    ) {
        Some(ProgramError::InsufficientFunds)
    } else {
        None
    }
}

/// The whole effect of a successful `ScheduleMeeting`, as one atomic unit:
/// the reservation written in full at handle 1, the slot at handle 2
/// overwritten with its scheduled form, the reservation's rent moved from
/// the claimant, everything else untouched.
pub open spec fn spec_schedule_post(
    pre: Seq<AccountInfo>,
    post: Seq<AccountInfo>,
    program_id: Pubkey,
    rent: Rent,
    user_name: Seq<char>,
) -> bool {
    let rbytes = spec_reservation_bytes(spec_new_reservation(pre, user_name));
    let amount = spec_fund_amount(rent, rbytes.len());
    &&& post.len() == pre.len()
    &&& post[0].key == pre[0].key
    &&& post[0].is_signer == pre[0].is_signer
    &&& post[0].owner == pre[0].owner
    &&& post[0].lamports == pre[0].lamports - amount
    &&& post[0].data@ == pre[0].data@
    &&& post[1].key == pre[1].key
    &&& post[1].is_signer == pre[1].is_signer
    &&& post[1].owner == program_id
    &&& post[1].lamports == amount
    &&& post[1].data@ == rbytes
    &&& post[2].key == pre[2].key
    &&& post[2].is_signer == pre[2].is_signer
    &&& post[2].owner == pre[2].owner
    &&& post[2].lamports == pre[2].lamports
    &&& post[2].data@ == spec_time_slot_bytes(spec_scheduled_slot(pre))
    &&& forall|i: int| 3 <= i < pre.len() ==> post[i] == pre[i]
}

/// Why a whole instruction buffer is rejected; `None` when processing it
/// must succeed.
pub open spec fn spec_process_error(
    accounts: Seq<AccountInfo>,
    rent: Rent,
    data: Seq<u8>,
) -> Option<ProgramError> {
    if !is_instruction_encoding(data) {
        Some(ProgramError::MalformedInstruction)
    } else {
        match instruction_of_bytes(data) {
            SeeYouThenInstructionV::CreateTimeSlot { time, meeting_id } => spec_create_error(
                accounts,
                rent,
                time,
                meeting_id,
            ),
            SeeYouThenInstructionV::ScheduleMeeting { user_name } => spec_schedule_error(
                accounts,
                rent,
                user_name,
            ),
        }
    }
}

/// The whole effect of a successfully processed instruction buffer.
pub open spec fn spec_process_post(
    pre: Seq<AccountInfo>,
    post: Seq<AccountInfo>,
    program_id: Pubkey,
    rent: Rent,
    data: Seq<u8>,
) -> bool {
    match instruction_of_bytes(data) {
        SeeYouThenInstructionV::CreateTimeSlot { time, meeting_id } => spec_create_post(
            pre,
            post,
            program_id,
            rent,
            time,
            meeting_id,
        ),
        SeeYouThenInstructionV::ScheduleMeeting { user_name } => spec_schedule_post(
            pre,
            post,
            program_id,
            rent,
            user_name,
        ),
    }
}

/// A byte-for-byte copy of a record's data.
fn clone_bytes(v: &Vec<u8>) -> (r: Vec<u8>)
    ensures
        r@ == v@,
{
    let r = v.clone();
    proof {
        assert forall|i: int| 0 <= i < v@.len() implies r@[i] == v@[i] by {
            assert(vstd::pervasive::cloned::<u8>(v@[i], r@[i]));
        }
        assert(r@ =~= v@);
    }
    r
}

impl Processor {
    /// Package one invocation's inputs.
    pub fn new(program_id: Pubkey, accounts: Vec<AccountInfo>, data: Vec<u8>, rent: Rent) -> (r:
        Processor)
        ensures
            r == (Processor { program_id, accounts, data, rent }),
    {
        Processor { program_id, accounts, data, rent }
    }

    /// Decode the instruction buffer and run the handler it selects.
    pub fn process(&mut self) -> (r: Result<(), ProgramError>)
        ensures
            match spec_process_error(old(self).accounts@, old(self).rent, old(self).data@) {
                Some(e) => r == Err::<(), ProgramError>(e) && *final(self) == *old(self),
                None => r == Ok::<(), ProgramError>(()) && final(self).program_id == old(
                    self,
                ).program_id && final(self).data == old(self).data && final(self).rent == old(
                    self,
                ).rent && spec_process_post(
                    old(self).accounts@,
                    final(self).accounts@,
                    old(self).program_id,
                    old(self).rent,
                    old(self).data@,
                ),
            },
    {
        let instr = match SeeYouThenInstruction::try_from_bytes(&self.data) {
            Ok(i) => i,
            Err(e) => {
                return Err(e);
            },
        };
        match instr {
            SeeYouThenInstruction::CreateTimeSlot { time, meeting_id } => self.create_time_slot(
                time,
                meeting_id,
            ),
            SeeYouThenInstruction::ScheduleMeeting { user_name } => self.schedule_meeting(
                user_name,
            ),
        }
    }

    /// Create a new time slot at handle 1, funded and owned by the signer at
    /// handle 0.
    pub fn create_time_slot(&mut self, time: TimeSlotTime, meeting_id: String) -> (r: Result<
        (),
        ProgramError,
    >)
        ensures
            match spec_create_error(old(self).accounts@, old(self).rent, time, meeting_id@) {
                Some(e) => r == Err::<(), ProgramError>(e) && *final(self) == *old(self),
                None => r == Ok::<(), ProgramError>(()) && final(self).program_id == old(
                    self,
                ).program_id && final(self).data == old(self).data && final(self).rent == old(
                    self,
                ).rent && spec_create_post(
                    old(self).accounts@,
                    final(self).accounts@,
                    old(self).program_id,
                    old(self).rent,
                    time,
                    meeting_id@,
                ),
            },
    {
        if self.accounts.len() < 3 {
            return Err(ProgramError::NotEnoughAccountKeys);
        }
        let funder = &self.accounts[0];
        let funder_key = funder.key;
        let funder_signer = funder.is_signer;
        let funder_owner = funder.owner;
        let funder_lamports = funder.lamports;
        // The funding identity must have signed this batch.
        if !funder_signer {
            return Err(ProgramError::MissingRequiredSignature);
        }
        // The funding identity must be a plain, store-native account.
        if funder_owner != allocator_id() {
            return Err(ProgramError::InvalidAccountData);
        }
        let slot = TimeSlot {
            owner: funder_key,
            time,
            is_scheduled: false,
            scheduled_with_account: Pubkey::default(),
            meeting_id,
        };
        let slot_bytes = match slot.to_bytes() {
            Some(d) => d,
            None => {
                return Err(ProgramError::RecordTooLarge);
            },
        };
        let data_len = slot_bytes.len();
        let min_bal = self.rent.minimum_balance(data_len);
        let amount = if min_bal < 1 {
            1u64
        } else {
            min_bal
        };
        // The target slot must still be unallocated, and the funder able to
        // cover the rent; past this point nothing can fail.
        let target = &self.accounts[1];
        if !(target.lamports == 0 && target.data.len() == 0 && target.owner == allocator_id()) {
            return Err(ProgramError::AccountAlreadyInUse);
        }
        if funder_lamports < amount {
            return Err(ProgramError::InsufficientFunds);
        }
        let target_key = self.accounts[1].key;
        let target_signer = self.accounts[1].is_signer;
        let funder_data = clone_bytes(&self.accounts[0].data);
        let new_funder = AccountInfo {
            key: funder_key,
            is_signer: funder_signer,
            lamports: funder_lamports - amount,
            owner: funder_owner,
            data: funder_data,
        };
        let new_target = AccountInfo {
            key: target_key,
            is_signer: target_signer,
            lamports: amount,
            owner: self.program_id,
            data: slot_bytes,
        };
        self.accounts[0] = new_funder;
        self.accounts[1] = new_target;
        Ok(())
    }

    /// Claim the open slot at handle 2 for the signer at handle 0, writing
    /// the reservation at handle 1 and flipping the slot, as one atomic
    /// unit.
    pub fn schedule_meeting(&mut self, user_name: String) -> (r: Result<(), ProgramError>)
        ensures
            match spec_schedule_error(old(self).accounts@, old(self).rent, user_name@) {
                Some(e) => r == Err::<(), ProgramError>(e) && *final(self) == *old(self),
                None => r == Ok::<(), ProgramError>(()) && final(self).program_id == old(
                    self,
                ).program_id && final(self).data == old(self).data && final(self).rent == old(
                    self,
                ).rent && spec_schedule_post(
                    old(self).accounts@,
                    final(self).accounts@,
                    old(self).program_id,
                    old(self).rent,
                    user_name@,
                ),
            },
    {
        if self.accounts.len() < 4 {
            return Err(ProgramError::NotEnoughAccountKeys);
        }
        let scheduler = &self.accounts[0];
        let scheduler_key = scheduler.key;
        let scheduler_signer = scheduler.is_signer;
        let scheduler_owner = scheduler.owner;
        let scheduler_lamports = scheduler.lamports;
        // The claiming identity must have signed this batch.
        if !scheduler_signer {
            return Err(ProgramError::MissingRequiredSignature);
        }
        // Decode the stored slot; a record that is not a whole well-formed
        // encoding is rejected unread.
        let decoded = match TimeSlot::try_from_bytes(&self.accounts[2].data) {
            Ok(v) => v,
            Err(e) => {
                return Err(e);
            },
        };
        // The central invariant check: an already-claimed slot is never
        // claimed again, and never overwritten.
        if decoded.is_scheduled {
            return Err(ProgramError::InvalidInstructionData);
        }
        let slot_key = self.accounts[2].key;
        let reservation = Reservation { time_slot_account: slot_key, name: user_name };
        let res_bytes = match reservation.to_bytes() {
            Some(d) => d,
            None => {
                return Err(ProgramError::RecordTooLarge);
            },
        };
        let res_len = res_bytes.len();
        let min_bal = self.rent.minimum_balance(res_len);
        let amount = if min_bal < 1 {
            1u64
        } else {
            min_bal
        };
        // The reservation slot must still be unallocated, and the claimant
        // able to cover the rent; past this point nothing can fail.
        let target = &self.accounts[1];
        if !(target.lamports == 0 && target.data.len() == 0 && target.owner == allocator_id()) {
            return Err(ProgramError::AccountAlreadyInUse);
        }
        if scheduler_lamports < amount {
            return Err(ProgramError::InsufficientFunds);
        }
        let mut new_slot = decoded;
        new_slot.is_scheduled = true;
        new_slot.scheduled_with_account = scheduler_key;
        let slot_bytes = match new_slot.to_bytes() {
            Some(d) => d,
            None => {
                proof {
                    assert(spec_time_slot_fits(new_slot@));
                    assert(false);
                }
                return Err(ProgramError::RecordTooLarge);
            },
        };
        let res_key = self.accounts[1].key;
        let res_signer = self.accounts[1].is_signer;
        let slot_signer = self.accounts[2].is_signer;
        let slot_lamports = self.accounts[2].lamports;
        let slot_owner = self.accounts[2].owner;
        let scheduler_data = clone_bytes(&self.accounts[0].data);
        let new_scheduler = AccountInfo {
            key: scheduler_key,
            is_signer: scheduler_signer,
            lamports: scheduler_lamports - amount,
            owner: scheduler_owner,
            data: scheduler_data,
        };
        let new_res_acc = AccountInfo {
            key: res_key,
            is_signer: res_signer,
            lamports: amount,
            owner: self.program_id,
            data: res_bytes,
        };
        let new_slot_acc = AccountInfo {
            key: slot_key,
            is_signer: slot_signer,
            lamports: slot_lamports,
            owner: slot_owner,
            data: slot_bytes,
        };
        proof {
            assert(new_slot@ =~= spec_scheduled_slot(old(self).accounts@));
        }
        self.accounts[0] = new_scheduler;
        self.accounts[1] = new_res_acc;
        self.accounts[2] = new_slot_acc;
        Ok(())
    }
}

/// The store-facing entry point: run one instruction against the supplied
/// record handles. On success the handles hold the committed batch; on any
/// error they are exactly as they were.
pub fn process_instruction(
    program_id: &Pubkey,
    accounts: &mut Vec<AccountInfo>,
    data: &Vec<u8>,
    rent: &Rent,
) -> (r: Result<(), ProgramError>)
    ensures
        match spec_process_error(old(accounts)@, *rent, data@) {
            Some(e) => r == Err::<(), ProgramError>(e) && final(accounts)@ == old(accounts)@,
            None => r == Ok::<(), ProgramError>(()) && spec_process_post(
                old(accounts)@,
                final(accounts)@,
                *program_id,
                *rent,
                data@,
            ),
        },
{
    let mut owned: Vec<AccountInfo> = Vec::new();
    core::mem::swap(&mut owned, accounts);
    let mut processor = Processor::new(*program_id, owned, clone_bytes(data), *rent);
    let r = processor.process();
    core::mem::swap(accounts, &mut processor.accounts);
    r
}

} // verus!
