//! A shared booking ledger: time-slot records that any party may create and
//! that exactly one other party may claim by writing a reservation record and
//! flipping the slot's scheduled flag.
//!
//! All state lives in externally owned records (see [`accounts`]); the
//! processor itself is a pure instruction-processing state machine.
use vstd::prelude::*;

pub mod accounts;
pub mod bytes;
pub mod codec;
pub mod errors;
pub mod keys;
pub mod laws;
pub mod processor;
pub mod records;

pub use errors::ProgramError;
pub use keys::Pubkey;
pub use processor::Processor;
pub use processor::process_instruction;
pub use records::Reservation;
pub use records::SeeYouThenInstruction;
pub use records::TimeSlot;
pub use records::TimeSlotTime;

use accounts::AccountMeta;
use accounts::Instruction;
use codec::spec_instruction_bytes;
use codec::spec_string_fits;
use keys::spec_zero_key;
use records::SeeYouThenInstructionV;

verus! {

/// Build the client-side instruction that creates a time slot owned and
/// funded by `owner_account`, to be stored at `time_slot_account`.
///
/// `meeting_id` must fit the encoding's 32-bit length prefix; the host
/// store could not carry a larger instruction in any case.
pub fn create_time_slot(
    program_id: Pubkey,
    owner_account: Pubkey,
    time_slot_account: Pubkey,
    time_slot_time: TimeSlotTime,
    meeting_id: String,
) -> (r: Instruction)
    requires
        spec_string_fits(meeting_id@),
    ensures
        r.program_id == program_id,
        r.accounts@.len() == 3,
        r.accounts@[0] == (AccountMeta { pubkey: owner_account, is_signer: true, is_writable: true }),
        r.accounts@[1] == (AccountMeta {
            pubkey: time_slot_account,
            is_signer: true,
            is_writable: true,
        }),
        r.accounts@[2] == (AccountMeta {
            pubkey: spec_zero_key(),
            is_signer: false,
            is_writable: false,
        }),
        r.data@ == spec_instruction_bytes(
            SeeYouThenInstructionV::CreateTimeSlot {
                time: time_slot_time,
                meeting_id: meeting_id@,
            },
        ),
{
    let request = SeeYouThenInstruction::CreateTimeSlot { time: time_slot_time, meeting_id };
    let data = match request.to_bytes() {
        Some(d) => d,
        None => {
            proof {
                assert(false);
            }
            Vec::new()
        },
    };
    let mut metas: Vec<AccountMeta> = Vec::new();
    metas.push(AccountMeta::new(owner_account, true));
    metas.push(AccountMeta::new(time_slot_account, true));
    metas.push(AccountMeta::new_readonly(keys::allocator_id(), false));
    Instruction { program_id, accounts: metas, data }
}

/// Build the client-side instruction with which `scheduling_account` claims
/// the slot at `time_slot_account`, storing its reservation at
/// `reservation_account`.
///
/// `user_name` must fit the encoding's 32-bit length prefix.
pub fn schedule_meeting(
    program_id: Pubkey,
    scheduling_account: Pubkey,
    reservation_account: Pubkey,
    time_slot_account: Pubkey,
    user_name: String,
) -> (r: Instruction)
    requires
        spec_string_fits(user_name@),
    ensures
        r.program_id == program_id,
        r.accounts@.len() == 4,
        r.accounts@[0] == (AccountMeta {
            pubkey: scheduling_account,
            is_signer: true,
            is_writable: true,
        }),
        r.accounts@[1] == (AccountMeta {
            pubkey: reservation_account,
            is_signer: true,
            is_writable: true,
        }),
        r.accounts@[2] == (AccountMeta {
            pubkey: time_slot_account,
            is_signer: false,
            is_writable: true,
        }),
        r.accounts@[3] == (AccountMeta {
            pubkey: spec_zero_key(),
            is_signer: false,
            is_writable: false,
        }),
        r.data@ == spec_instruction_bytes(
            SeeYouThenInstructionV::ScheduleMeeting { user_name: user_name@ },
        ),
{
    let request = SeeYouThenInstruction::ScheduleMeeting { user_name };
    let data = match request.to_bytes() {
        Some(d) => d,
        None => {
            proof {
                assert(false);
            }
            Vec::new()
        },
    };
    let mut metas: Vec<AccountMeta> = Vec::new();
    metas.push(AccountMeta::new(scheduling_account, true));
    metas.push(AccountMeta::new(reservation_account, true));
    metas.push(AccountMeta::new(time_slot_account, false));
    metas.push(AccountMeta::new_readonly(keys::allocator_id(), false));
    Instruction { program_id, accounts: metas, data }
}

} // verus!
