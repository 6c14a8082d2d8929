//! The library's laws: what the handler contracts, taken together with the
//! codec contracts, guarantee about records as a caller reads them back.
use vstd::prelude::*;

use crate::accounts::AccountInfo;
use crate::accounts::Rent;
use crate::codec::is_reservation_encoding;
use crate::codec::is_time_slot_encoding;
use crate::codec::lemma_reservation_bytes_injective;
use crate::codec::lemma_time_slot_bytes_injective;
use crate::codec::lemma_time_slot_bytes_structure;
use crate::codec::reservation_of_bytes;
use crate::codec::spec_reservation_bytes;
use crate::codec::spec_reservation_fits;
use crate::codec::spec_time_slot_bytes;
use crate::codec::spec_time_slot_fits;
use crate::codec::time_slot_of_bytes;
use crate::errors::ProgramError;
use crate::keys::Pubkey;
use crate::processor::spec_create_error;
use crate::processor::spec_create_post;
use crate::processor::spec_new_reservation;
use crate::processor::spec_new_time_slot;
use crate::processor::spec_schedule_error;
use crate::processor::spec_schedule_post;
use crate::processor::spec_scheduled_slot;
use crate::records::ReservationV;
use crate::records::TimeSlotTime;
use crate::records::TimeSlotV;

verus! {

/// Round-trip law: after any successful `CreateTimeSlot`, the bytes written
/// at handle 1 decode to exactly one record — an unscheduled slot whose
/// owner is the funding identity and whose interval and display string are
/// the caller's inputs.
pub proof fn lemma_create_round_trip(
    pre: Seq<AccountInfo>,
    post: Seq<AccountInfo>,
    program_id: Pubkey,
    rent: Rent,
    time: TimeSlotTime,
    meeting_id: Seq<char>,
)
    requires
        spec_create_error(pre, rent, time, meeting_id) is None,
        spec_create_post(pre, post, program_id, rent, time, meeting_id),
    ensures
        is_time_slot_encoding(post[1].data@),
        time_slot_of_bytes(post[1].data@) == spec_new_time_slot(pre, time, meeting_id),
        !time_slot_of_bytes(post[1].data@).is_scheduled,
        time_slot_of_bytes(post[1].data@).owner == pre[0].key,
        time_slot_of_bytes(post[1].data@).time == time,
        time_slot_of_bytes(post[1].data@).meeting_id == meeting_id,
{
    let slot = spec_new_time_slot(pre, time, meeting_id);
    assert(spec_time_slot_fits(slot));
    assert(post[1].data@ == spec_time_slot_bytes(slot));
    assert forall|w: TimeSlotV|
        spec_time_slot_fits(w) && spec_time_slot_bytes(w) == post[1].data@ implies w == slot by {
        lemma_time_slot_bytes_injective(w, slot);
    }
    assert(is_time_slot_encoding(post[1].data@));
}

/// Claim law: after any successful `ScheduleMeeting`, the bytes written at
/// handle 1 decode to exactly one reservation — naming the claimed slot's
/// address and the supplied display name — and the slot record at handle 2
/// decodes to its previous value with the flag set and the claimant
/// recorded, at its previous byte length.
pub proof fn lemma_schedule_effects(
    pre: Seq<AccountInfo>,
    post: Seq<AccountInfo>,
    program_id: Pubkey,
    rent: Rent,
    user_name: Seq<char>,
)
    requires
        spec_schedule_error(pre, rent, user_name) is None,
        spec_schedule_post(pre, post, program_id, rent, user_name),
    ensures
        is_reservation_encoding(post[1].data@),
        reservation_of_bytes(post[1].data@) == spec_new_reservation(pre, user_name),
        reservation_of_bytes(post[1].data@).time_slot_account == pre[2].key,
        reservation_of_bytes(post[1].data@).name == user_name,
        is_time_slot_encoding(post[2].data@),
        time_slot_of_bytes(post[2].data@) == spec_scheduled_slot(pre),
        time_slot_of_bytes(post[2].data@).is_scheduled,
        time_slot_of_bytes(post[2].data@).scheduled_with_account == pre[0].key,
        time_slot_of_bytes(post[2].data@).time == time_slot_of_bytes(pre[2].data@).time,
        time_slot_of_bytes(post[2].data@).owner == time_slot_of_bytes(pre[2].data@).owner,
        time_slot_of_bytes(post[2].data@).meeting_id == time_slot_of_bytes(
            pre[2].data@,
        ).meeting_id,
        post[2].data@.len() == pre[2].data@.len(),
{
    let reservation = spec_new_reservation(pre, user_name);
    assert(spec_reservation_fits(reservation));
    assert(post[1].data@ == spec_reservation_bytes(reservation));
    assert forall|w: ReservationV|
        spec_reservation_fits(w) && spec_reservation_bytes(w)
            == post[1].data@ implies w == reservation by {
        lemma_reservation_bytes_injective(w, reservation);
    }
    assert(is_reservation_encoding(post[1].data@));
    let stored = time_slot_of_bytes(pre[2].data@);
    assert(spec_time_slot_fits(stored) && spec_time_slot_bytes(stored) == pre[2].data@);
    let flipped = spec_scheduled_slot(pre);
    assert(spec_time_slot_fits(flipped));
    assert(post[2].data@ == spec_time_slot_bytes(flipped));
    assert forall|w: TimeSlotV|
        spec_time_slot_fits(w) && spec_time_slot_bytes(w) == post[2].data@ implies w == flipped by {
        lemma_time_slot_bytes_injective(w, flipped);
    }
    assert(is_time_slot_encoding(post[2].data@));
    lemma_time_slot_bytes_structure(stored);
    lemma_time_slot_bytes_structure(flipped);
}

/// Exclusion law: once the stored slot is scheduled, every further
/// `ScheduleMeeting` against it — whoever signs it, whatever the name —
/// is rejected with the semantic error. By `schedule_meeting`'s contract a
/// rejected call leaves every record and balance exactly as it was, so no
/// reservation ever appears for the loser.
pub proof fn lemma_scheduled_slot_is_terminal(
    accounts: Seq<AccountInfo>,
    rent: Rent,
    user_name: Seq<char>,
)
    requires
        accounts.len() >= 4,
        accounts[0].is_signer,
        is_time_slot_encoding(accounts[2].data@),
        time_slot_of_bytes(accounts[2].data@).is_scheduled,
    ensures
        spec_schedule_error(accounts, rent, user_name) == Some(
            ProgramError::InvalidInstructionData,
        ),
{
}

/// Attestation law: a call whose first handle lacks the signer attestation
/// is rejected with the signature error before any record is touched — the
/// handler contracts then force the rejected call to change nothing.
pub proof fn lemma_unsigned_calls_rejected(
    accounts: Seq<AccountInfo>,
    rent: Rent,
    time: TimeSlotTime,
    meeting_id: Seq<char>,
    user_name: Seq<char>,
)
    requires
        !accounts[0].is_signer,
    ensures
        accounts.len() >= 3 ==> spec_create_error(accounts, rent, time, meeting_id) == Some(
            ProgramError::MissingRequiredSignature,
        ),
        accounts.len() >= 4 ==> spec_schedule_error(accounts, rent, user_name) == Some(
            ProgramError::MissingRequiredSignature,
        ),
{
}

} // verus!
