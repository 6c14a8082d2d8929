//! The record schema: the two typed requests and the two record kinds that
//! the processor reads and writes, with their mathematical views.
use vstd::prelude::*;

use crate::keys::Pubkey;

verus! {

/// A half-open interval of two timestamps.
///
/// Each bound is a 64-bit timestamp value (seconds since an epoch, in the
/// caller's chosen 64-bit representation). The processor accepts any interval
/// as opaque data: it never compares or validates the bounds.
#[derive(Clone, Copy, PartialEq, Eq, Structural, Debug)]
pub struct TimeSlotTime {
    /// The start of the time slot.
    pub start: u64,
    /// The end of the time slot.
    pub end: u64,
}

/// A bookable slot record.
#[derive(Debug)]
pub struct TimeSlot {
    /// The party that created (and funded) the slot. Set once, immutable.
    pub owner: Pubkey,
    /// The slot's interval, opaque to the processor.
    pub time: TimeSlotTime,
    /// `false` on creation; flipped to `true` exactly once, by the one
    /// successful `ScheduleMeeting` against this record.
    pub is_scheduled: bool,
    /// The claiming party. Meaningful only when `is_scheduled` is `true`;
    /// otherwise it holds the all-zero sentinel so that the record keeps its
    /// fixed width.
    pub scheduled_with_account: Pubkey,
    /// A display string chosen by the creator.
    pub meeting_id: String,
}

/// The mathematical value of a [`TimeSlot`].
#[verifier::ext_equal]
pub struct TimeSlotV {
    pub owner: Pubkey,
    pub time: TimeSlotTime,
    pub is_scheduled: bool,
    pub scheduled_with_account: Pubkey,
    pub meeting_id: Seq<char>,
}

impl View for TimeSlot {
    type V = TimeSlotV;

    open spec fn view(&self) -> TimeSlotV {
        TimeSlotV {
            owner: self.owner,
            time: self.time,
            is_scheduled: self.is_scheduled,
            scheduled_with_account: self.scheduled_with_account,
            meeting_id: self.meeting_id@,
        }
    }
}

/// The reservation written by a successful claim. Immutable after creation.
#[derive(Debug, PartialEq, Eq)]
pub struct Reservation {
    /// The slot this reservation claims, by address.
    pub time_slot_account: Pubkey,
    /// A display name supplied by the claimant.
    pub name: String,
}

/// The mathematical value of a [`Reservation`].
#[verifier::ext_equal]
pub struct ReservationV {
    pub time_slot_account: Pubkey,
    pub name: Seq<char>,
}

impl View for Reservation {
    type V = ReservationV;

    open spec fn view(&self) -> ReservationV {
        ReservationV { time_slot_account: self.time_slot_account, name: self.name@ }
    }
}

/// A decoded request: the two instructions the processor accepts.
#[derive(Debug)]
pub enum SeeYouThenInstruction {
    /// Create a new time slot.
    ///
    /// Expected record handles, in order:
    /// 0. funding account and owner of the new slot (signer; must be a plain,
    ///    store-native account)
    /// 1. unallocated slot that will hold the time slot
    /// 2. the store's allocator
    CreateTimeSlot { time: TimeSlotTime, meeting_id: String },
    /// Claim an existing time slot.
    ///
    /// Expected record handles, in order:
    /// 0. the claiming account, which also funds the reservation (signer)
    /// 1. unallocated slot that will hold the reservation
    /// 2. the time slot record being claimed
    /// 3. the store's allocator
    ScheduleMeeting { user_name: String },
}

/// The mathematical value of a [`SeeYouThenInstruction`].
#[verifier::ext_equal]
pub enum SeeYouThenInstructionV {
    CreateTimeSlot { time: TimeSlotTime, meeting_id: Seq<char> },
    ScheduleMeeting { user_name: Seq<char> },
}

impl View for SeeYouThenInstruction {
    type V = SeeYouThenInstructionV;

    open spec fn view(&self) -> SeeYouThenInstructionV {
        match self {
            SeeYouThenInstruction::CreateTimeSlot { time, meeting_id } => (
            SeeYouThenInstructionV::CreateTimeSlot { time: *time, meeting_id: meeting_id@ }),
            SeeYouThenInstruction::ScheduleMeeting { user_name } => (
            SeeYouThenInstructionV::ScheduleMeeting { user_name: user_name@ }),
        }
    }
}

} // verus!
