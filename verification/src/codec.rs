//! The wire format: a canonical fixed-width / length-prefixed encoding for
//! the two record kinds and the instruction buffer.
//!
//! Every record is a concatenation, in field order, of:
//! - 32 raw bytes for a key (four 64-bit words, little-endian),
//! - 8 little-endian bytes per timestamp,
//! - one byte (`0` or `1`) for a boolean,
//! - a 32-bit little-endian byte count followed by UTF-8 bytes for a string.
//!
//! An instruction buffer is a single leading discriminant byte followed by
//! the variant's payload in the same encoding. Decoding is all-or-nothing:
//! a buffer parses exactly when it is, in full, the encoding of one value.
use vstd::prelude::*;

use crate::bytes::lemma_u32_le_injective;
use crate::bytes::lemma_u64_le_injective;
use crate::bytes::push_u32_le;
use crate::bytes::push_u64_le;
use crate::bytes::read_u32_le;
use crate::bytes::read_u64_le;
use crate::bytes::spec_u32_le;
use crate::bytes::spec_u64_le;
use crate::errors::ProgramError;
use crate::keys::Pubkey;
use crate::records::Reservation;
use crate::records::ReservationV;
use crate::records::SeeYouThenInstruction;
use crate::records::SeeYouThenInstructionV;
use crate::records::TimeSlot;
use crate::records::TimeSlotTime;
use crate::records::TimeSlotV;
use vstd::slice::slice_subrange;
use vstd::slice::slice_to_vec;
use vstd::utf8::decode_utf8;
use vstd::utf8::encode_utf8;
use vstd::utf8::encode_utf8_decode_utf8;
use vstd::utf8::encode_utf8_valid_utf8;
use vstd::utf8::valid_utf8;

verus! {

/// The 32 bytes of a key: its four words, each little-endian.
pub open spec fn spec_pubkey_bytes(k: Pubkey) -> Seq<u8> {
    spec_u64_le(k.w0) + spec_u64_le(k.w1) + spec_u64_le(k.w2) + spec_u64_le(k.w3)
}

/// The 16 bytes of an interval: both bounds, little-endian.
pub open spec fn spec_time_bytes(t: TimeSlotTime) -> Seq<u8> {
    spec_u64_le(t.start) + spec_u64_le(t.end)
}

/// The single byte of a boolean.
pub open spec fn spec_bool_byte(b: bool) -> u8 {
    if b {
        1u8
    } else {
        0u8
    }
}

/// A string's UTF-8 byte count must fit the 32-bit length prefix.
pub open spec fn spec_string_fits(s: Seq<char>) -> bool {
    encode_utf8(s).len() <= u32::MAX
}

/// A string's encoding: its UTF-8 byte count as a 32-bit little-endian
/// prefix, then its UTF-8 bytes.
pub open spec fn spec_string_bytes(s: Seq<char>) -> Seq<u8> {
    spec_u32_le(encode_utf8(s).len() as u32) + encode_utf8(s)
}

/// A slot record's string must fit its length prefix.
pub open spec fn spec_time_slot_fits(v: TimeSlotV) -> bool {
    spec_string_fits(v.meeting_id)
}

/// The serialized form of a time slot: owner, interval, scheduled flag,
/// claimant (or the zero sentinel), display string.
pub open spec fn spec_time_slot_bytes(v: TimeSlotV) -> Seq<u8> {
    spec_pubkey_bytes(v.owner) + spec_time_bytes(v.time) + seq![spec_bool_byte(v.is_scheduled)]
        + spec_pubkey_bytes(v.scheduled_with_account) + spec_string_bytes(v.meeting_id)
}

/// A reservation's string must fit its length prefix.
pub open spec fn spec_reservation_fits(v: ReservationV) -> bool {
    spec_string_fits(v.name)
}

/// The serialized form of a reservation: the claimed slot's key, then the
/// claimant's display name.
pub open spec fn spec_reservation_bytes(v: ReservationV) -> Seq<u8> {
    spec_pubkey_bytes(v.time_slot_account) + spec_string_bytes(v.name)
}

/// An instruction's strings must fit their length prefixes.
pub open spec fn spec_instruction_fits(v: SeeYouThenInstructionV) -> bool {
    match v {
        SeeYouThenInstructionV::CreateTimeSlot { time, meeting_id } => spec_string_fits(meeting_id),
        SeeYouThenInstructionV::ScheduleMeeting { user_name } => spec_string_fits(user_name),
    }
}

/// The serialized form of an instruction: one discriminant byte, then the
/// variant's payload.
pub open spec fn spec_instruction_bytes(v: SeeYouThenInstructionV) -> Seq<u8> {
    match v {
        SeeYouThenInstructionV::CreateTimeSlot { time, meeting_id } => seq![0u8] + spec_time_bytes(
            time,
        ) + spec_string_bytes(meeting_id),
        SeeYouThenInstructionV::ScheduleMeeting { user_name } => seq![1u8] + spec_string_bytes(
            user_name,
        ),
    }
}

/// Whether `b` is, in full, the encoding of some string.
pub open spec fn is_string_encoding(b: Seq<u8>) -> bool {
    exists|t: Seq<char>| spec_string_fits(t) && spec_string_bytes(t) == b
}

/// Whether `b` is, in full, the encoding of some time slot.
pub open spec fn is_time_slot_encoding(b: Seq<u8>) -> bool {
    exists|v: TimeSlotV| spec_time_slot_fits(v) && spec_time_slot_bytes(v) == b
}

/// The one time slot `b` encodes, when [`is_time_slot_encoding`] holds.
pub open spec fn time_slot_of_bytes(b: Seq<u8>) -> TimeSlotV {
    choose|v: TimeSlotV| spec_time_slot_fits(v) && spec_time_slot_bytes(v) == b
}

/// Whether `b` is, in full, the encoding of some reservation.
pub open spec fn is_reservation_encoding(b: Seq<u8>) -> bool {
    exists|v: ReservationV| spec_reservation_fits(v) && spec_reservation_bytes(v) == b
}

/// The one reservation `b` encodes, when [`is_reservation_encoding`] holds.
pub open spec fn reservation_of_bytes(b: Seq<u8>) -> ReservationV {
    choose|v: ReservationV| spec_reservation_fits(v) && spec_reservation_bytes(v) == b
}

/// Whether `b` is, in full, the encoding of some instruction.
pub open spec fn is_instruction_encoding(b: Seq<u8>) -> bool {
    exists|v: SeeYouThenInstructionV| spec_instruction_fits(v) && spec_instruction_bytes(v) == b
}

/// The one instruction `b` encodes, when [`is_instruction_encoding`] holds.
pub open spec fn instruction_of_bytes(b: Seq<u8>) -> SeeYouThenInstructionV {
    choose|v: SeeYouThenInstructionV| spec_instruction_fits(v) && spec_instruction_bytes(v) == b
}

/// Relies on std's `String::from_utf8`: it succeeds exactly on byte vectors
/// that are valid UTF-8, and returns the string those bytes encode.
#[verifier::external_body]
fn string_from_utf8(bytes: Vec<u8>) -> (r: Option<String>)
    ensures
        match r {
            Some(s) => valid_utf8(bytes@) && s@ == decode_utf8(bytes@),
            None => !valid_utf8(bytes@),
        },
{
    match String::from_utf8(bytes) {
        Ok(s) => Some(s),
        Err(_) => None,
    }
}

/// Two strings with the same encoding are the same string.
pub proof fn lemma_string_bytes_injective(a: Seq<char>, b: Seq<char>)
    requires
        spec_string_fits(a),
        spec_string_fits(b),
        spec_string_bytes(a) == spec_string_bytes(b),
    ensures
        a == b,
{
    assert(spec_string_bytes(a).len() == 4 + encode_utf8(a).len());
    assert(spec_string_bytes(b).len() == 4 + encode_utf8(b).len());
    assert(encode_utf8(a) =~= spec_string_bytes(a).subrange(4, spec_string_bytes(a).len() as int));
    assert(encode_utf8(b) =~= spec_string_bytes(b).subrange(4, spec_string_bytes(b).len() as int));
    assert(encode_utf8(a) == encode_utf8(b));
    encode_utf8_decode_utf8(a);
    encode_utf8_decode_utf8(b);
}

/// Two keys with the same 32 encoded bytes are the same key.
pub proof fn lemma_pubkey_bytes_injective(a: Pubkey, b: Pubkey)
    requires
        spec_pubkey_bytes(a) == spec_pubkey_bytes(b),
    ensures
        a == b,
{
    let sa = spec_pubkey_bytes(a);
    let sb = spec_pubkey_bytes(b);
    assert(spec_u64_le(a.w0) =~= sa.subrange(0, 8));
    assert(spec_u64_le(a.w1) =~= sa.subrange(8, 16));
    assert(spec_u64_le(a.w2) =~= sa.subrange(16, 24));
    assert(spec_u64_le(a.w3) =~= sa.subrange(24, 32));
    assert(spec_u64_le(b.w0) =~= sb.subrange(0, 8));
    assert(spec_u64_le(b.w1) =~= sb.subrange(8, 16));
    assert(spec_u64_le(b.w2) =~= sb.subrange(16, 24));
    assert(spec_u64_le(b.w3) =~= sb.subrange(24, 32));
    lemma_u64_le_injective(a.w0, b.w0);
    lemma_u64_le_injective(a.w1, b.w1);
    lemma_u64_le_injective(a.w2, b.w2);
    lemma_u64_le_injective(a.w3, b.w3);
}

/// How a time slot's encoding splits into its five fields.
pub proof fn lemma_time_slot_bytes_structure(v: TimeSlotV)
    ensures
        spec_time_slot_bytes(v).len() == 85 + encode_utf8(v.meeting_id).len(),
        spec_time_slot_bytes(v).subrange(0, 32) == spec_pubkey_bytes(v.owner),
        spec_time_slot_bytes(v).subrange(32, 48) == spec_time_bytes(v.time),
        spec_time_slot_bytes(v)[48] == spec_bool_byte(v.is_scheduled),
        spec_time_slot_bytes(v).subrange(49, 81) == spec_pubkey_bytes(v.scheduled_with_account),
        spec_time_slot_bytes(v).subrange(81, spec_time_slot_bytes(v).len() as int)
            == spec_string_bytes(v.meeting_id),
{
    let s = spec_time_slot_bytes(v);
    assert(s.subrange(0, 32) =~= spec_pubkey_bytes(v.owner));
    assert(s.subrange(32, 48) =~= spec_time_bytes(v.time));
    assert(s.subrange(49, 81) =~= spec_pubkey_bytes(v.scheduled_with_account));
    assert(s.subrange(81, s.len() as int) =~= spec_string_bytes(v.meeting_id));
}

/// How a reservation's encoding splits into its two fields.
pub proof fn lemma_reservation_bytes_structure(v: ReservationV)
    ensures
        spec_reservation_bytes(v).len() == 36 + encode_utf8(v.name).len(),
        spec_reservation_bytes(v).subrange(0, 32) == spec_pubkey_bytes(v.time_slot_account),
        spec_reservation_bytes(v).subrange(32, spec_reservation_bytes(v).len() as int)
            == spec_string_bytes(v.name),
{
    let s = spec_reservation_bytes(v);
    assert(s.subrange(0, 32) =~= spec_pubkey_bytes(v.time_slot_account));
    assert(s.subrange(32, s.len() as int) =~= spec_string_bytes(v.name));
}

/// Two time slots with the same encoding are the same slot.
pub proof fn lemma_time_slot_bytes_injective(a: TimeSlotV, b: TimeSlotV)
    requires
        spec_time_slot_fits(a),
        spec_time_slot_fits(b),
        spec_time_slot_bytes(a) == spec_time_slot_bytes(b),
    ensures
        a == b,
{
    lemma_time_slot_bytes_structure(a);
    lemma_time_slot_bytes_structure(b);
    lemma_pubkey_bytes_injective(a.owner, b.owner);
    lemma_pubkey_bytes_injective(a.scheduled_with_account, b.scheduled_with_account);
    let ta = spec_time_bytes(a.time);
    let tb = spec_time_bytes(b.time);
    assert(spec_u64_le(a.time.start) =~= ta.subrange(0, 8));
    assert(spec_u64_le(a.time.end) =~= ta.subrange(8, 16));
    assert(spec_u64_le(b.time.start) =~= tb.subrange(0, 8));
    assert(spec_u64_le(b.time.end) =~= tb.subrange(8, 16));
    lemma_u64_le_injective(a.time.start, b.time.start);
    lemma_u64_le_injective(a.time.end, b.time.end);
    assert(spec_bool_byte(a.is_scheduled) == spec_bool_byte(b.is_scheduled));
    assert(a.is_scheduled == b.is_scheduled);
    lemma_string_bytes_injective(a.meeting_id, b.meeting_id);
    assert(a =~= b);
}

/// Two reservations with the same encoding are the same reservation.
pub proof fn lemma_reservation_bytes_injective(a: ReservationV, b: ReservationV)
    requires
        spec_reservation_fits(a),
        spec_reservation_fits(b),
        spec_reservation_bytes(a) == spec_reservation_bytes(b),
    ensures
        a == b,
{
    lemma_reservation_bytes_structure(a);
    lemma_reservation_bytes_structure(b);
    lemma_pubkey_bytes_injective(a.time_slot_account, b.time_slot_account);
    lemma_string_bytes_injective(a.name, b.name);
    assert(a =~= b);
}

/// Two instructions with the same encoding are the same instruction.
pub proof fn lemma_instruction_bytes_injective(a: SeeYouThenInstructionV, b: SeeYouThenInstructionV)
    requires
        spec_instruction_fits(a),
        spec_instruction_fits(b),
        spec_instruction_bytes(a) == spec_instruction_bytes(b),
    ensures
        a == b,
{
    let sa = spec_instruction_bytes(a);
    let sb = spec_instruction_bytes(b);
    assert(sa[0] == sb[0]);
    match (a, b) {
        (
            SeeYouThenInstructionV::CreateTimeSlot { time: t1, meeting_id: m1 },
            SeeYouThenInstructionV::CreateTimeSlot { time: t2, meeting_id: m2 },
        ) => {
            assert(spec_time_bytes(t1) =~= sa.subrange(1, 17));
            assert(spec_time_bytes(t2) =~= sb.subrange(1, 17));
            assert(spec_u64_le(t1.start) =~= spec_time_bytes(t1).subrange(0, 8));
            assert(spec_u64_le(t1.end) =~= spec_time_bytes(t1).subrange(8, 16));
            assert(spec_u64_le(t2.start) =~= spec_time_bytes(t2).subrange(0, 8));
            assert(spec_u64_le(t2.end) =~= spec_time_bytes(t2).subrange(8, 16));
            lemma_u64_le_injective(t1.start, t2.start);
            lemma_u64_le_injective(t1.end, t2.end);
            assert(spec_string_bytes(m1) =~= sa.subrange(17, sa.len() as int));
            assert(spec_string_bytes(m2) =~= sb.subrange(17, sb.len() as int));
            lemma_string_bytes_injective(m1, m2);
            assert(a =~= b);
        },
        (
            SeeYouThenInstructionV::ScheduleMeeting { user_name: u1 },
            SeeYouThenInstructionV::ScheduleMeeting { user_name: u2 },
        ) => {
            assert(spec_string_bytes(u1) =~= sa.subrange(1, sa.len() as int));
            assert(spec_string_bytes(u2) =~= sb.subrange(1, sb.len() as int));
            lemma_string_bytes_injective(u1, u2);
            assert(a =~= b);
        },
        _ => {
            assert(false);
        },
    }
}

/// Append a key's 32 encoded bytes.
fn push_pubkey(out: &mut Vec<u8>, k: &Pubkey)
    ensures
        final(out)@ == old(out)@ + spec_pubkey_bytes(*k),
{
    push_u64_le(out, k.w0);
    push_u64_le(out, k.w1);
    push_u64_le(out, k.w2);
    push_u64_le(out, k.w3);
    proof {
        assert(final(out)@ =~= old(out)@ + spec_pubkey_bytes(*k));
    }
}

/// Append a string's length prefix and UTF-8 bytes; reports whether the
/// string fits the 32-bit prefix, leaving `out` unchanged when it does not.
fn push_string(out: &mut Vec<u8>, s: &str) -> (ok: bool)
    ensures
        ok == spec_string_fits(s@),
        ok ==> final(out)@ == old(out)@ + spec_string_bytes(s@),
        !ok ==> final(out)@ == old(out)@,
{
    let mut utf8: Vec<u8> = slice_to_vec(s.as_bytes());
    if utf8.len() > (u32::MAX as usize) {
        return false;
    }
    let n: u32 = utf8.len() as u32;
    push_u32_le(out, n);
    out.append(&mut utf8);
    proof {
        assert(final(out)@ =~= old(out)@ + spec_string_bytes(s@));
    }
    true
}

/// Read the 32 bytes at `off` as a key.
fn read_pubkey(b: &Vec<u8>, off: usize) -> (r: Pubkey)
    requires
        off + 32 <= b@.len(),
    ensures
        spec_pubkey_bytes(r) == b@.subrange(off as int, off as int + 32),
{
    let _len: usize = b.len();
    let w0 = read_u64_le(b, off);
    let w1 = read_u64_le(b, off + 8);
    let w2 = read_u64_le(b, off + 16);
    let w3 = read_u64_le(b, off + 24);
    let r = Pubkey { w0, w1, w2, w3 };
    proof {
        assert(spec_pubkey_bytes(r) =~= b@.subrange(off as int, off as int + 32));
    }
    r
}

/// Decode the length-prefixed string that must fill `b` from `off` to its
/// end. Returns `None` exactly when that tail is not a string encoding.
fn read_tail_string(b: &Vec<u8>, off: usize) -> (r: Option<String>)
    requires
        off <= b@.len(),
    ensures
        match r {
            Some(s) => spec_string_fits(s@) && b@.subrange(off as int, b@.len() as int)
                == spec_string_bytes(s@),
            None => !is_string_encoding(b@.subrange(off as int, b@.len() as int)),
        },
{
    let len: usize = b.len();
    let ghost tail = b@.subrange(off as int, b@.len() as int);
    if len - off < 4 {
        proof {
            assert(!is_string_encoding(tail)) by {
                if is_string_encoding(tail) {
                    let t = choose|t: Seq<char>|
                        spec_string_fits(t) && spec_string_bytes(t) == tail;
                    assert(spec_string_bytes(t).len() >= 4);
                }
            };
        }
        return None;
    }
    let n = read_u32_le(b, off);
    if (len - off - 4) as u64 != (n as u64) {
        proof {
            assert(!is_string_encoding(tail)) by {
                if is_string_encoding(tail) {
                    let t = choose|t: Seq<char>|
                        spec_string_fits(t) && spec_string_bytes(t) == tail;
                    let m = encode_utf8(t).len() as u32;
                    assert(spec_u32_le(m) =~= tail.subrange(0, 4));
                    assert(tail.subrange(0, 4) =~= b@.subrange(off as int, off as int + 4));
                    lemma_u32_le_injective(m, n);
                    assert(tail.len() == 4 + encode_utf8(t).len());
                }
            };
        }
        return None;
    }
    let utf8 = slice_to_vec(slice_subrange(b.as_slice(), off + 4, len));
    match string_from_utf8(utf8) {
        Some(s) => {
            proof {
                broadcast use encode_utf8_valid_utf8;

                vstd::utf8::decode_utf8_encode_utf8(b@.subrange(off as int + 4, len as int));
                assert(encode_utf8(s@) == b@.subrange(off as int + 4, len as int));
                assert(tail =~= b@.subrange(off as int, off as int + 4) + b@.subrange(
                    off as int + 4,
                    len as int,
                ));
                assert(spec_u32_le(n) == b@.subrange(off as int, off as int + 4));
                assert(tail =~= spec_string_bytes(s@));
            }
            Some(s)
        },
        None => {
            proof {
                assert(!is_string_encoding(tail)) by {
                    if is_string_encoding(tail) {
                        let t = choose|t: Seq<char>|
                            spec_string_fits(t) && spec_string_bytes(t) == tail;
                        assert(encode_utf8(t) =~= tail.subrange(4, tail.len() as int));
                        assert(tail.subrange(4, tail.len() as int) =~= b@.subrange(
                            off as int + 4,
                            len as int,
                        ));
                        broadcast use encode_utf8_valid_utf8;

                        assert(valid_utf8(b@.subrange(off as int + 4, len as int)));
                    }
                };
            }
            None
        },
    }
}

impl TimeSlot {
    /// Serialize this record. Returns `None` exactly when the display string
    /// overflows the 32-bit length prefix.
    pub fn to_bytes(&self) -> (r: Option<Vec<u8>>)
        ensures
            match r {
                Some(out) => spec_time_slot_fits(self@) && out@ == spec_time_slot_bytes(self@),
                None => !spec_time_slot_fits(self@),
            },
    {
        let mut out: Vec<u8> = Vec::new();
        push_pubkey(&mut out, &self.owner);
        push_u64_le(&mut out, self.time.start);
        push_u64_le(&mut out, self.time.end);
        out.push(if self.is_scheduled {
            1u8
        } else {
            0u8
        });
        push_pubkey(&mut out, &self.scheduled_with_account);
        if !push_string(&mut out, self.meeting_id.as_str()) {
            return None;
        }
        proof {
            assert(out@ =~= spec_time_slot_bytes(self@));
        }
        Some(out)
    }

    /// Decode a stored record. Succeeds, with the one value the bytes
    /// encode, exactly when `b` is in full a well-formed time slot.
    pub fn try_from_bytes(b: &Vec<u8>) -> (r: Result<TimeSlot, ProgramError>)
        ensures
            match r {
                Ok(v) => spec_time_slot_fits(v@) && b@ == spec_time_slot_bytes(v@)
                    && is_time_slot_encoding(b@) && time_slot_of_bytes(b@) == v@,
                Err(e) => !is_time_slot_encoding(b@) && e == ProgramError::MalformedRecord,
            },
    {
        let len: usize = b.len();
        if len < 85 {
            proof {
                assert(!is_time_slot_encoding(b@)) by {
                    if is_time_slot_encoding(b@) {
                        let w = choose|w: TimeSlotV|
                            spec_time_slot_fits(w) && spec_time_slot_bytes(w) == b@;
                        lemma_time_slot_bytes_structure(w);
                    }
                };
            }
            return Err(ProgramError::MalformedRecord);
        }
        let owner = read_pubkey(b, 0);
        let start = read_u64_le(b, 32);
        let end = read_u64_le(b, 40);
        let flag = b[48];
        if flag > 1 {
            proof {
                assert(!is_time_slot_encoding(b@)) by {
                    if is_time_slot_encoding(b@) {
                        let w = choose|w: TimeSlotV|
                            spec_time_slot_fits(w) && spec_time_slot_bytes(w) == b@;
                        lemma_time_slot_bytes_structure(w);
                    }
                };
            }
            return Err(ProgramError::MalformedRecord);
        }
        let is_scheduled = flag == 1;
        let scheduled_with_account = read_pubkey(b, 49);
        match read_tail_string(b, 81) {
            None => {
                proof {
                    assert(!is_time_slot_encoding(b@)) by {
                        if is_time_slot_encoding(b@) {
                            let w = choose|w: TimeSlotV|
                                spec_time_slot_fits(w) && spec_time_slot_bytes(w) == b@;
                            lemma_time_slot_bytes_structure(w);
                            assert(b@.subrange(81, b@.len() as int) == spec_string_bytes(
                                w.meeting_id,
                            ));
                        }
                    };
                }
                Err(ProgramError::MalformedRecord)
            },
            Some(meeting_id) => {
                let v = TimeSlot {
                    owner,
                    time: TimeSlotTime { start, end },
                    is_scheduled,
                    scheduled_with_account,
                    meeting_id,
                };
                proof {
                    lemma_time_slot_bytes_structure(v@);
                    assert(b@ =~= b@.subrange(0, 32) + b@.subrange(32, 40) + b@.subrange(40, 48)
                        + seq![b@[48]] + b@.subrange(49, 81) + b@.subrange(81, b@.len() as int));
                    assert(spec_time_slot_bytes(v@) == spec_pubkey_bytes(v@.owner) + (spec_u64_le(
                        start,
                    ) + spec_u64_le(end)) + seq![spec_bool_byte(is_scheduled)] + spec_pubkey_bytes(
                        scheduled_with_account,
                    ) + spec_string_bytes(v@.meeting_id));
                    assert(b@ =~= spec_time_slot_bytes(v@));
                    assert forall|w: TimeSlotV|
                        spec_time_slot_fits(w) && spec_time_slot_bytes(w)
                            == b@ implies w == v@ by {
                        lemma_time_slot_bytes_injective(w, v@);
                    }
                    assert(is_time_slot_encoding(b@));
                    assert(time_slot_of_bytes(b@) == v@);
                }
                Ok(v)
            },
        }
    }
}

impl Reservation {
    /// Serialize this record. Returns `None` exactly when the display name
    /// overflows the 32-bit length prefix.
    pub fn to_bytes(&self) -> (r: Option<Vec<u8>>)
        ensures
            match r {
                Some(out) => spec_reservation_fits(self@) && out@ == spec_reservation_bytes(self@),
                None => !spec_reservation_fits(self@),
            },
    {
        let mut out: Vec<u8> = Vec::new();
        push_pubkey(&mut out, &self.time_slot_account);
        if !push_string(&mut out, self.name.as_str()) {
            return None;
        }
        proof {
            assert(out@ =~= spec_reservation_bytes(self@));
        }
        Some(out)
    }

    /// Decode a stored record. Succeeds, with the one value the bytes
    /// encode, exactly when `b` is in full a well-formed reservation.
    pub fn try_from_bytes(b: &Vec<u8>) -> (r: Result<Reservation, ProgramError>)
        ensures
            match r {
                Ok(v) => spec_reservation_fits(v@) && b@ == spec_reservation_bytes(v@)
                    && is_reservation_encoding(b@) && reservation_of_bytes(b@) == v@,
                Err(e) => !is_reservation_encoding(b@) && e == ProgramError::MalformedRecord,
            },
    {
        let len: usize = b.len();
        if len < 36 {
            proof {
                assert(!is_reservation_encoding(b@)) by {
                    if is_reservation_encoding(b@) {
                        let w = choose|w: ReservationV|
                            spec_reservation_fits(w) && spec_reservation_bytes(w) == b@;
                        lemma_reservation_bytes_structure(w);
                    }
                };
            }
            return Err(ProgramError::MalformedRecord);
        }
        let time_slot_account = read_pubkey(b, 0);
        match read_tail_string(b, 32) {
            None => {
                proof {
                    assert(!is_reservation_encoding(b@)) by {
                        if is_reservation_encoding(b@) {
                            let w = choose|w: ReservationV|
                                spec_reservation_fits(w) && spec_reservation_bytes(w) == b@;
                            lemma_reservation_bytes_structure(w);
                            assert(b@.subrange(32, b@.len() as int) == spec_string_bytes(w.name));
                        }
                    };
                }
                Err(ProgramError::MalformedRecord)
            },
            Some(name) => {
                let v = Reservation { time_slot_account, name };
                proof {
                    lemma_reservation_bytes_structure(v@);
                    assert(b@ =~= b@.subrange(0, 32) + b@.subrange(32, b@.len() as int));
                    assert(b@ =~= spec_reservation_bytes(v@));
                    assert forall|w: ReservationV|
                        spec_reservation_fits(w) && spec_reservation_bytes(w)
                            == b@ implies w == v@ by {
                        lemma_reservation_bytes_injective(w, v@);
                    }
                    assert(is_reservation_encoding(b@));
                    assert(reservation_of_bytes(b@) == v@);
                }
                Ok(v)
            },
        }
    }
}

impl SeeYouThenInstruction {
    /// Serialize this request. Returns `None` exactly when its string
    /// overflows the 32-bit length prefix.
    pub fn to_bytes(&self) -> (r: Option<Vec<u8>>)
        ensures
            match r {
                Some(out) => spec_instruction_fits(self@) && out@ == spec_instruction_bytes(self@),
                None => !spec_instruction_fits(self@),
            },
    {
        let mut out: Vec<u8> = Vec::new();
        match self {
            SeeYouThenInstruction::CreateTimeSlot { time, meeting_id } => {
                out.push(0u8);
                push_u64_le(&mut out, time.start);
                push_u64_le(&mut out, time.end);
                if !push_string(&mut out, meeting_id.as_str()) {
                    return None;
                }
                proof {
                    assert(out@ =~= spec_instruction_bytes(self@));
                }
                Some(out)
            },
            SeeYouThenInstruction::ScheduleMeeting { user_name } => {
                out.push(1u8);
                if !push_string(&mut out, user_name.as_str()) {
                    return None;
                }
                proof {
                    assert(out@ =~= spec_instruction_bytes(self@));
                }
                Some(out)
            },
        }
    }

    /// Decode an instruction buffer. Succeeds, with the one request the
    /// bytes encode, exactly when `b` is in full a well-formed request.
    pub fn try_from_bytes(b: &Vec<u8>) -> (r: Result<SeeYouThenInstruction, ProgramError>)
        ensures
            match r {
                Ok(v) => spec_instruction_fits(v@) && b@ == spec_instruction_bytes(v@)
                    && is_instruction_encoding(b@) && instruction_of_bytes(b@) == v@,
                Err(e) => !is_instruction_encoding(b@) && e == ProgramError::MalformedInstruction,
            },
    {
        let len: usize = b.len();
        if len == 0 {
            proof {
                assert(!is_instruction_encoding(b@)) by {
                    if is_instruction_encoding(b@) {
                        let w = choose|w: SeeYouThenInstructionV|
                            spec_instruction_fits(w) && spec_instruction_bytes(w) == b@;
                        assert(spec_instruction_bytes(w).len() >= 1);
                    }
                };
            }
            return Err(ProgramError::MalformedInstruction);
        }
        let disc = b[0];
        if disc == 0 {
            if len < 21 {
                proof {
                    assert(!is_instruction_encoding(b@)) by {
                        if is_instruction_encoding(b@) {
                            let w = choose|w: SeeYouThenInstructionV|
                                spec_instruction_fits(w) && spec_instruction_bytes(w) == b@;
                            match w {
                                SeeYouThenInstructionV::CreateTimeSlot { time, meeting_id } => {
                                    assert(spec_instruction_bytes(w).len() == 21 + encode_utf8(
                                        meeting_id,
                                    ).len());
                                },
                                SeeYouThenInstructionV::ScheduleMeeting { user_name } => {
                                    assert(b@[0] == 1u8);
                                },
                            }
                        }
                    };
                }
                return Err(ProgramError::MalformedInstruction);
            }
            let start = read_u64_le(b, 1);
            let end = read_u64_le(b, 9);
            match read_tail_string(b, 17) {
                None => {
                    proof {
                        assert(!is_instruction_encoding(b@)) by {
                            if is_instruction_encoding(b@) {
                                let w = choose|w: SeeYouThenInstructionV|
                                    spec_instruction_fits(w) && spec_instruction_bytes(w) == b@;
                                match w {
                                    SeeYouThenInstructionV::CreateTimeSlot {
                                        time,
                                        meeting_id,
                                    } => {
                                        assert(spec_string_bytes(meeting_id) =~= b@.subrange(
                                            17,
                                            b@.len() as int,
                                        ));
                                    },
                                    SeeYouThenInstructionV::ScheduleMeeting { user_name } => {
                                        assert(b@[0] == 1u8);
                                    },
                                }
                            }
                        };
                    }
                    Err(ProgramError::MalformedInstruction)
                },
                Some(meeting_id) => {
                    let v = SeeYouThenInstruction::CreateTimeSlot {
                        time: TimeSlotTime { start, end },
                        meeting_id,
                    };
                    proof {
                        assert(b@ =~= seq![b@[0]] + b@.subrange(1, 9) + b@.subrange(9, 17)
                            + b@.subrange(17, b@.len() as int));
                        assert(b@ =~= spec_instruction_bytes(v@));
                        assert forall|w: SeeYouThenInstructionV|
                            spec_instruction_fits(w) && spec_instruction_bytes(w)
                                == b@ implies w == v@ by {
                            lemma_instruction_bytes_injective(w, v@);
                        }
                        assert(is_instruction_encoding(b@));
                        assert(instruction_of_bytes(b@) == v@);
                    }
                    Ok(v)
                },
            }
        } else if disc == 1 {
            match read_tail_string(b, 1) {
                None => {
                    proof {
                        assert(!is_instruction_encoding(b@)) by {
                            if is_instruction_encoding(b@) {
                                let w = choose|w: SeeYouThenInstructionV|
                                    spec_instruction_fits(w) && spec_instruction_bytes(w) == b@;
                                match w {
                                    SeeYouThenInstructionV::CreateTimeSlot {
                                        time,
                                        meeting_id,
                                    } => {
                                        assert(b@[0] == 0u8);
                                    },
                                    SeeYouThenInstructionV::ScheduleMeeting { user_name } => {
                                        assert(spec_string_bytes(user_name) =~= b@.subrange(
                                            1,
                                            b@.len() as int,
                                        ));
                                    },
                                }
                            }
                        };
                    }
                    Err(ProgramError::MalformedInstruction)
                },
                Some(user_name) => {
                    let v = SeeYouThenInstruction::ScheduleMeeting { user_name };
                    proof {
                        assert(b@ =~= seq![b@[0]] + b@.subrange(1, b@.len() as int));
                        assert(b@ =~= spec_instruction_bytes(v@));
                        assert forall|w: SeeYouThenInstructionV|
                            spec_instruction_fits(w) && spec_instruction_bytes(w)
                                == b@ implies w == v@ by {
                            lemma_instruction_bytes_injective(w, v@);
                        }
                        assert(is_instruction_encoding(b@));
                        assert(instruction_of_bytes(b@) == v@);
                    }
                    Ok(v)
                },
            }
        } else {
            proof {
                assert(!is_instruction_encoding(b@)) by {
                    if is_instruction_encoding(b@) {
                        let w = choose|w: SeeYouThenInstructionV|
                            spec_instruction_fits(w) && spec_instruction_bytes(w) == b@;
                        match w {
                            SeeYouThenInstructionV::CreateTimeSlot { time, meeting_id } => {
                                assert(b@[0] == 0u8);
                            },
                            SeeYouThenInstructionV::ScheduleMeeting { user_name } => {
                                assert(b@[0] == 1u8);
                            },
                        }
                    }
                };
            }
            Err(ProgramError::MalformedInstruction)
        }
    }
}

} // verus!
