use see_you_then::ProgramError;
use see_you_then::Pubkey;
use see_you_then::Reservation;
use see_you_then::SeeYouThenInstruction;
use see_you_then::TimeSlot;
use see_you_then::TimeSlotTime;

fn key(n: u64) -> Pubkey {
    Pubkey::new(n, 0, 0, 0)
}

#[test]
fn time_slot_round_trip() {
    let slot = TimeSlot {
        owner: Pubkey::new(1, 2, 3, 4),
        time: TimeSlotTime { start: 0f64.to_bits(), end: 120f64.to_bits() },
        is_scheduled: true,
        scheduled_with_account: Pubkey::new(5, 6, 7, 8),
        meeting_id: "Standup \u{2600}".to_string(),
    };
    let bytes = slot.to_bytes().expect("encode");
    let parsed = TimeSlot::try_from_bytes(&bytes).expect("decode");
    assert_eq!(parsed.owner, slot.owner);
    assert_eq!(parsed.time, slot.time);
    assert_eq!(parsed.is_scheduled, slot.is_scheduled);
    assert_eq!(parsed.scheduled_with_account, slot.scheduled_with_account);
    assert_eq!(parsed.meeting_id, slot.meeting_id);
}

#[test]
fn reservation_round_trip() {
    let reservation = Reservation {
        time_slot_account: Pubkey::new(9, 10, 11, 12),
        name: "".to_string(),
    };
    let bytes = reservation.to_bytes().expect("encode");
    let parsed = Reservation::try_from_bytes(&bytes).expect("decode");
    assert_eq!(parsed.time_slot_account, reservation.time_slot_account);
    assert_eq!(parsed.name, reservation.name);
}

#[test]
fn instruction_round_trip() {
    let request = SeeYouThenInstruction::CreateTimeSlot {
        time: TimeSlotTime { start: 1, end: u64::MAX },
        meeting_id: "weekly sync".to_string(),
    };
    let bytes = request.to_bytes().expect("encode");
    match SeeYouThenInstruction::try_from_bytes(&bytes).expect("decode") {
        SeeYouThenInstruction::CreateTimeSlot { time, meeting_id } => {
            assert_eq!(time, TimeSlotTime { start: 1, end: u64::MAX });
            assert_eq!(meeting_id, "weekly sync".to_string());
        }
        SeeYouThenInstruction::ScheduleMeeting { .. } => panic!("wrong variant"),
    }

    let request = SeeYouThenInstruction::ScheduleMeeting { user_name: "John Doe".to_string() };
    let bytes = request.to_bytes().expect("encode");
    match SeeYouThenInstruction::try_from_bytes(&bytes).expect("decode") {
        SeeYouThenInstruction::ScheduleMeeting { user_name } => {
            assert_eq!(user_name, "John Doe".to_string());
        }
        SeeYouThenInstruction::CreateTimeSlot { .. } => panic!("wrong variant"),
    }
}

#[test]
fn instruction_exact_bytes() {
    let request = SeeYouThenInstruction::CreateTimeSlot {
        time: TimeSlotTime { start: 1, end: 2 },
        meeting_id: "AB".to_string(),
    };
    let bytes = request.to_bytes().expect("encode");
    let mut expected = vec![0u8];
    expected.extend_from_slice(&[1, 0, 0, 0, 0, 0, 0, 0]);
    expected.extend_from_slice(&[2, 0, 0, 0, 0, 0, 0, 0]);
    expected.extend_from_slice(&[2, 0, 0, 0]);
    expected.extend_from_slice(b"AB");
    assert_eq!(bytes, expected);

    let request = SeeYouThenInstruction::ScheduleMeeting { user_name: "Q".to_string() };
    let bytes = request.to_bytes().expect("encode");
    assert_eq!(bytes, vec![1u8, 1, 0, 0, 0, b'Q']);
}

#[test]
fn time_slot_exact_bytes() {
    let slot = TimeSlot {
        owner: Pubkey::new(1, 0, 0, 0),
        time: TimeSlotTime { start: 3, end: 4 },
        is_scheduled: false,
        scheduled_with_account: Pubkey::default(),
        meeting_id: "m".to_string(),
    };
    let bytes = slot.to_bytes().expect("encode");
    assert_eq!(bytes.len(), 86);
    let mut expected = vec![1u8, 0, 0, 0, 0, 0, 0, 0];
    expected.extend_from_slice(&[0u8; 24]);
    expected.extend_from_slice(&[3, 0, 0, 0, 0, 0, 0, 0]);
    expected.extend_from_slice(&[4, 0, 0, 0, 0, 0, 0, 0]);
    expected.push(0);
    expected.extend_from_slice(&[0u8; 32]);
    expected.extend_from_slice(&[1, 0, 0, 0]);
    expected.push(b'm');
    assert_eq!(bytes, expected);
}

#[test]
fn scheduling_keeps_record_length() {
    let open = TimeSlot {
        owner: Pubkey::new(1, 2, 3, 4),
        time: TimeSlotTime { start: 3, end: 4 },
        is_scheduled: false,
        scheduled_with_account: Pubkey::default(),
        meeting_id: "fixed width".to_string(),
    };
    let open_bytes = open.to_bytes().expect("encode");
    let claimed = TimeSlot {
        is_scheduled: true,
        scheduled_with_account: Pubkey::new(5, 6, 7, 8),
        ..open
    };
    let claimed_bytes = claimed.to_bytes().expect("encode");
    assert_eq!(open_bytes.len(), claimed_bytes.len());
}

#[test]
fn decode_rejects_malformed_instruction() {
    assert!(matches!(
        SeeYouThenInstruction::try_from_bytes(&Vec::new()),
        Err(ProgramError::MalformedInstruction)
    ));
    // Unknown discriminant
    assert!(matches!(
        SeeYouThenInstruction::try_from_bytes(&vec![2u8, 0, 0, 0, 0]),
        Err(ProgramError::MalformedInstruction)
    ));
    // Truncated payload
    assert!(matches!(
        SeeYouThenInstruction::try_from_bytes(&vec![0u8, 1, 2, 3]),
        Err(ProgramError::MalformedInstruction)
    ));
    // Length prefix does not match the remaining bytes
    assert!(matches!(
        SeeYouThenInstruction::try_from_bytes(&vec![1u8, 5, 0, 0, 0, b'a']),
        Err(ProgramError::MalformedInstruction)
    ));
    // Trailing bytes after the declared string
    assert!(matches!(
        SeeYouThenInstruction::try_from_bytes(&vec![1u8, 1, 0, 0, 0, b'a', b'b']),
        Err(ProgramError::MalformedInstruction)
    ));
    // Declared string is not UTF-8
    assert!(matches!(
        SeeYouThenInstruction::try_from_bytes(&vec![1u8, 1, 0, 0, 0, 0xff]),
        Err(ProgramError::MalformedInstruction)
    ));
}

#[test]
fn decode_rejects_malformed_record() {
    // Too short for the fixed fields
    assert!(matches!(
        TimeSlot::try_from_bytes(&vec![0u8; 84]),
        Err(ProgramError::MalformedRecord)
    ));
    // A boolean byte other than 0 or 1
    let slot = TimeSlot {
        owner: key(1),
        time: TimeSlotTime { start: 3, end: 4 },
        is_scheduled: false,
        scheduled_with_account: Pubkey::default(),
        meeting_id: "m".to_string(),
    };
    let mut bytes = slot.to_bytes().expect("encode");
    bytes[48] = 2;
    assert!(matches!(
        TimeSlot::try_from_bytes(&bytes),
        Err(ProgramError::MalformedRecord)
    ));
    // A corrupted length prefix
    let mut bytes = slot.to_bytes().expect("encode");
    bytes[81] = 200;
    assert!(matches!(
        TimeSlot::try_from_bytes(&bytes),
        Err(ProgramError::MalformedRecord)
    ));
    // Reservations are checked the same way
    assert!(matches!(
        Reservation::try_from_bytes(&vec![0u8; 35]),
        Err(ProgramError::MalformedRecord)
    ));
}
