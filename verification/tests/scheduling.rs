use see_you_then::accounts::AccountInfo;
use see_you_then::accounts::Rent;
use see_you_then::Processor;
use see_you_then::create_time_slot;
use see_you_then::keys::allocator_id;
use see_you_then::process_instruction;
use see_you_then::schedule_meeting;
use see_you_then::ProgramError;
use see_you_then::Pubkey;
use see_you_then::Reservation;
use see_you_then::TimeSlot;
use see_you_then::TimeSlotTime;

fn key(n: u64) -> Pubkey {
    Pubkey::new(n, 0, 0, 0)
}

fn unallocated(k: Pubkey, is_signer: bool) -> AccountInfo {
    AccountInfo { key: k, is_signer, lamports: 0, owner: Pubkey::default(), data: Vec::new() }
}

fn funded(k: Pubkey, lamports: u64) -> AccountInfo {
    AccountInfo { key: k, is_signer: true, lamports, owner: Pubkey::default(), data: Vec::new() }
}

fn rent() -> Rent {
    Rent { lamports_per_byte: 5 }
}

#[test]
fn time_slot_create_and_schedule() {
    let program = key(99);
    let payer = key(1);
    let time_slot_key = key(2);

    // Create a new time slot
    let instruction = create_time_slot(
        program,
        payer,
        time_slot_key,
        TimeSlotTime { start: 0f64.to_bits(), end: 120f64.to_bits() },
        "My meeting".to_string(),
    );
    let mut accounts = vec![
        funded(payer, 10000000000),
        unallocated(time_slot_key, true),
        unallocated(allocator_id(), false),
    ];
    process_instruction(&program, &mut accounts, &instruction.data, &rent()).expect("success");

    // Confirm that the new time slot has been created
    assert_eq!(accounts[1].owner, program);

    // Parse created time slot and verify data
    let parsed_time_slot = TimeSlot::try_from_bytes(&accounts[1].data).expect("Deserialize");
    assert_eq!(parsed_time_slot.is_scheduled, false);
    assert_eq!(parsed_time_slot.owner, payer);
    assert_eq!(f64::from_bits(parsed_time_slot.time.start), 0.0);
    assert_eq!(f64::from_bits(parsed_time_slot.time.end), 120.0);
    assert_eq!(parsed_time_slot.meeting_id, "My meeting".to_string());

    // Schedule the slot from a second, funded identity
    let scheduling_key = key(3);
    let reservation_key = key(4);
    let instruction = schedule_meeting(
        program,
        scheduling_key,
        reservation_key,
        time_slot_key,
        "John Doe".to_string(),
    );
    let mut accounts = vec![
        funded(scheduling_key, 10000000000),
        unallocated(reservation_key, true),
        AccountInfo {
            key: time_slot_key,
            is_signer: false,
            lamports: accounts[1].lamports,
            owner: program,
            data: accounts[1].data.clone(),
        },
        unallocated(allocator_id(), false),
    ];
    process_instruction(&program, &mut accounts, &instruction.data, &rent()).expect("success");

    let parsed_reservation = Reservation::try_from_bytes(&accounts[1].data).expect("Deserialize");
    let parsed_time_slot = TimeSlot::try_from_bytes(&accounts[2].data).expect("Deserialize");

    // Verify that the registration succeeded
    assert_eq!(parsed_time_slot.is_scheduled, true);
    assert_eq!(parsed_time_slot.scheduled_with_account, scheduling_key);
    assert_eq!(parsed_reservation.time_slot_account, time_slot_key);
    assert_eq!(parsed_reservation.name, "John Doe".to_string());

    // Try to double-book the time slot
    let reservation_2_key = key(5);
    let instruction = schedule_meeting(
        program,
        scheduling_key,
        reservation_2_key,
        time_slot_key,
        "John Doe 2".to_string(),
    );
    let slot_lamports = accounts[2].lamports;
    let mut accounts = vec![
        funded(scheduling_key, 10000000000),
        unallocated(reservation_2_key, true),
        AccountInfo {
            key: time_slot_key,
            is_signer: false,
            lamports: slot_lamports,
            owner: program,
            data: accounts[2].data.clone(),
        },
        unallocated(allocator_id(), false),
    ];
    let before = accounts[2].data.clone();
    let result = process_instruction(&program, &mut accounts, &instruction.data, &rent());

    // Make sure that it doesn't let us double-book
    assert_eq!(result, Err(ProgramError::InvalidInstructionData));

    // The loser's attempt left everything exactly as it was
    assert_eq!(accounts[2].data, before);
    assert_eq!(accounts[1].data.len(), 0);
    assert_eq!(accounts[1].lamports, 0);
    assert_eq!(accounts[0].lamports, 10000000000);
    let parsed_time_slot = TimeSlot::try_from_bytes(&accounts[2].data).expect("Deserialize");
    assert_eq!(parsed_time_slot.scheduled_with_account, scheduling_key);
}

#[test]
fn create_requires_signature() {
    let program = key(99);
    let payer = key(1);
    let mut accounts = vec![
        AccountInfo {
            key: payer,
            is_signer: false,
            lamports: 1000000,
            owner: Pubkey::default(),
            data: Vec::new(),
        },
        unallocated(key(2), true),
        unallocated(allocator_id(), false),
    ];
    let instruction = create_time_slot(
        program,
        payer,
        key(2),
        TimeSlotTime { start: 7, end: 9 },
        "x".to_string(),
    );
    let r = process_instruction(&program, &mut accounts, &instruction.data, &rent());
    assert_eq!(r, Err(ProgramError::MissingRequiredSignature));
    // Nothing was touched
    assert_eq!(accounts[0].lamports, 1000000);
    assert_eq!(accounts[1].data.len(), 0);
}

#[test]
fn schedule_requires_signature() {
    let program = key(99);
    let payer = key(1);
    let slot_key = key(2);
    // A valid stored slot to aim at
    let slot = TimeSlot {
        owner: payer,
        time: TimeSlotTime { start: 7, end: 9 },
        is_scheduled: false,
        scheduled_with_account: Pubkey::default(),
        meeting_id: "m".to_string(),
    };
    let slot_bytes = slot.to_bytes().expect("encode");
    let mut accounts = vec![
        AccountInfo {
            key: key(3),
            is_signer: false,
            lamports: 1000000,
            owner: Pubkey::default(),
            data: Vec::new(),
        },
        unallocated(key(4), true),
        AccountInfo {
            key: slot_key,
            is_signer: false,
            lamports: 500,
            owner: program,
            data: slot_bytes.clone(),
        },
        unallocated(allocator_id(), false),
    ];
    let instruction =
        schedule_meeting(program, key(3), key(4), slot_key, "n".to_string());
    let r = process_instruction(&program, &mut accounts, &instruction.data, &rent());
    assert_eq!(r, Err(ProgramError::MissingRequiredSignature));
    assert_eq!(accounts[2].data, slot_bytes);
    assert_eq!(accounts[1].data.len(), 0);
}

#[test]
fn create_rejects_program_owned_funder() {
    let program = key(99);
    let payer = key(1);
    let mut accounts = vec![
        AccountInfo {
            key: payer,
            is_signer: true,
            lamports: 1000000,
            owner: program,
            data: Vec::new(),
        },
        unallocated(key(2), true),
        unallocated(allocator_id(), false),
    ];
    let instruction = create_time_slot(
        program,
        payer,
        key(2),
        TimeSlotTime { start: 7, end: 9 },
        "x".to_string(),
    );
    let r = process_instruction(&program, &mut accounts, &instruction.data, &rent());
    assert_eq!(r, Err(ProgramError::InvalidAccountData));
}

#[test]
fn create_rejects_allocated_target() {
    let program = key(99);
    let payer = key(1);
    let mut accounts = vec![
        funded(payer, 1000000),
        AccountInfo {
            key: key(2),
            is_signer: true,
            lamports: 1,
            owner: Pubkey::default(),
            data: Vec::new(),
        },
        unallocated(allocator_id(), false),
    ];
    let instruction = create_time_slot(
        program,
        payer,
        key(2),
        TimeSlotTime { start: 7, end: 9 },
        "x".to_string(),
    );
    let r = process_instruction(&program, &mut accounts, &instruction.data, &rent());
    assert_eq!(r, Err(ProgramError::AccountAlreadyInUse));
}

#[test]
fn create_rejects_insufficient_funds() {
    let program = key(99);
    let payer = key(1);
    let mut accounts = vec![
        funded(payer, 3),
        unallocated(key(2), true),
        unallocated(allocator_id(), false),
    ];
    let instruction = create_time_slot(
        program,
        payer,
        key(2),
        TimeSlotTime { start: 7, end: 9 },
        "x".to_string(),
    );
    let r = process_instruction(&program, &mut accounts, &instruction.data, &rent());
    assert_eq!(r, Err(ProgramError::InsufficientFunds));
    assert_eq!(accounts[0].lamports, 3);
}

#[test]
fn create_rejects_missing_accounts() {
    let program = key(99);
    let payer = key(1);
    let mut accounts = vec![funded(payer, 1000000)];
    let instruction = create_time_slot(
        program,
        payer,
        key(2),
        TimeSlotTime { start: 7, end: 9 },
        "x".to_string(),
    );
    let r = process_instruction(&program, &mut accounts, &instruction.data, &rent());
    assert_eq!(r, Err(ProgramError::NotEnoughAccountKeys));
}

#[test]
fn schedule_rejects_malformed_record() {
    let program = key(99);
    let mut accounts = vec![
        funded(key(3), 1000000),
        unallocated(key(4), true),
        AccountInfo {
            key: key(2),
            is_signer: false,
            lamports: 500,
            owner: program,
            data: vec![1, 2, 3],
        },
        unallocated(allocator_id(), false),
    ];
    let instruction =
        schedule_meeting(program, key(3), key(4), key(2), "n".to_string());
    let r = process_instruction(&program, &mut accounts, &instruction.data, &rent());
    assert_eq!(r, Err(ProgramError::MalformedRecord));
}

#[test]
fn create_charges_exact_rent() {
    let program = key(99);
    let payer = key(1);
    let mut accounts = vec![
        funded(payer, 10000000000),
        unallocated(key(2), true),
        unallocated(allocator_id(), false),
    ];
    let instruction = create_time_slot(
        program,
        payer,
        key(2),
        TimeSlotTime { start: 7, end: 9 },
        "ab".to_string(),
    );
    process_instruction(&program, &mut accounts, &instruction.data, &rent()).expect("success");
    // The record is 85 bytes of fixed fields plus 2 string bytes; at 5
    // units a byte that is 435 units, moved from the funder to the record.
    assert_eq!(accounts[1].data.len(), 87);
    assert_eq!(accounts[1].lamports, 435);
    assert_eq!(accounts[0].lamports, 10000000000 - 435);
}

#[test]
fn create_funds_at_least_one_unit() {
    let program = key(99);
    let payer = key(1);
    let mut accounts = vec![
        funded(payer, 1000000),
        unallocated(key(2), true),
        unallocated(allocator_id(), false),
    ];
    let free_rent = Rent { lamports_per_byte: 0 };
    let instruction = create_time_slot(
        program,
        payer,
        key(2),
        TimeSlotTime { start: 7, end: 9 },
        "ab".to_string(),
    );
    process_instruction(&program, &mut accounts, &instruction.data, &free_rent).expect("success");
    assert_eq!(accounts[1].lamports, 1);
    assert_eq!(accounts[0].lamports, 1000000 - 1);
}

#[test]
fn processor_runs_one_invocation() {
    let program = key(99);
    let payer = key(1);
    let instruction = create_time_slot(
        program,
        payer,
        key(2),
        TimeSlotTime { start: 7, end: 9 },
        "direct".to_string(),
    );
    let accounts = vec![
        funded(payer, 1000000),
        unallocated(key(2), true),
        unallocated(allocator_id(), false),
    ];
    let mut processor = Processor::new(program, accounts, instruction.data, rent());
    processor.process().expect("success");
    let parsed = TimeSlot::try_from_bytes(&processor.accounts[1].data).expect("Deserialize");
    assert_eq!(parsed.meeting_id, "direct".to_string());
    assert_eq!(parsed.owner, payer);
    assert!(!parsed.is_scheduled);
}

#[test]
fn process_rejects_malformed_instruction() {
    let program = key(99);
    let mut accounts = vec![
        funded(key(1), 1000000),
        unallocated(key(2), true),
        unallocated(allocator_id(), false),
    ];
    let r = process_instruction(&program, &mut accounts, &vec![7u8, 7, 7], &rent());
    assert_eq!(r, Err(ProgramError::MalformedInstruction));
    assert_eq!(accounts[0].lamports, 1000000);
    assert_eq!(accounts[1].data.len(), 0);
}

#[test]
fn builders_lay_out_accounts_in_order() {
    let program = key(99);
    let instruction = create_time_slot(
        program,
        key(1),
        key(2),
        TimeSlotTime { start: 7, end: 9 },
        "x".to_string(),
    );
    assert_eq!(instruction.program_id, program);
    assert_eq!(instruction.accounts.len(), 3);
    assert_eq!(instruction.accounts[0].pubkey, key(1));
    assert!(instruction.accounts[0].is_signer);
    assert!(instruction.accounts[0].is_writable);
    assert_eq!(instruction.accounts[1].pubkey, key(2));
    assert!(instruction.accounts[1].is_signer);
    assert_eq!(instruction.accounts[2].pubkey, allocator_id());
    assert!(!instruction.accounts[2].is_signer);
    assert!(!instruction.accounts[2].is_writable);

    let instruction =
        schedule_meeting(program, key(3), key(4), key(2), "n".to_string());
    assert_eq!(instruction.accounts.len(), 4);
    assert_eq!(instruction.accounts[0].pubkey, key(3));
    assert!(instruction.accounts[0].is_signer);
    assert_eq!(instruction.accounts[1].pubkey, key(4));
    assert!(instruction.accounts[1].is_signer);
    assert_eq!(instruction.accounts[2].pubkey, key(2));
    assert!(!instruction.accounts[2].is_signer);
    assert!(instruction.accounts[2].is_writable);
    assert_eq!(instruction.accounts[3].pubkey, allocator_id());
    assert!(!instruction.accounts[3].is_writable);
}
