use deno_bindgen_cli::program::{process_instruction, ClockInfo, ProgramAccount, ProgramFault};

fn account(owner: [u8; 32], is_writable: bool, data: Vec<u8>) -> ProgramAccount {
    ProgramAccount { owner, is_writable, data }
}

#[test]
fn default_request_writes_checksum_and_clock() {
    let program_id = [3u8; 32];
    let mut data = vec![0u8; 17];
    data.push(0xAA);
    let mut accounts = vec![account(program_id, true, data)];
    let clock = ClockInfo { slot: 7, unix_timestamp: 5 };
    process_instruction(&program_id, &mut accounts, &[], &clock).unwrap();
    let written = &accounts[0].data;
    // 32 scratch bytes valued 1..=32 sum to 528, which wraps to 16.
    assert_eq!(written[0], 16);
    assert_eq!(&written[1..9], &[5, 0, 0, 0, 0, 0, 0, 0]);
    assert_eq!(&written[9..17], &[7, 0, 0, 0, 0, 0, 0, 0]);
    assert_eq!(written[17], 0xAA);
}

#[test]
fn explicit_request_length_changes_the_checksum() {
    let program_id = [1u8; 32];
    let mut accounts = vec![account(program_id, true, vec![0u8; 17])];
    let clock = ClockInfo { slot: 0, unix_timestamp: 0 };
    // Eight scratch bytes valued 1..=8 sum to 36.
    process_instruction(&program_id, &mut accounts, &[8, 0, 0, 0], &clock).unwrap();
    assert_eq!(accounts[0].data[0], 36);
}

#[test]
fn negative_timestamp_is_written_in_twos_complement() {
    let program_id = [1u8; 32];
    let mut accounts = vec![account(program_id, true, vec![0u8; 17])];
    let clock = ClockInfo { slot: 1, unix_timestamp: -2 };
    process_instruction(&program_id, &mut accounts, &[], &clock).unwrap();
    assert_eq!(
        &accounts[0].data[1..9],
        &[0xFE, 0xFF, 0xFF, 0xFF, 0xFF, 0xFF, 0xFF, 0xFF]
    );
}

#[test]
fn missing_account_is_rejected() {
    let program_id = [1u8; 32];
    let mut accounts: Vec<ProgramAccount> = Vec::new();
    let clock = ClockInfo { slot: 0, unix_timestamp: 0 };
    let e = process_instruction(&program_id, &mut accounts, &[], &clock).unwrap_err();
    assert_eq!(e, ProgramFault::NotEnoughAccountKeys);
}

#[test]
fn foreign_owner_is_rejected() {
    let program_id = [1u8; 32];
    let mut accounts = vec![account([2u8; 32], true, vec![0u8; 17])];
    let clock = ClockInfo { slot: 0, unix_timestamp: 0 };
    let e = process_instruction(&program_id, &mut accounts, &[], &clock).unwrap_err();
    assert_eq!(e, ProgramFault::IncorrectProgramId);
    assert_eq!(accounts[0].data, vec![0u8; 17]);
}

#[test]
fn read_only_account_is_rejected() {
    let program_id = [1u8; 32];
    let mut accounts = vec![account(program_id, false, vec![0u8; 17])];
    let clock = ClockInfo { slot: 0, unix_timestamp: 0 };
    let e = process_instruction(&program_id, &mut accounts, &[], &clock).unwrap_err();
    assert_eq!(e, ProgramFault::InvalidAccountData);
}

#[test]
fn short_account_data_is_rejected() {
    let program_id = [1u8; 32];
    let mut accounts = vec![account(program_id, true, vec![0u8; 16])];
    let clock = ClockInfo { slot: 0, unix_timestamp: 0 };
    let e = process_instruction(&program_id, &mut accounts, &[], &clock).unwrap_err();
    assert_eq!(e, ProgramFault::AccountDataTooSmall);
}

#[test]
fn too_small_a_request_is_rejected() {
    let program_id = [1u8; 32];
    let mut accounts = vec![account(program_id, true, vec![0u8; 17])];
    let clock = ClockInfo { slot: 0, unix_timestamp: 0 };
    let e = process_instruction(&program_id, &mut accounts, &[7, 0, 0, 0], &clock).unwrap_err();
    assert_eq!(e, ProgramFault::InvalidInstructionData);
    assert_eq!(accounts[0].data, vec![0u8; 17]);
}

#[test]
fn later_accounts_are_untouched() {
    let program_id = [1u8; 32];
    let mut accounts = vec![
        account(program_id, true, vec![0u8; 17]),
        account([9u8; 32], false, vec![4u8; 3]),
    ];
    let clock = ClockInfo { slot: 2, unix_timestamp: 3 };
    process_instruction(&program_id, &mut accounts, &[], &clock).unwrap();
    assert_eq!(accounts[1].owner, [9u8; 32]);
    assert_eq!(accounts[1].data, vec![4u8; 3]);
}
