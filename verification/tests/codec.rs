//! Record and instruction codec behaviour on concrete values.

use rndr::error::ProgramError;
use rndr::instruction::RNDRInstruction;
use rndr::pubkey::Pubkey;
use rndr::helpers::{assert_rent_exempt, assert_uninitialized};
use rndr::state::{AccountType, Escrow, InitEscrowParams, InitJobParams, Job};

fn key(fill: u8) -> Pubkey {
    Pubkey { bytes: [fill; 32] }
}

#[test]
fn account_type_bytes_round() {
    assert_eq!(AccountType::Uninitialized.to_byte(), 0);
    assert_eq!(AccountType::EscrowV1.to_byte(), 1);
    assert_eq!(AccountType::JobV1.to_byte(), 2);
    assert_eq!(AccountType::from_byte(0), AccountType::Uninitialized);
    assert_eq!(AccountType::from_byte(1), AccountType::EscrowV1);
    assert_eq!(AccountType::from_byte(2), AccountType::JobV1);
    assert_eq!(AccountType::from_byte(7), AccountType::Uninitialized);
    assert_eq!(AccountType::default(), AccountType::Uninitialized);
}

#[test]
fn escrow_new_starts_empty() {
    let escrow = Escrow::new(InitEscrowParams { owner: key(9) });
    assert_eq!(escrow.account_type, AccountType::EscrowV1);
    assert_eq!(escrow.amount, 0);
    assert_eq!(escrow.owner.bytes, [9; 32]);
    assert!(escrow.is_initialized());
}

#[test]
fn escrow_pack_layout_and_round_trip() {
    let mut escrow = Escrow::new(InitEscrowParams { owner: key(7) });
    escrow.amount = 0x0102030405060708;
    let bytes = escrow.pack_to_vec();
    assert_eq!(bytes.len(), 41);
    assert_eq!(bytes[0], 1);
    assert_eq!(&bytes[1..9], &[8, 7, 6, 5, 4, 3, 2, 1]);
    assert_eq!(&bytes[9..41], &[7u8; 32]);
    let back = Escrow::unpack(&bytes).unwrap();
    assert_eq!(back.account_type, AccountType::EscrowV1);
    assert_eq!(back.amount, 0x0102030405060708);
    assert_eq!(back.owner.bytes, [7; 32]);
}

#[test]
fn escrow_unpack_rejects_bad_input() {
    let mut bytes = vec![0u8; 41];
    assert_eq!(Escrow::unpack(&bytes).map(|_| ()), Err(ProgramError::InvalidAccountData));
    bytes[0] = 2;
    assert_eq!(Escrow::unpack(&bytes).map(|_| ()), Err(ProgramError::InvalidAccountData));
    bytes[0] = 1;
    assert!(Escrow::unpack(&bytes).is_ok());
    bytes.push(0);
    assert_eq!(Escrow::unpack(&bytes).map(|_| ()), Err(ProgramError::InvalidAccountData));
    assert_eq!(Escrow::unpack(&vec![1u8; 40]).map(|_| ()), Err(ProgramError::InvalidAccountData));
    assert_eq!(Escrow::unpack(&Vec::new()).map(|_| ()), Err(ProgramError::InvalidAccountData));
}

#[test]
fn escrow_pack_checks_buffer_length() {
    let escrow = Escrow::new(InitEscrowParams { owner: key(3) });
    let mut short = vec![0u8; 40];
    assert_eq!(escrow.pack(&mut short), Err(ProgramError::InvalidAccountData));
    assert_eq!(short, vec![0u8; 40]);
    let mut buffer = vec![0xffu8; 41];
    assert_eq!(escrow.pack(&mut buffer), Ok(()));
    assert_eq!(buffer, escrow.pack_to_vec());
}

#[test]
fn job_pack_layout_and_round_trip() {
    let mut job = Job::new(InitJobParams { authority: key(5) });
    assert_eq!(job.account_type, AccountType::JobV1);
    assert_eq!(job.amount, 0);
    assert!(job.is_initialized());
    job.amount = 1_000_000_000;
    let bytes = job.pack_to_vec();
    assert_eq!(bytes.len(), 41);
    assert_eq!(bytes[0], 2);
    assert_eq!(&bytes[1..9], &1_000_000_000u64.to_le_bytes());
    assert_eq!(&bytes[9..41], &[5u8; 32]);
    let back = Job::unpack(&bytes).unwrap();
    assert_eq!(back.amount, 1_000_000_000);
    assert_eq!(back.authority.bytes, [5; 32]);
}

#[test]
fn job_unpack_rejects_bad_input() {
    let mut bytes = vec![0u8; 41];
    assert_eq!(Job::unpack(&bytes).map(|_| ()), Err(ProgramError::InvalidAccountData));
    bytes[0] = 1;
    assert_eq!(Job::unpack(&bytes).map(|_| ()), Err(ProgramError::InvalidAccountData));
    bytes[0] = 2;
    assert!(Job::unpack(&bytes).is_ok());
    assert_eq!(Job::unpack(&vec![2u8; 9]).map(|_| ()), Err(ProgramError::InvalidAccountData));
}

#[test]
fn instruction_pack_layouts() {
    let init = RNDRInstruction::InitEscrow { owner: key(4) };
    let bytes = init.pack();
    assert_eq!(bytes.len(), 33);
    assert_eq!(bytes[0], 0);
    assert_eq!(&bytes[1..33], &[4u8; 32]);

    let set = RNDRInstruction::SetEscrowOwner { new_owner: key(6) };
    let bytes = set.pack();
    assert_eq!(bytes[0], 1);
    assert_eq!(&bytes[1..33], &[6u8; 32]);

    let fund = RNDRInstruction::FundJob { amount: 77 };
    let bytes = fund.pack();
    assert_eq!(bytes.len(), 9);
    assert_eq!(bytes[0], 2);
    assert_eq!(&bytes[1..9], &77u64.to_le_bytes());

    let disburse = RNDRInstruction::DisburseFunds { amount: 1_000_000_000 };
    let bytes = disburse.pack();
    assert_eq!(bytes[0], 3);
    assert_eq!(&bytes[1..9], &1_000_000_000u64.to_le_bytes());
}

#[test]
fn instruction_unpack_round_trip() {
    let cases = vec![
        RNDRInstruction::InitEscrow { owner: key(1) },
        RNDRInstruction::SetEscrowOwner { new_owner: key(2) },
        RNDRInstruction::FundJob { amount: 0 },
        RNDRInstruction::DisburseFunds { amount: u64::MAX },
    ];
    for instruction in cases {
        let bytes = instruction.pack();
        let back = RNDRInstruction::unpack(&bytes).unwrap();
        match (&instruction, &back) {
            (
                RNDRInstruction::InitEscrow { owner: a },
                RNDRInstruction::InitEscrow { owner: b },
            ) => assert_eq!(a.bytes, b.bytes),
            (
                RNDRInstruction::SetEscrowOwner { new_owner: a },
                RNDRInstruction::SetEscrowOwner { new_owner: b },
            ) => assert_eq!(a.bytes, b.bytes),
            (
                RNDRInstruction::FundJob { amount: a },
                RNDRInstruction::FundJob { amount: b },
            ) => assert_eq!(a, b),
            (
                RNDRInstruction::DisburseFunds { amount: a },
                RNDRInstruction::DisburseFunds { amount: b },
            ) => assert_eq!(a, b),
            _ => panic!("variant changed by the codec"),
        }
    }
}

#[test]
fn instruction_unpack_rejects_bad_buffers() {
    let unpack_error = Err(ProgramError::Custom(0));
    assert_eq!(RNDRInstruction::unpack(&Vec::new()).map(|_| ()), unpack_error);
    assert_eq!(RNDRInstruction::unpack(&vec![4u8]).map(|_| ()), unpack_error);
    assert_eq!(RNDRInstruction::unpack(&vec![0u8; 20]).map(|_| ()), unpack_error);
    assert_eq!(RNDRInstruction::unpack(&vec![1u8; 32]).map(|_| ()), unpack_error);
    assert_eq!(RNDRInstruction::unpack(&vec![2u8; 8]).map(|_| ()), unpack_error);
    assert_eq!(RNDRInstruction::unpack(&vec![3u8; 5]).map(|_| ()), unpack_error);
}

#[test]
fn assert_uninitialized_accepts_only_zeroed_slots() {
    assert_eq!(assert_uninitialized(&vec![0u8; 41]), Ok(()));
    assert_eq!(assert_uninitialized(&vec![0u8; 40]), Err(ProgramError::InvalidAccountData));
    let mut written = vec![0u8; 41];
    written[0] = 1;
    assert_eq!(assert_uninitialized(&written), Err(ProgramError::Custom(1)));
}

#[test]
fn assert_rent_exempt_boundary() {
    assert_eq!(assert_rent_exempt(1000, 1000), Ok(()));
    assert_eq!(assert_rent_exempt(1000, 1001), Ok(()));
    assert_eq!(assert_rent_exempt(1000, 999), Err(ProgramError::Custom(1)));
}
