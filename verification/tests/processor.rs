//! End-to-end scenarios for the four operations, on concrete account sets.

use rndr::account::AccountInfo;
use rndr::derive::{associated_token_address, escrow_pda, job_pda};
use rndr::error::ProgramError;
use rndr::helpers::ExternalCall;
use rndr::ids::{rent_sysvar_id, spl_token_program_id};
use rndr::instruction::RNDRInstruction;
use rndr::processor::{process_disburse_funds, process_fund_job, process_init_escrow,
    process_instruction, process_set_escrow_owner};
use rndr::pubkey::Pubkey;
use rndr::state::{Escrow, InitEscrowParams, InitJobParams, Job};

const RENT_MINIMUM: u64 = 890_880;
const UNSPECIFIED: ProgramError = ProgramError::Custom(1);
const MATH_ERROR: ProgramError = ProgramError::Custom(2);

fn key(fill: u8) -> Pubkey {
    Pubkey { bytes: [fill; 32] }
}

fn account(key: Pubkey, owner: Pubkey, lamports: u64, data: Vec<u8>, is_signer: bool)
    -> AccountInfo {
    AccountInfo { key, owner, lamports, data, is_signer }
}

/// An initialized mint record as the token program stores it: no mint or
/// freeze authority, zero supply, the initialized flag set.
fn mint_record() -> Vec<u8> {
    let mut data = vec![0u8; 82];
    data[44] = 9; // decimals
    data[45] = 1; // initialized
    data
}

fn escrow_record(amount: u64, owner: Pubkey) -> Vec<u8> {
    let mut escrow = Escrow::new(InitEscrowParams { owner });
    escrow.amount = amount;
    escrow.pack_to_vec()
}

fn job_record(amount: u64, authority: Pubkey) -> Vec<u8> {
    let mut job = Job::new(InitJobParams { authority });
    job.amount = amount;
    job.pack_to_vec()
}

struct Setup {
    program_id: Pubkey,
    token_program: Pubkey,
    mint: Pubkey,
    escrow_address: Pubkey,
    escrow_token: Pubkey,
}

fn setup() -> Setup {
    let program_id = rndr::id();
    let token_program = spl_token_program_id();
    let mint = key(11);
    let (escrow_address, _bump) = escrow_pda(&mint, &token_program, &program_id).unwrap();
    let escrow_token = associated_token_address(&escrow_address, &mint).unwrap();
    Setup { program_id, token_program, mint, escrow_address, escrow_token }
}

fn init_accounts(s: &Setup) -> Vec<AccountInfo> {
    vec![
        account(s.escrow_address, s.program_id, RENT_MINIMUM, vec![0u8; 41], false),
        account(s.escrow_token, s.token_program, 0, Vec::new(), false),
        account(s.mint, s.token_program, 0, mint_record(), false),
        account(rent_sysvar_id(), key(0), 0, Vec::new(), false),
        account(s.token_program, key(0), 0, Vec::new(), false),
    ]
}

fn fund_accounts(s: &Setup, escrow_data: Vec<u8>, job_data: Vec<u8>, authority: Pubkey,
    signer: bool) -> Vec<AccountInfo> {
    let (job_address, _bump) = job_pda(&s.escrow_address, &authority, &s.program_id).unwrap();
    vec![
        account(key(41), key(0), 0, Vec::new(), false),
        account(s.escrow_token, s.token_program, 0, Vec::new(), false),
        account(s.escrow_address, s.program_id, RENT_MINIMUM, escrow_data, false),
        account(job_address, s.program_id, RENT_MINIMUM, job_data, false),
        account(authority, key(0), 0, Vec::new(), signer),
        account(s.mint, s.token_program, 0, mint_record(), false),
        account(rent_sysvar_id(), key(0), 0, Vec::new(), false),
        account(s.token_program, key(0), 0, Vec::new(), false),
    ]
}

fn disburse_accounts(s: &Setup, escrow_data: Vec<u8>, job_data: Vec<u8>, authority: Pubkey,
    escrow_owner: Pubkey, signer: bool) -> Vec<AccountInfo> {
    let (job_address, _bump) = job_pda(&s.escrow_address, &authority, &s.program_id).unwrap();
    vec![
        account(s.escrow_token, s.token_program, 0, Vec::new(), false),
        account(key(51), key(0), 0, Vec::new(), false),
        account(s.escrow_address, s.program_id, RENT_MINIMUM, escrow_data, false),
        account(job_address, s.program_id, RENT_MINIMUM, job_data, false),
        account(escrow_owner, key(0), 0, Vec::new(), signer),
        account(s.mint, s.token_program, 0, mint_record(), false),
        account(s.token_program, key(0), 0, Vec::new(), false),
    ]
}

#[test]
fn init_escrow_success() {
    let s = setup();
    let owner = key(9);
    let accounts = init_accounts(&s);
    let outcome = process_init_escrow(&s.program_id, owner, &accounts, RENT_MINIMUM).unwrap();

    assert_eq!(outcome.calls.len(), 1);
    match &outcome.calls[0] {
        ExternalCall::InitTokenAccount(p) => {
            assert_eq!(p.account.bytes, s.escrow_token.bytes);
            assert_eq!(p.mint.bytes, s.mint.bytes);
            assert_eq!(p.owner.bytes, s.escrow_address.bytes);
            assert_eq!(p.rent.bytes, rent_sysvar_id().bytes);
            assert_eq!(p.token_program.bytes, s.token_program.bytes);
        },
        _ => panic!("expected a token account initialization"),
    }
    assert_eq!(outcome.writes.len(), 1);
    assert_eq!(outcome.writes[0].account.bytes, s.escrow_address.bytes);
    let escrow = Escrow::unpack(&outcome.writes[0].data).unwrap();
    assert_eq!(escrow.amount, 0);
    assert_eq!(escrow.owner.bytes, owner.bytes);
}

#[test]
fn init_escrow_second_time_fails() {
    let s = setup();
    let owner = key(9);
    let mut accounts = init_accounts(&s);
    let outcome = process_init_escrow(&s.program_id, owner, &accounts, RENT_MINIMUM).unwrap();
    accounts[0].data = outcome.writes[0].data.clone();
    let second = process_init_escrow(&s.program_id, owner, &accounts, RENT_MINIMUM);
    assert_eq!(second.map(|_| ()), Err(UNSPECIFIED));
}

#[test]
fn init_escrow_rejects_wrong_address() {
    let s = setup();
    let mut accounts = init_accounts(&s);
    accounts[0].key = key(99);
    accounts[0].data = vec![0xab; 7];
    let r = process_init_escrow(&s.program_id, key(9), &accounts, RENT_MINIMUM);
    assert_eq!(r.map(|_| ()), Err(ProgramError::InvalidSeeds));
}

#[test]
fn init_escrow_rejects_wrong_token_account() {
    let s = setup();
    let mut accounts = init_accounts(&s);
    accounts[1].key = key(98);
    let r = process_init_escrow(&s.program_id, key(9), &accounts, RENT_MINIMUM);
    assert_eq!(r.map(|_| ()), Err(ProgramError::InvalidSeeds));
}

#[test]
fn init_escrow_rejects_underfunded_slot() {
    let s = setup();
    let mut accounts = init_accounts(&s);
    accounts[0].lamports = RENT_MINIMUM - 1;
    let r = process_init_escrow(&s.program_id, key(9), &accounts, RENT_MINIMUM);
    assert_eq!(r.map(|_| ()), Err(UNSPECIFIED));
}

#[test]
fn init_escrow_rejects_bad_mint() {
    let s = setup();
    let mut accounts = init_accounts(&s);
    accounts[2].data = vec![0u8; 82];
    let r = process_init_escrow(&s.program_id, key(9), &accounts, RENT_MINIMUM);
    assert_eq!(r.map(|_| ()), Err(ProgramError::InvalidAccountData));

    let mut accounts = init_accounts(&s);
    accounts[2].owner = key(50);
    let r = process_init_escrow(&s.program_id, key(9), &accounts, RENT_MINIMUM);
    assert_eq!(r.map(|_| ()), Err(UNSPECIFIED));
}

#[test]
fn set_escrow_owner_success() {
    let s = setup();
    let owner = key(9);
    let new_owner = key(10);
    let accounts = vec![
        account(s.escrow_address, s.program_id, RENT_MINIMUM, escrow_record(55, owner), false),
        account(owner, key(0), 0, Vec::new(), true),
    ];
    let outcome = process_set_escrow_owner(&s.program_id, new_owner, &accounts).unwrap();
    assert_eq!(outcome.calls.len(), 0);
    assert_eq!(outcome.writes.len(), 1);
    assert_eq!(outcome.writes[0].account.bytes, s.escrow_address.bytes);
    let escrow = Escrow::unpack(&outcome.writes[0].data).unwrap();
    assert_eq!(escrow.owner.bytes, new_owner.bytes);
    assert_eq!(escrow.amount, 55);
}

#[test]
fn set_escrow_owner_rejects_non_owner() {
    let s = setup();
    let owner = key(9);
    let intruder = key(13);
    for signer in [true, false] {
        let accounts = vec![
            account(s.escrow_address, s.program_id, RENT_MINIMUM, escrow_record(0, owner),
                false),
            account(intruder, key(0), 0, Vec::new(), signer),
        ];
        let r = process_set_escrow_owner(&s.program_id, key(10), &accounts);
        assert_eq!(r.map(|_| ()), Err(UNSPECIFIED));
    }
}

#[test]
fn set_escrow_owner_rejects_missing_signature() {
    let s = setup();
    let owner = key(9);
    let accounts = vec![
        account(s.escrow_address, s.program_id, RENT_MINIMUM, escrow_record(0, owner), false),
        account(owner, key(0), 0, Vec::new(), false),
    ];
    let r = process_set_escrow_owner(&s.program_id, key(10), &accounts);
    assert_eq!(r.map(|_| ()), Err(UNSPECIFIED));
}

#[test]
fn fund_job_first_funding() {
    let s = setup();
    let owner = key(9);
    let depositor = key(12);
    let accounts = fund_accounts(&s, escrow_record(0, owner), vec![0u8; 41], depositor, true);
    let amount = 1_000_000_000u64;
    let outcome = process_fund_job(&s.program_id, amount, &accounts, RENT_MINIMUM).unwrap();

    assert_eq!(outcome.calls.len(), 1);
    match &outcome.calls[0] {
        ExternalCall::Transfer(t) => {
            assert_eq!(t.source.bytes, key(41).bytes);
            assert_eq!(t.destination.bytes, s.escrow_token.bytes);
            assert_eq!(t.amount, amount);
            assert_eq!(t.authority.bytes, depositor.bytes);
            assert!(t.authority_signer_seeds.is_empty());
            assert_eq!(t.token_program.bytes, s.token_program.bytes);
        },
        _ => panic!("expected a transfer"),
    }
    assert_eq!(outcome.writes.len(), 2);
    let job = Job::unpack(&outcome.writes[0].data).unwrap();
    assert_eq!(job.amount, amount);
    assert_eq!(job.authority.bytes, depositor.bytes);
    let escrow = Escrow::unpack(&outcome.writes[1].data).unwrap();
    assert_eq!(escrow.amount, amount);
    assert_eq!(escrow.owner.bytes, owner.bytes);
}

#[test]
fn fund_job_accumulates() {
    let s = setup();
    let owner = key(9);
    let depositor = key(12);
    let accounts = fund_accounts(&s, escrow_record(300, owner), job_record(100, depositor),
        depositor, true);
    let outcome = process_fund_job(&s.program_id, 50, &accounts, RENT_MINIMUM).unwrap();
    let job = Job::unpack(&outcome.writes[0].data).unwrap();
    assert_eq!(job.amount, 150);
    let escrow = Escrow::unpack(&outcome.writes[1].data).unwrap();
    assert_eq!(escrow.amount, 350);
}

#[test]
fn fund_job_rejects_zero_amount() {
    let s = setup();
    let accounts = fund_accounts(&s, escrow_record(0, key(9)), vec![0u8; 41], key(12), true);
    let r = process_fund_job(&s.program_id, 0, &accounts, RENT_MINIMUM);
    assert_eq!(r.map(|_| ()), Err(UNSPECIFIED));
}

#[test]
fn fund_job_rejects_missing_signature() {
    let s = setup();
    let accounts = fund_accounts(&s, escrow_record(0, key(9)), vec![0u8; 41], key(12), false);
    let r = process_fund_job(&s.program_id, 5, &accounts, RENT_MINIMUM);
    assert_eq!(r.map(|_| ()), Err(UNSPECIFIED));
}

#[test]
fn fund_job_rejects_wrong_escrow_address() {
    let s = setup();
    let mut accounts = fund_accounts(&s, escrow_record(0, key(9)), vec![0u8; 41], key(12), true);
    accounts[2].key = key(99);
    accounts[2].data = vec![0xab; 5];
    let r = process_fund_job(&s.program_id, 5, &accounts, RENT_MINIMUM);
    assert_eq!(r.map(|_| ()), Err(ProgramError::InvalidSeeds));
}

#[test]
fn fund_job_rejects_wrong_job_address() {
    let s = setup();
    let mut accounts = fund_accounts(&s, escrow_record(0, key(9)), vec![0u8; 41], key(12), true);
    accounts[3].key = key(98);
    accounts[3].data = vec![0xab; 5];
    let r = process_fund_job(&s.program_id, 5, &accounts, RENT_MINIMUM);
    assert_eq!(r.map(|_| ()), Err(ProgramError::InvalidSeeds));
}

#[test]
fn fund_job_rejects_underfunded_new_job() {
    let s = setup();
    let mut accounts = fund_accounts(&s, escrow_record(0, key(9)), vec![0u8; 41], key(12), true);
    accounts[3].lamports = RENT_MINIMUM - 1;
    let r = process_fund_job(&s.program_id, 5, &accounts, RENT_MINIMUM);
    assert_eq!(r.map(|_| ()), Err(UNSPECIFIED));
}

#[test]
fn fund_job_fails_on_overflow_instead_of_wrapping() {
    let s = setup();
    let depositor = key(12);
    let accounts = fund_accounts(&s, escrow_record(0, key(9)), job_record(u64::MAX, depositor),
        depositor, true);
    let r = process_fund_job(&s.program_id, 1, &accounts, RENT_MINIMUM);
    assert_eq!(r.map(|_| ()), Err(MATH_ERROR));
}

#[test]
fn fund_then_disburse_round_trip() {
    let s = setup();
    let owner = key(9);
    let depositor = key(12);
    let amount = 1_000_000_000u64;
    let initial_escrow = escrow_record(0, owner);

    let accounts = fund_accounts(&s, initial_escrow.clone(), vec![0u8; 41], depositor, true);
    let funded = process_fund_job(&s.program_id, amount, &accounts, RENT_MINIMUM).unwrap();
    let funded_job = funded.writes[0].data.clone();
    let funded_escrow = funded.writes[1].data.clone();

    let accounts = disburse_accounts(&s, funded_escrow, funded_job, depositor, owner, true);
    let outcome = process_disburse_funds(&s.program_id, amount, &accounts).unwrap();

    assert_eq!(outcome.calls.len(), 1);
    match &outcome.calls[0] {
        ExternalCall::Transfer(t) => {
            assert_eq!(t.source.bytes, s.escrow_token.bytes);
            assert_eq!(t.destination.bytes, key(51).bytes);
            assert_eq!(t.amount, amount);
            assert_eq!(t.authority.bytes, s.escrow_address.bytes);
            let (_, bump) = escrow_pda(&s.mint, &s.token_program, &s.program_id).unwrap();
            assert_eq!(t.authority_signer_seeds.len(), 4);
            assert_eq!(t.authority_signer_seeds[0], b"escrow".to_vec());
            assert_eq!(t.authority_signer_seeds[1], s.mint.bytes.to_vec());
            assert_eq!(t.authority_signer_seeds[2], s.token_program.bytes.to_vec());
            assert_eq!(t.authority_signer_seeds[3], vec![bump]);
        },
        _ => panic!("expected a transfer"),
    }
    assert_eq!(outcome.writes.len(), 2);
    let job = Job::unpack(&outcome.writes[0].data).unwrap();
    assert_eq!(job.amount, 0);
    assert_eq!(job.authority.bytes, depositor.bytes);
    // The escrow record is byte-identical to its pre-fund state.
    assert_eq!(outcome.writes[1].data, initial_escrow);
    let escrow = Escrow::unpack(&outcome.writes[1].data).unwrap();
    assert_eq!(escrow.amount, 0);
}

#[test]
fn disburse_rejects_more_than_job_amount() {
    let s = setup();
    let owner = key(9);
    let depositor = key(12);
    let escrow_data = escrow_record(100, owner);
    let job_data = job_record(100, depositor);
    let accounts = disburse_accounts(&s, escrow_data.clone(), job_data.clone(), depositor,
        owner, true);
    let r = process_disburse_funds(&s.program_id, 101, &accounts);
    assert_eq!(r.map(|_| ()), Err(MATH_ERROR));
    // A failed operation writes nothing: the inputs are as they were.
    assert_eq!(accounts[2].data, escrow_data);
    assert_eq!(accounts[3].data, job_data);
}

#[test]
fn disburse_rejects_wrong_escrow_address() {
    let s = setup();
    let mut accounts = disburse_accounts(&s, escrow_record(5, key(9)), job_record(5, key(12)),
        key(12), key(9), true);
    accounts[2].key = key(99);
    accounts[2].data = vec![0xab; 5];
    let r = process_disburse_funds(&s.program_id, 5, &accounts);
    assert_eq!(r.map(|_| ()), Err(ProgramError::InvalidSeeds));
}

#[test]
fn disburse_rejects_non_owner() {
    let s = setup();
    let accounts = disburse_accounts(&s, escrow_record(5, key(9)), job_record(5, key(12)),
        key(12), key(13), true);
    let r = process_disburse_funds(&s.program_id, 5, &accounts);
    assert_eq!(r.map(|_| ()), Err(UNSPECIFIED));
}

#[test]
fn process_instruction_dispatches_fund() {
    let s = setup();
    let depositor = key(12);
    let accounts = fund_accounts(&s, escrow_record(0, key(9)), vec![0u8; 41], depositor, true);
    let input = RNDRInstruction::FundJob { amount: 500 }.pack();
    let outcome = process_instruction(&s.program_id, &accounts, &input, RENT_MINIMUM).unwrap();
    let job = Job::unpack(&outcome.writes[0].data).unwrap();
    assert_eq!(job.amount, 500);
}

#[test]
fn process_instruction_rejects_bad_buffer() {
    let s = setup();
    let accounts = Vec::new();
    let r = process_instruction(&s.program_id, &accounts, &vec![9u8, 0, 0], RENT_MINIMUM);
    assert_eq!(r.map(|_| ()), Err(ProgramError::Custom(0)));
}

#[test]
fn process_instruction_rejects_missing_accounts() {
    let s = setup();
    let accounts = Vec::new();
    let input = RNDRInstruction::SetEscrowOwner { new_owner: key(10) }.pack();
    let r = process_instruction(&s.program_id, &accounts, &input, RENT_MINIMUM);
    assert_eq!(r.map(|_| ()), Err(ProgramError::NotEnoughAccountKeys));
}
