//! The client-side call descriptor builders, checked field by field.

use rndr::derive::{associated_token_address, escrow_pda, job_pda};
use rndr::ids::{rent_sysvar_id, spl_token_program_id};
use rndr::instruction::{disburse_funds, fund_job, init_escrow, set_escrow_owner,
    RNDRInstruction};
use rndr::pubkey::Pubkey;

fn key(fill: u8) -> Pubkey {
    Pubkey { bytes: [fill; 32] }
}

#[test]
fn init_escrow_builder_accounts() {
    let program_id = rndr::id();
    let owner = key(9);
    let mint = key(11);
    let ix = init_escrow(program_id, owner, mint).unwrap();
    let token_program = spl_token_program_id();
    let (escrow_address, _bump) = escrow_pda(&mint, &token_program, &program_id).unwrap();
    let token_account = associated_token_address(&escrow_address, &mint).unwrap();

    assert_eq!(ix.program_id.bytes, program_id.bytes);
    assert_eq!(ix.data, RNDRInstruction::InitEscrow { owner }.pack());
    assert_eq!(ix.accounts.len(), 5);
    assert_eq!(ix.accounts[0].pubkey.bytes, escrow_address.bytes);
    assert!(ix.accounts[0].is_writable && !ix.accounts[0].is_signer);
    assert_eq!(ix.accounts[1].pubkey.bytes, token_account.bytes);
    assert!(ix.accounts[1].is_writable && !ix.accounts[1].is_signer);
    assert_eq!(ix.accounts[2].pubkey.bytes, mint.bytes);
    assert!(!ix.accounts[2].is_writable);
    assert_eq!(ix.accounts[3].pubkey.bytes, rent_sysvar_id().bytes);
    assert_eq!(ix.accounts[4].pubkey.bytes, token_program.bytes);
}

#[test]
fn set_escrow_owner_builder_accounts() {
    let program_id = rndr::id();
    let escrow = key(21);
    let current_owner = key(22);
    let new_owner = key(23);
    let ix = set_escrow_owner(program_id, escrow, current_owner, new_owner);

    assert_eq!(ix.program_id.bytes, program_id.bytes);
    assert_eq!(ix.data, RNDRInstruction::SetEscrowOwner { new_owner }.pack());
    assert_eq!(ix.accounts.len(), 2);
    assert_eq!(ix.accounts[0].pubkey.bytes, escrow.bytes);
    assert!(ix.accounts[0].is_writable && !ix.accounts[0].is_signer);
    assert_eq!(ix.accounts[1].pubkey.bytes, current_owner.bytes);
    assert!(ix.accounts[1].is_signer && !ix.accounts[1].is_writable);
}

#[test]
fn fund_job_builder_accounts() {
    let program_id = rndr::id();
    let mint = key(11);
    let source = key(31);
    let authority = key(32);
    let ix = fund_job(program_id, 1_000_000_000, source, mint, authority).unwrap();
    let token_program = spl_token_program_id();
    let (escrow_address, _bump) = escrow_pda(&mint, &token_program, &program_id).unwrap();
    let token_account = associated_token_address(&escrow_address, &mint).unwrap();
    let (job_address, _job_bump) = job_pda(&escrow_address, &authority, &program_id).unwrap();

    assert_eq!(ix.program_id.bytes, program_id.bytes);
    assert_eq!(ix.data, RNDRInstruction::FundJob { amount: 1_000_000_000 }.pack());
    assert_eq!(ix.accounts.len(), 8);
    assert_eq!(ix.accounts[0].pubkey.bytes, source.bytes);
    assert!(ix.accounts[0].is_writable);
    assert_eq!(ix.accounts[1].pubkey.bytes, token_account.bytes);
    assert_eq!(ix.accounts[2].pubkey.bytes, escrow_address.bytes);
    assert_eq!(ix.accounts[3].pubkey.bytes, job_address.bytes);
    assert_eq!(ix.accounts[4].pubkey.bytes, authority.bytes);
    assert!(ix.accounts[4].is_signer && !ix.accounts[4].is_writable);
    assert_eq!(ix.accounts[5].pubkey.bytes, mint.bytes);
    assert_eq!(ix.accounts[6].pubkey.bytes, rent_sysvar_id().bytes);
    assert_eq!(ix.accounts[7].pubkey.bytes, token_program.bytes);
}

#[test]
fn disburse_funds_builder_accounts() {
    let program_id = rndr::id();
    let mint = key(11);
    let destination = key(41);
    let escrow_owner = key(42);
    let token_program = spl_token_program_id();
    let (escrow_address, _bump) = escrow_pda(&mint, &token_program, &program_id).unwrap();
    let token_account = associated_token_address(&escrow_address, &mint).unwrap();
    let (job_address, _job_bump) = job_pda(&escrow_address, &key(43), &program_id).unwrap();
    let ix = disburse_funds(program_id, 77, mint, destination, job_address, escrow_owner)
        .unwrap();

    assert_eq!(ix.program_id.bytes, program_id.bytes);
    assert_eq!(ix.data, RNDRInstruction::DisburseFunds { amount: 77 }.pack());
    assert_eq!(ix.accounts.len(), 7);
    assert_eq!(ix.accounts[0].pubkey.bytes, token_account.bytes);
    assert!(ix.accounts[0].is_writable);
    assert_eq!(ix.accounts[1].pubkey.bytes, destination.bytes);
    assert_eq!(ix.accounts[2].pubkey.bytes, escrow_address.bytes);
    assert_eq!(ix.accounts[3].pubkey.bytes, job_address.bytes);
    assert_eq!(ix.accounts[4].pubkey.bytes, escrow_owner.bytes);
    assert!(ix.accounts[4].is_signer && !ix.accounts[4].is_writable);
    assert_eq!(ix.accounts[5].pubkey.bytes, mint.bytes);
    assert_eq!(ix.accounts[6].pubkey.bytes, token_program.bytes);
}
