//! Address derivation checked against the host libraries' own derivation.

use std::str::FromStr;

use rndr::derive::{associated_token_address, escrow_pda, job_pda};
use rndr::ids::{rent_sysvar_id, spl_token_program_id};
use rndr::pubkey::{pubkey_eq, Pubkey};

fn key(fill: u8) -> Pubkey {
    Pubkey { bytes: [fill; 32] }
}

fn solana_key(k: &Pubkey) -> solana_program::pubkey::Pubkey {
    solana_program::pubkey::Pubkey::new_from_array(k.bytes)
}

#[test]
fn program_id_matches_declared_base58() {
    let expected =
        solana_program::pubkey::Pubkey::from_str("7g4aX3DYhk6xHiGuoAbEnVTp9HMgLqyENoK53AVm267E")
            .unwrap();
    assert_eq!(rndr::id().bytes, expected.to_bytes());
}

#[test]
fn spl_token_id_matches_crate_constant() {
    assert_eq!(spl_token_program_id().bytes, spl_token::id().to_bytes());
}

#[test]
fn rent_sysvar_id_matches_crate_constant() {
    assert_eq!(rent_sysvar_id().bytes, solana_program::sysvar::rent::id().to_bytes());
}

#[test]
fn escrow_pda_matches_host_derivation() {
    let mint = key(11);
    let token_program = spl_token_program_id();
    let program_id = rndr::id();
    let (address, bump) = escrow_pda(&mint, &token_program, &program_id).unwrap();
    let (expected, expected_bump) = solana_program::pubkey::Pubkey::find_program_address(
        &[b"escrow", &mint.bytes, &token_program.bytes],
        &solana_key(&program_id),
    );
    assert_eq!(address.bytes, expected.to_bytes());
    assert_eq!(bump, expected_bump);
    assert_ne!(address.bytes, mint.bytes);
}

#[test]
fn job_pda_matches_host_derivation() {
    let escrow = key(21);
    let authority = key(22);
    let program_id = rndr::id();
    let (address, bump) = job_pda(&escrow, &authority, &program_id).unwrap();
    let (expected, expected_bump) = solana_program::pubkey::Pubkey::find_program_address(
        &[b"job", &escrow.bytes, &authority.bytes],
        &solana_key(&program_id),
    );
    assert_eq!(address.bytes, expected.to_bytes());
    assert_eq!(bump, expected_bump);
    assert_ne!(address.bytes, escrow.bytes);
    assert_ne!(address.bytes, authority.bytes);
}

#[test]
fn associated_token_address_matches_host_derivation() {
    let wallet = key(31);
    let mint = key(32);
    let address = associated_token_address(&wallet, &mint).unwrap();
    let expected = spl_associated_token_account::get_associated_token_address(
        &solana_key(&wallet),
        &solana_key(&mint),
    );
    assert_eq!(address.bytes, expected.to_bytes());
    assert_ne!(address.bytes, wallet.bytes);
}

#[test]
fn pubkey_eq_compares_bytes() {
    assert!(pubkey_eq(&key(1), &key(1)));
    assert!(!pubkey_eq(&key(1), &key(2)));
    let mut almost = key(1);
    almost.bytes[31] = 2;
    assert!(!pubkey_eq(&key(1), &almost));
}
