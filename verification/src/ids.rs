//! Well-known identities of the host's native programs and sysvars that the
//! instruction builders put into account lists.

use vstd::prelude::*;
use crate::pubkey::Pubkey;

verus! {

/// The SPL token program identity, the bytes of its well-known base58 form
/// `TokenkegQfeZyiNwAJbNbGKPFXCWuBvf9Ss623VQ5DA`.
pub open spec fn spec_spl_token_id() -> Seq<u8> {
    seq![
        6u8, 221u8, 246u8, 225u8, 215u8, 101u8, 161u8, 147u8,
        217u8, 203u8, 225u8, 70u8, 206u8, 235u8, 121u8, 172u8,
        28u8, 180u8, 133u8, 237u8, 95u8, 91u8, 55u8, 145u8,
        58u8, 140u8, 245u8, 133u8, 126u8, 255u8, 0u8, 169u8,
    ]
}

/// The rent sysvar identity, the bytes of its well-known base58 form
/// `SysvarRent111111111111111111111111111111111`.
pub open spec fn spec_rent_sysvar_id() -> Seq<u8> {
    seq![
        6u8, 167u8, 213u8, 23u8, 25u8, 44u8, 92u8, 81u8,
        33u8, 140u8, 201u8, 76u8, 61u8, 74u8, 241u8, 127u8,
        88u8, 218u8, 238u8, 8u8, 155u8, 161u8, 253u8, 68u8,
        227u8, 219u8, 217u8, 138u8, 0u8, 0u8, 0u8, 0u8,
    ]
}

/// Relies on `spl_token::id`: the SPL token program's identity constant.
#[verifier::external_body]
pub fn spl_token_program_id() -> (r: Pubkey)
    ensures
        r@ == spec_spl_token_id(),
{
    Pubkey { bytes: spl_token::id().to_bytes() }
}

/// Relies on `solana_program::sysvar::rent::id`: the rent sysvar's identity
/// constant.
#[verifier::external_body]
pub fn rent_sysvar_id() -> (r: Pubkey)
    ensures
        r@ == spec_rent_sysvar_id(),
{
    Pubkey { bytes: solana_program::sysvar::rent::id().to_bytes() }
}

} // verus!
