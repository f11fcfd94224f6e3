//! Deterministic address derivation.
//!
//! Every escrow and job record lives at an address derived from a fixed seed
//! list under this program's identity, and an escrow's token account is the
//! associated token account of the escrow's derived address. The derivation
//! itself is the host's hash-based search; this module names its results and
//! re-checks candidate addresses against them.

use vstd::prelude::*;
use crate::pubkey::{pubkey_to_vec, Pubkey};

verus! {

/// The derived address and bump that the host's program-address search
/// yields for a seed list under a program id, `None` when the seed list is
/// over the host's limits or no bump yields a derivable address. The result
/// depends on the seeds and the program id alone.
pub uninterp spec fn pda_of(seeds: Seq<Seq<u8>>, program_id: Seq<u8>) -> Option<(Seq<u8>, u8)>;

/// The associated token account address of a wallet for a mint, `None` in
/// the same no-derivable-address case as [`pda_of`]. The result depends on
/// the wallet and the mint alone.
pub uninterp spec fn ata_of(wallet: Seq<u8>, mint: Seq<u8>) -> Option<Seq<u8>>;

/// Relies on `Pubkey::try_find_program_address` of solana-program: it finds
/// the derived address and bump for a seed list under a program id, returns
/// `None` when the seed list is over the host's limits or no bump works,
/// and computes from its two arguments alone.
#[verifier::external_body]
pub(crate) fn try_find_program_address(seeds: &Vec<Vec<u8>>, program_id: &Pubkey) -> (r: Option<
    (Pubkey, u8)>)
    ensures
        r matches Some(p) ==> pda_of(seeds.deep_view(), program_id@) == Some((p.0@, p.1)),
        r is None ==> pda_of(seeds.deep_view(), program_id@) is None,
{
    let refs: Vec<&[u8]> = seeds.iter().map(|s| s.as_slice()).collect();
    let pid = solana_program::pubkey::Pubkey::new_from_array(program_id.bytes);
    match solana_program::pubkey::Pubkey::try_find_program_address(&refs, &pid) {
        Some((k, bump)) => Some((Pubkey { bytes: k.to_bytes() }, bump)),
        None => None,
    }
}

/// Relies on `get_associated_token_address` of spl-associated-token-account,
/// whose derivation its source fixes as the program-address search over the
/// wallet, the SPL token program id and the mint, under the associated token
/// program id. The body runs that same search through
/// `Pubkey::try_find_program_address`, so inputs with no derivable address
/// come back as `None` where that function would panic. The result depends
/// on the wallet and the mint alone.
#[verifier::external_body]
pub(crate) fn derive_associated_token_address(wallet: &Pubkey, mint: &Pubkey) -> (r: Option<
    Pubkey>)
    ensures
        r matches Some(k) ==> ata_of(wallet@, mint@) == Some(k@),
        r is None ==> ata_of(wallet@, mint@) is None,
{
    let w = solana_program::pubkey::Pubkey::new_from_array(wallet.bytes);
    let m = solana_program::pubkey::Pubkey::new_from_array(mint.bytes);
    let token_program = spl_token::id();
    let r = solana_program::pubkey::Pubkey::try_find_program_address(
        &[w.as_ref(), token_program.as_ref(), m.as_ref()],
        &spl_associated_token_account::id(),
    );
    match r {
        Some((k, _bump)) => Some(Pubkey { bytes: k.to_bytes() }),
        None => None,
    }
}

/// The associated token account address of a wallet for a mint: where an
/// escrow, as the wallet, keeps its pooled token balance.
pub fn associated_token_address(wallet: &Pubkey, mint: &Pubkey) -> (r: Option<Pubkey>)
    ensures
        r matches Some(k) ==> ata_of(wallet@, mint@) == Some(k@),
        r is None ==> ata_of(wallet@, mint@) is None,
{
    derive_associated_token_address(wallet, mint)
}

/// The literal seed every escrow address derivation starts with: `escrow`.
pub open spec fn spec_escrow_tag() -> Seq<u8> {
    seq![101u8, 115u8, 99u8, 114u8, 111u8, 119u8]
}

/// The literal seed every job address derivation starts with: `job`.
pub open spec fn spec_job_tag() -> Seq<u8> {
    seq![106u8, 111u8, 98u8]
}

/// Seed list of an escrow address: the literal tag, the token mint identity
/// and the token program identity.
pub open spec fn spec_escrow_seeds(mint: Seq<u8>, token_program: Seq<u8>) -> Seq<Seq<u8>> {
    seq![spec_escrow_tag(), mint, token_program]
}

/// Seed list of a job address: the literal tag, the owning escrow's address
/// and the depositor authority identity.
pub open spec fn spec_job_seeds(escrow: Seq<u8>, authority: Seq<u8>) -> Seq<Seq<u8>> {
    seq![spec_job_tag(), escrow, authority]
}

/// The derived address and bump of the escrow for a mint and token program.
pub open spec fn spec_escrow_pda(mint: Seq<u8>, token_program: Seq<u8>, program_id: Seq<u8>)
    -> Option<(Seq<u8>, u8)> {
    pda_of(spec_escrow_seeds(mint, token_program), program_id)
}

/// The derived address and bump of the job for an escrow and depositor.
pub open spec fn spec_job_pda(escrow: Seq<u8>, authority: Seq<u8>, program_id: Seq<u8>)
    -> Option<(Seq<u8>, u8)> {
    pda_of(spec_job_seeds(escrow, authority), program_id)
}

/// The seed list an escrow signs a disbursement with: its own seeds and the
/// bump, each as one seed.
pub open spec fn spec_escrow_signer_seeds(mint: Seq<u8>, token_program: Seq<u8>, bump: u8)
    -> Seq<Seq<u8>> {
    spec_escrow_seeds(mint, token_program) + seq![seq![bump]]
}

/// The literal escrow seed as bytes.
pub fn escrow_tag() -> (r: Vec<u8>)
    ensures
        r@ == spec_escrow_tag(),
{
    let mut r: Vec<u8> = Vec::new();
    r.push(101);
    r.push(115);
    r.push(99);
    r.push(114);
    r.push(111);
    r.push(119);
    assert(r@ =~= spec_escrow_tag());
    r
}

/// The literal job seed as bytes.
pub fn job_tag() -> (r: Vec<u8>)
    ensures
        r@ == spec_job_tag(),
{
    let mut r: Vec<u8> = Vec::new();
    r.push(106);
    r.push(111);
    r.push(98);
    assert(r@ =~= spec_job_tag());
    r
}

/// Derive the escrow address and bump for a mint and token program.
pub fn escrow_pda(mint: &Pubkey, token_program: &Pubkey, program_id: &Pubkey) -> (r: Option<
    (Pubkey, u8)>)
    ensures
        r matches Some(p) ==> spec_escrow_pda(mint@, token_program@, program_id@)
            == Some((p.0@, p.1)),
        r is None ==> spec_escrow_pda(mint@, token_program@, program_id@) is None,
{
    let mut seeds: Vec<Vec<u8>> = Vec::new();
    seeds.push(escrow_tag());
    seeds.push(pubkey_to_vec(mint));
    seeds.push(pubkey_to_vec(token_program));
    proof {
        assert(seeds.deep_view() =~~= spec_escrow_seeds(mint@, token_program@));
    }
    try_find_program_address(&seeds, program_id)
}

/// Derive the job address and bump for an escrow and depositor authority.
pub fn job_pda(escrow: &Pubkey, authority: &Pubkey, program_id: &Pubkey) -> (r: Option<
    (Pubkey, u8)>)
    ensures
        r matches Some(p) ==> spec_job_pda(escrow@, authority@, program_id@)
            == Some((p.0@, p.1)),
        r is None ==> spec_job_pda(escrow@, authority@, program_id@) is None,
{
    let mut seeds: Vec<Vec<u8>> = Vec::new();
    seeds.push(job_tag());
    seeds.push(pubkey_to_vec(escrow));
    seeds.push(pubkey_to_vec(authority));
    proof {
        assert(seeds.deep_view() =~~= spec_job_seeds(escrow@, authority@));
    }
    try_find_program_address(&seeds, program_id)
}

} // verus!
