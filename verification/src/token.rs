//! Facts about SPL token mint records that escrow initialization checks.

use vstd::prelude::*;
use solana_program::program_pack::Pack;

verus! {

/// Whether a byte string is an initialized token mint record as the SPL
/// token program stores it: 82 bytes, a well-formed optional mint authority
/// (a 4-byte tag of 0 or 1 followed by an address), the initialized flag set
/// to exactly 1, and a well-formed optional freeze authority.
pub open spec fn spec_valid_mint(b: Seq<u8>) -> bool {
    &&& b.len() == 82
    &&& (b[0] == 0 || b[0] == 1) && b[1] == 0 && b[2] == 0 && b[3] == 0
    &&& b[45] == 1
    &&& (b[46] == 0 || b[46] == 1) && b[47] == 0 && b[48] == 0 && b[49] == 0
}

/// Relies on `spl_token::state::Mint::unpack`: it accepts exactly the
/// initialized 82-byte mint records described by [`spec_valid_mint`] —
/// any other length, a malformed optional-authority tag, or an initialized
/// flag other than 1 is rejected.
#[verifier::external_body]
pub(crate) fn mint_unpack_ok(data: &Vec<u8>) -> (r: bool)
    ensures
        r == spec_valid_mint(data@),
{
    spl_token::state::Mint::unpack(data.as_slice()).is_ok()
}

} // verus!
