//! An escrow and job ledger for a fungible token: one authority pools funds
//! from many depositors, tracks each depositor's outstanding contribution,
//! and releases funds under sole control of the escrow's owner.
//!
//! The instruction processor, the record codec and the deterministic
//! addressing scheme are verified; the host that stores accounts, checks
//! signatures and moves token balances stays outside and is driven through
//! the call requests and record writes each operation returns.

use vstd::prelude::*;

pub mod account;
pub mod derive;
pub mod error;
pub mod helpers;
pub mod instruction;
pub mod ids;
pub mod processor;
pub mod lemmas;
pub mod pubkey;
pub mod state;
pub mod token;

use crate::pubkey::Pubkey;

verus! {

/// The identity this program is deployed under, decoded from its well-known
/// base58 form `7g4aX3DYhk6xHiGuoAbEnVTp9HMgLqyENoK53AVm267E`.
pub open spec fn spec_id() -> Seq<u8> {
    seq![
        99u8, 39u8, 209u8, 147u8, 22u8, 88u8, 203u8, 240u8,
        135u8, 212u8, 103u8, 78u8, 133u8, 102u8, 146u8, 103u8,
        79u8, 202u8, 10u8, 10u8, 77u8, 128u8, 97u8, 205u8,
        165u8, 184u8, 211u8, 41u8, 218u8, 93u8, 174u8, 197u8,
    ]
}

/// The identity this program is deployed under.
pub fn id() -> (r: Pubkey)
    ensures
        r@ == spec_id(),
{
    let bytes: [u8; 32] = [
        99u8, 39u8, 209u8, 147u8, 22u8, 88u8, 203u8, 240u8,
        135u8, 212u8, 103u8, 78u8, 133u8, 102u8, 146u8, 103u8,
        79u8, 202u8, 10u8, 10u8, 77u8, 128u8, 97u8, 205u8,
        165u8, 184u8, 211u8, 41u8, 218u8, 93u8, 174u8, 197u8,
    ];
    let r = Pubkey { bytes };
    assert(r@ =~= spec_id());
    r
}

} // verus!
