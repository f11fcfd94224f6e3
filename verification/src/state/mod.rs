//! State types

use vstd::prelude::*;

pub mod account_type;
pub mod escrow;
pub mod job;

pub use account_type::AccountType;
pub use escrow::{escrow_bytes_wf, lemma_escrow_bytes_round_trip, lemma_escrow_pack_round_trip,
    spec_pack_escrow, spec_unpack_escrow, Escrow, EscrowView, InitEscrowParams, ESCROW_LEN};
pub use job::{job_bytes_uninitialized, job_bytes_wf, lemma_job_pack_round_trip, spec_pack_job,
    spec_unpack_job, InitJobParams, Job, JobView, JOB_LEN};

verus! {

/// Current version of the program and all new accounts created.
pub const PROGRAM_VERSION: u8 = 1;

/// Accounts are created with data zeroed out, so uninitialized state
/// instances will have the version set to 0.
pub const UNINITIALIZED_VERSION: u8 = 0;

} // verus!
