use vstd::prelude::*;
use vstd::bytes::{spec_u64_from_le_bytes, spec_u64_to_le_bytes, u64_from_le_bytes, u64_to_le_bytes,
    lemma_auto_spec_u64_to_from_le_bytes};
use vstd::slice::slice_subrange;
use crate::error::ProgramError;
use crate::pubkey::{pubkey_from_slice, push_pubkey, Pubkey};
use crate::state::account_type::AccountType;

verus! {

/// Packed length of a job record: one discriminant byte, an 8-byte
/// little-endian amount, and a 32-byte authority address.
pub const JOB_LEN: usize = 41;

/// Job state: one depositor's outstanding contribution to an escrow.
pub struct Job {
    /// Account type, must be `JobV1` currently.
    pub account_type: AccountType,
    /// Amount of tokens in escrow for the job.
    pub amount: u64,
    /// User authority that initialized the job.
    pub authority: Pubkey,
}

/// Mathematical image of a [`Job`].
pub struct JobView {
    pub account_type: AccountType,
    pub amount: u64,
    pub authority: Seq<u8>,
}

impl View for Job {
    type V = JobView;

    open spec fn view(&self) -> JobView {
        JobView {
            account_type: self.account_type,
            amount: self.amount,
            authority: self.authority@,
        }
    }
}

/// The 41 bytes a job record is persisted as: discriminant, then the amount
/// in little-endian order, then the authority address.
pub open spec fn spec_pack_job(j: JobView) -> Seq<u8> {
    seq![j.account_type.spec_to_byte()] + spec_u64_to_le_bytes(j.amount) + j.authority
}

/// Whether a byte string decodes as a job record: exactly 41 bytes whose
/// discriminant is the job tag. Every other discriminant, the uninitialized
/// tag included, is rejected.
pub open spec fn job_bytes_wf(b: Seq<u8>) -> bool {
    b.len() == 41 && b[0] == AccountType::JobV1.spec_to_byte()
}

/// The job record held by 41 well-formed bytes.
pub open spec fn spec_unpack_job(b: Seq<u8>) -> JobView
    recommends
        job_bytes_wf(b),
{
    JobView {
        account_type: AccountType::spec_from_byte(b[0]),
        amount: spec_u64_from_le_bytes(b.subrange(1, 9)),
        authority: b.subrange(9, 41),
    }
}

/// Whether a byte string is an untouched job slot: a record-sized buffer
/// still holding the uninitialized tag.
pub open spec fn job_bytes_uninitialized(b: Seq<u8>) -> bool {
    b.len() == 41 && b[0] == AccountType::Uninitialized.spec_to_byte()
}

/// Initialization parameters for a job.
pub struct InitJobParams {
    /// User authority that initialized the job.
    pub authority: Pubkey,
}

impl Job {
    /// Create a job with no contribution yet, for the given authority.
    pub fn new(params: InitJobParams) -> (r: Job)
        ensures
            r@ == (JobView {
                account_type: AccountType::JobV1,
                amount: 0,
                authority: params.authority@,
            }),
    {
        let mut job = Job {
            account_type: AccountType::default(),
            amount: 0,
            authority: params.authority,
        };
        job.init(InitJobParams { authority: params.authority });
        job
    }

    /// Initialize a job: job tag, zero contribution, the given authority.
    pub fn init(&mut self, params: InitJobParams)
        ensures
            final(self)@ == (JobView {
                account_type: AccountType::JobV1,
                amount: 0,
                authority: params.authority@,
            }),
    {
        self.account_type = AccountType::JobV1;
        self.amount = 0;
        self.authority = params.authority;
    }

    /// Whether this record was written to: any discriminant but the
    /// uninitialized tag.
    pub fn is_initialized(&self) -> (r: bool)
        ensures
            r == (self@.account_type != AccountType::Uninitialized),
    {
        !matches!(self.account_type, AccountType::Uninitialized)
    }

    /// Decode a job record from its 41 persisted bytes. Rejects any other
    /// length, and any discriminant that is not the job tag.
    pub fn unpack(input: &Vec<u8>) -> (r: Result<Job, ProgramError>)
        ensures
            r is Ok <==> job_bytes_wf(input@),
            r matches Ok(j) ==> j@ == spec_unpack_job(input@),
            r matches Err(e) ==> e == ProgramError::InvalidAccountData,
    {
        if input.len() != 41 {
            return Err(ProgramError::InvalidAccountData);
        }
        let tag: u8 = input[0];
        if tag != 2 {
            return Err(ProgramError::InvalidAccountData);
        }
        let amount = u64_from_le_bytes(slice_subrange(input.as_slice(), 1, 9));
        let authority = pubkey_from_slice(input, 9);
        Ok(Job { account_type: AccountType::from_byte(tag), amount, authority })
    }

    /// Encode this record as a fresh 41-byte buffer.
    pub fn pack_to_vec(&self) -> (r: Vec<u8>)
        ensures
            r@ == spec_pack_job(self@),
    {
        let mut r: Vec<u8> = Vec::new();
        r.push(self.account_type.to_byte());
        let mut le = u64_to_le_bytes(self.amount);
        r.append(&mut le);
        push_pubkey(&mut r, &self.authority);
        assert(r@ =~= spec_pack_job(self@));
        r
    }

    /// Encode this record into a 41-byte buffer, replacing its contents.
    /// Rejects a buffer of any other length, leaving it unchanged.
    pub fn pack(&self, output: &mut Vec<u8>) -> (r: Result<(), ProgramError>)
        ensures
            r is Ok <==> old(output)@.len() == 41,
            r is Ok ==> final(output)@ == spec_pack_job(self@),
            r is Err ==> *final(output) == *old(output),
            r matches Err(e) ==> e == ProgramError::InvalidAccountData,
    {
        if output.len() != 41 {
            return Err(ProgramError::InvalidAccountData);
        }
        output.clear();
        let mut b = self.pack_to_vec();
        output.append(&mut b);
        Ok(())
    }
}

/// A packed job record decodes back to the record it was packed from: the
/// job tag, the same amount and the same authority.
pub proof fn lemma_job_pack_round_trip(j: JobView)
    requires
        j.account_type == AccountType::JobV1,
        j.authority.len() == 32,
    ensures
        job_bytes_wf(spec_pack_job(j)),
        spec_unpack_job(spec_pack_job(j)) == j,
{
    lemma_auto_spec_u64_to_from_le_bytes();
    let b = spec_pack_job(j);
    assert(b.subrange(1, 9) =~= spec_u64_to_le_bytes(j.amount));
    assert(b.subrange(9, 41) =~= j.authority);
    assert(spec_unpack_job(b) == j);
}

} // verus!
