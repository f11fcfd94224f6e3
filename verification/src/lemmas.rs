//! Proved facts about the state-transition engine that tie its operations
//! together: what a fresh escrow decodes to, how sequences of fundings
//! accumulate, how funding and disbursing cancel, and which malformed calls
//! are rejected whatever else the accounts hold.

use vstd::prelude::*;
use crate::account::AccountInfoView;
use crate::derive::{ata_of, spec_escrow_pda, spec_job_pda};
use crate::error::ProgramError;
use crate::processor::{disburse_funds_check, disburse_funds_validate, fund_job_check,
    init_escrow_check, set_escrow_owner_check, spec_disburse_amount, spec_fund_amount,
    spec_math_error, spec_unspecified};
use crate::state::{escrow_bytes_wf, lemma_escrow_bytes_round_trip, lemma_escrow_pack_round_trip,
    lemma_job_pack_round_trip, spec_pack_escrow, spec_pack_job, spec_unpack_escrow,
    spec_unpack_job, AccountType, EscrowView, JobView};

verus! {

/// The record a successful initialization writes decodes as an escrow with
/// a zero balance and exactly the supplied owner.
pub proof fn lemma_init_escrow_record_decodes(owner: Seq<u8>)
    requires
        owner.len() == 32,
    ensures
        escrow_bytes_wf(spec_pack_escrow(EscrowView {
            account_type: AccountType::EscrowV1,
            amount: 0,
            owner,
        })),
        spec_unpack_escrow(spec_pack_escrow(EscrowView {
            account_type: AccountType::EscrowV1,
            amount: 0,
            owner,
        })).amount == 0,
        spec_unpack_escrow(spec_pack_escrow(EscrowView {
            account_type: AccountType::EscrowV1,
            amount: 0,
            owner,
        })).owner == owner,
{
    lemma_escrow_pack_round_trip(EscrowView {
        account_type: AccountType::EscrowV1,
        amount: 0,
        owner,
    });
}

/// A second initialization of the same escrow slot fails: once the slot
/// holds a record that decodes as an escrow, the initialization check
/// rejects, whatever the other accounts and the rent minimum hold.
pub proof fn lemma_init_escrow_rejects_initialized(program_id: Seq<u8>,
    accts: Seq<AccountInfoView>, rent_minimum_balance: u64)
    requires
        accts.len() >= 5,
        escrow_bytes_wf(accts[0].data),
    ensures
        init_escrow_check(program_id, accts, rent_minimum_balance) is Err,
{
}

/// Sum of a sequence of funding amounts.
pub open spec fn spec_sum(amounts: Seq<u64>) -> int
    decreases amounts.len(),
{
    if amounts.len() == 0 {
        0
    } else {
        amounts[0] + spec_sum(amounts.drop_first())
    }
}

/// The balance after a whole sequence of fundings, each through the checked
/// addition of [`spec_fund_amount`]: `None` as soon as one step would leave
/// the unsigned 64-bit range.
pub open spec fn spec_fund_sequence(balance: u64, amounts: Seq<u64>) -> Option<u64>
    decreases amounts.len(),
{
    if amounts.len() == 0 {
        Some(balance)
    } else {
        match spec_fund_amount(balance, amounts[0]) {
            None => None,
            Some(b) => spec_fund_sequence(b, amounts.drop_first()),
        }
    }
}

/// A sequence of fundings from one depositor leaves exactly the starting
/// balance plus the sum of every amount, as long as that sum stays in the
/// unsigned 64-bit range — and fails, rather than wraps, as soon as it
/// would not.
pub proof fn lemma_fund_sequence(balance: u64, amounts: Seq<u64>)
    ensures
        spec_sum(amounts) >= 0,
        balance + spec_sum(amounts) <= u64::MAX ==> spec_fund_sequence(balance, amounts)
            == Some((balance + spec_sum(amounts)) as u64),
        balance + spec_sum(amounts) > u64::MAX ==> spec_fund_sequence(balance, amounts)
            is None,
    decreases amounts.len(),
{
    if amounts.len() == 0 {
    } else {
        match spec_fund_amount(balance, amounts[0]) {
            None => {
                lemma_fund_sequence(balance, amounts.drop_first());
            },
            Some(b) => {
                lemma_fund_sequence(b, amounts.drop_first());
            },
        }
    }
}

/// What one accepted funding writes, decoded back: the job and escrow
/// records hold exactly the checked sums of their prior balances and the
/// amount.
pub proof fn lemma_fund_outcome_decodes(job_prior: u64, escrow_prior: u64, amount: u64,
    authority: Seq<u8>, owner: Seq<u8>)
    requires
        authority.len() == 32,
        owner.len() == 32,
        spec_fund_amount(job_prior, amount) is Some,
        spec_fund_amount(escrow_prior, amount) is Some,
    ensures
        spec_unpack_job(spec_pack_job(JobView {
            account_type: AccountType::JobV1,
            amount: (job_prior + amount) as u64,
            authority,
        })).amount == spec_fund_amount(job_prior, amount)->Some_0,
        spec_unpack_escrow(spec_pack_escrow(EscrowView {
            account_type: AccountType::EscrowV1,
            amount: (escrow_prior + amount) as u64,
            owner,
        })).amount == spec_fund_amount(escrow_prior, amount)->Some_0,
{
    lemma_job_pack_round_trip(JobView {
        account_type: AccountType::JobV1,
        amount: (job_prior + amount) as u64,
        authority,
    });
    lemma_escrow_pack_round_trip(EscrowView {
        account_type: AccountType::EscrowV1,
        amount: (escrow_prior + amount) as u64,
        owner,
    });
}

/// Funding an amount and then disbursing the same amount returns a balance
/// exactly to where it started.
pub proof fn lemma_fund_then_disburse(balance: u64, amount: u64)
    requires
        spec_fund_amount(balance, amount) is Some,
    ensures
        spec_disburse_amount(spec_fund_amount(balance, amount)->Some_0, amount)
            == Some(balance),
{
}

/// The records one accepted funding writes, put through a disbursement of
/// the same amount, come back to exactly the pre-funding balances — for
/// the job and the escrow alike.
pub proof fn lemma_fund_disburse_records(job_prior: u64, escrow_prior: u64, amount: u64,
    authority: Seq<u8>, owner: Seq<u8>)
    requires
        authority.len() == 32,
        owner.len() == 32,
        spec_fund_amount(job_prior, amount) is Some,
        spec_fund_amount(escrow_prior, amount) is Some,
    ensures
        spec_disburse_amount(spec_unpack_job(spec_pack_job(JobView {
            account_type: AccountType::JobV1,
            amount: (job_prior + amount) as u64,
            authority,
        })).amount, amount) == Some(job_prior),
        spec_disburse_amount(spec_unpack_escrow(spec_pack_escrow(EscrowView {
            account_type: AccountType::EscrowV1,
            amount: (escrow_prior + amount) as u64,
            owner,
        })).amount, amount) == Some(escrow_prior),
{
    lemma_fund_outcome_decodes(job_prior, escrow_prior, amount, authority, owner);
}

/// Disbursing more than the job's recorded amount fails with the math
/// error, on any account set that passes every other disbursement check.
/// A failed operation hands the host nothing, so both records stay
/// byte-identical to their pre-call state.
pub proof fn lemma_disburse_insufficient(program_id: Seq<u8>, amount: u64,
    accts: Seq<AccountInfoView>)
    requires
        disburse_funds_validate(program_id, amount, accts) is Ok,
        amount > spec_unpack_job(accts[3].data).amount,
    ensures
        disburse_funds_check(program_id, amount, accts) == Err::<(), ProgramError>(
            spec_math_error()),
{
}

/// Replacing the owner with the owner already stored writes the escrow
/// record back byte-identically: the operation is idempotent in that case.
pub proof fn lemma_set_owner_idempotent(new_owner: Seq<u8>, b: Seq<u8>)
    requires
        escrow_bytes_wf(b),
        spec_unpack_escrow(b).owner == new_owner,
    ensures
        spec_pack_escrow(EscrowView {
            account_type: AccountType::EscrowV1,
            amount: spec_unpack_escrow(b).amount,
            owner: new_owner,
        }) == b,
{
    lemma_escrow_bytes_round_trip(b);
    assert(spec_unpack_escrow(b) == (EscrowView {
        account_type: AccountType::EscrowV1,
        amount: spec_unpack_escrow(b).amount,
        owner: new_owner,
    }));
}

/// Replacing the owner under an identity that is not the stored owner
/// fails with the owner-mismatch error. Nothing here constrains the signer
/// flag of the claimed owner, so the same error comes whether or not the
/// host confirmed its signature.
pub proof fn lemma_set_owner_rejects_non_owner(program_id: Seq<u8>,
    accts: Seq<AccountInfoView>)
    requires
        accts.len() >= 2,
        accts[0].owner == program_id,
        escrow_bytes_wf(accts[0].data),
        spec_unpack_escrow(accts[0].data).owner != accts[1].key,
    ensures
        set_escrow_owner_check(program_id, accts) == Err::<(), ProgramError>(
            spec_unspecified()),
{
}

/// A syntactically valid but wrongly derived escrow address is rejected by
/// initialization with the derived-address mismatch error before any
/// record is read: nothing here constrains any account's data.
pub proof fn lemma_init_escrow_rejects_wrong_address(program_id: Seq<u8>,
    accts: Seq<AccountInfoView>, rent_minimum_balance: u64)
    requires
        accts.len() >= 5,
        spec_escrow_pda(accts[2].key, accts[4].key, program_id) matches Some(p)
            && p.0 != accts[0].key,
    ensures
        init_escrow_check(program_id, accts, rent_minimum_balance) == Err::<(), ProgramError>(
            ProgramError::InvalidSeeds),
{
}

/// A syntactically valid but wrongly derived escrow address is rejected by
/// funding with the derived-address mismatch error before any record is
/// read: nothing here constrains any account's data.
pub proof fn lemma_fund_job_rejects_wrong_address(program_id: Seq<u8>, amount: u64,
    accts: Seq<AccountInfoView>, rent_minimum_balance: u64)
    requires
        amount != 0,
        accts.len() >= 8,
        spec_escrow_pda(accts[5].key, accts[7].key, program_id) matches Some(p)
            && p.0 != accts[2].key,
    ensures
        fund_job_check(program_id, amount, accts, rent_minimum_balance)
            == Err::<(), ProgramError>(ProgramError::InvalidSeeds),
{
}

/// A syntactically valid but wrongly derived job address is rejected by
/// funding with the derived-address mismatch error before the job's record
/// is read: nothing here constrains the job account's data.
pub proof fn lemma_fund_job_rejects_wrong_job_address(program_id: Seq<u8>, amount: u64,
    accts: Seq<AccountInfoView>, rent_minimum_balance: u64)
    requires
        amount != 0,
        accts.len() >= 8,
        spec_escrow_pda(accts[5].key, accts[7].key, program_id) matches Some(p)
            && p.0 == accts[2].key,
        escrow_bytes_wf(accts[2].data),
        accts[2].owner == program_id,
        ata_of(accts[2].key, accts[5].key) matches Some(t) && t == accts[1].key,
        accts[4].is_signer,
        spec_job_pda(accts[2].key, accts[4].key, program_id) matches Some(jp)
            && jp.0 != accts[3].key,
    ensures
        fund_job_check(program_id, amount, accts, rent_minimum_balance)
            == Err::<(), ProgramError>(ProgramError::InvalidSeeds),
{
}

/// A syntactically valid but wrongly derived escrow address is rejected by
/// disbursement with the derived-address mismatch error before any record
/// is read: nothing here constrains any account's data.
pub proof fn lemma_disburse_rejects_wrong_address(program_id: Seq<u8>, amount: u64,
    accts: Seq<AccountInfoView>)
    requires
        amount != 0,
        accts.len() >= 7,
        spec_escrow_pda(accts[5].key, accts[6].key, program_id) matches Some(p)
            && p.0 != accts[2].key,
    ensures
        disburse_funds_check(program_id, amount, accts) == Err::<(), ProgramError>(
            ProgramError::InvalidSeeds),
{
}

} // verus!
