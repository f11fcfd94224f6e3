//! Program state processor.
//!
//! Each operation reads the accounts the host hands over, validates them in
//! a fixed order, and either fails with the first failing check's error and
//! no effect at all, or returns the external calls to perform and the record
//! writes to persist. The host performs the calls in order and persists the
//! writes only once every call has succeeded, so balances and transfers
//! either all happen or none do.
//!
//! Account storage is created and rent-funded by the host before an
//! operation runs; the host also computes the minimum self-funding balance
//! of a record-sized slot and hands it in as a plain number, since only the
//! host knows its rent parameters.

use vstd::prelude::*;
use vstd::bytes::spec_u64_from_le_bytes;
use crate::account::{AccountInfo, AccountInfoView};
use crate::derive::{ata_of, spec_escrow_pda, spec_escrow_signer_seeds, spec_job_pda};
use crate::derive::{derive_associated_token_address, escrow_pda, escrow_tag, job_pda};
use crate::error::{spec_rndr_error, ProgramError, RNDRError};
use crate::helpers::{assert_rent_exempt, assert_uninitialized, ExternalCall, ExternalCallView,
    Outcome, OutcomeView, RecordWrite, RecordWriteView, TokenInitAccountParams,
    TokenInitAccountParamsView, TokenTransferParams, TokenTransferParamsView};
use crate::instruction::{instruction_bytes_wf, RNDRInstruction};
use crate::pubkey::{pubkey_eq, pubkey_to_vec, Pubkey};
use crate::state::{escrow_bytes_wf, job_bytes_wf, spec_pack_escrow, spec_pack_job,
    spec_unpack_escrow, spec_unpack_job, AccountType, Escrow, EscrowView, InitEscrowParams,
    InitJobParams, Job, JobView};
use crate::token::{mint_unpack_ok, spec_valid_mint};

verus! {

/// The balance after funds are added: `None` exactly when the checked
/// addition would leave the unsigned 64-bit range.
pub open spec fn spec_fund_amount(balance: u64, amount: u64) -> Option<u64> {
    if balance + amount <= u64::MAX {
        Some((balance + amount) as u64)
    } else {
        None
    }
}

/// The balance after funds are removed: `None` exactly when more is removed
/// than the balance holds.
pub open spec fn spec_disburse_amount(balance: u64, amount: u64) -> Option<u64> {
    if amount <= balance {
        Some((balance - amount) as u64)
    } else {
        None
    }
}

/// The error every failed validation of ownership, authority, signer or
/// rent status reports.
pub open spec fn spec_unspecified() -> ProgramError {
    spec_rndr_error(RNDRError::UnspecifiedError)
}

/// The error every failed checked addition or subtraction reports.
pub open spec fn spec_math_error() -> ProgramError {
    spec_rndr_error(RNDRError::MathError)
}

/// Validation of an `InitEscrow` call, in order: enough accounts; the
/// escrow address re-derives from the mint and token program; the escrow's
/// token account is the associated token account of the derived address;
/// the escrow's storage owned by this program; the storage rent-exempt; the
/// storage still uninitialized (a second initialization of the same address
/// fails here); the mint a valid initialized mint record whose storage the
/// stated token program owns.
pub open spec fn init_escrow_check(program_id: Seq<u8>, accts: Seq<AccountInfoView>,
    rent_minimum_balance: u64) -> Result<(), ProgramError> {
    if accts.len() < 5 {
        Err(ProgramError::NotEnoughAccountKeys)
    } else {
        let escrow = accts[0];
        let escrow_token = accts[1];
        let mint = accts[2];
        let token_program = accts[4];
        match spec_escrow_pda(mint.key, token_program.key, program_id) {
            None => Err(ProgramError::InvalidSeeds),
            Some(p) => if p.0 != escrow.key {
                Err(ProgramError::InvalidSeeds)
            } else {
                match ata_of(escrow.key, mint.key) {
                    None => Err(ProgramError::InvalidSeeds),
                    Some(token_account) => if token_account != escrow_token.key {
                        Err(ProgramError::InvalidSeeds)
                    } else if escrow.owner != program_id {
                        Err(spec_unspecified())
                    } else if escrow.lamports < rent_minimum_balance {
                        Err(spec_unspecified())
                    } else if escrow.data.len() != 41 {
                        Err(ProgramError::InvalidAccountData)
                    } else if escrow.data[0] != AccountType::Uninitialized.spec_to_byte() {
                        Err(spec_unspecified())
                    } else if mint.owner != token_program.key {
                        Err(spec_unspecified())
                    } else if !spec_valid_mint(mint.data) {
                        Err(ProgramError::InvalidAccountData)
                    } else {
                        Ok(())
                    },
                }
            },
        }
    }
}

/// What a successful `InitEscrow` hands the host: one request to initialize
/// the escrow's token account under the escrow's derived address, and one
/// write storing a fresh escrow record with a zero balance and the supplied
/// owner.
pub open spec fn init_escrow_outcome_ok(owner: Seq<u8>, accts: Seq<AccountInfoView>,
    o: OutcomeView) -> bool {
    &&& o.calls.len() == 1
    &&& o.calls[0] == ExternalCallView::InitTokenAccount(TokenInitAccountParamsView {
        account: accts[1].key,
        mint: accts[2].key,
        owner: accts[0].key,
        rent: accts[3].key,
        token_program: accts[4].key,
    })
    &&& o.writes.len() == 1
    &&& o.writes[0] == (RecordWriteView {
        account: accts[0].key,
        data: spec_pack_escrow(EscrowView {
            account_type: AccountType::EscrowV1,
            amount: 0,
            owner,
        }),
    })
}

/// Process an `InitEscrow` call: create the escrow record for a mint and
/// ask the host to initialize its token account. Succeeds, with the outcome
/// that [`init_escrow_outcome_ok`] describes, exactly when
/// [`init_escrow_check`] accepts, and fails with that check's error
/// otherwise.
pub fn process_init_escrow(program_id: &Pubkey, owner: Pubkey, accounts: &Vec<AccountInfo>,
    rent_minimum_balance: u64) -> (r: Result<Outcome, ProgramError>)
    ensures
        r is Ok <==> init_escrow_check(program_id@, accounts.deep_view(), rent_minimum_balance)
            is Ok,
        r matches Err(e) ==> Err::<(), ProgramError>(e)
            == init_escrow_check(program_id@, accounts.deep_view(), rent_minimum_balance),
        r matches Ok(o) ==> init_escrow_outcome_ok(owner@, accounts.deep_view(), o@),
{
    if accounts.len() < 5 {
        return Err(ProgramError::NotEnoughAccountKeys);
    }
    let escrow_info = &accounts[0];
    let escrow_token_info = &accounts[1];
    let token_mint_info = &accounts[2];
    let rent_info = &accounts[3];
    let token_program_info = &accounts[4];
    let (escrow_address, _bump_seed) = match escrow_pda(&token_mint_info.key,
        &token_program_info.key, program_id) {
        Some(p) => p,
        None => {
            return Err(ProgramError::InvalidSeeds);
        },
    };
    if !pubkey_eq(&escrow_address, &escrow_info.key) {
        return Err(ProgramError::InvalidSeeds);
    }
    let token_account = match derive_associated_token_address(&escrow_info.key,
        &token_mint_info.key) {
        Some(k) => k,
        None => {
            return Err(ProgramError::InvalidSeeds);
        },
    };
    if !pubkey_eq(&token_account, &escrow_token_info.key) {
        return Err(ProgramError::InvalidSeeds);
    }
    if !pubkey_eq(&escrow_info.owner, program_id) {
        return Err(ProgramError::from(RNDRError::UnspecifiedError));
    }
    match assert_rent_exempt(rent_minimum_balance, escrow_info.lamports) {
        Ok(_u) => {},
        Err(e) => {
            return Err(e);
        },
    }
    match assert_uninitialized(&escrow_info.data) {
        Ok(_u) => {},
        Err(e) => {
            return Err(e);
        },
    }
    if !pubkey_eq(&token_mint_info.owner, &token_program_info.key) {
        return Err(ProgramError::from(RNDRError::UnspecifiedError));
    }
    if !mint_unpack_ok(&token_mint_info.data) {
        return Err(ProgramError::InvalidAccountData);
    }
    let escrow = Escrow::new(InitEscrowParams { owner });
    let mut calls: Vec<ExternalCall> = Vec::new();
    calls.push(ExternalCall::InitTokenAccount(TokenInitAccountParams {
        account: escrow_token_info.key,
        mint: token_mint_info.key,
        owner: escrow_info.key,
        rent: rent_info.key,
        token_program: token_program_info.key,
    }));
    let mut writes: Vec<RecordWrite> = Vec::new();
    writes.push(RecordWrite { account: escrow_info.key, data: escrow.pack_to_vec() });
    let outcome = Outcome { calls, writes };
    proof {
        assert(init_escrow_outcome_ok(owner@, accounts.deep_view(), outcome@));
    }
    Ok(outcome)
}

/// Validation of a `SetEscrowOwner` call, in order: enough accounts; the
/// escrow's storage owned by this program; the escrow initialized; the
/// claimed owner equal to the stored one; the claimed owner a signer.
pub open spec fn set_escrow_owner_check(program_id: Seq<u8>, accts: Seq<AccountInfoView>)
    -> Result<(), ProgramError> {
    if accts.len() < 2 {
        Err(ProgramError::NotEnoughAccountKeys)
    } else {
        let escrow = accts[0];
        let current_owner = accts[1];
        if escrow.owner != program_id {
            Err(spec_unspecified())
        } else if !escrow_bytes_wf(escrow.data) {
            Err(ProgramError::InvalidAccountData)
        } else if spec_unpack_escrow(escrow.data).owner != current_owner.key {
            Err(spec_unspecified())
        } else if !current_owner.is_signer {
            Err(spec_unspecified())
        } else {
            Ok(())
        }
    }
}

/// What a successful `SetEscrowOwner` hands the host: no external call, and
/// one write storing the escrow back with its owner replaced and its balance
/// untouched.
pub open spec fn set_escrow_owner_outcome_ok(new_owner: Seq<u8>, accts: Seq<AccountInfoView>,
    o: OutcomeView) -> bool {
    &&& o.calls.len() == 0
    &&& o.writes.len() == 1
    &&& o.writes[0] == (RecordWriteView {
        account: accts[0].key,
        data: spec_pack_escrow(EscrowView {
            account_type: AccountType::EscrowV1,
            amount: spec_unpack_escrow(accts[0].data).amount,
            owner: new_owner,
        }),
    })
}

/// Process a `SetEscrowOwner` call: overwrite the escrow's owner under the
/// current owner's signature. Succeeds, with the outcome that
/// [`set_escrow_owner_outcome_ok`] describes, exactly when
/// [`set_escrow_owner_check`] accepts, and fails with that check's error
/// otherwise.
pub fn process_set_escrow_owner(program_id: &Pubkey, new_owner: Pubkey,
    accounts: &Vec<AccountInfo>) -> (r: Result<Outcome, ProgramError>)
    ensures
        r is Ok <==> set_escrow_owner_check(program_id@, accounts.deep_view()) is Ok,
        r matches Err(e) ==> Err::<(), ProgramError>(e)
            == set_escrow_owner_check(program_id@, accounts.deep_view()),
        r matches Ok(o) ==> set_escrow_owner_outcome_ok(new_owner@, accounts.deep_view(), o@),
{
    if accounts.len() < 2 {
        return Err(ProgramError::NotEnoughAccountKeys);
    }
    let escrow_info = &accounts[0];
    let current_owner_info = &accounts[1];
    if !pubkey_eq(&escrow_info.owner, program_id) {
        return Err(ProgramError::from(RNDRError::UnspecifiedError));
    }
    let mut escrow = match Escrow::unpack(&escrow_info.data) {
        Ok(e) => e,
        Err(e) => {
            return Err(e);
        },
    };
    if !pubkey_eq(&escrow.owner, &current_owner_info.key) {
        return Err(ProgramError::from(RNDRError::UnspecifiedError));
    }
    if !current_owner_info.is_signer {
        return Err(ProgramError::from(RNDRError::UnspecifiedError));
    }
    escrow.owner = new_owner;
    let mut writes: Vec<RecordWrite> = Vec::new();
    writes.push(RecordWrite { account: escrow_info.key, data: escrow.pack_to_vec() });
    let outcome = Outcome { calls: Vec::new(), writes };
    proof {
        assert(set_escrow_owner_outcome_ok(new_owner@, accounts.deep_view(), outcome@));
    }
    Ok(outcome)
}

/// The contribution a job account already holds at funding time: zero for
/// an untouched slot, else the recorded amount.
pub open spec fn fund_job_prior_amount(job: AccountInfoView) -> u64 {
    if job.data[0] == AccountType::Uninitialized.spec_to_byte() {
        0
    } else {
        spec_unpack_job(job.data).amount
    }
}

/// The authority a funded job is recorded under: the supplied depositor for
/// an untouched slot, else the one already recorded.
pub open spec fn fund_job_authority(job: AccountInfoView, authority: Seq<u8>) -> Seq<u8> {
    if job.data[0] == AccountType::Uninitialized.spec_to_byte() {
        authority
    } else {
        spec_unpack_job(job.data).authority
    }
}

/// Validation of a `FundJob` call, in order: a nonzero amount; enough
/// accounts; the escrow address re-derives from the mint and token program;
/// the escrow initialized and its storage owned by this program; the
/// destination is the escrow's associated token account; the depositor
/// authority a signer; the job address re-derives from the escrow address
/// and the depositor authority; then, for an untouched job slot, rent
/// exemption of the slot, and for an existing job, its storage owned by
/// this program; finally both checked additions stay in range.
pub open spec fn fund_job_check(program_id: Seq<u8>, amount: u64, accts: Seq<AccountInfoView>,
    rent_minimum_balance: u64) -> Result<(), ProgramError> {
    if amount == 0 {
        Err(spec_unspecified())
    } else if accts.len() < 8 {
        Err(ProgramError::NotEnoughAccountKeys)
    } else {
        let escrow_token = accts[1];
        let escrow = accts[2];
        let job = accts[3];
        let authority = accts[4];
        let mint = accts[5];
        let token_program = accts[7];
        match spec_escrow_pda(mint.key, token_program.key, program_id) {
            None => Err(ProgramError::InvalidSeeds),
            Some(p) => if p.0 != escrow.key {
                Err(ProgramError::InvalidSeeds)
            } else if !escrow_bytes_wf(escrow.data) {
                Err(ProgramError::InvalidAccountData)
            } else if escrow.owner != program_id {
                Err(spec_unspecified())
            } else {
                match ata_of(escrow.key, mint.key) {
                    None => Err(ProgramError::InvalidSeeds),
                    Some(token_account) => if token_account != escrow_token.key {
                        Err(ProgramError::InvalidSeeds)
                    } else if !authority.is_signer {
                        Err(spec_unspecified())
                    } else {
                        match spec_job_pda(escrow.key, authority.key, program_id) {
                            None => Err(ProgramError::InvalidSeeds),
                            Some(jp) => if jp.0 != job.key {
                                Err(ProgramError::InvalidSeeds)
                            } else if job.data.len() != 41 {
                                Err(ProgramError::InvalidAccountData)
                            } else if job.data[0] != AccountType::Uninitialized.spec_to_byte()
                                && job.data[0] != AccountType::JobV1.spec_to_byte() {
                                Err(ProgramError::InvalidAccountData)
                            } else if job.data[0] == AccountType::Uninitialized.spec_to_byte()
                                && job.lamports < rent_minimum_balance {
                                Err(spec_unspecified())
                            } else if job.data[0] == AccountType::JobV1.spec_to_byte()
                                && job.owner != program_id {
                                Err(spec_unspecified())
                            } else if spec_fund_amount(fund_job_prior_amount(job), amount)
                                is None {
                                Err(spec_math_error())
                            } else if spec_fund_amount(spec_unpack_escrow(escrow.data).amount,
                                amount) is None {
                                Err(spec_math_error())
                            } else {
                                Ok(())
                            },
                        }
                    },
                }
            },
        }
    }
}

/// What a successful `FundJob` hands the host: one transfer of the amount
/// from the depositor's token account to the escrow's token account under
/// the depositor's own signature, and two writes storing the job and the
/// escrow with both balances grown by the amount.
pub open spec fn fund_job_outcome_ok(amount: u64, accts: Seq<AccountInfoView>, o: OutcomeView)
    -> bool {
    &&& o.calls.len() == 1
    &&& o.calls[0] == ExternalCallView::Transfer(TokenTransferParamsView {
        source: accts[0].key,
        destination: accts[1].key,
        amount,
        authority: accts[4].key,
        authority_signer_seeds: Seq::empty(),
        token_program: accts[7].key,
    })
    &&& o.writes.len() == 2
    &&& o.writes[0] == (RecordWriteView {
        account: accts[3].key,
        data: spec_pack_job(JobView {
            account_type: AccountType::JobV1,
            amount: (fund_job_prior_amount(accts[3]) + amount) as u64,
            authority: fund_job_authority(accts[3], accts[4].key),
        }),
    })
    &&& o.writes[1] == (RecordWriteView {
        account: accts[2].key,
        data: spec_pack_escrow(EscrowView {
            account_type: AccountType::EscrowV1,
            amount: (spec_unpack_escrow(accts[2].data).amount + amount) as u64,
            owner: spec_unpack_escrow(accts[2].data).owner,
        }),
    })
}

/// Process a `FundJob` call: move the amount from the depositor into the
/// escrow's token account and credit both the depositor's job and the
/// pooled escrow balance, creating the job record on a depositor's first
/// funding. Succeeds, with the outcome that [`fund_job_outcome_ok`]
/// describes, exactly when [`fund_job_check`] accepts, and fails with that
/// check's error otherwise.
pub fn process_fund_job(program_id: &Pubkey, amount: u64, accounts: &Vec<AccountInfo>,
    rent_minimum_balance: u64) -> (r: Result<Outcome, ProgramError>)
    ensures
        r is Ok <==> fund_job_check(program_id@, amount, accounts.deep_view(),
            rent_minimum_balance) is Ok,
        r matches Err(e) ==> Err::<(), ProgramError>(e)
            == fund_job_check(program_id@, amount, accounts.deep_view(), rent_minimum_balance),
        r matches Ok(o) ==> fund_job_outcome_ok(amount, accounts.deep_view(), o@),
{
    if amount == 0 {
        return Err(ProgramError::from(RNDRError::UnspecifiedError));
    }
    if accounts.len() < 8 {
        return Err(ProgramError::NotEnoughAccountKeys);
    }
    let source_token_info = &accounts[0];
    let escrow_token_info = &accounts[1];
    let escrow_info = &accounts[2];
    let job_info = &accounts[3];
    let authority_info = &accounts[4];
    let token_mint_info = &accounts[5];
    let token_program_info = &accounts[7];
    let (escrow_address, _bump_seed) = match escrow_pda(&token_mint_info.key,
        &token_program_info.key, program_id) {
        Some(p) => p,
        None => {
            return Err(ProgramError::InvalidSeeds);
        },
    };
    if !pubkey_eq(&escrow_address, &escrow_info.key) {
        return Err(ProgramError::InvalidSeeds);
    }
    let mut escrow = match Escrow::unpack(&escrow_info.data) {
        Ok(e) => e,
        Err(e) => {
            return Err(e);
        },
    };
    if !pubkey_eq(&escrow_info.owner, program_id) {
        return Err(ProgramError::from(RNDRError::UnspecifiedError));
    }
    let token_account = match derive_associated_token_address(&escrow_info.key,
        &token_mint_info.key) {
        Some(k) => k,
        None => {
            return Err(ProgramError::InvalidSeeds);
        },
    };
    if !pubkey_eq(&token_account, &escrow_token_info.key) {
        return Err(ProgramError::InvalidSeeds);
    }
    if !authority_info.is_signer {
        return Err(ProgramError::from(RNDRError::UnspecifiedError));
    }
    let (job_address, _job_bump) = match job_pda(&escrow_info.key, &authority_info.key,
        program_id) {
        Some(j) => j,
        None => {
            return Err(ProgramError::InvalidSeeds);
        },
    };
    if !pubkey_eq(&job_address, &job_info.key) {
        return Err(ProgramError::InvalidSeeds);
    }
    if job_info.data.len() != 41 {
        return Err(ProgramError::InvalidAccountData);
    }
    let job_tag_byte: u8 = job_info.data[0];
    if job_tag_byte != 0 && job_tag_byte != 2 {
        return Err(ProgramError::InvalidAccountData);
    }
    let mut job: Job;
    if job_tag_byte == 0 {
        match assert_rent_exempt(rent_minimum_balance, job_info.lamports) {
            Ok(_u) => {},
            Err(e) => {
                return Err(e);
            },
        }
        job = Job::new(InitJobParams { authority: authority_info.key });
    } else {
        if !pubkey_eq(&job_info.owner, program_id) {
            return Err(ProgramError::from(RNDRError::UnspecifiedError));
        }
        job = match Job::unpack(&job_info.data) {
            Ok(j) => j,
            Err(e) => {
                return Err(e);
            },
        };
    }
    job.amount = match job.amount.checked_add(amount) {
        Some(a) => a,
        None => {
            return Err(ProgramError::from(RNDRError::MathError));
        },
    };
    escrow.amount = match escrow.amount.checked_add(amount) {
        Some(a) => a,
        None => {
            return Err(ProgramError::from(RNDRError::MathError));
        },
    };
    let mut calls: Vec<ExternalCall> = Vec::new();
    calls.push(ExternalCall::Transfer(TokenTransferParams {
        source: source_token_info.key,
        destination: escrow_token_info.key,
        amount,
        authority: authority_info.key,
        authority_signer_seeds: Vec::new(),
        token_program: token_program_info.key,
    }));
    let mut writes: Vec<RecordWrite> = Vec::new();
    writes.push(RecordWrite { account: job_info.key, data: job.pack_to_vec() });
    writes.push(RecordWrite { account: escrow_info.key, data: escrow.pack_to_vec() });
    let outcome = Outcome { calls, writes };
    proof {
        assert(outcome@.calls[0]->Transfer_0.authority_signer_seeds =~~= Seq::<Seq<u8>>::empty());
        assert(fund_job_outcome_ok(amount, accounts.deep_view(), outcome@));
    }
    Ok(outcome)
}

/// Validation of a `DisburseFunds` call, in order: a nonzero amount; enough
/// accounts; the escrow address re-derives from the mint and token program;
/// the escrow initialized and its storage owned by this program; the
/// claimed owner equal to the stored one and a signer; the source is the
/// escrow's associated token account; the job initialized and its storage
/// owned by this program; the job address re-derives from the escrow
/// address and the job's own recorded authority, which binds the
/// disbursement to the right depositor's ledger.
pub open spec fn disburse_funds_validate(program_id: Seq<u8>, amount: u64,
    accts: Seq<AccountInfoView>) -> Result<(), ProgramError> {
    if amount == 0 {
        Err(spec_unspecified())
    } else if accts.len() < 7 {
        Err(ProgramError::NotEnoughAccountKeys)
    } else {
        let escrow_token = accts[0];
        let escrow = accts[2];
        let job = accts[3];
        let escrow_owner = accts[4];
        let mint = accts[5];
        let token_program = accts[6];
        match spec_escrow_pda(mint.key, token_program.key, program_id) {
            None => Err(ProgramError::InvalidSeeds),
            Some(p) => if p.0 != escrow.key {
                Err(ProgramError::InvalidSeeds)
            } else if !escrow_bytes_wf(escrow.data) {
                Err(ProgramError::InvalidAccountData)
            } else if escrow.owner != program_id {
                Err(spec_unspecified())
            } else if spec_unpack_escrow(escrow.data).owner != escrow_owner.key {
                Err(spec_unspecified())
            } else if !escrow_owner.is_signer {
                Err(spec_unspecified())
            } else {
                match ata_of(escrow.key, mint.key) {
                    None => Err(ProgramError::InvalidSeeds),
                    Some(token_account) => if token_account != escrow_token.key {
                        Err(ProgramError::InvalidSeeds)
                    } else if !job_bytes_wf(job.data) {
                        Err(ProgramError::InvalidAccountData)
                    } else if job.owner != program_id {
                        Err(spec_unspecified())
                    } else {
                        match spec_job_pda(escrow.key, spec_unpack_job(job.data).authority,
                            program_id) {
                            None => Err(ProgramError::InvalidSeeds),
                            Some(jp) => if jp.0 != job.key {
                                Err(ProgramError::InvalidSeeds)
                            } else {
                                Ok(())
                            },
                        }
                    },
                }
            },
        }
    }
}

/// Full validation of a `DisburseFunds` call: the account and authority
/// checks of [`disburse_funds_validate`], then both checked subtractions
/// staying at or above zero.
pub open spec fn disburse_funds_check(program_id: Seq<u8>, amount: u64,
    accts: Seq<AccountInfoView>) -> Result<(), ProgramError> {
    match disburse_funds_validate(program_id, amount, accts) {
        Err(e) => Err(e),
        Ok(u) => if spec_disburse_amount(spec_unpack_job(accts[3].data).amount, amount)
            is None {
            Err(spec_math_error())
        } else if spec_disburse_amount(spec_unpack_escrow(accts[2].data).amount, amount)
            is None {
            Err(spec_math_error())
        } else {
            Ok(())
        },
    }
}

/// What a successful `DisburseFunds` hands the host: two writes storing the
/// job and the escrow with both balances shrunk by the amount, and one
/// transfer of the amount from the escrow's token account to the
/// destination, authorized as the escrow's own derived address through its
/// full seed list with the bump appended.
pub open spec fn disburse_funds_outcome_ok(program_id: Seq<u8>, amount: u64,
    accts: Seq<AccountInfoView>, o: OutcomeView) -> bool {
    &&& o.calls.len() == 1
    &&& (spec_escrow_pda(accts[5].key, accts[6].key, program_id) matches Some(p)
        && o.calls[0] == ExternalCallView::Transfer(TokenTransferParamsView {
            source: accts[0].key,
            destination: accts[1].key,
            amount,
            authority: accts[2].key,
            authority_signer_seeds: spec_escrow_signer_seeds(accts[5].key, accts[6].key, p.1),
            token_program: accts[6].key,
        }))
    &&& o.writes.len() == 2
    &&& o.writes[0] == (RecordWriteView {
        account: accts[3].key,
        data: spec_pack_job(JobView {
            account_type: AccountType::JobV1,
            amount: (spec_unpack_job(accts[3].data).amount - amount) as u64,
            authority: spec_unpack_job(accts[3].data).authority,
        }),
    })
    &&& o.writes[1] == (RecordWriteView {
        account: accts[2].key,
        data: spec_pack_escrow(EscrowView {
            account_type: AccountType::EscrowV1,
            amount: (spec_unpack_escrow(accts[2].data).amount - amount) as u64,
            owner: spec_unpack_escrow(accts[2].data).owner,
        }),
    })
}

/// Process a `DisburseFunds` call: debit the depositor's job and the pooled
/// escrow balance under the escrow owner's signature, and move the amount
/// out of the escrow's token account authorized as the escrow's own derived
/// address. Succeeds, with the outcome that [`disburse_funds_outcome_ok`]
/// describes, exactly when [`disburse_funds_check`] accepts, and fails with
/// that check's error otherwise.
pub fn process_disburse_funds(program_id: &Pubkey, amount: u64, accounts: &Vec<AccountInfo>)
    -> (r: Result<Outcome, ProgramError>)
    ensures
        r is Ok <==> disburse_funds_check(program_id@, amount, accounts.deep_view()) is Ok,
        r matches Err(e) ==> Err::<(), ProgramError>(e)
            == disburse_funds_check(program_id@, amount, accounts.deep_view()),
        r matches Ok(o) ==> disburse_funds_outcome_ok(program_id@, amount,
            accounts.deep_view(), o@),
{
    if amount == 0 {
        return Err(ProgramError::from(RNDRError::UnspecifiedError));
    }
    if accounts.len() < 7 {
        return Err(ProgramError::NotEnoughAccountKeys);
    }
    let escrow_token_info = &accounts[0];
    let destination_token_info = &accounts[1];
    let escrow_info = &accounts[2];
    let job_info = &accounts[3];
    let escrow_owner_info = &accounts[4];
    let token_mint_info = &accounts[5];
    let token_program_info = &accounts[6];
    let (escrow_address, bump_seed) = match escrow_pda(&token_mint_info.key,
        &token_program_info.key, program_id) {
        Some(p) => p,
        None => {
            return Err(ProgramError::InvalidSeeds);
        },
    };
    if !pubkey_eq(&escrow_address, &escrow_info.key) {
        return Err(ProgramError::InvalidSeeds);
    }
    let mut escrow = match Escrow::unpack(&escrow_info.data) {
        Ok(e) => e,
        Err(e) => {
            return Err(e);
        },
    };
    if !pubkey_eq(&escrow_info.owner, program_id) {
        return Err(ProgramError::from(RNDRError::UnspecifiedError));
    }
    if !pubkey_eq(&escrow.owner, &escrow_owner_info.key) {
        return Err(ProgramError::from(RNDRError::UnspecifiedError));
    }
    if !escrow_owner_info.is_signer {
        return Err(ProgramError::from(RNDRError::UnspecifiedError));
    }
    let token_account = match derive_associated_token_address(&escrow_info.key,
        &token_mint_info.key) {
        Some(k) => k,
        None => {
            return Err(ProgramError::InvalidSeeds);
        },
    };
    if !pubkey_eq(&token_account, &escrow_token_info.key) {
        return Err(ProgramError::InvalidSeeds);
    }
    let mut job = match Job::unpack(&job_info.data) {
        Ok(j) => j,
        Err(e) => {
            return Err(e);
        },
    };
    if !pubkey_eq(&job_info.owner, program_id) {
        return Err(ProgramError::from(RNDRError::UnspecifiedError));
    }
    let (job_address, _job_bump) = match job_pda(&escrow_info.key, &job.authority, program_id) {
        Some(j) => j,
        None => {
            return Err(ProgramError::InvalidSeeds);
        },
    };
    if !pubkey_eq(&job_address, &job_info.key) {
        return Err(ProgramError::InvalidSeeds);
    }
    job.amount = match job.amount.checked_sub(amount) {
        Some(a) => a,
        None => {
            return Err(ProgramError::from(RNDRError::MathError));
        },
    };
    escrow.amount = match escrow.amount.checked_sub(amount) {
        Some(a) => a,
        None => {
            return Err(ProgramError::from(RNDRError::MathError));
        },
    };
    let mut signer_seeds: Vec<Vec<u8>> = Vec::new();
    signer_seeds.push(escrow_tag());
    signer_seeds.push(pubkey_to_vec(&token_mint_info.key));
    signer_seeds.push(pubkey_to_vec(&token_program_info.key));
    let mut bump_vec: Vec<u8> = Vec::new();
    bump_vec.push(bump_seed);
    signer_seeds.push(bump_vec);
    proof {
        assert(signer_seeds.deep_view() =~~= spec_escrow_signer_seeds(token_mint_info.key@,
            token_program_info.key@, bump_seed));
    }
    let mut writes: Vec<RecordWrite> = Vec::new();
    writes.push(RecordWrite { account: job_info.key, data: job.pack_to_vec() });
    writes.push(RecordWrite { account: escrow_info.key, data: escrow.pack_to_vec() });
    let mut calls: Vec<ExternalCall> = Vec::new();
    calls.push(ExternalCall::Transfer(TokenTransferParams {
        source: escrow_token_info.key,
        destination: destination_token_info.key,
        amount,
        authority: escrow_info.key,
        authority_signer_seeds: signer_seeds,
        token_program: token_program_info.key,
    }));
    let outcome = Outcome { calls, writes };
    proof {
        assert(disburse_funds_outcome_ok(program_id@, amount, accounts.deep_view(), outcome@));
    }
    Ok(outcome)
}

/// Validation of a whole call: the instruction buffer must decode, and the
/// decoded operation's own check must accept the accounts.
pub open spec fn instruction_check(program_id: Seq<u8>, accts: Seq<AccountInfoView>,
    input: Seq<u8>, rent_minimum_balance: u64) -> Result<(), ProgramError> {
    if !instruction_bytes_wf(input) {
        Err(spec_rndr_error(RNDRError::InstructionUnpackError))
    } else if input[0] == 0 {
        init_escrow_check(program_id, accts, rent_minimum_balance)
    } else if input[0] == 1 {
        set_escrow_owner_check(program_id, accts)
    } else if input[0] == 2 {
        fund_job_check(program_id, spec_u64_from_le_bytes(input.subrange(1, 9)), accts,
            rent_minimum_balance)
    } else {
        disburse_funds_check(program_id, spec_u64_from_le_bytes(input.subrange(1, 9)), accts)
    }
}

/// What a successful call hands the host: the decoded operation's own
/// outcome, its field taken from the instruction buffer.
pub open spec fn instruction_outcome_ok(program_id: Seq<u8>, accts: Seq<AccountInfoView>,
    input: Seq<u8>, o: OutcomeView) -> bool
    recommends
        instruction_bytes_wf(input),
{
    if input[0] == 0 {
        init_escrow_outcome_ok(input.subrange(1, 33), accts, o)
    } else if input[0] == 1 {
        set_escrow_owner_outcome_ok(input.subrange(1, 33), accts, o)
    } else if input[0] == 2 {
        fund_job_outcome_ok(spec_u64_from_le_bytes(input.subrange(1, 9)), accts, o)
    } else {
        disburse_funds_outcome_ok(program_id, spec_u64_from_le_bytes(input.subrange(1, 9)),
            accts, o)
    }
}

/// Process one call: decode the instruction buffer, dispatch to the decoded
/// operation, and hand back its external calls and record writes. Succeeds,
/// with the outcome that [`instruction_outcome_ok`] describes, exactly when
/// [`instruction_check`] accepts, and fails with that check's error
/// otherwise.
pub fn process_instruction(program_id: &Pubkey, accounts: &Vec<AccountInfo>, input: &Vec<u8>,
    rent_minimum_balance: u64) -> (r: Result<Outcome, ProgramError>)
    ensures
        r is Ok <==> instruction_check(program_id@, accounts.deep_view(), input@,
            rent_minimum_balance) is Ok,
        r matches Err(e) ==> Err::<(), ProgramError>(e)
            == instruction_check(program_id@, accounts.deep_view(), input@,
            rent_minimum_balance),
        r matches Ok(o) ==> instruction_outcome_ok(program_id@, accounts.deep_view(), input@,
            o@),
{
    let instruction = match RNDRInstruction::unpack(input) {
        Ok(i) => i,
        Err(e) => {
            return Err(e);
        },
    };
    match instruction {
        RNDRInstruction::InitEscrow { owner } => {
            process_init_escrow(program_id, owner, accounts, rent_minimum_balance)
        },
        RNDRInstruction::SetEscrowOwner { new_owner } => {
            process_set_escrow_owner(program_id, new_owner, accounts)
        },
        RNDRInstruction::FundJob { amount } => {
            process_fund_job(program_id, amount, accounts, rent_minimum_balance)
        },
        RNDRInstruction::DisburseFunds { amount } => {
            process_disburse_funds(program_id, amount, accounts)
        },
    }
}

} // verus!
