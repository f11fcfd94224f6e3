//! Instruction types

use vstd::prelude::*;
use vstd::bytes::{spec_u64_from_le_bytes, spec_u64_to_le_bytes, u64_from_le_bytes, u64_to_le_bytes};
use vstd::slice::slice_subrange;
use crate::derive::{ata_of, spec_escrow_pda, spec_job_pda};
use crate::derive::{derive_associated_token_address, escrow_pda, job_pda};
use crate::error::{spec_rndr_error, ProgramError, RNDRError};
use crate::ids::{rent_sysvar_id, spec_rent_sysvar_id, spec_spl_token_id, spl_token_program_id};
use crate::pubkey::{pubkey_from_slice, push_pubkey, Pubkey};

verus! {

/// Instructions supported by the RNDR program, decoded from a buffer whose
/// first byte selects the operation and whose remaining bytes hold one
/// fixed-width field in little-endian order.
pub enum RNDRInstruction {
    /// Initialize an escrow account.
    ///
    /// Accounts expected by this instruction:
    ///
    ///   0. `[writable]` Escrow derived account - uninitialized
    ///   1. `[writable]` Escrow token account
    ///   2. `[]` Token mint
    ///   3. `[]` Rent sysvar
    ///   4. `[]` Token program id
    InitEscrow {
        /// Owner authority that can disburse funds.
        owner: Pubkey,
    },
    /// Set the new owner of an escrow account.
    ///
    /// Accounts expected by this instruction:
    ///
    ///   0. `[writable]` Escrow derived account
    ///   1. `[signer]` Current escrow owner authority
    SetEscrowOwner {
        /// The new owner.
        new_owner: Pubkey,
    },
    /// Transfer funds into an escrow and credit a job.
    ///
    /// Accounts expected by this instruction:
    ///
    ///   0. `[writable]` Source token account
    ///   1. `[writable]` Destination escrow token account
    ///   2. `[writable]` Escrow derived account
    ///   3. `[writable]` Job derived account
    ///   4. `[signer]` Source token account authority
    ///   5. `[]` Token mint
    ///   6. `[]` Rent sysvar
    ///   7. `[]` Token program id
    FundJob {
        /// Amount of tokens to escrow.
        amount: u64,
    },
    /// Transfer funds from an escrow and debit a job.
    ///
    /// Accounts expected by this instruction:
    ///
    ///   0. `[writable]` Source escrow token account
    ///   1. `[writable]` Destination token account
    ///   2. `[writable]` Escrow derived account
    ///   3. `[writable]` Job derived account
    ///   4. `[signer]` Escrow owner authority
    ///   5. `[]` Token mint
    ///   6. `[]` Token program id
    DisburseFunds {
        /// Amount of tokens to disburse.
        amount: u64,
    },
}

/// The buffer a given instruction is packed as: its tag byte, then its one
/// field, addresses verbatim and amounts in little-endian order.
pub open spec fn spec_pack_instruction(i: RNDRInstruction) -> Seq<u8> {
    match i {
        RNDRInstruction::InitEscrow { owner } => seq![0u8] + owner@,
        RNDRInstruction::SetEscrowOwner { new_owner } => seq![1u8] + new_owner@,
        RNDRInstruction::FundJob { amount } => seq![2u8] + spec_u64_to_le_bytes(amount),
        RNDRInstruction::DisburseFunds { amount } => seq![3u8] + spec_u64_to_le_bytes(amount),
    }
}

/// Whether a buffer decodes as an instruction: nonempty, a known tag, and a
/// payload long enough for the tag's field.
pub open spec fn instruction_bytes_wf(b: Seq<u8>) -> bool {
    &&& b.len() >= 1
    &&& {
        ||| (b[0] == 0 || b[0] == 1) && b.len() >= 33
        ||| (b[0] == 2 || b[0] == 3) && b.len() >= 9
    }
}

impl RNDRInstruction {
    /// Decode a byte buffer into an instruction. Fails with the instruction
    /// unpack error iff the buffer is empty, its tag is unknown, or its
    /// field is truncated; trailing bytes beyond the field are ignored.
    pub fn unpack(input: &Vec<u8>) -> (r: Result<RNDRInstruction, ProgramError>)
        ensures
            r is Ok <==> instruction_bytes_wf(input@),
            r matches Err(e) ==> e == spec_rndr_error(RNDRError::InstructionUnpackError),
            r is Ok && input@[0] == 0 ==> (r matches Ok(i) && (i matches
                RNDRInstruction::InitEscrow { owner } && owner@ == input@.subrange(1, 33))),
            r is Ok && input@[0] == 1 ==> (r matches Ok(i) && (i matches
                RNDRInstruction::SetEscrowOwner { new_owner }
                && new_owner@ == input@.subrange(1, 33))),
            r is Ok && input@[0] == 2 ==> (r matches Ok(i) && (i matches
                RNDRInstruction::FundJob { amount }
                && amount == spec_u64_from_le_bytes(input@.subrange(1, 9)))),
            r is Ok && input@[0] == 3 ==> (r matches Ok(i) && (i matches
                RNDRInstruction::DisburseFunds { amount }
                && amount == spec_u64_from_le_bytes(input@.subrange(1, 9)))),
    {
        if input.len() < 1 {
            return Err(ProgramError::from(RNDRError::InstructionUnpackError));
        }
        let tag: u8 = input[0];
        if tag == 0 || tag == 1 {
            if input.len() < 33 {
                return Err(ProgramError::from(RNDRError::InstructionUnpackError));
            }
            let key = pubkey_from_slice(input, 1);
            if tag == 0 {
                Ok(RNDRInstruction::InitEscrow { owner: key })
            } else {
                Ok(RNDRInstruction::SetEscrowOwner { new_owner: key })
            }
        } else if tag == 2 || tag == 3 {
            if input.len() < 9 {
                return Err(ProgramError::from(RNDRError::InstructionUnpackError));
            }
            let amount = u64_from_le_bytes(slice_subrange(input.as_slice(), 1, 9));
            if tag == 2 {
                Ok(RNDRInstruction::FundJob { amount })
            } else {
                Ok(RNDRInstruction::DisburseFunds { amount })
            }
        } else {
            Err(ProgramError::from(RNDRError::InstructionUnpackError))
        }
    }

    /// Encode this instruction into the buffer its decoder accepts.
    pub fn pack(&self) -> (r: Vec<u8>)
        ensures
            r@ == spec_pack_instruction(*self),
    {
        let mut buf: Vec<u8> = Vec::new();
        match self {
            RNDRInstruction::InitEscrow { owner } => {
                buf.push(0);
                push_pubkey(&mut buf, owner);
            },
            RNDRInstruction::SetEscrowOwner { new_owner } => {
                buf.push(1);
                push_pubkey(&mut buf, new_owner);
            },
            RNDRInstruction::FundJob { amount } => {
                buf.push(2);
                let mut le = u64_to_le_bytes(*amount);
                buf.append(&mut le);
            },
            RNDRInstruction::DisburseFunds { amount } => {
                buf.push(3);
                let mut le = u64_to_le_bytes(*amount);
                buf.append(&mut le);
            },
        }
        assert(buf@ =~= spec_pack_instruction(*self));
        buf
    }
}

/// A packed instruction decodes: its buffer is accepted, and both the tag
/// and the field come back as they went in.
pub proof fn lemma_instruction_pack_round_trip(i: RNDRInstruction)
    ensures
        instruction_bytes_wf(spec_pack_instruction(i)),
        i matches RNDRInstruction::InitEscrow { owner } ==> spec_pack_instruction(i)[0] == 0
            && spec_pack_instruction(i).subrange(1, 33) == owner@,
        i matches RNDRInstruction::SetEscrowOwner { new_owner } ==> spec_pack_instruction(i)[0]
            == 1 && spec_pack_instruction(i).subrange(1, 33) == new_owner@,
        i matches RNDRInstruction::FundJob { amount } ==> spec_pack_instruction(i)[0] == 2
            && spec_u64_from_le_bytes(spec_pack_instruction(i).subrange(1, 9)) == amount,
        i matches RNDRInstruction::DisburseFunds { amount } ==> spec_pack_instruction(i)[0] == 3
            && spec_u64_from_le_bytes(spec_pack_instruction(i).subrange(1, 9)) == amount,
{
    vstd::bytes::lemma_auto_spec_u64_to_from_le_bytes();
    let b = spec_pack_instruction(i);
    match i {
        RNDRInstruction::InitEscrow { owner } => {
            assert(b.subrange(1, 33) =~= owner@);
        },
        RNDRInstruction::SetEscrowOwner { new_owner } => {
            assert(b.subrange(1, 33) =~= new_owner@);
        },
        RNDRInstruction::FundJob { amount } => {
            assert(b.subrange(1, 9) =~= spec_u64_to_le_bytes(amount));
        },
        RNDRInstruction::DisburseFunds { amount } => {
            assert(b.subrange(1, 9) =~= spec_u64_to_le_bytes(amount));
        },
    }
}

/// One account reference in a call descriptor: an address, whether the host
/// must check its signature, and whether the call may write to it.
pub struct AccountMeta {
    /// Address of the account.
    pub pubkey: Pubkey,
    /// True iff the host must confirm this account signed.
    pub is_signer: bool,
    /// True iff the call may mutate this account.
    pub is_writable: bool,
}

/// Mathematical image of an [`AccountMeta`].
pub struct AccountMetaView {
    pub pubkey: Seq<u8>,
    pub is_signer: bool,
    pub is_writable: bool,
}

impl View for AccountMeta {
    type V = AccountMetaView;

    open spec fn view(&self) -> AccountMetaView {
        AccountMetaView {
            pubkey: self.pubkey@,
            is_signer: self.is_signer,
            is_writable: self.is_writable,
        }
    }
}

impl AccountMeta {
    /// A writable account reference.
    pub fn new(pubkey: Pubkey, is_signer: bool) -> (r: AccountMeta)
        ensures
            r@ == (AccountMetaView { pubkey: pubkey@, is_signer, is_writable: true }),
    {
        AccountMeta { pubkey, is_signer, is_writable: true }
    }

    /// A read-only account reference.
    pub fn new_readonly(pubkey: Pubkey, is_signer: bool) -> (r: AccountMeta)
        ensures
            r@ == (AccountMetaView { pubkey: pubkey@, is_signer, is_writable: false }),
    {
        AccountMeta { pubkey, is_signer, is_writable: false }
    }
}

/// A full call descriptor a client hands to the host: the program to call,
/// the ordered account references, and the packed instruction buffer.
pub struct Instruction {
    /// The program that processes the call.
    pub program_id: Pubkey,
    /// The ordered account references.
    pub accounts: Vec<AccountMeta>,
    /// The packed instruction buffer.
    pub data: Vec<u8>,
}

/// Mathematical image of an [`Instruction`].
pub struct InstructionView {
    pub program_id: Seq<u8>,
    pub accounts: Seq<AccountMetaView>,
    pub data: Seq<u8>,
}

impl View for Instruction {
    type V = InstructionView;

    open spec fn view(&self) -> InstructionView {
        InstructionView {
            program_id: self.program_id@,
            accounts: self.accounts@.map_values(|a: AccountMeta| a@),
            data: self.data@,
        }
    }
}

/// Creates an `InitEscrow` call descriptor, deriving the escrow address for
/// the mint under the SPL token program and the escrow's associated token
/// account; `None` only when one of the two derivations has no address.
pub fn init_escrow(program_id: Pubkey, owner: Pubkey, token_mint: Pubkey) -> (r: Option<
    Instruction>)
    ensures
        r is None <==> spec_escrow_pda(token_mint@, spec_spl_token_id(), program_id@) is None
            || (spec_escrow_pda(token_mint@, spec_spl_token_id(), program_id@) matches Some(p)
                && ata_of(p.0, token_mint@) is None),
        r matches Some(ix) ==> {
            &&& spec_escrow_pda(token_mint@, spec_spl_token_id(), program_id@) matches Some(p)
            &&& ata_of(p.0, token_mint@) matches Some(token_account)
            &&& ix@.program_id == program_id@
            &&& ix@.data == spec_pack_instruction(RNDRInstruction::InitEscrow { owner })
            &&& ix@.accounts.len() == 5
            &&& ix@.accounts[0] == (AccountMetaView {
                pubkey: p.0,
                is_signer: false,
                is_writable: true,
            })
            &&& ix@.accounts[1] == (AccountMetaView {
                pubkey: token_account,
                is_signer: false,
                is_writable: true,
            })
            &&& ix@.accounts[2] == (AccountMetaView {
                pubkey: token_mint@,
                is_signer: false,
                is_writable: false,
            })
            &&& ix@.accounts[3] == (AccountMetaView {
                pubkey: spec_rent_sysvar_id(),
                is_signer: false,
                is_writable: false,
            })
            &&& ix@.accounts[4] == (AccountMetaView {
                pubkey: spec_spl_token_id(),
                is_signer: false,
                is_writable: false,
            })
        },
{
    let token_program = spl_token_program_id();
    let (escrow_address, _bump_seed) = match escrow_pda(&token_mint, &token_program, &program_id) {
        Some(p) => p,
        None => {
            return None;
        },
    };
    let token_account = match derive_associated_token_address(&escrow_address, &token_mint) {
        Some(k) => k,
        None => {
            return None;
        },
    };
    let mut accounts: Vec<AccountMeta> = Vec::new();
    accounts.push(AccountMeta::new(escrow_address, false));
    accounts.push(AccountMeta::new(token_account, false));
    accounts.push(AccountMeta::new_readonly(token_mint, false));
    accounts.push(AccountMeta::new_readonly(rent_sysvar_id(), false));
    accounts.push(AccountMeta::new_readonly(token_program, false));
    let data = RNDRInstruction::InitEscrow { owner }.pack();
    Some(Instruction { program_id, accounts, data })
}

/// Creates a `SetEscrowOwner` call descriptor.
pub fn set_escrow_owner(program_id: Pubkey, escrow: Pubkey, current_owner: Pubkey,
    new_owner: Pubkey) -> (r: Instruction)
    ensures
        r@.program_id == program_id@,
        r@.data == spec_pack_instruction(RNDRInstruction::SetEscrowOwner { new_owner }),
        r@.accounts.len() == 2,
        r@.accounts[0] == (AccountMetaView { pubkey: escrow@, is_signer: false, is_writable: true }),
        r@.accounts[1] == (AccountMetaView {
            pubkey: current_owner@,
            is_signer: true,
            is_writable: false,
        }),
{
    let mut accounts: Vec<AccountMeta> = Vec::new();
    accounts.push(AccountMeta::new(escrow, false));
    accounts.push(AccountMeta::new_readonly(current_owner, true));
    let data = RNDRInstruction::SetEscrowOwner { new_owner }.pack();
    Instruction { program_id, accounts, data }
}

/// Creates a `FundJob` call descriptor, deriving the escrow address for the
/// mint under the SPL token program, the escrow's associated token account
/// as destination, and the job address for the depositor authority; `None`
/// only when one of the three derivations has no address.
pub fn fund_job(program_id: Pubkey, amount: u64, source_token_account: Pubkey, token_mint: Pubkey,
    authority: Pubkey) -> (r: Option<Instruction>)
    ensures
        r matches Some(ix) ==> {
            &&& spec_escrow_pda(token_mint@, spec_spl_token_id(), program_id@) matches Some(p)
            &&& ata_of(p.0, token_mint@) matches Some(token_account)
            &&& spec_job_pda(p.0, authority@, program_id@) matches Some(j)
            &&& ix@.program_id == program_id@
            &&& ix@.data == spec_pack_instruction(RNDRInstruction::FundJob { amount })
            &&& ix@.accounts.len() == 8
            &&& ix@.accounts[0] == (AccountMetaView {
                pubkey: source_token_account@,
                is_signer: false,
                is_writable: true,
            })
            &&& ix@.accounts[1] == (AccountMetaView {
                pubkey: token_account,
                is_signer: false,
                is_writable: true,
            })
            &&& ix@.accounts[2] == (AccountMetaView {
                pubkey: p.0,
                is_signer: false,
                is_writable: true,
            })
            &&& ix@.accounts[3] == (AccountMetaView {
                pubkey: j.0,
                is_signer: false,
                is_writable: true,
            })
            &&& ix@.accounts[4] == (AccountMetaView {
                pubkey: authority@,
                is_signer: true,
                is_writable: false,
            })
            &&& ix@.accounts[5] == (AccountMetaView {
                pubkey: token_mint@,
                is_signer: false,
                is_writable: false,
            })
            &&& ix@.accounts[6] == (AccountMetaView {
                pubkey: spec_rent_sysvar_id(),
                is_signer: false,
                is_writable: false,
            })
            &&& ix@.accounts[7] == (AccountMetaView {
                pubkey: spec_spl_token_id(),
                is_signer: false,
                is_writable: false,
            })
        },
        r is None <==> spec_escrow_pda(token_mint@, spec_spl_token_id(), program_id@) is None
            || (spec_escrow_pda(token_mint@, spec_spl_token_id(), program_id@) matches Some(p)
                && (ata_of(p.0, token_mint@) is None
                    || spec_job_pda(p.0, authority@, program_id@) is None)),
{
    let token_program = spl_token_program_id();
    let (escrow_address, _bump_seed) = match escrow_pda(&token_mint, &token_program, &program_id) {
        Some(p) => p,
        None => {
            return None;
        },
    };
    let token_account = match derive_associated_token_address(&escrow_address, &token_mint) {
        Some(k) => k,
        None => {
            return None;
        },
    };
    let (job_address, _job_bump) = match job_pda(&escrow_address, &authority, &program_id) {
        Some(j) => j,
        None => {
            return None;
        },
    };
    let mut accounts: Vec<AccountMeta> = Vec::new();
    accounts.push(AccountMeta::new(source_token_account, false));
    accounts.push(AccountMeta::new(token_account, false));
    accounts.push(AccountMeta::new(escrow_address, false));
    accounts.push(AccountMeta::new(job_address, false));
    accounts.push(AccountMeta::new_readonly(authority, true));
    accounts.push(AccountMeta::new_readonly(token_mint, false));
    accounts.push(AccountMeta::new_readonly(rent_sysvar_id(), false));
    accounts.push(AccountMeta::new_readonly(token_program, false));
    let data = RNDRInstruction::FundJob { amount }.pack();
    Some(Instruction { program_id, accounts, data })
}

/// Creates a `DisburseFunds` call descriptor, deriving the escrow address
/// for the mint under the SPL token program and the escrow's associated
/// token account as source; `None` only when one of the two derivations has
/// no address.
pub fn disburse_funds(program_id: Pubkey, amount: u64, token_mint: Pubkey,
    destination_token_account: Pubkey, job: Pubkey, escrow_owner: Pubkey) -> (r: Option<
    Instruction>)
    ensures
        r matches Some(ix) ==> {
            &&& spec_escrow_pda(token_mint@, spec_spl_token_id(), program_id@) matches Some(p)
            &&& ata_of(p.0, token_mint@) matches Some(token_account)
            &&& ix@.program_id == program_id@
            &&& ix@.data == spec_pack_instruction(RNDRInstruction::DisburseFunds { amount })
            &&& ix@.accounts.len() == 7
            &&& ix@.accounts[0] == (AccountMetaView {
                pubkey: token_account,
                is_signer: false,
                is_writable: true,
            })
            &&& ix@.accounts[1] == (AccountMetaView {
                pubkey: destination_token_account@,
                is_signer: false,
                is_writable: true,
            })
            &&& ix@.accounts[2] == (AccountMetaView {
                pubkey: p.0,
                is_signer: false,
                is_writable: true,
            })
            &&& ix@.accounts[3] == (AccountMetaView {
                pubkey: job@,
                is_signer: false,
                is_writable: true,
            })
            &&& ix@.accounts[4] == (AccountMetaView {
                pubkey: escrow_owner@,
                is_signer: true,
                is_writable: false,
            })
            &&& ix@.accounts[5] == (AccountMetaView {
                pubkey: token_mint@,
                is_signer: false,
                is_writable: false,
            })
            &&& ix@.accounts[6] == (AccountMetaView {
                pubkey: spec_spl_token_id(),
                is_signer: false,
                is_writable: false,
            })
        },
        r is None <==> spec_escrow_pda(token_mint@, spec_spl_token_id(), program_id@) is None
            || (spec_escrow_pda(token_mint@, spec_spl_token_id(), program_id@) matches Some(p)
                && ata_of(p.0, token_mint@) is None),
{
    let token_program = spl_token_program_id();
    let (escrow_address, _bump_seed) = match escrow_pda(&token_mint, &token_program, &program_id) {
        Some(p) => p,
        None => {
            return None;
        },
    };
    let token_account = match derive_associated_token_address(&escrow_address, &token_mint) {
        Some(k) => k,
        None => {
            return None;
        },
    };
    let mut accounts: Vec<AccountMeta> = Vec::new();
    accounts.push(AccountMeta::new(token_account, false));
    accounts.push(AccountMeta::new(destination_token_account, false));
    accounts.push(AccountMeta::new(escrow_address, false));
    accounts.push(AccountMeta::new(job, false));
    accounts.push(AccountMeta::new_readonly(escrow_owner, true));
    accounts.push(AccountMeta::new_readonly(token_mint, false));
    accounts.push(AccountMeta::new_readonly(token_program, false));
    let data = RNDRInstruction::DisburseFunds { amount }.pack();
    Some(Instruction { program_id, accounts, data })
}

} // verus!
