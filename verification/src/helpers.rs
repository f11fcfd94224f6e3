//! The requests an operation hands back to the host: external token calls
//! to perform, in order, and record writes to persist once every call has
//! succeeded. The host performs a call atomically and aborts the whole
//! operation on the first failure, so balances and transfers either all
//! happen or none do.

use vstd::prelude::*;
use crate::error::{spec_rndr_error, ProgramError, RNDRError};
use crate::pubkey::Pubkey;

verus! {

/// A request to initialize a token-holding account under a controlling
/// authority, issued while an escrow is created.
pub struct TokenInitAccountParams {
    /// The token account to initialize.
    pub account: Pubkey,
    /// The mint the account will hold balances of.
    pub mint: Pubkey,
    /// The authority that will control the account.
    pub owner: Pubkey,
    /// The rent sysvar account.
    pub rent: Pubkey,
    /// The token program that owns the account.
    pub token_program: Pubkey,
}

/// Mathematical image of a [`TokenInitAccountParams`].
pub struct TokenInitAccountParamsView {
    pub account: Seq<u8>,
    pub mint: Seq<u8>,
    pub owner: Seq<u8>,
    pub rent: Seq<u8>,
    pub token_program: Seq<u8>,
}

impl View for TokenInitAccountParams {
    type V = TokenInitAccountParamsView;

    open spec fn view(&self) -> TokenInitAccountParamsView {
        TokenInitAccountParamsView {
            account: self.account@,
            mint: self.mint@,
            owner: self.owner@,
            rent: self.rent@,
            token_program: self.token_program@,
        }
    }
}

/// A request to move a token balance from one account to another under an
/// authority, with the seed list the program signs with when the authority
/// is its own derived address, and empty seeds when an external signer
/// authorized the call.
pub struct TokenTransferParams {
    /// The account the balance leaves.
    pub source: Pubkey,
    /// The account the balance arrives at.
    pub destination: Pubkey,
    /// How much to move.
    pub amount: u64,
    /// The authority that authorizes the movement.
    pub authority: Pubkey,
    /// Seeds proving the program's own authority, empty for an external one.
    pub authority_signer_seeds: Vec<Vec<u8>>,
    /// The token program to perform the movement.
    pub token_program: Pubkey,
}

/// Mathematical image of a [`TokenTransferParams`].
pub struct TokenTransferParamsView {
    pub source: Seq<u8>,
    pub destination: Seq<u8>,
    pub amount: u64,
    pub authority: Seq<u8>,
    pub authority_signer_seeds: Seq<Seq<u8>>,
    pub token_program: Seq<u8>,
}

impl View for TokenTransferParams {
    type V = TokenTransferParamsView;

    open spec fn view(&self) -> TokenTransferParamsView {
        TokenTransferParamsView {
            source: self.source@,
            destination: self.destination@,
            amount: self.amount,
            authority: self.authority@,
            authority_signer_seeds: self.authority_signer_seeds.deep_view(),
            token_program: self.token_program@,
        }
    }
}

/// One external call an operation asks the host to perform.
pub enum ExternalCall {
    /// Initialize a token-holding account.
    InitTokenAccount(TokenInitAccountParams),
    /// Move a token balance.
    Transfer(TokenTransferParams),
}

/// Mathematical image of an [`ExternalCall`].
pub enum ExternalCallView {
    InitTokenAccount(TokenInitAccountParamsView),
    Transfer(TokenTransferParamsView),
}

impl View for ExternalCall {
    type V = ExternalCallView;

    open spec fn view(&self) -> ExternalCallView {
        match self {
            ExternalCall::InitTokenAccount(p) => ExternalCallView::InitTokenAccount(p@),
            ExternalCall::Transfer(p) => ExternalCallView::Transfer(p@),
        }
    }
}

/// One record write to persist: the full new contents of an account's data.
pub struct RecordWrite {
    /// The account whose data is replaced.
    pub account: Pubkey,
    /// The bytes to store.
    pub data: Vec<u8>,
}

/// Mathematical image of a [`RecordWrite`].
pub struct RecordWriteView {
    pub account: Seq<u8>,
    pub data: Seq<u8>,
}

impl View for RecordWrite {
    type V = RecordWriteView;

    open spec fn view(&self) -> RecordWriteView {
        RecordWriteView { account: self.account@, data: self.data@ }
    }
}

/// Everything one successful operation asks of the host: the external calls
/// to perform in order, then the record writes to persist.
pub struct Outcome {
    /// External calls, performed first, in order, each atomic.
    pub calls: Vec<ExternalCall>,
    /// Record writes, persisted only once every call succeeded.
    pub writes: Vec<RecordWrite>,
}

/// Mathematical image of an [`Outcome`].
pub struct OutcomeView {
    pub calls: Seq<ExternalCallView>,
    pub writes: Seq<RecordWriteView>,
}

impl View for Outcome {
    type V = OutcomeView;

    open spec fn view(&self) -> OutcomeView {
        OutcomeView {
            calls: self.calls@.map_values(|c: ExternalCall| c@),
            writes: self.writes@.map_values(|w: RecordWrite| w@),
        }
    }
}

/// Rejects a record slot that was already written to: accepts exactly a
/// record-sized buffer still holding the uninitialized tag, rejects any
/// other length as malformed and any other tag as already initialized.
pub fn assert_uninitialized(data: &Vec<u8>) -> (r: Result<(), ProgramError>)
    ensures
        r is Ok <==> data@.len() == 41 && data@[0] == 0,
        data@.len() != 41 ==> r == Err::<(), ProgramError>(ProgramError::InvalidAccountData),
        data@.len() == 41 && data@[0] != 0 ==> r == Err::<(), ProgramError>(
            spec_rndr_error(RNDRError::UnspecifiedError)),
{
    if data.len() != 41 {
        Err(ProgramError::InvalidAccountData)
    } else if data[0] != 0 {
        Err(ProgramError::from(RNDRError::UnspecifiedError))
    } else {
        Ok(())
    }
}

/// Rejects an account whose balance is under the host's minimum self-funding
/// balance for a record-sized slot; the minimum itself is computed by the
/// host from its rent parameters and handed in as a plain number.
pub fn assert_rent_exempt(rent_minimum_balance: u64, lamports: u64) -> (r: Result<
    (), ProgramError>)
    ensures
        r is Ok <==> lamports >= rent_minimum_balance,
        r matches Err(e) ==> e == spec_rndr_error(RNDRError::UnspecifiedError),
{
    if lamports < rent_minimum_balance {
        Err(ProgramError::from(RNDRError::UnspecifiedError))
    } else {
        Ok(())
    }
}

} // verus!
