use vstd::prelude::*;
use vstd::bytes::{spec_u64_from_le_bytes, spec_u64_to_le_bytes, u64_from_le_bytes, u64_to_le_bytes,
    lemma_auto_spec_u64_to_from_le_bytes};
use vstd::slice::slice_subrange;
use crate::error::ProgramError;
use crate::pubkey::{pubkey_from_slice, push_pubkey, Pubkey};
use crate::state::account_type::AccountType;

verus! {

/// Packed length of an escrow record: one discriminant byte, an 8-byte
/// little-endian amount, and a 32-byte owner address.
pub const ESCROW_LEN: usize = 41;

/// Escrow state: the pooled custodial balance and the single authority that
/// may disburse it.
pub struct Escrow {
    /// Account type, must be `EscrowV1` currently.
    pub account_type: AccountType,
    /// Amount of tokens in escrow.
    pub amount: u64,
    /// Owner authority that can disburse funds.
    pub owner: Pubkey,
}

/// Mathematical image of an [`Escrow`].
pub struct EscrowView {
    pub account_type: AccountType,
    pub amount: u64,
    pub owner: Seq<u8>,
}

impl View for Escrow {
    type V = EscrowView;

    open spec fn view(&self) -> EscrowView {
        EscrowView {
            account_type: self.account_type,
            amount: self.amount,
            owner: self.owner@,
        }
    }
}

/// The 41 bytes an escrow record is persisted as: discriminant, then the
/// amount in little-endian order, then the owner address.
pub open spec fn spec_pack_escrow(e: EscrowView) -> Seq<u8> {
    seq![e.account_type.spec_to_byte()] + spec_u64_to_le_bytes(e.amount) + e.owner
}

/// Whether a byte string decodes as an escrow record: exactly 41 bytes whose
/// discriminant is the escrow tag. Every other discriminant, the
/// uninitialized tag included, is rejected.
pub open spec fn escrow_bytes_wf(b: Seq<u8>) -> bool {
    b.len() == 41 && b[0] == AccountType::EscrowV1.spec_to_byte()
}

/// The escrow record held by 41 well-formed bytes.
pub open spec fn spec_unpack_escrow(b: Seq<u8>) -> EscrowView
    recommends
        escrow_bytes_wf(b),
{
    EscrowView {
        account_type: AccountType::spec_from_byte(b[0]),
        amount: spec_u64_from_le_bytes(b.subrange(1, 9)),
        owner: b.subrange(9, 41),
    }
}

/// Initialization parameters for an escrow.
pub struct InitEscrowParams {
    /// Owner authority that can disburse funds.
    pub owner: Pubkey,
}

impl Escrow {
    /// Create an escrow holding nothing, owned by the given authority.
    pub fn new(params: InitEscrowParams) -> (r: Escrow)
        ensures
            r@ == (EscrowView {
                account_type: AccountType::EscrowV1,
                amount: 0,
                owner: params.owner@,
            }),
    {
        let mut escrow = Escrow {
            account_type: AccountType::default(),
            amount: 0,
            owner: params.owner,
        };
        escrow.init(InitEscrowParams { owner: params.owner });
        escrow
    }

    /// Initialize an escrow: escrow tag, zero balance, the given owner.
    pub fn init(&mut self, params: InitEscrowParams)
        ensures
            final(self)@ == (EscrowView {
                account_type: AccountType::EscrowV1,
                amount: 0,
                owner: params.owner@,
            }),
    {
        self.account_type = AccountType::EscrowV1;
        self.amount = 0;
        self.owner = params.owner;
    }

    /// Whether this record was written to: any discriminant but the
    /// uninitialized tag.
    pub fn is_initialized(&self) -> (r: bool)
        ensures
            r == (self@.account_type != AccountType::Uninitialized),
    {
        !matches!(self.account_type, AccountType::Uninitialized)
    }

    /// Decode an escrow record from its 41 persisted bytes. Rejects any
    /// other length, and any discriminant that is not the escrow tag.
    pub fn unpack(input: &Vec<u8>) -> (r: Result<Escrow, ProgramError>)
        ensures
            r is Ok <==> escrow_bytes_wf(input@),
            r matches Ok(e) ==> e@ == spec_unpack_escrow(input@),
            r matches Err(e) ==> e == ProgramError::InvalidAccountData,
    {
        if input.len() != 41 {
            return Err(ProgramError::InvalidAccountData);
        }
        let tag: u8 = input[0];
        if tag != 1 {
            return Err(ProgramError::InvalidAccountData);
        }
        let amount = u64_from_le_bytes(slice_subrange(input.as_slice(), 1, 9));
        let owner = pubkey_from_slice(input, 9);
        Ok(Escrow { account_type: AccountType::from_byte(tag), amount, owner })
    }

    /// Encode this record as a fresh 41-byte buffer.
    pub fn pack_to_vec(&self) -> (r: Vec<u8>)
        ensures
            r@ == spec_pack_escrow(self@),
    {
        let mut r: Vec<u8> = Vec::new();
        r.push(self.account_type.to_byte());
        let mut le = u64_to_le_bytes(self.amount);
        r.append(&mut le);
        push_pubkey(&mut r, &self.owner);
        assert(r@ =~= spec_pack_escrow(self@));
        r
    }

    /// Encode this record into a 41-byte buffer, replacing its contents.
    /// Rejects a buffer of any other length, leaving it unchanged.
    pub fn pack(&self, output: &mut Vec<u8>) -> (r: Result<(), ProgramError>)
        ensures
            r is Ok <==> old(output)@.len() == 41,
            r is Ok ==> final(output)@ == spec_pack_escrow(self@),
            r is Err ==> *final(output) == *old(output),
            r matches Err(e) ==> e == ProgramError::InvalidAccountData,
    {
        if output.len() != 41 {
            return Err(ProgramError::InvalidAccountData);
        }
        output.clear();
        let mut b = self.pack_to_vec();
        output.append(&mut b);
        Ok(())
    }
}

/// Re-encoding a decoded escrow record gives back the very bytes it was
/// decoded from.
pub proof fn lemma_escrow_bytes_round_trip(b: Seq<u8>)
    requires
        escrow_bytes_wf(b),
    ensures
        spec_pack_escrow(spec_unpack_escrow(b)) == b,
{
    lemma_auto_spec_u64_to_from_le_bytes();
    assert(spec_u64_to_le_bytes(spec_u64_from_le_bytes(b.subrange(1, 9))) == b.subrange(1, 9));
    assert(spec_pack_escrow(spec_unpack_escrow(b)) =~= b);
}

/// A packed escrow record decodes back to the record it was packed from:
/// the escrow tag, the same amount and the same owner.
pub proof fn lemma_escrow_pack_round_trip(e: EscrowView)
    requires
        e.account_type == AccountType::EscrowV1,
        e.owner.len() == 32,
    ensures
        escrow_bytes_wf(spec_pack_escrow(e)),
        spec_unpack_escrow(spec_pack_escrow(e)) == e,
{
    lemma_auto_spec_u64_to_from_le_bytes();
    let b = spec_pack_escrow(e);
    assert(b.subrange(1, 9) =~= spec_u64_to_le_bytes(e.amount));
    assert(b.subrange(9, 41) =~= e.owner);
    assert(spec_unpack_escrow(b) == e);
}

} // verus!
