use vstd::prelude::*;

verus! {

/// Kinds of record this program keeps, told apart by the leading byte of
/// every 41-byte record. Zeroed storage reads as `Uninitialized`.
#[derive(Clone, Copy, Debug, PartialEq, Eq, Structural)]
pub enum AccountType {
    /// Storage that no record was written to yet; its bytes are all zero.
    Uninitialized,
    /// An escrow record.
    EscrowV1,
    /// A job record.
    JobV1,
}

impl AccountType {
    /// The discriminant byte this kind is stored as.
    pub open spec fn spec_to_byte(self) -> u8 {
        match self {
            AccountType::Uninitialized => 0,
            AccountType::EscrowV1 => 1,
            AccountType::JobV1 => 2,
        }
    }

    /// The discriminant byte this kind is stored as.
    pub fn to_byte(self) -> (r: u8)
        ensures
            r == self.spec_to_byte(),
    {
        match self {
            AccountType::Uninitialized => 0,
            AccountType::EscrowV1 => 1,
            AccountType::JobV1 => 2,
        }
    }

    /// The kind a discriminant byte stands for; every unknown byte reads as
    /// `Uninitialized`.
    pub open spec fn spec_from_byte(b: u8) -> AccountType {
        if b == 1 {
            AccountType::EscrowV1
        } else if b == 2 {
            AccountType::JobV1
        } else {
            AccountType::Uninitialized
        }
    }

    /// The kind a discriminant byte stands for; every unknown byte reads as
    /// `Uninitialized`.
    pub fn from_byte(b: u8) -> (r: AccountType)
        ensures
            r == AccountType::spec_from_byte(b),
    {
        if b == 1 {
            AccountType::EscrowV1
        } else if b == 2 {
            AccountType::JobV1
        } else {
            AccountType::Uninitialized
        }
    }
}

impl Default for AccountType {
    fn default() -> (r: Self)
        ensures
            r == AccountType::Uninitialized,
    {
        AccountType::Uninitialized
    }
}

} // verus!
