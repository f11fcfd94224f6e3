//! Error types

use vstd::prelude::*;

verus! {

/// Errors that may be returned by the program.
#[derive(Clone, Copy, Debug, PartialEq, Eq, Structural)]
pub enum RNDRError {
    /// The instruction buffer could not be decoded.
    InstructionUnpackError,
    /// A validation failed: ownership, authority, signer or rent status.
    UnspecifiedError,
    /// A checked addition or subtraction left the unsigned 64-bit range.
    MathError,
}

/// The single flat error code every operation reports to the caller.
#[derive(Clone, Copy, Debug, PartialEq, Eq, Structural)]
pub enum ProgramError {
    /// A program-specific error, carrying the code of a [`RNDRError`].
    Custom(u32),
    /// A claimed derived address did not re-derive from its seeds.
    InvalidSeeds,
    /// Record bytes do not hold a record of the expected kind and size.
    InvalidAccountData,
    /// Fewer accounts were supplied than the operation needs.
    NotEnoughAccountKeys,
}

impl RNDRError {
    /// Numeric code of this error.
    pub open spec fn spec_code(self) -> u32 {
        match self {
            RNDRError::InstructionUnpackError => 0,
            RNDRError::UnspecifiedError => 1,
            RNDRError::MathError => 2,
        }
    }

    /// Numeric code of this error.
    pub fn code(self) -> (r: u32)
        ensures
            r == self.spec_code(),
    {
        match self {
            RNDRError::InstructionUnpackError => 0,
            RNDRError::UnspecifiedError => 1,
            RNDRError::MathError => 2,
        }
    }
}

/// The program error that reports the given program-specific error.
pub open spec fn spec_rndr_error(e: RNDRError) -> ProgramError {
    ProgramError::Custom(e.spec_code())
}

impl From<RNDRError> for ProgramError {
    fn from(e: RNDRError) -> (r: ProgramError) {
        ProgramError::Custom(e.code())
    }
}

impl vstd::std_specs::convert::FromSpecImpl<RNDRError> for ProgramError {
    open spec fn obeys_from_spec() -> bool {
        true
    }

    open spec fn from_spec(e: RNDRError) -> ProgramError {
        spec_rndr_error(e)
    }
}

} // verus!
