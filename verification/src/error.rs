//! What can go wrong: the escrow's own failures and the failures that the
//! handler reports to whoever invoked it.

use vstd::prelude::*;
use vstd::std_specs::convert::FromSpecImpl;

verus! {

/// Failures that belong to the escrow itself.
#[derive(Debug, Copy, Clone, PartialEq, Eq, Structural)]
pub enum EscrowError {
    /// The instruction bytes do not spell an instruction.
    InvalidInstruction,
    /// The escrow account holds too little to be exempt from rent.
    NotRentExempt,
    /// The amount offered differs from the amount the record asks for.
    ExpectedAmountMismatch,
    /// An amount left the range of the 64-bit numbers.
    AmountOverflow,
}

impl EscrowError {
    /// The number under which the failure travels: its position in the
    /// declaration, counted from zero.
    pub open spec fn spec_code(self) -> u32 {
        match self {
            EscrowError::InvalidInstruction => 0,
            EscrowError::NotRentExempt => 1,
            EscrowError::ExpectedAmountMismatch => 2,
            EscrowError::AmountOverflow => 3,
        }
    }

    /// The number under which the failure travels.
    #[verifier::when_used_as_spec(spec_code)]
    pub fn code(self) -> (code: u32)
        ensures
            code == self.spec_code(),
    {
        match self {
            EscrowError::InvalidInstruction => 0,
            EscrowError::NotRentExempt => 1,
            EscrowError::ExpectedAmountMismatch => 2,
            EscrowError::AmountOverflow => 3,
        }
    }

    /// The failure in words.
    pub fn message(&self) -> (text: &'static str)
        ensures
            text@ == match *self {
                EscrowError::InvalidInstruction => "Invalid Instruction"@,
                EscrowError::NotRentExempt => "Not Rent Exempt"@,
                EscrowError::ExpectedAmountMismatch => "Expected Amount Mismatch"@,
                EscrowError::AmountOverflow => "Amount Overflow"@,
            },
    {
        match self {
            EscrowError::InvalidInstruction => "Invalid Instruction",
            EscrowError::NotRentExempt => "Not Rent Exempt",
            EscrowError::ExpectedAmountMismatch => "Expected Amount Mismatch",
            EscrowError::AmountOverflow => "Amount Overflow",
        }
    }
}

/// Distinct escrow failures travel under distinct numbers.
pub proof fn lemma_code_injective(a: EscrowError, b: EscrowError)
    requires
        a.spec_code() == b.spec_code(),
    ensures
        a == b,
{
}

/// Failures that the handler reports. Every one of them ends the invocation.
#[derive(Debug, Copy, Clone, PartialEq, Eq, Structural)]
pub enum ProgramError {
    /// A failure of the program's own, by its number.
    Custom(u32),
    /// An argument of the instruction was not what it has to be.
    InvalidArgument,
    /// The data of an account does not hold what it has to hold.
    InvalidAccountData,
    /// An account names another program than the expected one.
    IncorrectProgramId,
    /// An account that has to sign did not.
    MissingRequiredSignature,
    /// The account to initialize is in use already.
    AccountAlreadyInitialized,
    /// The instruction came with fewer accounts than it names.
    NotEnoughAccountKeys,
    /// The seeds lead to no address off the curve.
    InvalidSeeds,
    /// A computation left the range of the 64-bit numbers.
    ArithmeticOverflow,
}

impl From<EscrowError> for ProgramError {
    fn from(e: EscrowError) -> (r: ProgramError) {
        ProgramError::Custom(e.code())
    }
}

impl FromSpecImpl<EscrowError> for ProgramError {
    open spec fn obeys_from_spec() -> bool {
        true
    }

    open spec fn from_spec(e: EscrowError) -> ProgramError {
        ProgramError::Custom(e.spec_code())
    }
}

} // verus!
