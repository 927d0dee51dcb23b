use crate::trusted::solana::program_error_text;
use solana_program::program_error::ProgramError;
use vstd::prelude::*;
use vstd::std_specs::convert::FromSpecImpl;
use vstd::string::StringExecFns;

verus! {

/// A balance change that does not fit the balance.
#[derive(Debug, Clone, Copy, PartialEq, Eq, Structural)]
pub enum ArithmeticError {
    /// The new balance would exceed the largest representable one.
    Overflow,
    /// The new balance would be negative.
    Underflow,
}

/// Why a byte buffer does not hold a record.
#[derive(Debug, Clone, Copy, PartialEq, Eq, Structural)]
pub enum DecodeError {
    /// The buffer is shorter than a record.
    TooShort,
    /// The bytes of the UUID are not valid UTF-8.
    InvalidUtf8,
}

/// Why a byte buffer does not hold an instruction.
#[derive(Debug, Clone, Copy, PartialEq, Eq, Structural)]
pub enum DispatchError {
    /// The buffer is empty, so it has no tag byte.
    Empty,
    /// The tag byte names no instruction.
    UnknownInstruction(u8),
    /// The bytes after the tag do not hold the instruction's fields.
    BadPayload,
}

/// Why the accounts of an instruction are refused.
#[derive(Debug, Clone, Copy, PartialEq, Eq, Structural)]
pub enum ValidationError {
    /// The paying account did not sign or is not writable.
    SignerRequired,
    /// A program or sysvar account is not the well-known one.
    WrongProgramOwner,
    /// The target account is not at the address derived from the UUID.
    WrongDerivedAddress,
    /// The bump seed of the instruction is not the one the derivation found.
    BumpMismatch,
}

/// Custom error types for the Solana helpers library.
#[derive(Debug, Clone, PartialEq, Eq)]
pub enum Errors {
    /// An outside call failed; the text is the failure as that call worded it.
    ProgramError(String),
    /// A balance change overflowed or underflowed.
    Arithmetic(ArithmeticError),
    /// Indicates an owner mismatch validation error.
    OwnerMismatch,
    /// Indicates a PDA address doesn't match the expected derived address.
    WrongPdaAddress,
    /// A successful program result was handed in where a failure was expected.
    CantConvertProgramResult,
}

impl Errors {
    /// The text that describes the error.
    pub open spec fn message_text(self) -> Seq<char> {
        match self {
            Errors::ProgramError(text) => "Program Error: "@ + text@,
            Errors::Arithmetic(ArithmeticError::Overflow) => "Numerical Overflow"@,
            Errors::Arithmetic(ArithmeticError::Underflow) => "Numerical Underflow"@,
            Errors::OwnerMismatch => "Owner Mismatch"@,
            Errors::WrongPdaAddress => "Wrong Pda Address"@,
            Errors::CantConvertProgramResult => "Can't convert ProgramResult"@,
        }
    }

    /// The number under which a program reports the error as a custom error:
    /// 0 for arithmetic, and one more for each kind after it.
    pub open spec fn code_number(self) -> u32 {
        match self {
            Errors::Arithmetic(_) => 0,
            Errors::ProgramError(_) => 1,
            Errors::OwnerMismatch => 2,
            Errors::WrongPdaAddress => 3,
            Errors::CantConvertProgramResult => 4,
        }
    }

    /// Describes the error in words.
    pub fn message(&self) -> (text: String)
        ensures
            text@ == self.message_text(),
    {
        match self {
            Errors::ProgramError(text) => "Program Error: ".to_owned().concat(text.as_str()),
            Errors::Arithmetic(ArithmeticError::Overflow) => "Numerical Overflow".to_owned(),
            Errors::Arithmetic(ArithmeticError::Underflow) => "Numerical Underflow".to_owned(),
            Errors::OwnerMismatch => "Owner Mismatch".to_owned(),
            Errors::WrongPdaAddress => "Wrong Pda Address".to_owned(),
            Errors::CantConvertProgramResult => "Can't convert ProgramResult".to_owned(),
        }
    }

    /// The custom error number of the error.
    pub fn code(&self) -> (code: u32)
        ensures
            code == self.code_number(),
    {
        match self {
            Errors::Arithmetic(_) => 0,
            Errors::ProgramError(_) => 1,
            Errors::OwnerMismatch => 2,
            Errors::WrongPdaAddress => 3,
            Errors::CantConvertProgramResult => 4,
        }
    }
}

impl From<ArithmeticError> for Errors {
    fn from(value: ArithmeticError) -> (error: Errors) {
        Errors::Arithmetic(value)
    }
}

impl FromSpecImpl<ArithmeticError> for Errors {
    open spec fn obeys_from_spec() -> bool {
        true
    }

    open spec fn from_spec(value: ArithmeticError) -> Errors {
        Errors::Arithmetic(value)
    }
}

impl From<ProgramError> for Errors {
    /// Keeps the text of the program error.
    fn from(value: ProgramError) -> (error: Errors)
        ensures
            error is ProgramError,
    {
        Errors::ProgramError(program_error_text(&value))
    }
}

impl FromSpecImpl<ProgramError> for Errors {
    open spec fn obeys_from_spec() -> bool {
        false
    }

    open spec fn from_spec(value: ProgramError) -> Errors {
        arbitrary()
    }
}

impl From<Result<(), ProgramError>> for Errors {
    /// The error of a failed program result; a successful one has none to give.
    fn from(value: Result<(), ProgramError>) -> (error: Errors)
        ensures
            value is Ok ==> error == Errors::CantConvertProgramResult,
            value is Err ==> error is ProgramError,
    {
        match value {
            Err(err) => Errors::from(err),
            Ok(()) => Errors::CantConvertProgramResult,
        }
    }
}

impl FromSpecImpl<Result<(), ProgramError>> for Errors {
    open spec fn obeys_from_spec() -> bool {
        false
    }

    open spec fn from_spec(value: Result<(), ProgramError>) -> Errors {
        arbitrary()
    }
}

} // verus!
