use solana_helpers::errors::{ArithmeticError, Errors};
use solana_program::program_error::ProgramError;

#[test]
fn a_program_error_keeps_its_text() {
    let error = Errors::from(ProgramError::InvalidArgument);
    assert_eq!(error, Errors::ProgramError(ProgramError::InvalidArgument.to_string()));
    let custom = Errors::from(ProgramError::Custom(42));
    assert_eq!(custom, Errors::ProgramError(ProgramError::Custom(42).to_string()));
    assert_ne!(error, custom);
}

#[test]
fn a_failed_program_result_gives_its_error() {
    let failed: Result<(), ProgramError> = Err(ProgramError::IncorrectProgramId);
    assert_eq!(
        Errors::from(failed),
        Errors::ProgramError(ProgramError::IncorrectProgramId.to_string())
    );
}

#[test]
fn a_successful_program_result_has_no_error_to_give() {
    let fine: Result<(), ProgramError> = Ok(());
    assert_eq!(Errors::from(fine), Errors::CantConvertProgramResult);
}

#[test]
fn an_arithmetic_error_is_wrapped() {
    assert_eq!(
        Errors::from(ArithmeticError::Underflow),
        Errors::Arithmetic(ArithmeticError::Underflow)
    );
}

#[test]
fn messages_name_the_error() {
    assert_eq!(
        Errors::ProgramError("boom".to_string()).message(),
        "Program Error: boom"
    );
    assert_eq!(Errors::Arithmetic(ArithmeticError::Overflow).message(), "Numerical Overflow");
    assert_eq!(Errors::Arithmetic(ArithmeticError::Underflow).message(), "Numerical Underflow");
    assert_eq!(Errors::OwnerMismatch.message(), "Owner Mismatch");
    assert_eq!(Errors::WrongPdaAddress.message(), "Wrong Pda Address");
    assert_eq!(Errors::CantConvertProgramResult.message(), "Can't convert ProgramResult");
}

#[test]
fn codes_number_the_kinds() {
    assert_eq!(Errors::Arithmetic(ArithmeticError::Overflow).code(), 0);
    assert_eq!(Errors::Arithmetic(ArithmeticError::Underflow).code(), 0);
    assert_eq!(Errors::ProgramError(String::new()).code(), 1);
    assert_eq!(Errors::OwnerMismatch.code(), 2);
    assert_eq!(Errors::WrongPdaAddress.code(), 3);
    assert_eq!(Errors::CantConvertProgramResult.code(), 4);
}
