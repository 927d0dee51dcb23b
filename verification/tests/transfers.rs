use solana_helpers::account::{Account, AccountMeta, Address};
use solana_helpers::errors::{ArithmeticError, Errors};
use solana_helpers::helpers::transfers::Transfers;
use solana_program::program_error::ProgramError;

fn wallet(tag: u8, lamports: u64) -> Account {
    Account {
        key: Address::new([tag; 32]),
        lamports,
        data: vec![tag; 3],
        owner: Address::new([0; 32]),
        is_signer: false,
        is_writable: true,
    }
}

fn key(tag: u8) -> Address {
    Address::new([tag; 32])
}

fn token_program() -> Address {
    Address::new(spl_token::id().to_bytes())
}

#[test]
fn transfer_sol_from_pda_moves_the_amount() {
    let mut from = wallet(1, 100);
    let mut to = wallet(2, 5);
    assert_eq!(Transfers::transfer_sol_from_pda(&mut from, &mut to, 30), Ok(()));
    assert_eq!(from, wallet(1, 70));
    assert_eq!(to, wallet(2, 35));
}

#[test]
fn transfer_sol_from_pda_of_the_whole_balance() {
    let mut from = wallet(1, 100);
    let mut to = wallet(2, u64::MAX - 100);
    assert_eq!(Transfers::transfer_sol_from_pda(&mut from, &mut to, 100), Ok(()));
    assert_eq!(from.lamports, 0);
    assert_eq!(to.lamports, u64::MAX);
}

#[test]
fn transfer_sol_from_pda_of_more_than_the_balance_underflows() {
    let mut from = wallet(1, 29);
    let mut to = wallet(2, 5);
    assert_eq!(
        Transfers::transfer_sol_from_pda(&mut from, &mut to, 30),
        Err(Errors::Arithmetic(ArithmeticError::Underflow))
    );
    assert_eq!(from, wallet(1, 29));
    assert_eq!(to, wallet(2, 5));
}

#[test]
fn transfer_sol_from_pda_into_a_full_account_overflows() {
    let mut from = wallet(1, 100);
    let mut to = wallet(2, u64::MAX - 29);
    assert_eq!(
        Transfers::transfer_sol_from_pda(&mut from, &mut to, 30),
        Err(Errors::Arithmetic(ArithmeticError::Overflow))
    );
    assert_eq!(from, wallet(1, 100));
    assert_eq!(to, wallet(2, u64::MAX - 29));
}

#[test]
fn transfer_sol_from_pda_judges_the_payer_first() {
    let mut from = wallet(1, 0);
    let mut to = wallet(2, u64::MAX);
    assert_eq!(
        Transfers::transfer_sol_from_pda(&mut from, &mut to, 1),
        Err(Errors::Arithmetic(ArithmeticError::Underflow))
    );
}

#[test]
fn transfer_sol_plans_the_transfer_of_the_system_program() {
    let plan = Transfers::transfer_sol(&key(1), &key(2), &key(0), 1_000_000);
    assert_eq!(plan.instruction.program_id, Address::new([0; 32]));
    assert_eq!(
        plan.instruction.accounts,
        vec![AccountMeta::new([1; 32], true, true), AccountMeta::new([2; 32], false, true)]
    );
    assert_eq!(plan.instruction.data, vec![2, 0, 0, 0, 0x40, 0x42, 0x0f, 0, 0, 0, 0, 0]);
    assert_eq!(
        plan.accounts,
        vec![Address::new([1; 32]), Address::new([2; 32]), Address::new([0; 32])]
    );
    assert!(plan.signers.is_empty());
}

#[test]
fn transfer_token_plans_the_transfer_of_the_token_program() {
    let program = token_program();
    let plan =
        Transfers::transfer_token(&key(1), &key(2), &program, &key(3), 258)
            .unwrap();
    assert_eq!(plan.instruction.program_id, program);
    assert_eq!(
        plan.instruction.accounts,
        vec![
            AccountMeta::new([1; 32], false, true),
            AccountMeta::new([2; 32], false, true),
            AccountMeta::new([3; 32], true, false),
        ]
    );
    assert_eq!(plan.instruction.data, vec![3, 2, 1, 0, 0, 0, 0, 0, 0]);
    assert_eq!(
        plan.accounts,
        vec![Address::new([1; 32]), Address::new([2; 32]), program, Address::new([3; 32])]
    );
    assert!(plan.signers.is_empty());
}

#[test]
fn transfer_token_refuses_another_program() {
    let plan = Transfers::transfer_token(
        &key(1),
        &key(2),
        &key(9),
        &key(3),
        258,
    );
    assert_eq!(
        plan,
        Err(Errors::ProgramError(ProgramError::IncorrectProgramId.to_string()))
    );
}

#[test]
fn transfer_token_from_pda_signs_with_the_seeds() {
    let program = token_program();
    let seeds: &[&[&[u8]]] = &[&[b"vault", &[254]], &[b"other"]];
    let plan = Transfers::transfer_token_from_pda(
        &key(1),
        &key(2),
        &program,
        &key(3),
        u64::MAX,
        seeds,
    )
    .unwrap();
    let unsigned =
        Transfers::transfer_token(&key(1), &key(2), &program, &key(3), u64::MAX)
            .unwrap();
    assert_eq!(plan.instruction, unsigned.instruction);
    assert_eq!(plan.instruction.data, vec![3, 255, 255, 255, 255, 255, 255, 255, 255]);
    assert_eq!(plan.accounts, unsigned.accounts);
    assert_eq!(
        plan.signers,
        vec![vec![b"vault".to_vec(), vec![254]], vec![b"other".to_vec()]]
    );
}

#[test]
fn transfer_token_from_pda_refuses_another_program() {
    let plan = Transfers::transfer_token_from_pda(
        &key(1),
        &key(2),
        &key(9),
        &key(3),
        1,
        &[],
    );
    assert!(matches!(plan, Err(Errors::ProgramError(_))));
}

#[test]
fn transfer_token_knows_the_token_program_by_its_bytes() {
    let program = Address::new([
        6, 221, 246, 225, 215, 101, 161, 147, 217, 203, 225, 70, 206, 235, 121, 172, 28, 180, 133,
        237, 95, 91, 55, 145, 58, 140, 245, 133, 126, 255, 0, 169,
    ]);
    assert!(Transfers::transfer_token(&key(1), &key(2), &program, &key(3), 1).is_ok());
    let mut other = program;
    other.bytes[31] = 170;
    assert!(Transfers::transfer_token(&key(1), &key(2), &other, &key(3), 1).is_err());
}
