use solana_helpers::account::{Account, AccountMeta, Address};
use solana_helpers::errors::{ArithmeticError, Errors};
use solana_helpers::helpers::closers::Closers;

fn account(tag: u8, lamports: u64, data: Vec<u8>) -> Account {
    Account {
        key: Address::new([tag; 32]),
        lamports,
        data,
        owner: Address::new([7; 32]),
        is_signer: false,
        is_writable: true,
    }
}

#[test]
fn close_pda_moves_the_balance_and_zeroes_the_storage() {
    let mut from = account(1, 1_000, vec![5, 6, 7, 8]);
    let mut to = account(2, 11, vec![9]);
    assert_eq!(Closers::close_pda(&mut from, &mut to), Ok(()));
    assert_eq!(from, account(1, 0, vec![0, 0, 0, 0]));
    assert_eq!(to, account(2, 1_011, vec![9]));
}

#[test]
fn close_pda_of_an_empty_account() {
    let mut from = account(1, 0, vec![]);
    let mut to = account(2, u64::MAX, vec![]);
    assert_eq!(Closers::close_pda(&mut from, &mut to), Ok(()));
    assert_eq!(from, account(1, 0, vec![]));
    assert_eq!(to, account(2, u64::MAX, vec![]));
}

#[test]
fn close_pda_that_overflows_changes_nothing() {
    let mut from = account(1, 2, vec![5, 6]);
    let mut to = account(2, u64::MAX - 1, vec![9]);
    assert_eq!(
        Closers::close_pda(&mut from, &mut to),
        Err(Errors::Arithmetic(ArithmeticError::Overflow))
    );
    assert_eq!(from, account(1, 2, vec![5, 6]));
    assert_eq!(to, account(2, u64::MAX - 1, vec![9]));
}

#[test]
fn close_account_zeroes_the_storage_and_plans_the_transfer() {
    let mut from = account(1, 513, vec![1, 2, 3]);
    let to = Address::new([2; 32]);
    let system_program = Address::new([0; 32]);
    let plan = Closers::close_account(&mut from, &to, &system_program);
    assert_eq!(from, account(1, 513, vec![0, 0, 0]));
    assert_eq!(plan.instruction.program_id, Address::new([0; 32]));
    assert_eq!(
        plan.instruction.accounts,
        vec![AccountMeta::new([1; 32], true, true), AccountMeta::new([2; 32], false, true)]
    );
    assert_eq!(plan.instruction.data, vec![2, 0, 0, 0, 1, 2, 0, 0, 0, 0, 0, 0]);
    assert_eq!(plan.accounts, vec![from.key, to, system_program]);
    assert!(plan.signers.is_empty());
}

#[test]
fn finish_close_account_assigns_the_account_to_the_system_program() {
    let mut from = account(1, 0, vec![0, 0]);
    let system_program = Address::new([0; 32]);
    assert_eq!(Closers::finish_close_account(&mut from, &system_program, Ok(())), Ok(()));
    let mut expected = account(1, 0, vec![0, 0]);
    expected.owner = Address::new([0; 32]);
    assert_eq!(from, expected);
}

#[test]
fn finish_close_account_hands_a_failure_on() {
    let mut from = account(1, 5, vec![0, 0]);
    let system_program = Address::new([0; 32]);
    let failure = Err(Errors::ProgramError("refused".to_string()));
    assert_eq!(
        Closers::finish_close_account(&mut from, &system_program, failure.clone()),
        failure
    );
    assert_eq!(from, account(1, 5, vec![0, 0]));
}

#[test]
fn close_token_account_plans_the_closing_by_the_token_program() {
    let seeds: &[&[&[u8]]] = &[&[b"authority", &[255]]];
    let plan = Closers::close_token_account(
        &Address::new([1; 32]),
        &Address::new([2; 32]),
        &Address::new([3; 32]),
        seeds,
    )
    .unwrap();
    assert_eq!(plan.instruction.program_id, Address::new(spl_token::id().to_bytes()));
    assert_eq!(
        plan.instruction.accounts,
        vec![
            AccountMeta::new([1; 32], false, true),
            AccountMeta::new([2; 32], false, true),
            AccountMeta::new([3; 32], true, false),
        ]
    );
    assert_eq!(plan.instruction.data, vec![9]);
    assert_eq!(
        plan.accounts,
        vec![Address::new([1; 32]), Address::new([2; 32]), Address::new([3; 32])]
    );
    assert_eq!(plan.signers, vec![vec![b"authority".to_vec(), vec![255]]]);
}

#[test]
fn close_token_account_is_addressed_to_the_token_program_by_its_bytes() {
    let plan = Closers::close_token_account(
        &Address::new([1; 32]),
        &Address::new([2; 32]),
        &Address::new([3; 32]),
        &[],
    )
    .unwrap();
    assert_eq!(
        plan.instruction.program_id.bytes,
        [
            6, 221, 246, 225, 215, 101, 161, 147, 217, 203, 225, 70, 206, 235, 121, 172, 28, 180,
            133, 237, 95, 91, 55, 145, 58, 140, 245, 133, 126, 255, 0, 169,
        ]
    );
    assert!(plan.signers.is_empty());
}
