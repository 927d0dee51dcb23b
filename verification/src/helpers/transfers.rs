use crate::account::{
    owned_signers, readonly, writable, Account, Address, InstructionView, Invocation,
    InvocationView,
};
use crate::errors::{ArithmeticError, Errors};
use crate::trusted::solana::{system_transfer, system_transfer_instruction};
use crate::trusted::token::{token_program_id, token_transfer};
use vstd::bytes::spec_u64_to_le_bytes;
use vstd::prelude::*;

verus! {

/// The balances of payer and payee after `amount` has moved from the first to the
/// second. The payer's balance is checked first.
pub open spec fn balances_after(
    from: u64,
    to: u64,
    amount: u64,
) -> Result<(u64, u64), ArithmeticError> {
    if from < amount {
        Err(ArithmeticError::Underflow)
    } else if to + amount > u64::MAX {
        Err(ArithmeticError::Overflow)
    } else {
        Ok(((from - amount) as u64, (to + amount) as u64))
    }
}

/// The token program's `Transfer` of `amount` from `from` to `to` under the
/// authority of `owner`, who signs.
pub open spec fn token_transfer_instruction(
    from: Address,
    to: Address,
    token_program: Address,
    owner: Address,
    amount: u64,
) -> InstructionView {
    InstructionView {
        program_id: token_program@,
        accounts: seq![writable(from, false), writable(to, false), readonly(owner, true)],
        data: seq![3u8] + spec_u64_to_le_bytes(amount),
    }
}

/// Provides utilities for transferring SOL and tokens.
pub struct Transfers;

impl Transfers {
    /// A transfer that goes through takes from the payer exactly what it gives
    /// to the payee, and leaves neither balance negative.
    pub proof fn lemma_transfer_conserves(from: u64, to: u64, amount: u64)
        requires
            balances_after(from, to, amount) is Ok,
        ensures
            ({
                let (payer, payee) = balances_after(from, to, amount)->Ok_0;
                &&& payer == from - amount
                &&& payee == to + amount
                &&& payer + payee == from + to
            }),
    {
    }

    /// A transfer of more than the payer holds underflows, whatever the payee
    /// holds.
    pub proof fn lemma_transfer_underflows(from: u64, to: u64, amount: u64)
        requires
            from < amount,
        ensures
            balances_after(from, to, amount) == Err::<(u64, u64), ArithmeticError>(
                ArithmeticError::Underflow,
            ),
    {
    }
}

impl Transfers {
    /// Transfers SOL from a PDA account by changing both balances directly.
    ///
    /// Fails, leaving both accounts as they were, where the payer holds less than
    /// `amount` or the payee's balance would overflow.
    pub fn transfer_sol_from_pda(
        from: &mut Account,
        to: &mut Account,
        amount: u64,
    ) -> (done: Result<(), Errors>)
        ensures
            old(from).lamports < amount ==> done == Err::<(), Errors>(
                Errors::Arithmetic(ArithmeticError::Underflow),
            ),
            match balances_after(old(from).lamports, old(to).lamports, amount) {
                Ok((payer, payee)) => {
                    &&& done is Ok
                    &&& *final(from) == (Account { lamports: payer, ..*old(from) })
                    &&& *final(to) == (Account { lamports: payee, ..*old(to) })
                },
                Err(error) => {
                    &&& done == Err::<(), Errors>(Errors::Arithmetic(error))
                    &&& *final(from) == *old(from)
                    &&& *final(to) == *old(to)
                },
            },
    {
        let post_from = match from.lamports.checked_sub(amount) {
            Some(balance) => balance,
            None => return Err(Errors::from(ArithmeticError::Underflow)),
        };
        let post_to = match to.lamports.checked_add(amount) {
            Some(balance) => balance,
            None => return Err(Errors::from(ArithmeticError::Overflow)),
        };
        from.lamports = post_from;
        to.lamports = post_to;
        Ok(())
    }

    /// Plans a transfer of SOL by the system program: its `Transfer` instruction,
    /// with the three account handles to pass along and no derived signer.
    pub fn transfer_sol(
        from: &Address,
        to: &Address,
        system_program: &Address,
        amount: u64,
    ) -> (plan: Invocation)
        ensures
            plan@ == (InvocationView {
                instruction: system_transfer_instruction(*from, *to, amount),
                accounts: seq![*from, *to, *system_program],
                signers: Seq::empty(),
            }),
    {
        let plan = Invocation {
            instruction: system_transfer(from, to, amount),
            accounts: vec![*from, *to, *system_program],
            signers: Vec::new(),
        };
        proof {
            assert(plan@.signers =~= Seq::empty());
        }
        plan
    }

    /// Plans a transfer of SPL tokens between token accounts, signed by `owner`.
    ///
    /// Fails exactly where `token_program` is not the token program.
    pub fn transfer_token(
        from: &Address,
        to: &Address,
        token_program: &Address,
        owner: &Address,
        amount: u64,
    ) -> (plan: Result<Invocation, Errors>)
        ensures
            plan is Ok <==> token_program@ == token_program_id(),
            plan matches Ok(p) ==> p@ == (InvocationView {
                instruction: token_transfer_instruction(
                    *from,
                    *to,
                    *token_program,
                    *owner,
                    amount,
                ),
                accounts: seq![*from, *to, *token_program, *owner],
                signers: Seq::empty(),
            }),
            plan matches Err(error) ==> error is ProgramError,
    {
        let no_signers: Vec<Address> = Vec::new();
        match token_transfer(
            token_program,
            from,
            to,
            owner,
            &no_signers,
            amount,
        ) {
            Ok(instruction) => {
                let plan = Invocation {
                    instruction,
                    accounts: vec![*from, *to, *token_program, *owner],
                    signers: Vec::new(),
                };
                proof {
                    assert(plan@.instruction.accounts =~= token_transfer_instruction(
                        *from,
                        *to,
                        *token_program,
                        *owner,
                        amount,
                    ).accounts);
                    assert(plan@.signers =~= Seq::empty());
                }
                Ok(plan)
            },
            Err(error) => Err(Errors::from(error)),
        }
    }

    /// Plans a transfer of SPL tokens from a token account that a derived address
    /// owns: the same instruction as [`Transfers::transfer_token`], signed with
    /// `seeds`.
    ///
    /// Fails exactly where `token_program` is not the token program.
    pub fn transfer_token_from_pda(
        from: &Address,
        to: &Address,
        token_program: &Address,
        owner: &Address,
        amount: u64,
        seeds: &[&[&[u8]]],
    ) -> (plan: Result<Invocation, Errors>)
        ensures
            plan is Ok <==> token_program@ == token_program_id(),
            plan matches Ok(p) ==> p@ == (InvocationView {
                instruction: token_transfer_instruction(
                    *from,
                    *to,
                    *token_program,
                    *owner,
                    amount,
                ),
                accounts: seq![*from, *to, *token_program, *owner],
                signers: seeds.deep_view(),
            }),
            plan matches Err(error) ==> error is ProgramError,
    {
        let no_signers: Vec<Address> = Vec::new();
        match token_transfer(
            token_program,
            from,
            to,
            owner,
            &no_signers,
            amount,
        ) {
            Ok(instruction) => {
                let plan = Invocation {
                    instruction,
                    accounts: vec![*from, *to, *token_program, *owner],
                    signers: owned_signers(seeds),
                };
                proof {
                    assert(plan@.instruction.accounts =~= token_transfer_instruction(
                        *from,
                        *to,
                        *token_program,
                        *owner,
                        amount,
                    ).accounts);
                }
                Ok(plan)
            },
            Err(error) => Err(Errors::from(error)),
        }
    }
}

} // verus!
