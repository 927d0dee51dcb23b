use crate::account::{
    owned_signers, readonly, writable, Account, Address, InstructionView, Invocation,
    InvocationView,
};
use crate::errors::{ArithmeticError, Errors};
use crate::helpers::transfers::Transfers;
use crate::trusted::solana::{sol_memset, system_transfer_instruction};
use crate::trusted::token::{token_close_account, token_program, token_program_id};
use vstd::prelude::*;

verus! {

/// Storage of `len` bytes, all of them zero.
pub open spec fn zeroed(len: nat) -> Seq<u8> {
    Seq::new(len, |i: int| 0u8)
}

/// The token program's `CloseAccount` of `account`, whose balance goes to
/// `destination`, under the authority of `authority`, who signs.
pub open spec fn token_close_instruction(
    account: Address,
    destination: Address,
    authority: Address,
) -> InstructionView {
    InstructionView {
        program_id: token_program_id(),
        accounts: seq![
            writable(account, false),
            writable(destination, false),
            readonly(authority, true),
        ],
        data: seq![9u8],
    }
}

/// Provides utilities for closing accounts and transferring lamports.
pub struct Closers;

impl Closers {
    /// Closes a PDA account: moves its whole balance to `to` and zeroes its
    /// storage.
    ///
    /// Fails, leaving both accounts as they were, where the balance of `to` would
    /// overflow.
    pub fn close_pda(from: &mut Account, to: &mut Account) -> (done: Result<(), Errors>)
        ensures
            old(to).lamports + old(from).lamports <= u64::MAX ==> {
                &&& done is Ok
                &&& final(from).data@ == zeroed(old(from).data@.len())
                &&& *final(from) == (Account { lamports: 0, data: final(from).data, ..*old(from) })
                &&& *final(to) == (Account {
                    lamports: (old(to).lamports + old(from).lamports) as u64,
                    ..*old(to)
                })
            },
            old(to).lamports + old(from).lamports > u64::MAX ==> {
                &&& done == Err::<(), Errors>(Errors::Arithmetic(ArithmeticError::Overflow))
                &&& *final(from) == *old(from)
                &&& *final(to) == *old(to)
            },
    {
        let amount = from.lamports;
        let size = from.data.len();
        Transfers::transfer_sol_from_pda(from, to, amount)?;
        sol_memset(&mut from.data, 0, size);
        Ok(())
    }

    /// Starts the closing of an account that the system program owns: zeroes its
    /// storage and plans the system program's transfer of its whole balance to
    /// `to`. Once the runtime has run the plan,
    /// [`Closers::finish_close_account`] takes the outcome.
    pub fn close_account(
        from: &mut Account,
        to: &Address,
        system_program: &Address,
    ) -> (plan: Invocation)
        ensures
            final(from).data@ == zeroed(old(from).data@.len()),
            *final(from) == (Account { data: final(from).data, ..*old(from) }),
            plan@ == (InvocationView {
                instruction: system_transfer_instruction(
                    old(from).key,
                    *to,
                    old(from).lamports,
                ),
                accounts: seq![old(from).key, *to, *system_program],
                signers: Seq::empty(),
            }),
    {
        let amount = from.lamports;
        let size = from.data.len();
        sol_memset(&mut from.data, 0, size);
        Transfers::transfer_sol(&from.key, to, system_program, amount)
    }

    /// Ends the closing of an account, given how the transfer planned by
    /// [`Closers::close_account`] went: after a transfer that succeeded the
    /// account is assigned to the system program; a failure is handed on and the
    /// account stays as it is.
    pub fn finish_close_account(
        from: &mut Account,
        system_program: &Address,
        transferred: Result<(), Errors>,
    ) -> (done: Result<(), Errors>)
        ensures
            done == transferred,
            transferred is Ok ==> *final(from) == (Account {
                owner: *system_program,
                ..*old(from)
            }),
            transferred is Err ==> *final(from) == *old(from),
    {
        if transferred.is_ok() {
            from.owner = *system_program;
        }
        transferred
    }

    /// Plans the closing of a token account by the SPL token program, under the
    /// authority of a derived address that signs with `seeds`. The plan never
    /// fails to be made: the instruction is addressed to the token program
    /// itself.
    pub fn close_token_account(
        account: &Address,
        destination: &Address,
        authority: &Address,
        seeds: &[&[&[u8]]],
    ) -> (plan: Result<Invocation, Errors>)
        ensures
            plan matches Ok(p) && p@ == (InvocationView {
                instruction: token_close_instruction(*account, *destination, *authority),
                accounts: seq![*account, *destination, *authority],
                signers: seeds.deep_view(),
            }),
    {
        let no_signers: Vec<Address> = Vec::new();
        match token_close_account(
            &token_program(),
            account,
            destination,
            authority,
            &no_signers,
        ) {
            Ok(instruction) => {
                let plan = Invocation {
                    instruction,
                    accounts: vec![*account, *destination, *authority],
                    signers: owned_signers(seeds),
                };
                proof {
                    assert(plan@.instruction.accounts =~= token_close_instruction(
                        *account,
                        *destination,
                        *authority,
                    ).accounts);
                }
                Ok(plan)
            },
            Err(_) => unreached(),
        }
    }
}

} // verus!
