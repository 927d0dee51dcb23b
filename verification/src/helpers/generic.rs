use crate::account::{
    owned_seeds, owned_signers, readonly, writable, Address, InstructionView, Invocation,
    InvocationView,
};
use crate::errors::Errors;
use crate::trusted::digest::{sha256, sha256_digest};
use crate::trusted::solana::{
    find_program_address, program_address, system_create_account,
    system_create_account_instruction,
};
use crate::trusted::token::{native_mint, native_mint_id, token_burn, token_program_id};
use vstd::bytes::spec_u64_to_le_bytes;
use vstd::prelude::*;
use vstd::utf8::encode_utf8;

verus! {

/// The token program's `Burn` of `amount` from `account`, whose tokens are of
/// `mint`. The authority is named once as the account's authority and once as
/// the signer.
pub open spec fn token_burn_instruction(
    token_program: Address,
    account: Address,
    mint: Address,
    authority: Address,
    amount: u64,
) -> InstructionView {
    InstructionView {
        program_id: token_program@,
        accounts: seq![
            writable(account, false),
            writable(mint, false),
            readonly(authority, false),
            readonly(authority, true),
        ],
        data: seq![8u8] + spec_u64_to_le_bytes(amount),
    }
}

/// Provides generic utility functions for Solana programs.
pub struct Generic;

impl Generic {
    /// Checks if a token mint is the native SOL mint.
    #[must_use]
    pub fn is_native(token_mint: &Address) -> (native: bool)
        ensures
            native == (token_mint@ == native_mint_id()),
    {
        token_mint.same(&native_mint())
    }

    /// Plans the burning of tokens from a token account under the authority of a
    /// derived address, which signs with `seeds`.
    ///
    /// Fails exactly where `token_program` is not the token program.
    pub fn burn_tokens(
        token_program: &Address,
        account: &Address,
        mint: &Address,
        authority: &Address,
        amount: u64,
        seeds: &[&[&[u8]]],
    ) -> (plan: Result<Invocation, Errors>)
        ensures
            plan is Ok <==> token_program@ == token_program_id(),
            plan matches Ok(p) ==> p@ == (InvocationView {
                instruction: token_burn_instruction(
                    *token_program,
                    *account,
                    *mint,
                    *authority,
                    amount,
                ),
                accounts: seq![*account, *mint, *authority, *token_program],
                signers: seeds.deep_view(),
            }),
            plan matches Err(error) ==> error is ProgramError,
    {
        let signer: Vec<Address> = vec![*authority];
        match token_burn(
            token_program,
            account,
            mint,
            authority,
            &signer,
            amount,
        ) {
            Ok(instruction) => {
                let plan = Invocation {
                    instruction,
                    accounts: vec![*account, *mint, *authority, *token_program],
                    signers: owned_signers(seeds),
                };
                proof {
                    assert(plan@.instruction.accounts =~= token_burn_instruction(
                        *token_program,
                        *account,
                        *mint,
                        *authority,
                        amount,
                    ).accounts);
                }
                Ok(plan)
            },
            Err(error) => Err(Errors::from(error)),
        }
    }

    /// Derives an 8-byte discriminator from a string: the first eight bytes of
    /// the SHA-256 digest of its UTF-8 bytes.
    #[must_use]
    pub fn derive_discriminator(name: &str) -> (discriminator: [u8; 8])
        ensures
            discriminator@ == sha256(encode_utf8(name@)).subrange(0, 8),
    {
        let digest = sha256_digest(name.as_bytes());
        let mut discriminator = [0u8; 8];
        let mut i: usize = 0;
        while i < 8
            invariant
                i <= 8,
                forall|k: int| 0 <= k < i ==> discriminator@[k] == digest@[k],
            decreases 8 - i,
        {
            discriminator[i] = digest[i];
            i += 1;
        }
        proof {
            assert(discriminator@ =~= digest@.subrange(0, 8));
        }
        discriminator
    }

    /// Plans the creation of a program-derived address (PDA) account.
    ///
    /// Derives the address from `seeds` under `program_id`. Where that is the
    /// address of `target_account`, the plan is the system program's
    /// `CreateAccount` of `space` bytes with a balance of `lamports`, owned by
    /// `program_id`, paid by `payer` and signed with the seeds and the bump seed.
    /// Anywhere else the target is refused.
    pub fn create_pda_account(
        target_account: &Address,
        system_program: &Address,
        payer: &Address,
        space: usize,
        lamports: u64,
        program_id: &Address,
        seeds: &[&[u8]],
    ) -> (plan: Result<Invocation, Errors>)
        ensures
            match program_address(seeds.deep_view(), program_id@) {
                Some((address, bump)) if address == target_account@ => {
                    &&& plan matches Ok(p)
                    &&& p@ == (InvocationView {
                        instruction: system_create_account_instruction(
                            *payer,
                            *target_account,
                            lamports,
                            space as u64,
                            *program_id,
                        ),
                        accounts: seq![*payer, *target_account, *system_program],
                        signers: seq![seeds.deep_view().push(seq![bump])],
                    })
                },
                _ => plan == Err::<Invocation, Errors>(Errors::WrongPdaAddress),
            },
    {
        let bump = match find_program_address(seeds, program_id) {
            Some((expected_pda, bump)) => {
                if !target_account.same(&expected_pda) {
                    return Err(Errors::WrongPdaAddress);
                }
                bump
            },
            None => return Err(Errors::WrongPdaAddress),
        };
        let mut combined_seeds = owned_seeds(seeds);
        combined_seeds.push(vec![bump]);
        let plan = Invocation {
            instruction: system_create_account(
                payer,
                target_account,
                lamports,
                space as u64,
                program_id,
            ),
            accounts: vec![*payer, *target_account, *system_program],
            signers: vec![combined_seeds],
        };
        proof {
            assert(combined_seeds.deep_view() =~~= seeds.deep_view().push(seq![bump]));
            assert(plan@.signers =~= seq![seeds.deep_view().push(seq![bump])]);
        }
        Ok(plan)
    }
}

} // verus!
