use crate::account::Address;
use crate::errors::Errors;
use crate::trusted::solana::{find_program_address, program_address};
use crate::trusted::token::{
    associated_token_program, associated_token_program_id, token_program, token_program_id,
};
use vstd::prelude::*;

verus! {

/// The address of the associated token account of `owner` for the tokens of
/// `mint`: derived under the associated token account program from the owner,
/// the token program and the mint, in that order.
pub open spec fn associated_token_address(owner: Address, mint: Address) -> Option<Seq<u8>> {
    match program_address(
        seq![owner@, token_program_id(), mint@],
        associated_token_program_id(),
    ) {
        Some((address, _)) => Some(address),
        None => None,
    }
}

/// Provides validation utilities for Solana programs.
pub struct Validators;

impl Validators {
    /// Validates that an associated token account (ATA) address is correct for the
    /// given owner and mint.
    ///
    /// Returns `Errors::OwnerMismatch` where `ata` is not the associated token
    /// account address of `owner` for `mint`.
    pub fn assert_ata(
        ata: &Address,
        owner: &Address,
        mint: &Address,
    ) -> (checked: Result<(), Errors>)
        ensures
            checked is Ok <==> associated_token_address(*owner, *mint) == Some(ata@),
            checked matches Err(error) ==> error == Errors::OwnerMismatch,
    {
        let token = token_program();
        let parts: [&[u8]; 3] = [
            owner.bytes.as_slice(),
            token.bytes.as_slice(),
            mint.bytes.as_slice(),
        ];
        let seeds = parts.as_slice();
        proof {
            assert(seeds.deep_view() =~~= seq![owner@, token_program_id(), mint@]);
        }
        match find_program_address(seeds, &associated_token_program()) {
            Some((real_ata, _)) => {
                if ata.same(&real_ata) {
                    Ok(())
                } else {
                    Err(Errors::OwnerMismatch)
                }
            },
            None => Err(Errors::OwnerMismatch),
        }
    }
}

} // verus!
