use crate::account::{readonly, writable, AccountMeta, Address, Instruction, InstructionView};
use solana_program::pubkey::Pubkey;
use vstd::bytes::spec_u64_to_le_bytes;
use vstd::prelude::*;

verus! {

/// Address of the SPL token program, `TokenkegQfeZyiNwAJbNbGKPFXCWuBvf9Ss623VQ5DA`.
pub open spec fn token_program_id() -> Seq<u8> {
    seq![
        6u8, 221, 246, 225, 215, 101, 161, 147, 217, 203, 225, 70, 206, 235, 121, 172, 28, 180,
        133, 237, 95, 91, 55, 145, 58, 140, 245, 133, 126, 255, 0, 169,
    ]
}

/// Address of the mint of wrapped SOL, `So11111111111111111111111111111111111111112`.
pub open spec fn native_mint_id() -> Seq<u8> {
    seq![
        6u8, 155, 136, 87, 254, 171, 129, 132, 251, 104, 127, 99, 70, 24, 192, 53, 218, 196, 57,
        220, 26, 235, 59, 85, 152, 160, 240, 0, 0, 0, 0, 1,
    ]
}

/// Address of the associated token account program,
/// `ATokenGPvbdGVxr1b2hvZbsiqW5xWH25efTNsLJA8knL`.
pub open spec fn associated_token_program_id() -> Seq<u8> {
    seq![
        140u8, 151, 37, 143, 78, 36, 137, 241, 187, 61, 16, 41, 20, 142, 13, 131, 11, 90, 19, 153,
        218, 255, 16, 132, 4, 142, 123, 216, 219, 233, 248, 89,
    ]
}

/// A token instruction on two accounts under one authority: both accounts
/// writable, the authority read-only and signing itself only where no other
/// signer is named, then each named signer.
pub open spec fn token_instruction(
    token_program: Address,
    first: Address,
    second: Address,
    authority: Address,
    signers: Seq<Address>,
    data: Seq<u8>,
) -> InstructionView {
    InstructionView {
        program_id: token_program@,
        accounts: seq![
            writable(first, false),
            writable(second, false),
            readonly(authority, signers.len() == 0),
        ] + signers.map_values(|signer: Address| readonly(signer, true)),
        data,
    }
}

/// `spl_token::id`: the token program's address.
#[verifier::external_body]
pub(crate) fn token_program() -> (id: Address)
    ensures
        id@ == token_program_id(),
{
    Address { bytes: spl_token::id().to_bytes() }
}

/// `spl_token::native_mint::id`: the address of the mint of wrapped SOL.
#[verifier::external_body]
pub(crate) fn native_mint() -> (id: Address)
    ensures
        id@ == native_mint_id(),
{
    Address { bytes: spl_token::native_mint::id().to_bytes() }
}

/// `spl_associated_token_account::id`: the associated token account program's
/// address.
#[verifier::external_body]
pub(crate) fn associated_token_program() -> (id: Address)
    ensures
        id@ == associated_token_program_id(),
{
    Address { bytes: spl_associated_token_account::id().to_bytes() }
}

/// `spl_token::instruction::transfer`: refused unless `token_program` is the
/// token program; else instruction 3 with the amount in little-endian bytes.
#[verifier::external_body]
pub(crate) fn token_transfer(
    token_program: &Address,
    source: &Address,
    destination: &Address,
    authority: &Address,
    signers: &Vec<Address>,
    amount: u64,
) -> (built: Result<Instruction, solana_program::program_error::ProgramError>)
    ensures
        built is Ok <==> token_program@ == token_program_id(),
        built matches Ok(ix) ==> ix@ == token_instruction(
            *token_program,
            *source,
            *destination,
            *authority,
            signers@,
            seq![3u8] + spec_u64_to_le_bytes(amount),
        ),
{
    let keys: Vec<Pubkey> = signers.iter().map(|s| s.bytes.into()).collect();
    let ix = spl_token::instruction::transfer(
        &token_program.bytes.into(),
        &source.bytes.into(),
        &destination.bytes.into(),
        &authority.bytes.into(),
        &keys.iter().collect::<Vec<_>>(),
        amount,
    )?;
    let metas = ix.accounts.iter().map(
        |m| AccountMeta::new(m.pubkey.to_bytes(), m.is_signer, m.is_writable),
    );
    Ok(Instruction::new(ix.program_id.to_bytes(), metas.collect(), ix.data))
}

/// `spl_token::instruction::burn`: refused unless `token_program` is the token
/// program; else instruction 8 with the amount in little-endian bytes.
#[verifier::external_body]
pub(crate) fn token_burn(
    token_program: &Address,
    account: &Address,
    mint: &Address,
    authority: &Address,
    signers: &Vec<Address>,
    amount: u64,
) -> (built: Result<Instruction, solana_program::program_error::ProgramError>)
    ensures
        built is Ok <==> token_program@ == token_program_id(),
        built matches Ok(ix) ==> ix@ == token_instruction(
            *token_program,
            *account,
            *mint,
            *authority,
            signers@,
            seq![8u8] + spec_u64_to_le_bytes(amount),
        ),
{
    let keys: Vec<Pubkey> = signers.iter().map(|s| s.bytes.into()).collect();
    let ix = spl_token::instruction::burn(
        &token_program.bytes.into(),
        &account.bytes.into(),
        &mint.bytes.into(),
        &authority.bytes.into(),
        &keys.iter().collect::<Vec<_>>(),
        amount,
    )?;
    let metas = ix.accounts.iter().map(
        |m| AccountMeta::new(m.pubkey.to_bytes(), m.is_signer, m.is_writable),
    );
    Ok(Instruction::new(ix.program_id.to_bytes(), metas.collect(), ix.data))
}

/// `spl_token::instruction::close_account`: refused unless `token_program` is
/// the token program; else instruction 9, which has no arguments.
#[verifier::external_body]
pub(crate) fn token_close_account(
    token_program: &Address,
    account: &Address,
    destination: &Address,
    owner: &Address,
    signers: &Vec<Address>,
) -> (built: Result<Instruction, solana_program::program_error::ProgramError>)
    ensures
        built is Ok <==> token_program@ == token_program_id(),
        built matches Ok(ix) ==> ix@ == token_instruction(
            *token_program,
            *account,
            *destination,
            *owner,
            signers@,
            seq![9u8],
        ),
{
    let keys: Vec<Pubkey> = signers.iter().map(|s| s.bytes.into()).collect();
    let ix = spl_token::instruction::close_account(
        &token_program.bytes.into(),
        &account.bytes.into(),
        &destination.bytes.into(),
        &owner.bytes.into(),
        &keys.iter().collect::<Vec<_>>(),
    )?;
    let metas = ix.accounts.iter().map(
        |m| AccountMeta::new(m.pubkey.to_bytes(), m.is_signer, m.is_writable),
    );
    Ok(Instruction::new(ix.program_id.to_bytes(), metas.collect(), ix.data))
}

} // verus!
