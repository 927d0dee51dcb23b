use crate::account::{writable, AccountMeta, Address, Instruction, InstructionView};
use solana_program::pubkey::Pubkey;
use vstd::bytes::spec_u64_to_le_bytes;
use vstd::prelude::*;

verus! {

/// `ProgramError` of `solana_program`, carried through as an opaque value.
#[verifier::external_type_specification]
#[verifier::external_body]
pub struct ExProgramError(solana_program::program_error::ProgramError);

/// The address that `seeds` derive under the program `program_id`, with the bump
/// seed that made it valid; `None` where no address can be derived from them.
pub uninterp spec fn program_address(
    seeds: Seq<Seq<u8>>,
    program_id: Seq<u8>,
) -> Option<(Seq<u8>, u8)>;

/// Address of the system program: 32 zero bytes.
pub open spec fn system_program_id() -> Seq<u8> {
    Seq::new(32, |i: int| 0u8)
}

/// Address of the rent sysvar, `SysvarRent111111111111111111111111111111111`.
pub open spec fn rent_sysvar_id() -> Seq<u8> {
    seq![
        6u8, 167, 213, 23, 25, 44, 92, 81, 33, 140, 201, 76, 61, 74, 241, 127, 88, 218, 238, 8,
        155, 161, 253, 68, 227, 219, 217, 138, 0, 0, 0, 0,
    ]
}

/// The system program's `Transfer` of `lamports`: the payer signs, both accounts
/// are writable, and the payload is the variant's index as four little-endian
/// bytes, then the amount.
pub open spec fn system_transfer_instruction(
    from: Address,
    to: Address,
    lamports: u64,
) -> InstructionView {
    InstructionView {
        program_id: system_program_id(),
        accounts: seq![writable(from, true), writable(to, false)],
        data: seq![2u8, 0, 0, 0] + spec_u64_to_le_bytes(lamports),
    }
}

/// The system program's `CreateAccount`: payer and new account both sign and are
/// writable, and the payload is the variant's index as four little-endian
/// bytes, then balance, size and owner.
pub open spec fn system_create_account_instruction(
    from: Address,
    to: Address,
    lamports: u64,
    space: u64,
    owner: Address,
) -> InstructionView {
    InstructionView {
        program_id: system_program_id(),
        accounts: seq![writable(from, true), writable(to, true)],
        data: seq![0u8, 0, 0, 0] + spec_u64_to_le_bytes(lamports) + spec_u64_to_le_bytes(space)
            + owner@,
    }
}

/// `ToString::to_string` of a `ProgramError`: the text that its `Display` impl
/// writes. Nothing is claimed of the text.
#[verifier::external_body]
pub(crate) fn program_error_text(error: &solana_program::program_error::ProgramError) -> String {
    error.to_string()
}

/// `Pubkey::try_find_program_address`: searches the bump seeds from 255 down for
/// one that, with `seeds` and `program_id`, hashes to an address off the curve.
/// The result depends on the two arguments alone.
#[verifier::external_body]
pub(crate) fn find_program_address(
    seeds: &[&[u8]],
    program_id: &Address,
) -> (found: Option<(Address, u8)>)
    ensures
        found matches Some((address, bump)) ==> program_address(seeds.deep_view(), program_id@)
            == Some((address@, bump)),
        found is None ==> program_address(seeds.deep_view(), program_id@) is None,
{
    Pubkey::try_find_program_address(seeds, &program_id.bytes.into()).map(
        |(key, bump)| (Address { bytes: key.to_bytes() }, bump),
    )
}

/// `system_program::check_id`: whether the key is the system program's.
#[verifier::external_body]
#[allow(deprecated)]
pub(crate) fn is_system_program(key: &Address) -> (known: bool)
    ensures
        known == (key@ == system_program_id()),
{
    solana_program::system_program::check_id(&key.bytes.into())
}

/// `sysvar::rent::check_id`: whether the key is the rent sysvar's.
#[verifier::external_body]
pub(crate) fn is_rent_sysvar(key: &Address) -> (known: bool)
    ensures
        known == (key@ == rent_sysvar_id()),
{
    solana_program::sysvar::rent::check_id(&key.bytes.into())
}

/// `system_instruction::transfer`: builds the system program's `Transfer`.
#[verifier::external_body]
#[allow(deprecated)]
pub(crate) fn system_transfer(from: &Address, to: &Address, lamports: u64) -> (built: Instruction)
    ensures
        built@ == system_transfer_instruction(*from, *to, lamports),
{
    let ix = solana_program::system_instruction::transfer(
        &from.bytes.into(),
        &to.bytes.into(),
        lamports,
    );
    let metas = ix.accounts.iter().map(
        |m| AccountMeta::new(m.pubkey.to_bytes(), m.is_signer, m.is_writable),
    );
    Instruction::new(ix.program_id.to_bytes(), metas.collect(), ix.data)
}

/// `system_instruction::create_account`: builds the system program's
/// `CreateAccount`.
#[verifier::external_body]
#[allow(deprecated)]
pub(crate) fn system_create_account(
    from: &Address,
    to: &Address,
    lamports: u64,
    space: u64,
    owner: &Address,
) -> (built: Instruction)
    ensures
        built@ == system_create_account_instruction(*from, *to, lamports, space, *owner),
{
    let ix = solana_program::system_instruction::create_account(
        &from.bytes.into(),
        &to.bytes.into(),
        lamports,
        space,
        &owner.bytes.into(),
    );
    let metas = ix.accounts.iter().map(
        |m| AccountMeta::new(m.pubkey.to_bytes(), m.is_signer, m.is_writable),
    );
    Instruction::new(ix.program_id.to_bytes(), metas.collect(), ix.data)
}

/// `program_memory::sol_memset`: sets the first `n` bytes to `value` and leaves
/// the rest. It writes past the end where `n` exceeds the length, so that is
/// left out.
#[verifier::external_body]
pub(crate) fn sol_memset(bytes: &mut Vec<u8>, value: u8, n: usize)
    requires
        n <= old(bytes)@.len(),
    ensures
        final(bytes)@ == Seq::new(
            old(bytes)@.len(),
            |i: int|
                if i < n {
                    value
                } else {
                    old(bytes)@[i]
                },
        ),
{
    solana_program::program_memory::sol_memset(bytes.as_mut_slice(), value, n)
}

} // verus!
