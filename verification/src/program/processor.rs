use crate::account::{Account, Address};
use crate::errors::{ArithmeticError, DecodeError, DispatchError, Errors, ValidationError};
use crate::helpers::closers::{zeroed, Closers};
use crate::program::instructions::{parse_instruction, Instructions, InstructionsView};
use crate::program::state::{
    decode_record, encode_record, valid_record, RecordView, PDA, RECORD_LEN,
};
use crate::trusted::solana::{
    find_program_address, is_rent_sysvar, is_system_program, program_address, rent_sysvar_id,
    system_program_id,
};
use vstd::prelude::*;
use vstd::utf8::{
    encode_utf8, encode_utf8_decode_utf8, is_leading_byte_width_1,
    partial_valid_utf8_extend_ascii_block, valid_utf8,
};

verus! {

/// The accounts that both instructions of the PDA program take.
#[derive(Debug, Clone, PartialEq, Eq)]
pub struct PdaAccounts {
    /// The account that pays, and that is paid back when the PDA is closed.
    pub signer: Account,
    /// The PDA account, whose storage holds the record.
    pub pda: Account,
    /// The system program.
    pub system_program: Account,
    /// The rent sysvar.
    pub rent: Account,
}

/// Why the PDA program refuses an instruction.
#[derive(Debug, Clone, Copy, PartialEq, Eq, Structural)]
pub enum ProcessError {
    /// The instruction data holds no instruction.
    Dispatch(DispatchError),
    /// The accounts are not the ones the instruction needs.
    Validation(ValidationError),
    /// The storage of the PDA account cannot hold, or does not hold, a record.
    Decode(DecodeError),
    /// The balance of the PDA account does not fit into the signer's.
    Arithmetic(ArithmeticError),
    /// The PDA account to close does not hold the record that the instruction
    /// names: it was never created, or is closed already.
    Uninitialized,
}

/// The address and bump seed derived from the UUID of a record under a program.
pub open spec fn derived_address(program_id: Address, record: RecordView) -> Option<(Seq<u8>, u8)> {
    program_address(seq![encode_utf8(record.uuid)], program_id@)
}

/// Whether the account at `target` is where the record's UUID derives to.
pub open spec fn at_derived_address(
    program_id: Address,
    record: RecordView,
    target: Address,
) -> bool {
    derived_address(program_id, record) matches Some((address, _)) && address == target@
}

/// The verdict on the accounts of an instruction that names `record`. The
/// address of the PDA account is judged first, then the signer, the two
/// well-known accounts, and the bump seed.
pub open spec fn validation(
    program_id: Address,
    accounts: PdaAccounts,
    record: RecordView,
) -> Result<(), ValidationError> {
    if !at_derived_address(program_id, record, accounts.pda.key) {
        Err(ValidationError::WrongDerivedAddress)
    } else if !(accounts.signer.is_signer && accounts.signer.is_writable) {
        Err(ValidationError::SignerRequired)
    } else if !(accounts.system_program.key@ == system_program_id() && accounts.rent.key@
        == rent_sysvar_id()) {
        Err(ValidationError::WrongProgramOwner)
    } else if derived_address(program_id, record)->Some_0.1 != record.bump {
        Err(ValidationError::BumpMismatch)
    } else {
        Ok(())
    }
}

/// Whether creating `record` is refused, and why: by the verdict on the
/// accounts, or because the PDA account has no room for a record.
pub open spec fn creation(
    program_id: Address,
    accounts: PdaAccounts,
    record: RecordView,
) -> Result<(), ProcessError> {
    match validation(program_id, accounts, record) {
        Err(error) => Err(ProcessError::Validation(error)),
        Ok(()) => if accounts.pda.data@.len() < 17 {
            Err(ProcessError::Decode(DecodeError::TooShort))
        } else {
            Ok(())
        },
    }
}

/// Whether the storage of the account holds `record`. An account that holds
/// the record of an instruction counts as initialized for it; any other does
/// not, whether it was never written or is closed.
pub open spec fn holds_record(account: Account, record: RecordView) -> bool {
    decode_record(account.data@) == Ok::<RecordView, DecodeError>(record)
}

/// Whether closing `record` is refused, and why: by the verdict on the accounts,
/// because the PDA account does not hold just that record, or because its
/// balance does not fit into the signer's.
pub open spec fn closing(
    program_id: Address,
    accounts: PdaAccounts,
    record: RecordView,
) -> Result<(), ProcessError> {
    match validation(program_id, accounts, record) {
        Err(error) => Err(ProcessError::Validation(error)),
        Ok(()) => match decode_record(accounts.pda.data@) {
            Err(error) => Err(ProcessError::Decode(error)),
            Ok(_) => if !holds_record(accounts.pda, record) {
                Err(ProcessError::Uninitialized)
            } else if accounts.signer.lamports + accounts.pda.lamports > u64::MAX {
                Err(ProcessError::Arithmetic(ArithmeticError::Overflow))
            } else {
                Ok(())
            },
        },
    }
}

/// What `CreatePDA` of `record` does to the accounts: where it is not refused,
/// the first 17 bytes of the PDA account's storage become the stored form of
/// the record and nothing else changes; where it is refused, nothing changes.
pub open spec fn created(
    program_id: Address,
    before: PdaAccounts,
    after: PdaAccounts,
    record: RecordView,
    done: Result<(), ProcessError>,
) -> bool {
    match creation(program_id, before, record) {
        Err(error) => done == Err::<(), ProcessError>(error) && after == before,
        Ok(()) => {
            &&& done is Ok
            &&& after.pda.data@ == encode_record(record) + before.pda.data@.skip(17)
            &&& after == (PdaAccounts {
                pda: Account { data: after.pda.data, ..before.pda },
                ..before
            })
        },
    }
}

/// What `ClosePDA` of `record` does to the accounts: where it is not refused,
/// the balance of the PDA account moves to the signer, its storage is zeroed and
/// it is assigned to the system program; where it is refused, nothing changes.
pub open spec fn closed(
    program_id: Address,
    before: PdaAccounts,
    after: PdaAccounts,
    record: RecordView,
    done: Result<(), ProcessError>,
) -> bool {
    match closing(program_id, before, record) {
        Err(error) => done == Err::<(), ProcessError>(error) && after == before,
        Ok(()) => {
            &&& done is Ok
            &&& after.pda.data@ == zeroed(before.pda.data@.len())
            &&& after == (PdaAccounts {
                pda: Account {
                    lamports: 0,
                    data: after.pda.data,
                    owner: before.system_program.key,
                    ..before.pda
                },
                signer: Account {
                    lamports: (before.signer.lamports + before.pda.lamports) as u64,
                    ..before.signer
                },
                ..before
            })
        },
    }
}

/// Instruction processor of the PDA program.
pub struct Processor;

impl Processor {
    /// A PDA account that is not at the address derived from the record's UUID
    /// is refused with `WrongDerivedAddress`, by the verdict on the accounts and
    /// so by `CreatePDA` and `ClosePDA`, whatever else holds of the accounts and
    /// of the record.
    pub proof fn lemma_wrong_address_refused(
        program_id: Address,
        accounts: PdaAccounts,
        record: RecordView,
    )
        requires
            !at_derived_address(program_id, record, accounts.pda.key),
        ensures
            validation(program_id, accounts, record) == Err::<(), ValidationError>(
                ValidationError::WrongDerivedAddress,
            ),
            creation(program_id, accounts, record) == Err::<(), ProcessError>(
                ProcessError::Validation(ValidationError::WrongDerivedAddress),
            ),
            closing(program_id, accounts, record) == Err::<(), ProcessError>(
                ProcessError::Validation(ValidationError::WrongDerivedAddress),
            ),
    {
    }

    /// After `CreatePDA` has gone through, the PDA account holds the record, so
    /// that `ClosePDA` of the same record finds it initialized.
    pub proof fn lemma_created_holds_record(
        program_id: Address,
        before: PdaAccounts,
        after: PdaAccounts,
        record: RecordView,
    )
        requires
            valid_record(record),
            created(program_id, before, after, record, Ok(())),
        ensures
            holds_record(after.pda, record),
            validation(program_id, after, record) is Ok,
    {
        PDA::lemma_decode_encode(record);
        assert(after.pda.data@.subrange(1, 17) =~= encode_record(record).subrange(1, 17));
    }

    /// After `ClosePDA` has gone through, `ClosePDA` of the same record is
    /// refused as uninitialized. The one record that zeroed storage spells, bump
    /// seed 0 and a UUID of zero bytes, is left out: zeroed storage holds it.
    pub proof fn lemma_closed_is_final(
        program_id: Address,
        before: PdaAccounts,
        after: PdaAccounts,
        record: RecordView,
    )
        requires
            encode_record(record) != zeroed(17),
            closed(program_id, before, after, record, Ok(())),
        ensures
            closing(program_id, after, record) == Err::<(), ProcessError>(
                ProcessError::Uninitialized,
            ),
    {
        let storage = after.pda.data@;
        assert(storage.subrange(1, 17) =~= zeroed(16));
        assert(zeroed(16).subrange(0, 0) =~= Seq::<u8>::empty());
        assert(valid_utf8(Seq::<u8>::empty()));
        assert forall|i: int| 0 <= i < 16 implies #[trigger] is_leading_byte_width_1(
            zeroed(16)[i],
        ) by {}
        partial_valid_utf8_extend_ascii_block(zeroed(16), 0, 16);
        assert(zeroed(16).subrange(0, 16) =~= zeroed(16));
        assert(decode_record(storage) is Ok);
        if decode_record(storage)->Ok_0 == record {
            PDA::lemma_encode_decode(storage);
            assert(storage.subrange(0, 17) =~= zeroed(17));
        }
    }
}

impl Processor {
    /// Judges the accounts of an instruction that names `record`.
    ///
    /// A PDA account that is not at the address derived from the record's UUID
    /// under `program_id` is refused with `WrongDerivedAddress`, whatever else
    /// holds of the accounts and the record.
    pub fn validate(
        program_id: &Address,
        accounts: &PdaAccounts,
        record: &PDA,
    ) -> (checked: Result<(), ValidationError>)
        ensures
            checked == validation(*program_id, *accounts, record@),
            !at_derived_address(*program_id, record@, accounts.pda.key) ==> checked == Err::<
                (),
                ValidationError,
            >(ValidationError::WrongDerivedAddress),
    {
        let parts: [&[u8]; 1] = [record.uuid().as_bytes()];
        let seeds = parts.as_slice();
        proof {
            assert(seeds.deep_view() =~~= seq![encode_utf8(record@.uuid)]);
        }
        match find_program_address(seeds, program_id) {
            None => Err(ValidationError::WrongDerivedAddress),
            Some((address, bump)) => {
                if !accounts.pda.key.same(&address) {
                    Err(ValidationError::WrongDerivedAddress)
                } else if !(accounts.signer.is_signer && accounts.signer.is_writable) {
                    Err(ValidationError::SignerRequired)
                } else if !(is_system_program(&accounts.system_program.key) && is_rent_sysvar(
                    &accounts.rent.key,
                )) {
                    Err(ValidationError::WrongProgramOwner)
                } else if bump != record.bump() {
                    Err(ValidationError::BumpMismatch)
                } else {
                    Ok(())
                }
            },
        }
    }

    /// Processes `CreatePDA`: judges the accounts, then writes the record into
    /// the storage of the PDA account.
    pub fn create_pda(
        program_id: &Address,
        accounts: &mut PdaAccounts,
        record: &PDA,
    ) -> (done: Result<(), ProcessError>)
        ensures
            created(*program_id, *old(accounts), *final(accounts), record@, done),
    {
        if let Err(error) = Self::validate(program_id, accounts, record) {
            return Err(ProcessError::Validation(error));
        }
        if accounts.pda.data.len() < RECORD_LEN {
            return Err(ProcessError::Decode(DecodeError::TooShort));
        }
        let bytes = record.encode();
        let mut i: usize = 0;
        while i < RECORD_LEN
            invariant
                i <= 17,
                accounts.pda.data@.len() == old(accounts).pda.data@.len(),
                accounts.pda.data@.len() >= 17,
                forall|k: int| 0 <= k < i ==> accounts.pda.data@[k] == bytes@[k],
                forall|k: int|
                    i <= k < accounts.pda.data@.len() ==> accounts.pda.data@[k] == old(
                        accounts,
                    ).pda.data@[k],
                *accounts == (PdaAccounts {
                    pda: Account { data: accounts.pda.data, ..old(accounts).pda },
                    ..*old(accounts)
                }),
            decreases 17 - i,
        {
            accounts.pda.data[i] = bytes[i];
            i += 1;
        }
        proof {
            assert(accounts.pda.data@ =~= encode_record(record@) + old(accounts).pda.data@.skip(
                17,
            ));
        }
        Ok(())
    }

    /// Processes `ClosePDA`: judges the accounts, makes sure that the PDA account
    /// holds the record that the instruction names, then moves its balance to
    /// the signer, zeroes its storage and assigns it to the system program.
    pub fn close_pda(
        program_id: &Address,
        accounts: &mut PdaAccounts,
        record: &PDA,
    ) -> (done: Result<(), ProcessError>)
        ensures
            closed(*program_id, *old(accounts), *final(accounts), record@, done),
    {
        if let Err(error) = Self::validate(program_id, accounts, record) {
            return Err(ProcessError::Validation(error));
        }
        match PDA::decode(accounts.pda.data.as_slice()) {
            Err(error) => return Err(ProcessError::Decode(error)),
            Ok(stored) => {
                if !stored.same(record) {
                    return Err(ProcessError::Uninitialized);
                }
            },
        }
        match Closers::close_pda(&mut accounts.pda, &mut accounts.signer) {
            Ok(()) => {},
            Err(Errors::Arithmetic(error)) => return Err(ProcessError::Arithmetic(error)),
            Err(_) => unreached(),
        }
        accounts.pda.owner = accounts.system_program.key;
        Ok(())
    }

    /// Processes one instruction: reads it from `instruction_data` and hands it
    /// to the processor of its kind. Data that holds no instruction is refused
    /// and nothing changes.
    pub fn process(
        program_id: &Address,
        accounts: &mut PdaAccounts,
        instruction_data: &[u8],
    ) -> (done: Result<(), ProcessError>)
        ensures
            match parse_instruction(instruction_data@) {
                Err(error) => {
                    &&& done == Err::<(), ProcessError>(ProcessError::Dispatch(error))
                    &&& *final(accounts) == *old(accounts)
                },
                Ok(InstructionsView::CreatePDA { bump, uuid }) => created(
                    *program_id,
                    *old(accounts),
                    *final(accounts),
                    RecordView { bump, uuid },
                    done,
                ),
                Ok(InstructionsView::ClosePDA { bump, uuid }) => closed(
                    *program_id,
                    *old(accounts),
                    *final(accounts),
                    RecordView { bump, uuid },
                    done,
                ),
            },
    {
        match Instructions::parse(instruction_data) {
            Err(error) => Err(ProcessError::Dispatch(error)),
            Ok(Instructions::CreatePDA { bump, uuid }) => {
                Self::create_pda(program_id, accounts, &Self::record_of(bump, &uuid))
            },
            Ok(Instructions::ClosePDA { bump, uuid }) => {
                Self::close_pda(program_id, accounts, &Self::record_of(bump, &uuid))
            },
        }
    }

    /// The record of the fields of a parsed instruction, whose UUID takes 16
    /// bytes as it is.
    fn record_of(bump: u8, uuid: &String) -> (record: PDA)
        requires
            encode_utf8(uuid@).len() == 16,
        ensures
            record@ == (RecordView { bump, uuid: uuid@ }),
    {
        match PDA::new(bump, uuid.as_str()) {
            Some(record) => {
                proof {
                    assert(encode_utf8(record@.uuid) =~= encode_utf8(uuid@));
                    encode_utf8_decode_utf8(record@.uuid);
                    encode_utf8_decode_utf8(uuid@);
                }
                record
            },
            None => unreached(),
        }
    }
}

} // verus!
