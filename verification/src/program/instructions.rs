use crate::errors::DispatchError;
use crate::program::state::{decode_record, valid_record, RecordView, PDA};
use vstd::prelude::*;
use vstd::slice::slice_subrange;
use vstd::utf8::encode_utf8;

verus! {

/// Bytes of an instruction on the wire: the tag, then a record.
pub const INSTRUCTION_LEN: usize = 18;

/// Tag byte of [`Instructions::CreatePDA`].
pub const CREATE_PDA: u8 = 0;

/// Tag byte of [`Instructions::ClosePDA`].
pub const CLOSE_PDA: u8 = 1;

/// The instructions of the PDA program.
///
/// Both take the same accounts:
/// 0. `[signer, writable]` the account that pays and is paid back;
/// 1. `[writable]` the PDA account;
/// 2. `[]` the system program;
/// 3. `[]` the rent sysvar.
#[derive(Debug, Clone, PartialEq, Eq)]
pub enum Instructions {
    /// Create a new PDA.
    CreatePDA { bump: u8, uuid: String },
    /// Close a PDA.
    ClosePDA { bump: u8, uuid: String },
}

/// An instruction as a mathematical value.
pub enum InstructionsView {
    CreatePDA { bump: u8, uuid: Seq<char> },
    ClosePDA { bump: u8, uuid: Seq<char> },
}

impl View for Instructions {
    type V = InstructionsView;

    open spec fn view(&self) -> InstructionsView {
        match self {
            Instructions::CreatePDA { bump, uuid } => InstructionsView::CreatePDA {
                bump: *bump,
                uuid: uuid@,
            },
            Instructions::ClosePDA { bump, uuid } => InstructionsView::ClosePDA {
                bump: *bump,
                uuid: uuid@,
            },
        }
    }
}

impl InstructionsView {
    /// The record that the instruction names.
    pub open spec fn record(self) -> RecordView {
        match self {
            InstructionsView::CreatePDA { bump, uuid } => RecordView { bump, uuid },
            InstructionsView::ClosePDA { bump, uuid } => RecordView { bump, uuid },
        }
    }
}

/// The instruction that a buffer holds, or why it holds none. The tag is judged
/// first; a known tag must be followed by exactly the 17 bytes of a record.
pub open spec fn parse_instruction(bytes: Seq<u8>) -> Result<InstructionsView, DispatchError> {
    if bytes.len() == 0 {
        Err(DispatchError::Empty)
    } else if bytes[0] != 0 && bytes[0] != 1 {
        Err(DispatchError::UnknownInstruction(bytes[0]))
    } else if bytes.len() != 18 {
        Err(DispatchError::BadPayload)
    } else {
        match decode_record(bytes.subrange(1, 18)) {
            Err(_) => Err(DispatchError::BadPayload),
            Ok(record) => Ok(
                if bytes[0] == 0 {
                    InstructionsView::CreatePDA { bump: record.bump, uuid: record.uuid }
                } else {
                    InstructionsView::ClosePDA { bump: record.bump, uuid: record.uuid }
                },
            ),
        }
    }
}

impl Instructions {
    /// Reads an instruction from its wire format: the tag byte, the bump seed,
    /// and the 16 bytes of the UUID.
    ///
    /// Fails with `Empty` on an empty buffer, with `UnknownInstruction` on a tag
    /// other than 0 and 1 whatever follows it, and with `BadPayload` where a
    /// known tag is not followed by exactly one record.
    pub fn parse(bytes: &[u8]) -> (instruction: Result<Instructions, DispatchError>)
        ensures
            bytes@.len() == 0 ==> instruction == Err::<Instructions, DispatchError>(
                DispatchError::Empty,
            ),
            bytes@.len() > 0 && bytes@[0] > 1 ==> instruction == Err::<Instructions, DispatchError>(
                DispatchError::UnknownInstruction(bytes@[0]),
            ),
            bytes@.len() > 0 && bytes@[0] <= 1 && bytes@.len() != 18 ==> instruction == Err::<
                Instructions,
                DispatchError,
            >(DispatchError::BadPayload),
            match instruction {
                Ok(parsed) => {
                    &&& parse_instruction(bytes@) == Ok::<InstructionsView, DispatchError>(parsed@)
                    &&& valid_record(parsed@.record())
                },
                Err(error) => parse_instruction(bytes@) == Err::<InstructionsView, DispatchError>(
                    error,
                ),
            },
    {
        if bytes.len() == 0 {
            return Err(DispatchError::Empty);
        }
        let tag = bytes[0];
        if tag != CREATE_PDA && tag != CLOSE_PDA {
            return Err(DispatchError::UnknownInstruction(tag));
        }
        if bytes.len() != INSTRUCTION_LEN {
            return Err(DispatchError::BadPayload);
        }
        match PDA::decode(slice_subrange(bytes, 1, INSTRUCTION_LEN)) {
            Err(_) => Err(DispatchError::BadPayload),
            Ok(record) => {
                let (bump, uuid) = record.into_parts();
                if tag == CREATE_PDA {
                    Ok(Instructions::CreatePDA { bump, uuid })
                } else {
                    Ok(Instructions::ClosePDA { bump, uuid })
                }
            },
        }
    }

    /// An instruction with a known tag, a bump seed and 16 bytes of valid UTF-8
    /// parses to the instruction of that tag, holding that bump seed and the text
    /// that the bytes spell.
    pub proof fn lemma_parse_known_tag(tag: u8, bump: u8, uuid: Seq<char>)
        requires
            tag == 0 || tag == 1,
            encode_utf8(uuid).len() == 16,
        ensures
            parse_instruction(seq![tag, bump] + encode_utf8(uuid)) == Ok::<
                InstructionsView,
                DispatchError,
            >(
                if tag == 0 {
                    InstructionsView::CreatePDA { bump, uuid }
                } else {
                    InstructionsView::ClosePDA { bump, uuid }
                },
            ),
    {
        let bytes = seq![tag, bump] + encode_utf8(uuid);
        let record = RecordView { bump, uuid };
        assert(bytes.subrange(1, 18) =~= seq![bump] + encode_utf8(uuid));
        PDA::lemma_decode_encode(record);
    }
}

} // verus!
