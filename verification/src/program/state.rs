use crate::errors::DecodeError;
use crate::trusted::text::string_from_utf8;
use vstd::prelude::*;
use vstd::slice::{slice_subrange, slice_to_vec};
use vstd::utf8::{
    decode_utf8, decode_utf8_encode_utf8, encode_utf8, encode_utf8_decode_utf8,
    encode_utf8_valid_utf8, is_leading_byte_width_1, partial_valid_utf8_extend_ascii_block,
    valid_utf8,
};

verus! {

/// Bytes of the UUID of a record.
pub const UUID_LEN: usize = 16;

/// Bytes of a stored record: the bump seed, then the UUID.
pub const RECORD_LEN: usize = 17;

/// A record as a mathematical value.
pub struct RecordView {
    pub bump: u8,
    pub uuid: Seq<char>,
}

/// A record is valid when its UUID takes exactly 16 bytes of UTF-8.
pub open spec fn valid_record(record: RecordView) -> bool {
    encode_utf8(record.uuid).len() == 16
}

/// The stored form of a record: the bump seed at offset 0, the UUID after it.
pub open spec fn encode_record(record: RecordView) -> Seq<u8> {
    seq![record.bump] + encode_utf8(record.uuid)
}

/// The record that the first 17 bytes of a buffer hold, or why they hold none.
pub open spec fn decode_record(bytes: Seq<u8>) -> Result<RecordView, DecodeError> {
    if bytes.len() < 17 {
        Err(DecodeError::TooShort)
    } else if !valid_utf8(bytes.subrange(1, 17)) {
        Err(DecodeError::InvalidUtf8)
    } else {
        Ok(RecordView { bump: bytes[0], uuid: decode_utf8(bytes.subrange(1, 17)) })
    }
}

/// The bytes of a UUID of at most 16 bytes, filled up with zero bytes to 16.
pub open spec fn padded_uuid(uuid: Seq<u8>) -> Seq<u8> {
    uuid + Seq::new((16 - uuid.len()) as nat, |i: int| 0u8)
}

/// The record of a program-derived address: the bump seed of the derivation and
/// the UUID it was derived from, which always takes 16 bytes.
#[derive(Debug, PartialEq, Eq)]
pub struct PDA {
    bump: u8,
    uuid: String,
}

impl View for PDA {
    type V = RecordView;

    closed spec fn view(&self) -> RecordView {
        RecordView { bump: self.bump, uuid: self.uuid@ }
    }
}

impl Clone for PDA {
    fn clone(&self) -> (copy: PDA)
        ensures
            copy@ == self@,
    {
        proof {
            use_type_invariant(self);
        }
        PDA { bump: self.bump, uuid: self.uuid.clone() }
    }
}

impl PDA {
    #[verifier::type_invariant]
    spec fn fixed_width(&self) -> bool {
        valid_record(self@)
    }

    /// Makes a record. A UUID of fewer than 16 bytes is filled up with zero
    /// bytes; one of more than 16 bytes is refused.
    pub fn new(bump: u8, uuid: &str) -> (record: Option<PDA>)
        ensures
            record is Some <==> encode_utf8(uuid@).len() <= 16,
            record matches Some(r) ==> {
                &&& valid_record(r@)
                &&& r@.bump == bump
                &&& encode_utf8(r@.uuid) == padded_uuid(encode_utf8(uuid@))
            },
    {
        let given = uuid.as_bytes();
        if given.len() > UUID_LEN {
            return None;
        }
        let mut bytes = slice_to_vec(given);
        while bytes.len() < UUID_LEN
            invariant
                given@.len() <= bytes@.len() <= 16,
                bytes@.subrange(0, given@.len() as int) == given@,
                forall|i: int| given@.len() <= i < bytes@.len() ==> bytes@[i] == 0u8,
            decreases 16 - bytes@.len(),
        {
            bytes.push(0);
            assert(bytes@.subrange(0, given@.len() as int) =~= given@);
        }
        proof {
            encode_utf8_valid_utf8(uuid@);
            assert forall|i: int| given@.len() <= i < 16 implies #[trigger] is_leading_byte_width_1(
                bytes@[i],
            ) by {}
            partial_valid_utf8_extend_ascii_block(bytes@, given@.len() as int, 16);
            assert(bytes@.subrange(0, 16) =~= bytes@);
            decode_utf8_encode_utf8(bytes@);
            assert(bytes@ =~= padded_uuid(given@));
        }
        match string_from_utf8(bytes) {
            Some(uuid) => Some(PDA { bump, uuid }),
            None => unreached(),
        }
    }

    /// The bump seed.
    pub fn bump(&self) -> (bump: u8)
        ensures
            bump == self@.bump,
    {
        self.bump
    }

    /// The UUID, 16 bytes long.
    pub fn uuid(&self) -> (uuid: &str)
        ensures
            uuid@ == self@.uuid,
            valid_record(self@),
    {
        proof {
            use_type_invariant(self);
        }
        self.uuid.as_str()
    }

    /// Whether both records hold the same bump seed and the same UUID.
    pub fn same(&self, other: &PDA) -> (equal: bool)
        ensures
            equal == (self@ == other@),
    {
        self.bump == other.bump && self.uuid == other.uuid
    }

    /// Takes the record apart into bump seed and UUID.
    pub fn into_parts(self) -> (parts: (u8, String))
        ensures
            parts.0 == self@.bump,
            parts.1@ == self@.uuid,
            valid_record(self@),
    {
        proof {
            use_type_invariant(&self);
        }
        (self.bump, self.uuid)
    }

    /// Writes the record in its stored form: the bump seed at offset 0, the 16
    /// bytes of the UUID at offsets 1 to 16.
    pub fn encode(&self) -> (bytes: [u8; 17])
        ensures
            bytes@ == encode_record(self@),
            valid_record(self@),
    {
        proof {
            use_type_invariant(self);
        }
        let uuid = self.uuid.as_str().as_bytes();
        let mut bytes = [0u8; 17];
        bytes[0] = self.bump;
        let mut i: usize = 0;
        while i < UUID_LEN
            invariant
                i <= 16,
                uuid@.len() == 16,
                bytes@[0] == self.bump,
                forall|k: int| 0 <= k < i ==> bytes@[k + 1] == uuid@[k],
            decreases 16 - i,
        {
            bytes[i + 1] = uuid[i];
            i += 1;
        }
        proof {
            assert(bytes@ =~= encode_record(self@));
        }
        bytes
    }

    /// Reads a record from the first 17 bytes of a buffer.
    ///
    /// Fails with `TooShort` on fewer than 17 bytes, and with `InvalidUtf8` where
    /// the 16 bytes of the UUID are not valid UTF-8.
    pub fn decode(bytes: &[u8]) -> (record: Result<PDA, DecodeError>)
        ensures
            bytes@.len() < 17 ==> record == Err::<PDA, DecodeError>(DecodeError::TooShort),
            bytes@.len() >= 17 && !valid_utf8(bytes@.subrange(1, 17)) ==> record == Err::<
                PDA,
                DecodeError,
            >(DecodeError::InvalidUtf8),
            match record {
                Ok(r) => decode_record(bytes@) == Ok::<RecordView, DecodeError>(r@) && valid_record(
                    r@,
                ),
                Err(error) => decode_record(bytes@) == Err::<RecordView, DecodeError>(error),
            },
    {
        if bytes.len() < RECORD_LEN {
            return Err(DecodeError::TooShort);
        }
        let bump = bytes[0];
        let uuid = slice_to_vec(slice_subrange(bytes, 1, RECORD_LEN));
        proof {
            if valid_utf8(uuid@) {
                decode_utf8_encode_utf8(uuid@);
            }
        }
        match string_from_utf8(uuid) {
            Some(uuid) => Ok(PDA { bump, uuid }),
            None => Err(DecodeError::InvalidUtf8),
        }
    }

    /// Decoding what a valid record encodes to gives the record back.
    pub proof fn lemma_decode_encode(record: RecordView)
        requires
            valid_record(record),
        ensures
            decode_record(encode_record(record)) == Ok::<RecordView, DecodeError>(record),
    {
        let bytes = encode_record(record);
        assert(bytes.subrange(1, 17) =~= encode_utf8(record.uuid));
        encode_utf8_valid_utf8(record.uuid);
        encode_utf8_decode_utf8(record.uuid);
    }

    /// A valid record encodes to exactly 17 bytes.
    pub proof fn lemma_encode_len(record: RecordView)
        requires
            valid_record(record),
        ensures
            encode_record(record).len() == 17,
    {
    }

    /// What decodes from a buffer is a valid record, and encodes to the first 17
    /// bytes of the buffer.
    pub proof fn lemma_encode_decode(bytes: Seq<u8>)
        requires
            decode_record(bytes) is Ok,
        ensures
            valid_record(decode_record(bytes)->Ok_0),
            encode_record(decode_record(bytes)->Ok_0) == bytes.subrange(0, 17),
    {
        decode_utf8_encode_utf8(bytes.subrange(1, 17));
        assert(encode_record(decode_record(bytes)->Ok_0) =~= bytes.subrange(0, 17));
    }
}

} // verus!
