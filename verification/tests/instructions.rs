use solana_helpers::errors::DispatchError;
use solana_helpers::program::instructions::{Instructions, CLOSE_PDA, CREATE_PDA, INSTRUCTION_LEN};

fn wire(tag: u8, bump: u8, uuid: &[u8]) -> Vec<u8> {
    let mut bytes = vec![tag, bump];
    bytes.extend_from_slice(uuid);
    bytes
}

#[test]
fn parse_of_nothing_is_empty() {
    assert_eq!(Instructions::parse(&[]), Err(DispatchError::Empty));
}

#[test]
fn parse_refuses_an_unknown_tag_whatever_follows() {
    assert_eq!(Instructions::parse(&[2]), Err(DispatchError::UnknownInstruction(2)));
    assert_eq!(
        Instructions::parse(&wire(2, 5, b"abcdefghijklmnop")),
        Err(DispatchError::UnknownInstruction(2))
    );
    assert_eq!(
        Instructions::parse(&wire(255, 5, &[0xff; 40])),
        Err(DispatchError::UnknownInstruction(255))
    );
}

#[test]
fn parse_reads_create_pda() {
    assert_eq!(
        Instructions::parse(&wire(0, 5, b"abcdefghijklmnop")),
        Ok(Instructions::CreatePDA { bump: 5, uuid: "abcdefghijklmnop".to_string() })
    );
}

#[test]
fn parse_reads_close_pda() {
    assert_eq!(
        Instructions::parse(&wire(1, 5, b"abcdefghijklmnop")),
        Ok(Instructions::ClosePDA { bump: 5, uuid: "abcdefghijklmnop".to_string() })
    );
}

#[test]
fn parse_takes_18_bytes() {
    assert_eq!(INSTRUCTION_LEN, 18);
    assert_eq!(wire(CREATE_PDA, 5, b"abcdefghijklmnop").len(), INSTRUCTION_LEN);
    assert_eq!((CREATE_PDA, CLOSE_PDA), (0, 1));
}

#[test]
fn parse_reads_any_bump_and_any_text() {
    assert_eq!(
        Instructions::parse(&wire(0, 255, "ääääääää".as_bytes())),
        Ok(Instructions::CreatePDA { bump: 255, uuid: "ääääääää".to_string() })
    );
    assert_eq!(
        Instructions::parse(&wire(1, 0, &[0; 16])),
        Ok(Instructions::ClosePDA { bump: 0, uuid: "\0".repeat(16) })
    );
}

#[test]
fn parse_refuses_a_payload_of_another_length() {
    for tag in [0, 1] {
        assert_eq!(Instructions::parse(&[tag]), Err(DispatchError::BadPayload));
        assert_eq!(Instructions::parse(&[tag, 5]), Err(DispatchError::BadPayload));
        assert_eq!(
            Instructions::parse(&wire(tag, 5, b"abcdefghijklmno")),
            Err(DispatchError::BadPayload)
        );
        assert_eq!(
            Instructions::parse(&wire(tag, 5, b"abcdefghijklmnopq")),
            Err(DispatchError::BadPayload)
        );
    }
}

#[test]
fn parse_refuses_a_uuid_that_is_not_utf8() {
    let mut bytes = wire(0, 5, b"abcdefghijklmnop");
    bytes[17] = 0x80;
    assert_eq!(Instructions::parse(&bytes), Err(DispatchError::BadPayload));
    bytes[0] = 1;
    assert_eq!(Instructions::parse(&bytes), Err(DispatchError::BadPayload));
}
