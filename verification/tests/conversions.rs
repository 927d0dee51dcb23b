use num_bigint::{BigInt, Sign};
use solana_helpers::helpers::conversions::Conversions;

#[test]
fn vec_to_array_pads_a_short_input_with_zeros() {
    let array = Conversions::vec_to_array(&[1, 2, 3]);
    let mut expected = [0u8; 32];
    expected[0] = 1;
    expected[1] = 2;
    expected[2] = 3;
    assert_eq!(array, expected);
}

#[test]
fn vec_to_array_of_nothing_is_all_zero() {
    assert_eq!(Conversions::vec_to_array(&[]), [0u8; 32]);
}

#[test]
fn vec_to_array_keeps_exactly_32_bytes() {
    let input: Vec<u8> = (1..=32).collect();
    let array = Conversions::vec_to_array(&input);
    assert_eq!(array.to_vec(), input);
}

#[test]
fn vec_to_array_uses_only_the_first_32_bytes() {
    let input: Vec<u8> = (0..40).collect();
    let array = Conversions::vec_to_array(&input);
    assert_eq!(array.to_vec(), input[..32].to_vec());
}

#[test]
fn change_endianness_reverses_each_chunk() {
    let input: Vec<u8> = (0..64).collect();
    let mut expected: Vec<u8> = (0..32).rev().collect();
    expected.extend((32..64).rev());
    assert_eq!(Conversions::change_endianness(&input), expected);
}

#[test]
fn change_endianness_reverses_a_short_last_chunk_as_it_is() {
    let input: Vec<u8> = (0..40).collect();
    let mut expected: Vec<u8> = (0..32).rev().collect();
    expected.extend((32..40).rev());
    assert_eq!(Conversions::change_endianness(&input), expected);
}

#[test]
fn change_endianness_of_less_than_a_chunk() {
    assert_eq!(Conversions::change_endianness(&[1, 2, 3]), vec![3, 2, 1]);
    assert_eq!(Conversions::change_endianness(&[]), Vec::<u8>::new());
}

#[test]
fn change_endianness_twice_is_the_identity() {
    let input: Vec<u8> = (0..=255).chain(0..77).collect();
    let once = Conversions::change_endianness(&input);
    assert_ne!(once, input);
    assert_eq!(Conversions::change_endianness(&once), input);
}

#[test]
fn number_array_to_bigint_reads_big_endian() {
    assert_eq!(Conversions::number_array_to_bigint(&[1, 2], false), BigInt::from(258));
    assert_eq!(
        Conversions::number_array_to_bigint(&[0x12, 0x34, 0x56, 0x78, 0x9a], false),
        BigInt::from(0x12_3456_789au64)
    );
}

#[test]
fn number_array_to_bigint_reversed_reads_little_endian() {
    assert_eq!(Conversions::number_array_to_bigint(&[1, 2], true), BigInt::from(513));
    assert_eq!(Conversions::number_array_to_bigint(&[0xff, 0, 0], true), BigInt::from(255));
}

#[test]
fn number_array_to_bigint_of_nothing_is_zero() {
    assert_eq!(Conversions::number_array_to_bigint(&[], false), BigInt::from(0));
    assert_eq!(Conversions::number_array_to_bigint(&[], true), BigInt::from(0));
    assert_eq!(Conversions::number_array_to_bigint(&[0, 0, 0], false), BigInt::from(0));
}

#[test]
fn number_array_to_bigint_goes_beyond_machine_words() {
    let bytes: Vec<u8> = (1..=40).collect();
    assert_eq!(
        Conversions::number_array_to_bigint(&bytes, false),
        BigInt::from_bytes_be(Sign::Plus, &bytes)
    );
    assert_eq!(
        Conversions::number_array_to_bigint(&bytes, true),
        BigInt::from_bytes_le(Sign::Plus, &bytes)
    );
    let top = Conversions::number_array_to_bigint(&[1, 0, 0, 0, 0, 0, 0, 0, 0], false);
    assert_eq!(top, BigInt::from(u64::MAX) + 1);
}
