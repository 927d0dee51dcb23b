use vstd::arithmetic::power2::pow2;
use vstd::prelude::*;

verus! {

/// `BigInt` of `num_bigint`, carried through as an opaque value.
#[verifier::external_type_specification]
#[verifier::external_body]
pub struct ExBigInt(num_bigint::BigInt);

/// The integer that a `BigInt` holds: its sign and magnitude read as one
/// number.
pub uninterp spec fn bigint_value(n: num_bigint::BigInt) -> int;

/// Bitwise or of two natural numbers, bit by bit from the lowest.
pub open spec fn bit_or(a: nat, b: nat) -> nat
    decreases a + b,
{
    if a == 0 {
        b
    } else if b == 0 {
        a
    } else {
        2 * bit_or(a / 2, b / 2) + if a % 2 == 1 || b % 2 == 1 {
            1nat
        } else {
            0nat
        }
    }
}

/// `BigInt::from` for a `u8`: the big integer with the value of the byte.
#[verifier::external_body]
pub(crate) fn bigint_from_byte(byte: u8) -> (n: num_bigint::BigInt)
    ensures
        bigint_value(n) == byte,
{
    num_bigint::BigInt::from(byte)
}

/// `<<` of `BigInt` by a bit count of type `u8`: multiplies by that power of
/// two, whatever the sign.
#[verifier::external_body]
pub(crate) fn bigint_shl(n: num_bigint::BigInt, bits: u8) -> (shifted: num_bigint::BigInt)
    ensures
        bigint_value(shifted) == bigint_value(n) * pow2(bits as nat),
{
    n << bits
}

/// `|` of two `BigInt`s. Claimed for non-negative operands only, where it is the
/// bitwise or of the two magnitudes.
#[verifier::external_body]
pub(crate) fn bigint_or(
    a: num_bigint::BigInt,
    b: num_bigint::BigInt,
) -> (joined: num_bigint::BigInt)
    requires
        bigint_value(a) >= 0,
        bigint_value(b) >= 0,
    ensures
        bigint_value(joined) == bit_or(bigint_value(a) as nat, bigint_value(b) as nat),
{
    a | b
}

} // verus!
