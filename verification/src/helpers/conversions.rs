use crate::trusted::bigint::{bigint_from_byte, bigint_or, bigint_shl, bigint_value, bit_or};
use vstd::arithmetic::div_mod::{lemma_fundamental_div_mod, lemma_mod_multiples_basic};
use vstd::arithmetic::power2::{lemma2_to64, lemma_pow2_pos, lemma_pow2_unfold, pow2};
use vstd::prelude::*;

verus! {

/// Width of the fixed-size array produced by [`Conversions::vec_to_array`] and of
/// the chunks reversed by [`Conversions::change_endianness`].
pub const WORD: usize = 32;

/// The byte at position `i` of the word built from `bytes`: the input byte while
/// there is one, zero afterwards.
pub open spec fn padded_byte(bytes: Seq<u8>, i: int) -> u8 {
    if i < bytes.len() {
        bytes[i]
    } else {
        0u8
    }
}

/// The number that `bytes` spell in base 256, most significant byte first.
pub open spec fn big_endian_value(bytes: Seq<u8>) -> nat
    decreases bytes.len(),
{
    if bytes.len() == 0 {
        0
    } else {
        256 * big_endian_value(bytes.drop_last()) + bytes.last() as nat
    }
}

/// Where the byte at index `i` comes from when every 32-byte chunk of an input of
/// `len` bytes is reversed; the last chunk may be shorter.
pub open spec fn mirrored_index(i: int, len: int) -> int {
    let start = (i / 32) * 32;
    let end = if start + 32 <= len {
        start + 32
    } else {
        len
    };
    start + (end - 1 - i)
}

/// `bytes` with each 32-byte chunk reversed in place.
pub open spec fn chunks_reversed(bytes: Seq<u8>) -> Seq<u8> {
    Seq::new(bytes.len(), |i: int| bytes[mirrored_index(i, bytes.len() as int)])
}

/// Or-ing a number below `2^k` into a multiple of `2^k` adds it.
proof fn lemma_bit_or_disjoint(a: nat, b: nat, k: nat)
    requires
        a % pow2(k) == 0,
        b < pow2(k),
    ensures
        bit_or(a, b) == a + b,
    decreases k,
{
    if k == 0 {
        lemma2_to64();
    } else if a == 0 || b == 0 {
    } else {
        let p = pow2((k - 1) as nat);
        lemma_pow2_unfold(k);
        lemma_pow2_pos((k - 1) as nat);
        let q = a / (2 * p);
        lemma_fundamental_div_mod(a as int, (2 * p) as int);
        let half = q * p;
        assert(a == 2 * half) by (nonlinear_arith)
            requires
                a == (2 * p) * q,
                half == q * p,
        ;
        lemma_mod_multiples_basic(q as int, p as int);
        lemma_bit_or_disjoint(a / 2, b / 2, (k - 1) as nat);
    }
}

/// Provides utilities for converting between different data formats.
pub struct Conversions;

impl Conversions {
    /// Converts a byte array to a `BigInt`, reading it most significant byte
    /// first, or least significant byte first when `reverse` is set.
    #[must_use]
    pub fn number_array_to_bigint(arr: &[u8], reverse: bool) -> (number: num_bigint::BigInt)
        ensures
            bigint_value(number) == big_endian_value(
                if reverse {
                    arr@.reverse()
                } else {
                    arr@
                },
            ),
    {
        let len = arr.len();
        let ghost digits = if reverse {
            arr@.reverse()
        } else {
            arr@
        };
        let mut acc = bigint_from_byte(0);
        let mut i: usize = 0;
        while i < len
            invariant
                i <= len,
                len == arr@.len(),
                digits.len() == len,
                digits == if reverse {
                    arr@.reverse()
                } else {
                    arr@
                },
                bigint_value(acc) == big_endian_value(digits.take(i as int)),
            decreases len - i,
        {
            let byte = if reverse {
                arr[len - 1 - i]
            } else {
                arr[i]
            };
            let ghost before = bigint_value(acc) as nat;
            let shifted = bigint_shl(acc, 8);
            let low = bigint_from_byte(byte);
            proof {
                lemma2_to64();
                assert(bigint_value(shifted) == before * 256);
                assert((before * 256) % 256 == 0) by (nonlinear_arith);
                lemma_bit_or_disjoint(before * 256, byte as nat, 8);
                assert(digits.take(i + 1).drop_last() =~= digits.take(i as int));
                assert(digits.take(i + 1).last() == byte);
            }
            acc = bigint_or(shifted, low);
            i += 1;
        }
        proof {
            assert(digits.take(len as int) =~= digits);
        }
        acc
    }

    /// Converts a byte slice to a fixed-size 32-byte array.
    ///
    /// A shorter input is zero-filled on the right; of a longer one only the first
    /// 32 bytes are used.
    #[must_use]
    pub fn vec_to_array(vec: &[u8]) -> (array: [u8; 32])
        ensures
            forall|i: int| 0 <= i < 32 ==> array@[i] == padded_byte(vec@, i),
    {
        let mut array = [0u8; 32];
        let len: usize = if vec.len() < WORD {
            vec.len()
        } else {
            WORD
        };
        let mut i: usize = 0;
        while i < len
            invariant
                i <= len <= 32,
                len <= vec@.len(),
                len == vec@.len() || len == 32,
                forall|k: int| 0 <= k < i ==> array@[k] == vec@[k],
                forall|k: int| i <= k < 32 ==> array@[k] == 0u8,
            decreases len - i,
        {
            array[i] = vec[i];
            i += 1;
        }
        array
    }

    /// Changes the endianness of bytes by reversing every 32-byte chunk; a shorter
    /// last chunk is reversed as it is.
    #[must_use]
    pub fn change_endianness(bytes: &[u8]) -> (out: Vec<u8>)
        ensures
            out@ == chunks_reversed(bytes@),
    {
        let len = bytes.len();
        let mut out: Vec<u8> = Vec::new();
        let mut start: usize = 0;
        while start < len
            invariant
                start <= len,
                len == bytes@.len(),
                start % 32 == 0 || start == len,
                out@.len() == start,
                forall|k: int| 0 <= k < start ==> out@[k] == bytes@[mirrored_index(k, len as int)],
            decreases len - start,
        {
            let end: usize = if len - start > WORD {
                start + WORD
            } else {
                len
            };
            let mut j: usize = end;
            while j > start
                invariant
                    start <= j <= end <= len,
                    start < len,
                    start % 32 == 0,
                    end == if start + 32 <= len {
                        start + 32
                    } else {
                        len as int
                    },
                    len == bytes@.len(),
                    out@.len() == start + (end - j),
                    forall|k: int|
                        0 <= k < out@.len() ==> out@[k] == bytes@[mirrored_index(k, len as int)],
                decreases j - start,
            {
                j -= 1;
                proof {
                    let k = out@.len() as int;
                    assert(k / 32 == start as int / 32 && (start as int / 32) * 32 == start)
                        by (nonlinear_arith)
                        requires
                            start <= k < start + 32,
                            start % 32 == 0,
                    ;
                    assert(mirrored_index(k, len as int) == j);
                }
                out.push(bytes[j]);
            }
            start = end;
        }
        proof {
            assert(out@ =~= chunks_reversed(bytes@));
        }
        out
    }

    /// Reversing the chunks twice gives the input back.
    pub proof fn lemma_change_endianness_involutive(bytes: Seq<u8>)
        ensures
            chunks_reversed(chunks_reversed(bytes)) == bytes,
    {
        let len = bytes.len() as int;
        let once = chunks_reversed(bytes);
        assert forall|i: int| 0 <= i < len implies #[trigger] chunks_reversed(once)[i]
            == bytes[i] by {
            let m = mirrored_index(i, len);
            let start = (i / 32) * 32;
            assert(start <= i < start + 32 && start % 32 == 0) by (nonlinear_arith)
                requires
                    start == (i / 32) * 32,
            ;
            assert(m / 32 == i / 32) by (nonlinear_arith)
                requires
                    start <= m < start + 32,
                    start == (i / 32) * 32,
            ;
            assert(mirrored_index(m, len) == i);
        }
        assert(chunks_reversed(once) =~= bytes);
    }
}

} // verus!
