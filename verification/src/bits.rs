//! Facts about the bits of a single byte.
//!
//! A byte is read here as eight booleans, bit `k` being the one of weight
//! `2^k`. Everything the packed vector needs to know about `&`, `|`, `!` and
//! `<<` on bytes is stated once in this module.

use vstd::prelude::*;

verus! {

/// Whether bit `k` of `byte` is set. Meaningful for `k < 8`.
pub open spec fn bit_of(byte: u8, k: u8) -> bool {
    byte & (1u8 << k) != 0
}

/// `byte` with bit `k` forced to `value`, all other bits untouched.
pub open spec fn with_bit(byte: u8, k: u8, value: bool) -> u8 {
    if value {
        byte | (1u8 << k)
    } else {
        byte & !(1u8 << k)
    }
}

/// Writing bit `k` makes it read back as written and leaves the seven
/// others as they were.
pub proof fn lemma_with_bit(byte: u8, k: u8, value: bool, j: u8)
    requires
        k < 8,
        j < 8,
    ensures
        bit_of(with_bit(byte, k, value), j) == (if j == k {
            value
        } else {
            bit_of(byte, j)
        }),
{
    assert(k < 8 && j < 8 ==> ((byte | (1u8 << k)) & (1u8 << j) != 0) == (j == k || (byte & (1u8
        << j) != 0))) by (bit_vector);
    assert(k < 8 && j < 8 ==> ((byte & !(1u8 << k)) & (1u8 << j) != 0) == (j != k && (byte & (1u8
        << j) != 0))) by (bit_vector);
}

/// Reads bit `k` of `byte`.
pub fn read_bit(byte: u8, k: u8) -> (b: bool)
    requires
        k < 8,
    ensures
        b == bit_of(byte, k),
{
    byte & (1u8 << k) != 0
}

/// Returns `byte` with bit `k` set to `value`, whatever it was before.
pub fn write_bit(byte: u8, k: u8, value: bool) -> (r: u8)
    requires
        k < 8,
    ensures
        r == with_bit(byte, k, value),
        forall|j: u8| j < 8 ==> #[trigger] bit_of(r, j) == (if j == k {
            value
        } else {
            bit_of(byte, j)
        }),
{
    proof {
        assert forall|j: u8| j < 8 implies #[trigger] bit_of(with_bit(byte, k, value), j) == (if j
            == k {
            value
        } else {
            bit_of(byte, j)
        }) by {
            lemma_with_bit(byte, k, value, j);
        }
    }
    if value {
        byte | (1u8 << k)
    } else {
        byte & !(1u8 << k)
    }
}

} // verus!
