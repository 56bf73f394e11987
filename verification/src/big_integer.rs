//! Natural numbers of any size, held as bit vectors.

use vstd::prelude::*;
use vstd::arithmetic::power2::lemma_pow2_unfold;
use crate::bit_vector::{BitVector, and_bits, bit_or_zero, longer, xor_bits};
use crate::numeral::{
    bit_weight, bits_value, low_value, u128_bits, lemma_low_value_beyond, lemma_low_value_bound,
    lemma_u128_bits_value, lemma_value_push, lemma_xor_and_sum,
};

verus! {

/// A natural number of practically arbitrary size.
///
/// `data` holds the number in binary, least significant bit first: bit `i`
/// is the coefficient of `2^i`. Leading zeros are allowed, so one number has
/// many representations.
#[derive(Debug)]
pub struct BigInteger {
    pub data: BitVector,
}

impl BigInteger {
    /// The number that this value stands for.
    pub open spec fn value(&self) -> nat {
        bits_value(self.data@)
    }

    /// Creates a big integer from a `u128`. The result always has 128 bits,
    /// however small the number.
    pub fn new(number: u128) -> (r: BigInteger)
        ensures
            r.data@ == u128_bits(number),
            r.value() == number,
    {
        let mut bits: Vec<bool> = Vec::with_capacity(128);
        let mut shift: u128 = 0;
        while shift < 128
            invariant
                shift <= 128,
                bits@ == u128_bits(number).subrange(0, shift as int),
            decreases 128 - shift,
        {
            bits.push((number >> shift) & 1u128 != 0);
            proof {
                assert(bits@ =~= u128_bits(number).subrange(0, shift + 1));
            }
            shift = shift + 1;
        }
        proof {
            assert(bits@ =~= u128_bits(number));
            lemma_u128_bits_value(number);
        }
        BigInteger { data: BitVector::new_from_bools(bits.as_slice()) }
    }
}

/// Number of bits of a sum: one more than the longer operand has, or the
/// 128 bits of a machine zero where neither operand has any.
pub open spec fn sum_length(m: nat, n: nat) -> nat {
    if longer(m, n) == 0 {
        128
    } else {
        longer(m, n) + 1
    }
}

impl core::ops::Add for BigInteger {
    type Output = BigInteger;

    /// Ripple-carry addition. With `x = self ^ rhs` and `a = self & rhs`
    /// the sum is `x + 2 * a`, which is added up bit by bit with one carry.
    ///
    /// The result stands for the sum of the operands and has one bit more
    /// than the longer of them, so nothing is ever cut off. Two operands
    /// without any bits give the 128 zero bits of `BigInteger::new(0)`.
    /// What the operands must meet is `add_req`.
    fn add(self, rhs: Self) -> (r: BigInteger)
        ensures
            r.value() == self.value() + rhs.value(),
            r.data@.len() == sum_length(self.data@.len(), rhs.data@.len()),
            longer(self.data@.len(), rhs.data@.len()) == 0 ==> r.data@ == u128_bits(0),
    {
        let ghost p = self.data@;
        let ghost q = rhs.data@;
        let xor = self.data.clone() ^ rhs.data.clone();
        let and = self.data & rhs.data;
        let length: usize = xor.get_length();
        if length == 0 {
            proof {
                assert(bits_value(p) == 0);
                assert(bits_value(q) == 0);
            }
            return BigInteger::new(0);
        }
        let mut res = BitVector::new();
        let mut carry = false;
        res.push(xor.get_bit(0));
        proof {
            lemma_value_push(Seq::<bool>::empty(), xor@[0]);
            assert(low_value(xor@, 1) == low_value(xor@, 0) + bit_weight(bit_or_zero(xor@, 0), 0));
        }
        let mut index: usize = 0;
        while index < length
            invariant
                xor@ == xor_bits(p, q),
                and@ == and_bits(p, q),
                length == longer(p.len(), q.len()),
                length < usize::MAX,
                index <= length,
                res@.len() == index + 1,
                bits_value(res@) + bit_weight(carry, (index + 1) as nat) == low_value(
                    xor@,
                    (index + 1) as nat,
                ) + 2 * low_value(and@, index as nat),
            decreases length - index,
        {
            let x: bool = if index + 1 < length {
                xor.get_bit(index + 1)
            } else {
                false
            };
            let a: bool = and.get_bit(index);
            let digit_sum: u8 = bit_count(x) + bit_count(a) + bit_count(carry);
            let digit: bool = digit_sum % 2 == 1;
            proof {
                let i = index as nat;
                lemma_value_push(res@, digit);
                lemma_pow2_unfold(i + 1);
                lemma_pow2_unfold(i + 2);
                assert(low_value(xor@, i + 2) == low_value(xor@, i + 1) + bit_weight(x, i + 1));
                assert(low_value(and@, i + 1) == low_value(and@, i) + bit_weight(a, i));
            }
            res.push(digit);
            carry = digit_sum >= 2;
            index = index + 1;
        }
        proof {
            let top = length as nat;
            lemma_low_value_beyond(xor@, top + 1);
            lemma_low_value_beyond(p, top);
            lemma_low_value_beyond(q, top);
            lemma_xor_and_sum(p, q, top);
            assert(bits_value(res@) + bit_weight(carry, top + 1) == bits_value(p) + bits_value(q));
            // Both operands are below 2^top, so their sum is below 2^(top + 1):
            // the loop has written the top bit and no carry is left.
            lemma_low_value_bound(p, top);
            lemma_low_value_bound(q, top);
            lemma_pow2_unfold(top + 1);
        }
        // A carry that were left would be one more bit, never dropped.
        if carry {
            proof {
                lemma_value_push(res@, true);
            }
            res.push(true);
        }
        BigInteger { data: res }
    }
}

/// The sum is stated on `add` itself, over the numbers that the operands
/// stand for. It is not a function of the operands as values.
impl vstd::std_specs::ops::AddSpecImpl for BigInteger {
    open spec fn obeys_add_spec() -> bool {
        false
    }

    /// The sum is one bit longer than the longer operand, and that length
    /// has to fit a `usize`.
    open spec fn add_req(self, rhs: Self) -> bool {
        longer(self.data@.len(), rhs.data@.len()) < usize::MAX
    }

    open spec fn add_spec(self, rhs: Self) -> BigInteger {
        arbitrary()
    }
}

/// A bit as a number: 1 if set, 0 if not.
fn bit_count(b: bool) -> (n: u8)
    ensures
        n == (if b { 1int } else { 0int }),
{
    if b {
        1
    } else {
        0
    }
}

} // verus!
