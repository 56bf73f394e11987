//! A growable sequence of booleans stored eight to a byte.

use vstd::prelude::*;
use crate::bits::{bit_of, read_bit, write_bit};

verus! {

/// A vector of bits, packed least-significant-bit first: bit `i` of the
/// vector is bit `i % 8` of byte `i / 8`.
///
/// The view of a `BitVector` is the sequence of its bits. Bits of the last
/// byte that lie beyond the length carry no meaning and never show in the
/// view.
#[derive(Debug)]
pub struct BitVector {
    data: Vec<u8>,
    length: usize,
}

/// Number of bytes needed to hold `length` bits: `length / 8`, rounded up.
pub open spec fn bytes_for(length: nat) -> nat {
    ((length + 7) / 8) as nat
}

/// The bit of `s` at `i`, or `false` where `s` has no such bit: `s` read
/// as if followed by zeros without end.
pub open spec fn bit_or_zero(s: Seq<bool>, i: int) -> bool {
    if 0 <= i < s.len() {
        s[i]
    } else {
        false
    }
}

/// The longer of two lengths.
pub open spec fn longer(m: nat, n: nat) -> nat {
    if m >= n {
        m
    } else {
        n
    }
}

/// Bitwise AND of two bit sequences, the shorter one extended by zeros.
pub open spec fn and_bits(p: Seq<bool>, q: Seq<bool>) -> Seq<bool> {
    Seq::new(longer(p.len(), q.len()), |i: int| bit_or_zero(p, i) && bit_or_zero(q, i))
}

/// Bitwise OR of two bit sequences, the shorter one extended by zeros.
pub open spec fn or_bits(p: Seq<bool>, q: Seq<bool>) -> Seq<bool> {
    Seq::new(longer(p.len(), q.len()), |i: int| bit_or_zero(p, i) || bit_or_zero(q, i))
}

/// Bitwise XOR of two bit sequences, the shorter one extended by zeros.
pub open spec fn xor_bits(p: Seq<bool>, q: Seq<bool>) -> Seq<bool> {
    Seq::new(longer(p.len(), q.len()), |i: int| bit_or_zero(p, i) != bit_or_zero(q, i))
}

/// A boolean operation of two arguments.
#[derive(Clone, Copy)]
enum BitOp {
    And,
    Or,
    Xor,
}

impl BitOp {
    spec fn spec_apply(self, a: bool, b: bool) -> bool {
        match self {
            BitOp::And => a && b,
            BitOp::Or => a || b,
            BitOp::Xor => a != b,
        }
    }

    fn apply(self, a: bool, b: bool) -> (r: bool)
        ensures
            r == self.spec_apply(a, b),
    {
        match self {
            BitOp::And => a && b,
            BitOp::Or => a || b,
            BitOp::Xor => a != b,
        }
    }

    /// The operation applied position by position, the shorter sequence
    /// extended by zeros.
    spec fn combined(self, p: Seq<bool>, q: Seq<bool>) -> Seq<bool> {
        Seq::new(
            longer(p.len(), q.len()),
            |i: int| self.spec_apply(bit_or_zero(p, i), bit_or_zero(q, i)),
        )
    }
}

impl View for BitVector {
    type V = Seq<bool>;

    closed spec fn view(&self) -> Seq<bool> {
        Seq::new(self.length as nat, |i: int| bit_of(self.data@[i / 8], (i % 8) as u8))
    }
}

impl BitVector {
    /// The buffer is exactly as long as the bits need.
    #[verifier::type_invariant]
    spec fn well_formed(&self) -> bool {
        self.data@.len() == bytes_for(self.length as nat)
    }

    /// Number of bytes in the buffer that holds the bits.
    pub closed spec fn buffer_len(&self) -> nat {
        self.data@.len()
    }

    /// Creates a new empty bit vector.
    pub fn new() -> (r: Self)
        ensures
            r@ == Seq::<bool>::empty(),
            r.buffer_len() == 0,
    {
        let r = Self { data: Vec::new(), length: 0 };
        assert(r@ =~= Seq::<bool>::empty());
        r
    }

    /// Packs a slice of booleans, `bits[i]` becoming bit `i` of the vector.
    pub fn new_from_bools(bits: &[bool]) -> (r: Self)
        ensures
            r@ == bits@,
            r.buffer_len() == bytes_for(bits@.len()),
    {
        let n: usize = bits.len();
        let full: usize = n / 8;
        let byte_count: usize = if n % 8 != 0 {
            full + 1
        } else {
            full
        };
        let mut data: Vec<u8> = Vec::with_capacity(byte_count);
        let mut byte_index: usize = 0;
        while byte_index < byte_count
            invariant
                n == bits@.len(),
                byte_count == bytes_for(n as nat),
                byte_index <= byte_count,
                data@.len() == byte_index,
                forall|i: int|
                    0 <= i < n && i / 8 < byte_index ==> bit_of(data@[i / 8], (i % 8) as u8)
                        == #[trigger] bits@[i],
            decreases byte_count - byte_index,
        {
            let base: usize = byte_index * 8;
            let mut byte: u8 = 0u8;
            let mut bit_index: u8 = 0;
            while bit_index < 8 && base + (bit_index as usize) < n
                invariant
                    n == bits@.len(),
                    base == byte_index * 8,
                    base < n,
                    bit_index <= 8,
                    base + bit_index <= n,
                    forall|k: u8| k < bit_index ==> #[trigger] bit_of(byte, k) == bits@[base + k],
                decreases 8 - bit_index,
            {
                byte = write_bit(byte, bit_index, bits[base + (bit_index as usize)]);
                bit_index = bit_index + 1;
            }
            data.push(byte);
            proof {
                assert forall|i: int| 0 <= i < n && i / 8 < byte_index + 1 implies bit_of(
                    data@[i / 8],
                    (i % 8) as u8,
                ) == #[trigger] bits@[i] by {
                    if i / 8 == byte_index {
                        let k: u8 = (i % 8) as u8;
                        assert(base + k == i);
                        assert(k < bit_index);
                    }
                }
            }
            byte_index = byte_index + 1;
        }
        let r = Self { data, length: n };
        assert(r@ =~= bits@);
        r
    }

    /// Returns the bits as a vector of booleans, in index order.
    pub fn get_data(&self) -> (bits: Vec<bool>)
        ensures
            bits@ == self@,
    {
        let n: usize = self.get_length();
        let mut bits: Vec<bool> = Vec::with_capacity(n);
        let mut index: usize = 0;
        while index < n
            invariant
                n == self@.len(),
                index <= n,
                bits@ == self@.subrange(0, index as int),
            decreases n - index,
        {
            let bit = self.get_bit(index);
            bits.push(bit);
            proof {
                assert(bits@ =~= self@.subrange(0, index + 1));
            }
            index = index + 1;
        }
        proof {
            assert(bits@ =~= self@);
        }
        bits
    }

    /// Combines two vectors position by position with `op`, reading the
    /// shorter one as extended by zeros.
    fn bit_op(&self, rhs: &Self, op: BitOp) -> (r: BitVector)
        ensures
            r@ == op.combined(self@, rhs@),
    {
        let m: usize = self.get_length();
        let n: usize = rhs.get_length();
        let length: usize = if m >= n {
            m
        } else {
            n
        };
        let mut bits: Vec<bool> = Vec::with_capacity(length);
        let mut index: usize = 0;
        while index < length
            invariant
                m == self@.len(),
                n == rhs@.len(),
                length == longer(self@.len(), rhs@.len()),
                index <= length,
                bits@ == op.combined(self@, rhs@).subrange(0, index as int),
            decreases length - index,
        {
            let a = if index < m {
                self.get_bit(index)
            } else {
                false
            };
            let b = if index < n {
                rhs.get_bit(index)
            } else {
                false
            };
            bits.push(op.apply(a, b));
            proof {
                assert(bits@ =~= op.combined(self@, rhs@).subrange(0, index + 1));
            }
            index = index + 1;
        }
        proof {
            assert(bits@ =~= op.combined(self@, rhs@));
        }
        BitVector::new_from_bools(bits.as_slice())
    }

    /// Returns the number of bits held.
    pub fn get_length(&self) -> (n: usize)
        ensures
            n == self@.len(),
    {
        self.length
    }

    /// Returns the bit at `index`.
    pub fn get_bit(&self, index: usize) -> (b: bool)
        requires
            index < self@.len(),
        ensures
            b == self@[index as int],
    {
        proof {
            use_type_invariant(self);
        }
        let byte_index: usize = index / 8;
        let bit_index: u8 = (index % 8) as u8;
        read_bit(self.data[byte_index], bit_index)
    }

    /// Sets the bit at `index` to `value`, in either direction.
    pub fn set_bit(&mut self, index: usize, value: bool)
        requires
            index < old(self)@.len(),
        ensures
            final(self)@ == old(self)@.update(index as int, value),
            final(self).buffer_len() == old(self).buffer_len(),
    {
        proof {
            use_type_invariant(&*self);
        }
        let byte_index: usize = index / 8;
        let bit_index: u8 = (index % 8) as u8;
        let updated: u8 = write_bit(self.data[byte_index], bit_index, value);
        self.data[byte_index] = updated;
        proof {
            assert(self@ =~= old(self)@.update(index as int, value));
        }
    }

    /// Appends one bit. The buffer grows by a byte only when every byte
    /// it has is full.
    pub fn push(&mut self, value: bool)
        requires
            old(self)@.len() < usize::MAX,
        ensures
            final(self)@ == old(self)@.push(value),
            final(self).buffer_len() == bytes_for(final(self)@.len()),
            final(self).buffer_len() == old(self).buffer_len() + (if old(self)@.len() % 8 == 0 {
                1nat
            } else {
                0nat
            }),
    {
        proof {
            use_type_invariant(&*self);
        }
        let mut taken = BitVector::new();
        core::mem::swap(self, &mut taken);
        let BitVector { mut data, length } = taken;
        let bit_index: u8 = (length % 8) as u8;
        if bit_index != 0 {
            let last: usize = data.len() - 1;
            let updated: u8 = write_bit(data[last], bit_index, value);
            data[last] = updated;
        } else {
            data.push(write_bit(0u8, 0u8, value));
        }
        *self = BitVector { data, length: length + 1 };
        proof {
            assert(self@ =~= old(self)@.push(value));
        }
    }
}

impl Clone for BitVector {
    fn clone(&self) -> (r: Self)
        ensures
            r@ == self@,
    {
        proof {
            use_type_invariant(self);
        }
        let r = BitVector { data: self.data.clone(), length: self.length };
        proof {
            assert(r.data@ =~= self.data@);
            assert(r@ =~= self@);
        }
        r
    }
}

impl PartialEq for BitVector {
    /// Two vectors are equal when they hold the same bits; what the last
    /// byte holds beyond the length plays no part.
    fn eq(&self, other: &Self) -> (r: bool) {
        let n: usize = self.get_length();
        if n != other.get_length() {
            return false;
        }
        let mut index: usize = 0;
        while index < n
            invariant
                n == self@.len(),
                n == other@.len(),
                index <= n,
                self@.subrange(0, index as int) == other@.subrange(0, index as int),
            decreases n - index,
        {
            if self.get_bit(index) != other.get_bit(index) {
                return false;
            }
            proof {
                assert(self@.subrange(0, index + 1) =~= self@.subrange(0, index as int).push(
                    self@[index as int],
                ));
                assert(other@.subrange(0, index + 1) =~= other@.subrange(0, index as int).push(
                    other@[index as int],
                ));
            }
            index = index + 1;
        }
        proof {
            assert(self@ =~= self@.subrange(0, n as int));
            assert(other@ =~= other@.subrange(0, n as int));
        }
        true
    }
}

impl vstd::std_specs::cmp::PartialEqSpecImpl for BitVector {
    open spec fn obeys_eq_spec() -> bool {
        true
    }

    open spec fn eq_spec(&self, other: &Self) -> bool {
        self@ == other@
    }
}

impl core::ops::BitAnd for BitVector {
    type Output = BitVector;

    /// `self & rhs`: bit `i` of the result is set where both operands have
    /// it set; the result is as long as the longer operand.
    fn bitand(self, rhs: Self) -> (r: BitVector)
        ensures
            r@ == and_bits(self@, rhs@),
    {
        let r = self.bit_op(&rhs, BitOp::And);
        proof {
            assert(r@ =~= and_bits(self@, rhs@));
        }
        r
    }
}

/// The result of the operator is stated on the method itself, over views.
/// It is not a function of the operands as values: vectors that hold the
/// same bits may differ in what lies beyond their length.
impl vstd::std_specs::ops::BitAndSpecImpl for BitVector {
    open spec fn obeys_bitand_spec() -> bool {
        false
    }

    open spec fn bitand_req(self, rhs: Self) -> bool {
        true
    }

    open spec fn bitand_spec(self, rhs: Self) -> BitVector {
        arbitrary()
    }
}

impl core::ops::BitOr for BitVector {
    type Output = BitVector;

    /// `self | rhs`: bit `i` of the result is set where either operand has
    /// it set; the result is as long as the longer operand.
    fn bitor(self, rhs: Self) -> (r: BitVector)
        ensures
            r@ == or_bits(self@, rhs@),
    {
        let r = self.bit_op(&rhs, BitOp::Or);
        proof {
            assert(r@ =~= or_bits(self@, rhs@));
        }
        r
    }
}

/// The result of the operator is stated on the method itself, over views.
/// It is not a function of the operands as values: vectors that hold the
/// same bits may differ in what lies beyond their length.
impl vstd::std_specs::ops::BitOrSpecImpl for BitVector {
    open spec fn obeys_bitor_spec() -> bool {
        false
    }

    open spec fn bitor_req(self, rhs: Self) -> bool {
        true
    }

    open spec fn bitor_spec(self, rhs: Self) -> BitVector {
        arbitrary()
    }
}

impl core::ops::BitXor for BitVector {
    type Output = BitVector;

    /// `self ^ rhs`: bit `i` of the result is set where exactly one operand
    /// has it set; the result is as long as the longer operand.
    fn bitxor(self, rhs: Self) -> (r: BitVector)
        ensures
            r@ == xor_bits(self@, rhs@),
    {
        let r = self.bit_op(&rhs, BitOp::Xor);
        proof {
            assert(r@ =~= xor_bits(self@, rhs@));
        }
        r
    }
}

/// The result of the operator is stated on the method itself, over views.
/// It is not a function of the operands as values: vectors that hold the
/// same bits may differ in what lies beyond their length.
impl vstd::std_specs::ops::BitXorSpecImpl for BitVector {
    open spec fn obeys_bitxor_spec() -> bool {
        false
    }

    open spec fn bitxor_req(self, rhs: Self) -> bool {
        true
    }

    open spec fn bitxor_spec(self, rhs: Self) -> BitVector {
        arbitrary()
    }
}

} // verus!
