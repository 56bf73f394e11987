//! What holds of the operations on bit vectors and big integers taken
//! together, stated over the bit sequences and numbers they stand for.

use vstd::prelude::*;
use vstd::std_specs::cmp::PartialEqSpec;
use crate::bit_vector::{BitVector, and_bits, bit_or_zero, longer, or_bits, xor_bits};
use crate::big_integer::BigInteger;
use crate::numeral::{u128_bits, lemma_u128_bits_value};

verus! {

/// The bits of `start` followed by those of `bits`, appended one at a time
/// from the first to the last.
pub open spec fn pushed_in_turn(start: Seq<bool>, bits: Seq<bool>) -> Seq<bool>
    decreases bits.len(),
{
    if bits.len() == 0 {
        start
    } else {
        pushed_in_turn(start.push(bits[0]), bits.drop_first())
    }
}

/// Appending bits one at a time amounts to appending them all at once.
pub proof fn lemma_pushed_in_turn(start: Seq<bool>, bits: Seq<bool>)
    ensures
        pushed_in_turn(start, bits) == start + bits,
    decreases bits.len(),
{
    if bits.len() == 0 {
        assert(start + bits =~= start);
    } else {
        lemma_pushed_in_turn(start.push(bits[0]), bits.drop_first());
        assert(start.push(bits[0]) + bits.drop_first() =~= start + bits);
    }
}

/// A vector packed from `bits` reads back as `bits`: if `packed` holds what
/// `BitVector::new_from_bools` makes of `bits`, and `read` is what
/// `get_data` makes of `packed`, then `read` is `bits`, bit for bit.
pub proof fn lemma_round_trip(bits: Seq<bool>, packed: BitVector, read: Seq<bool>)
    requires
        packed@ == bits,
        read == packed@,
    ensures
        read.len() == bits.len(),
        forall|i: int| 0 <= i < bits.len() ==> read[i] == bits[i],
{
}

/// Pushing `bits` one at a time onto an empty vector gives the bits that
/// packing them all at once gives: both vectors then hold exactly `bits`,
/// and so compare equal.
pub proof fn lemma_push_builds_same(bits: Seq<bool>, pushed: BitVector, packed: BitVector)
    requires
        pushed@ == pushed_in_turn(Seq::<bool>::empty(), bits),
        packed@ == bits,
    ensures
        pushed.eq_spec(&packed),
{
    lemma_pushed_in_turn(Seq::<bool>::empty(), bits);
    assert(Seq::<bool>::empty() + bits =~= bits);
}

/// After bit `index` is set to `value` it reads as `value`, every other bit
/// reads as before, and the length is what it was.
pub proof fn lemma_set_then_get(before: Seq<bool>, index: int, value: bool)
    requires
        0 <= index < before.len(),
    ensures
        before.update(index, value).len() == before.len(),
        before.update(index, value)[index] == value,
        forall|j: int|
            0 <= j < before.len() && j != index ==> before.update(index, value)[j] == before[j],
{
}

/// Each bit of a combination is the operator applied to the operands' bits
/// at that place, an operand that has no such bit giving `false`.
pub proof fn lemma_combined_bit(p: Seq<bool>, q: Seq<bool>, i: int)
    requires
        0 <= i < longer(p.len(), q.len()),
    ensures
        xor_bits(p, q).len() == longer(p.len(), q.len()),
        and_bits(p, q).len() == longer(p.len(), q.len()),
        or_bits(p, q).len() == longer(p.len(), q.len()),
        xor_bits(p, q)[i] == (bit_or_zero(p, i) ^ bit_or_zero(q, i)),
        and_bits(p, q)[i] == (bit_or_zero(p, i) && bit_or_zero(q, i)),
        or_bits(p, q)[i] == (bit_or_zero(p, i) || bit_or_zero(q, i)),
{
}

/// Combining with an empty vector: OR and XOR give the other operand back,
/// AND gives as many zeros as the other operand has bits.
pub proof fn lemma_combined_with_empty(p: Seq<bool>)
    ensures
        or_bits(p, Seq::<bool>::empty()) == p,
        or_bits(Seq::<bool>::empty(), p) == p,
        xor_bits(p, Seq::<bool>::empty()) == p,
        xor_bits(Seq::<bool>::empty(), p) == p,
        and_bits(p, Seq::<bool>::empty()) == Seq::new(p.len(), |i: int| false),
        and_bits(Seq::<bool>::empty(), p) == Seq::new(p.len(), |i: int| false),
{
    let e = Seq::<bool>::empty();
    assert(or_bits(p, e) =~= p);
    assert(or_bits(e, p) =~= p);
    assert(xor_bits(p, e) =~= p);
    assert(xor_bits(e, p) =~= p);
    assert(and_bits(p, e) =~= Seq::new(p.len(), |i: int| false));
    assert(and_bits(e, p) =~= Seq::new(p.len(), |i: int| false));
}

/// The sum of the big integers made from two machine integers stands for
/// the sum of the two, which may well exceed what a machine integer holds.
pub proof fn lemma_sum_of_u128(a: u128, b: u128, x: BigInteger, y: BigInteger, sum: BigInteger)
    requires
        x.data@ == u128_bits(a),
        y.data@ == u128_bits(b),
        sum.value() == x.value() + y.value(),
    ensures
        sum.value() == a + b,
{
    lemma_u128_bits_value(a);
    lemma_u128_bits_value(b);
}

} // verus!
