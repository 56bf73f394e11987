//! Bit sequences read as natural numbers, least significant bit first.

use vstd::prelude::*;
use vstd::arithmetic::power2::{
    pow2, lemma2_to64, lemma2_to64_rest, lemma_pow2_adds, lemma_pow2_pos, lemma_pow2_unfold,
};
use vstd::arithmetic::div_mod::{lemma_mod_breakdown, lemma_small_mod};
use vstd::bits::lemma_u128_shr_is_div;
use crate::bit_vector::{and_bits, bit_or_zero, xor_bits};

verus! {

/// What a bit at position `k` adds to a number: `2^k` if set, nothing if not.
pub open spec fn bit_weight(b: bool, k: nat) -> nat {
    if b {
        pow2(k)
    } else {
        0
    }
}

/// The number written by the lowest `k` bits of `s`, where `s` counts as
/// followed by zeros.
pub open spec fn low_value(s: Seq<bool>, k: nat) -> nat
    decreases k,
{
    if k == 0 {
        0
    } else {
        low_value(s, (k - 1) as nat) + bit_weight(bit_or_zero(s, k - 1), (k - 1) as nat)
    }
}

/// The number that `s` writes in binary, `s[i]` being the coefficient of `2^i`.
pub open spec fn bits_value(s: Seq<bool>) -> nat {
    low_value(s, s.len())
}

/// The 128 bits of a machine integer, lowest first.
pub open spec fn u128_bits(n: u128) -> Seq<bool> {
    Seq::new(128, |i: int| (n >> (i as u128)) & 1u128 != 0)
}

/// `k` bits write a number below `2^k`.
pub proof fn lemma_low_value_bound(s: Seq<bool>, k: nat)
    ensures
        low_value(s, k) < pow2(k),
    decreases k,
{
    if k == 0 {
        lemma_pow2_pos(0);
    } else {
        lemma_low_value_bound(s, (k - 1) as nat);
        lemma_pow2_unfold(k);
    }
}

/// The lowest `k` bits of two sequences that agree there write the same number.
pub proof fn lemma_low_value_agrees(s: Seq<bool>, t: Seq<bool>, k: nat)
    requires
        forall|i: int| 0 <= i < k ==> bit_or_zero(s, i) == bit_or_zero(t, i),
    ensures
        low_value(s, k) == low_value(t, k),
    decreases k,
{
    if k > 0 {
        lemma_low_value_agrees(s, t, (k - 1) as nat);
    }
}

/// Reading past the end of a sequence adds nothing to its value.
pub proof fn lemma_low_value_beyond(s: Seq<bool>, k: nat)
    requires
        k >= s.len(),
    ensures
        low_value(s, k) == bits_value(s),
    decreases k,
{
    if k > s.len() {
        lemma_low_value_beyond(s, (k - 1) as nat);
    }
}

/// Sequences whose lowest `k` bits write the same number agree in those bits.
pub proof fn lemma_low_value_determines_bits(s: Seq<bool>, t: Seq<bool>, k: nat)
    requires
        low_value(s, k) == low_value(t, k),
    ensures
        forall|i: int| 0 <= i < k ==> bit_or_zero(s, i) == bit_or_zero(t, i),
    decreases k,
{
    if k > 0 {
        let j = (k - 1) as nat;
        lemma_low_value_bound(s, j);
        lemma_low_value_bound(t, j);
        lemma_pow2_pos(j);
        lemma_low_value_determines_bits(s, t, j);
    }
}

/// A number has one binary representation of a given length: sequences of
/// the same length that write the same number are the same sequence.
pub proof fn lemma_value_determines_bits(s: Seq<bool>, t: Seq<bool>)
    requires
        s.len() == t.len(),
        bits_value(s) == bits_value(t),
    ensures
        s == t,
{
    lemma_low_value_determines_bits(s, t, s.len());
    assert forall|i: int| 0 <= i < s.len() implies s[i] == t[i] by {
        assert(bit_or_zero(s, i) == bit_or_zero(t, i));
    }
    assert(s =~= t);
}

/// A bit appended at position `s.len()` adds its weight to the value.
pub proof fn lemma_value_push(s: Seq<bool>, b: bool)
    ensures
        bits_value(s.push(b)) == bits_value(s) + bit_weight(b, s.len()),
{
    lemma_low_value_agrees(s, s.push(b), s.len());
}

/// Bit by bit, `p + q == (p ^ q) + 2 * (p & q)`: the identity that ripple-carry
/// addition rests on, here for the lowest `k` bits of sequences of any lengths.
pub proof fn lemma_xor_and_sum(p: Seq<bool>, q: Seq<bool>, k: nat)
    ensures
        low_value(p, k) + low_value(q, k) == low_value(xor_bits(p, q), k) + 2 * low_value(
            and_bits(p, q),
            k,
        ),
    decreases k,
{
    if k > 0 {
        lemma_xor_and_sum(p, q, (k - 1) as nat);
    }
}

/// The bits of a machine integer write that integer.
pub proof fn lemma_u128_bits_value(n: u128)
    ensures
        bits_value(u128_bits(n)) == n,
{
    lemma_u128_low_bits(n, 128);
    lemma2_to64();
    lemma2_to64_rest();
    lemma_pow2_adds(64, 64);
    assert(pow2(128) == 0x1_0000_0000_0000_0000_0000_0000_0000_0000) by (nonlinear_arith)
        requires
            pow2(128) == pow2(64) * pow2(64),
            pow2(64) == 0x1_0000_0000_0000_0000,
    ;
    lemma_small_mod(n as nat, pow2(128));
}

/// The lowest `k` bits of a machine integer write its remainder modulo `2^k`.
proof fn lemma_u128_low_bits(n: u128, k: nat)
    requires
        k <= 128,
    ensures
        low_value(u128_bits(n), k) == (n as nat) % pow2(k),
    decreases k,
{
    if k == 0 {
        lemma_pow2_pos(0);
        lemma2_to64();
    } else {
        let j = (k - 1) as nat;
        lemma_u128_low_bits(n, j);
        let shift: u128 = j as u128;
        let word: u128 = n >> shift;
        lemma_u128_shr_is_div(n, shift);
        assert(word & 1u128 == word % 2u128) by (bit_vector);
        lemma_pow2_pos(j);
        lemma_pow2_unfold(k);
        lemma_mod_breakdown(n as int, pow2(j) as int, 2);
        assert(bit_or_zero(u128_bits(n), j as int) == (word & 1u128 != 0));
        assert(pow2(j) * 2 == pow2(k));
        assert(pow2(j) * ((n as int / pow2(j) as int) % 2) == bit_weight(word & 1u128 != 0, j))
            by (nonlinear_arith)
            requires
                word == n as int / pow2(j) as int,
                (word & 1u128) == word % 2,
                bit_weight(word & 1u128 != 0, j) == (if (word & 1u128) != 0 { pow2(j) } else { 0 }),
        ;
    }
}

} // verus!
