use big_integer::{BigInteger, BitVector};

/// Reads a bit vector as a number: the low 128 bits, and whether any higher bit is set.
fn decode(v: &BitVector) -> (u128, Vec<bool>) {
    let bits = v.get_data();
    let mut low: u128 = 0;
    let mut high = Vec::new();
    for (i, b) in bits.iter().enumerate() {
        if i < 128 {
            if *b {
                low |= 1u128 << i;
            }
        } else {
            high.push(*b);
        }
    }
    (low, high)
}

#[test]
fn new_has_128_bits() {
    for n in [0u128, 1, 10, 255, 256, u64::MAX as u128, u128::MAX] {
        let x = BigInteger::new(n);
        assert_eq!(x.data.get_length(), 128);
        assert_eq!(decode(&x.data), (n, vec![]));
    }
}

#[test]
fn new_puts_the_lowest_bit_first() {
    let x = BigInteger::new(6);
    let bits = x.data.get_data();
    assert_eq!(bits[0], false);
    assert_eq!(bits[1], true);
    assert_eq!(bits[2], true);
    assert!(bits[3..].iter().all(|b| !*b));
    let top = BigInteger::new(1u128 << 127);
    assert_eq!(top.data.get_bit(127), true);
    assert_eq!(top.data.get_bit(126), false);
    assert_eq!(top.data.get_bit(0), false);
}

#[test]
fn xor_of_ten_and_six_is_twelve() {
    let x = BigInteger::new(10).data ^ BigInteger::new(6).data;
    let bits = x.get_data();
    assert_eq!(bits.len(), 128);
    assert_eq!(bits[..4].to_vec(), vec![false, false, true, true]);
    assert!(bits[4..].iter().all(|b| !*b));
    assert_eq!(decode(&x), (12, vec![]));
}

#[test]
fn zero_plus_zero_is_zero() {
    let sum = BigInteger::new(0) + BigInteger::new(0);
    assert_eq!(sum.data.get_length(), 129);
    assert_eq!(decode(&sum.data), (0, vec![false]));
}

#[test]
fn sum_of_two_empty_numbers_is_machine_zero() {
    let x = BigInteger { data: BitVector::new() };
    let y = BigInteger { data: BitVector::new() };
    let sum = x + y;
    assert!(sum.data == BigInteger::new(0).data);
    assert_eq!(sum.data.get_length(), 128);
}

#[test]
fn five_plus_three_is_eight() {
    let sum = BigInteger::new(5) + BigInteger::new(3);
    assert_eq!(decode(&sum.data), (8, vec![false]));
    let bits = sum.data.get_data();
    assert_eq!(bits[..4].to_vec(), vec![false, false, false, true]);
}

#[test]
fn max_plus_one_keeps_the_carry() {
    let sum = BigInteger::new(u128::MAX) + BigInteger::new(1);
    assert_eq!(sum.data.get_length(), 129);
    assert_eq!(decode(&sum.data), (0, vec![true]));
}

#[test]
fn max_plus_max() {
    let sum = BigInteger::new(u128::MAX) + BigInteger::new(u128::MAX);
    assert_eq!(decode(&sum.data), (u128::MAX - 1, vec![true]));
}

#[test]
fn sums_that_fit_a_machine_integer() {
    let cases: [(u128, u128); 8] = [
        (0, 1),
        (1, 0),
        (1, 1),
        (7, 9),
        (255, 1),
        (123456789, 987654321),
        (u64::MAX as u128, u64::MAX as u128),
        (u128::MAX / 2, u128::MAX / 2 + 1),
    ];
    for (a, b) in cases {
        let sum = BigInteger::new(a) + BigInteger::new(b);
        assert_eq!(decode(&sum.data), (a + b, vec![false]));
    }
}

#[test]
fn sum_of_numbers_of_different_lengths() {
    let x = BigInteger { data: BitVector::new_from_bools(&[true, true, true]) };
    let y = BigInteger { data: BitVector::new_from_bools(&[true]) };
    let sum = x + y;
    assert_eq!(sum.data.get_data(), vec![false, false, false, true]);
    let x = BigInteger { data: BitVector::new_from_bools(&[true]) };
    let y = BigInteger { data: BitVector::new_from_bools(&[true, false, true, true, false]) };
    let sum = x + y;
    assert_eq!(sum.data.get_data(), vec![false, true, true, true, false, false]);
}

#[test]
fn sum_with_an_empty_number() {
    let x = BigInteger { data: BitVector::new_from_bools(&[true, false, true]) };
    let y = BigInteger { data: BitVector::new() };
    let sum = x + y;
    assert_eq!(sum.data.get_data(), vec![true, false, true, false]);
}

#[test]
fn sum_grows_beyond_any_machine_integer() {
    let mut x = BigInteger::new(u128::MAX);
    for _ in 0..3 {
        let copy = BigInteger { data: x.data.clone() };
        x = x + copy;
    }
    assert_eq!(x.data.get_length(), 131);
    assert_eq!(decode(&x.data), (u128::MAX - 7, vec![true, true, true]));
}
