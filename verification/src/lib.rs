//! Packed bit vectors and arbitrary-precision natural numbers built on them.

mod bits;
pub mod bit_vector;
pub mod numeral;
pub mod big_integer;
pub mod laws;

pub use bit_vector::BitVector;
pub use big_integer::BigInteger;
