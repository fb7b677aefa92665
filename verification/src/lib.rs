//! Modular-arithmetic and secure-random-sampling primitives underlying
//! cryptographic prime and safe-prime generation.
//!
//! The fixed-width big-integer representation and its elementary
//! operations come from the `crypto_bigint` crate through the trusted
//! boundary in [`bigint`]; everything built on them — widened modular
//! multiplication, modular exponentiation, bit tests, unbiased range and
//! exact-bit-length sampling, and the bounded random-sequence generator —
//! is verified. None of the arithmetic is constant-time.

use vstd::prelude::*;

pub mod bigint;
pub mod compat;
pub mod error;
pub mod randoms;
pub mod safe_prime;

verus! {

/// Minimum bit length the safe-prime front door accepts.
pub const MIN_BIT_LENGTH: usize = 128;

} // verus!
