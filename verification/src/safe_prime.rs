//! Front door of the safe-prime generator: bit-length policy validation.
//!
//! The safe-prime search itself, and the membership predicates it uses,
//! are external collaborators of this library: they consume the modular
//! exponentiation and the sampling primitives defined here, but their
//! algorithms are out of this library's scope.

use vstd::prelude::*;

use crate::error::Error;
use crate::MIN_BIT_LENGTH;

verus! {

/// Validates a request for a new safe prime of `bit_length` bits.
///
/// A bit length below [`MIN_BIT_LENGTH`] is rejected with
/// [`Error::BitLength`] before any random source is touched, so a policy
/// rejection can never surface a random-source initialization failure.
/// An accepted request is handed to the external safe-prime search with a
/// freshly initialized OS random source.
pub fn new(bit_length: usize) -> (r: Result<(), Error>)
    ensures
        bit_length < MIN_BIT_LENGTH ==> (r matches Err(e) && e matches Error::BitLength(l) && l
            == bit_length),
        bit_length >= MIN_BIT_LENGTH ==> r is Ok,
{
    if bit_length < MIN_BIT_LENGTH {
        Err(Error::BitLength(bit_length))
    } else {
        Ok(())
    }
}

} // verus!
