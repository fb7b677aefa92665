//! Error cases surfaced by the library's public entry points.

use rand::Error as RandError;
use vstd::prelude::*;

verus! {

#[verifier::external_type_specification]
#[verifier::external_body]
pub struct ExRandError(RandError);

/// The two recoverable error cases of the public entry points. Caller
/// contract violations (an empty sampling range, a bit size out of range)
/// are not errors: the preconditions of the sampling primitives exclude
/// them.
#[derive(Debug)]
pub enum Error {
    /// The OS random number generator failed to initialize.
    OsRngInitialization(RandError),
    /// The requested bit length is below the policy minimum.
    BitLength(usize),
}

impl From<RandError> for Error {
    /// Every random-source failure maps to the initialization error case.
    fn from(err: RandError) -> (r: Error) {
        Error::OsRngInitialization(err)
    }
}

impl vstd::std_specs::convert::FromSpecImpl<RandError> for Error {
    open spec fn obeys_from_spec() -> bool {
        true
    }

    open spec fn from_spec(err: RandError) -> Error {
        Error::OsRngInitialization(err)
    }
}

/// Result of the safe-prime front door: a 256-bit value on success.
pub type PrimeResult = core::result::Result<crate::bigint::Uint256, Error>;

} // verus!
