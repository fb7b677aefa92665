//! Trusted boundary to the fixed-width big-integer primitives of the
//! `crypto_bigint` crate.
//!
//! The library's logic works at a fixed width: 256-bit operands
//! (`UInt<4>`, four 64-bit limbs) and 512-bit intermediate values
//! (`UInt<8>`) for overflow-free products. Each value is abstracted by
//! the natural number it represents; every wrapper below states, over
//! that abstraction, the arithmetic effect that the crate's source shows
//! for the one call its body makes.

use vstd::arithmetic::power2::pow2;
use vstd::prelude::*;

verus! {

/// A 256-bit unsigned integer of the external big-integer library.
pub type Uint256 = crypto_bigint::UInt<4>;

/// A 512-bit unsigned integer: the double-width counterpart of [`Uint256`].
pub type Uint512 = crypto_bigint::UInt<8>;

#[verifier::external_type_specification]
#[verifier::external_body]
pub struct ExUInt<const LIMBS: usize>(crypto_bigint::UInt<LIMBS>);

/// A non-zero 256-bit unsigned integer.
///
/// Holds a `crypto_bigint::NonZero` value; the wrapper type stands in for
/// it because its declaration carries a trait bound of the outside crate.
#[verifier::external_body]
pub struct NzUint256 {
    inner: crypto_bigint::NonZero<crypto_bigint::UInt<4>>,
}

/// A non-zero 512-bit unsigned integer.
#[verifier::external_body]
pub struct NzUint512 {
    inner: crypto_bigint::NonZero<crypto_bigint::UInt<8>>,
}

/// The natural number a 256-bit unsigned integer represents.
pub uninterp spec fn uint_val(x: Uint256) -> nat;

/// The natural number a 512-bit unsigned integer represents.
pub uninterp spec fn wide_val(x: Uint512) -> nat;

/// The natural number a non-zero 256-bit integer represents.
pub uninterp spec fn nz_val(x: NzUint256) -> nat;

/// The natural number a non-zero 512-bit integer represents.
pub uninterp spec fn nz_wide_val(x: NzUint512) -> nat;

impl NzUint256 {
    /// Wraps a value as a non-zero integer, failing exactly on zero.
    pub fn new(x: Uint256) -> (r: Option<NzUint256>)
        ensures
            (r is Some) == (uint_val(x) != 0),
            r matches Some(nz) ==> nz_val(nz) == uint_val(x) && nz_val(nz) < pow2(256),
    {
        nonzero_new(x)
    }
}

/// Relies on `From<NonZeroU32> for NonZero<UInt>`: zero-extension keeps
/// the value, and hence the non-zero invariant.
#[verifier::external_body]
pub fn promote_corenz(x: u32) -> (r: NzUint256)
    requires
        x != 0,
    ensures
        nz_val(r) == x as nat,
{
    let nz = core::num::NonZeroU32::new(x).unwrap();
    NzUint256 { inner: nz.into() }
}

/// Relies on `UInt::ZERO`: the additive identity.
#[verifier::external_body]
pub(crate) fn uint_zero() -> (r: Uint256)
    ensures
        uint_val(r) == 0,
{
    crypto_bigint::UInt::<4>::ZERO
}

/// Relies on `UInt::ONE`: the multiplicative identity.
#[verifier::external_body]
pub(crate) fn uint_one() -> (r: Uint256)
    ensures
        uint_val(r) == 1,
{
    crypto_bigint::UInt::<4>::ONE
}

/// Relies on `From<u64> for UInt`: embeds a machine word.
#[verifier::external_body]
pub(crate) fn uint_from_u64(x: u64) -> (r: Uint256)
    ensures
        uint_val(r) == x as nat,
{
    crypto_bigint::UInt::from(x)
}

/// Relies on `UInt`'s `PartialEq`: limb-wise equality, which coincides
/// with equality of the represented numbers.
#[verifier::external_body]
pub(crate) fn uint_eq(x: &Uint256, y: &Uint256) -> (r: bool)
    ensures
        r == (uint_val(*x) == uint_val(*y)),
{
    x == y
}

/// Relies on `UInt::bits_vartime`: the number of bits needed to represent
/// the value, 0 for the value 0.
#[verifier::external_body]
pub(crate) fn uint_bits(x: &Uint256) -> (r: usize)
    ensures
        r <= 256,
        uint_val(*x) < pow2(r as nat),
        (r == 0) == (uint_val(*x) == 0),
        r > 0 ==> pow2((r - 1) as nat) <= uint_val(*x),
{
    x.bits_vartime()
}

/// Relies on `Shr for &UInt`: shifts right, discarding low bits; the
/// result is the quotient by the corresponding power of two.
#[verifier::external_body]
pub(crate) fn uint_shr(x: &Uint256, n: usize) -> (r: Uint256)
    ensures
        uint_val(r) == uint_val(*x) / pow2(n as nat),
        uint_val(r) < pow2(256),
{
    x >> n
}

/// Relies on `Shl for &UInt`: shifts left, truncating at the fixed width;
/// a shift by the full width or more gives 0.
#[verifier::external_body]
pub(crate) fn uint_shl(x: &Uint256, n: usize) -> (r: Uint256)
    ensures
        uint_val(r) == if n >= 256 {
            0nat
        } else {
            (uint_val(*x) * pow2(n as nat)) % pow2(256)
        },
        uint_val(r) < pow2(256),
{
    x << n
}

/// Relies on `Integer::is_odd` for `UInt`: the parity of the value.
#[verifier::external_body]
pub(crate) fn uint_is_odd(x: &Uint256) -> (r: bool)
    ensures
        r == (uint_val(*x) % 2 == 1),
{
    crypto_bigint::Integer::is_odd(x).into()
}

/// Relies on `BitOr for UInt`. Stated for a mask holding a single set bit
/// and an operand below the next power of two: the or either leaves the
/// operand unchanged (its mask bit was set) or adds the mask.
#[verifier::external_body]
pub(crate) fn uint_or_single_bit(x: &Uint256, mask: &Uint256) -> (r: Uint256)
    requires
        exists|k: nat| uint_val(*mask) == #[trigger] pow2(k) && uint_val(*x) < pow2(k + 1),
    ensures
        uint_val(r) == if uint_val(*x) >= uint_val(*mask) {
            uint_val(*x)
        } else {
            uint_val(*x) + uint_val(*mask)
        },
{
    *x | *mask
}

/// Relies on `UInt::saturating_add`: the exact sum, or the maximum
/// representable value when the sum does not fit.
#[verifier::external_body]
pub(crate) fn uint_saturating_add(x: &Uint256, y: &Uint256) -> (r: Uint256)
    ensures
        uint_val(r) == if uint_val(*x) + uint_val(*y) < pow2(256) {
            uint_val(*x) + uint_val(*y)
        } else {
            (pow2(256) - 1) as nat
        },
{
    x.saturating_add(y)
}

/// Relies on `UInt::saturating_sub`: the exact difference, or 0 when the
/// subtrahend is larger.
#[verifier::external_body]
pub(crate) fn uint_saturating_sub(x: &Uint256, y: &Uint256) -> (r: Uint256)
    ensures
        uint_val(r) == if uint_val(*x) >= uint_val(*y) {
            (uint_val(*x) - uint_val(*y)) as nat
        } else {
            0nat
        },
        uint_val(r) < pow2(256),
{
    x.saturating_sub(y)
}

/// Relies on `UInt::wrapping_mul`: the product reduced modulo 2^256.
#[verifier::external_body]
pub(crate) fn uint_wrapping_mul(x: &Uint256, y: &Uint256) -> (r: Uint256)
    ensures
        uint_val(r) == (uint_val(*x) * uint_val(*y)) % pow2(256),
{
    x.wrapping_mul(y)
}

/// Relies on `UInt::wrapping_add`: the sum reduced modulo 2^256.
#[verifier::external_body]
pub(crate) fn uint_wrapping_add(x: &Uint256, y: &Uint256) -> (r: Uint256)
    ensures
        uint_val(r) == (uint_val(*x) + uint_val(*y)) % pow2(256),
{
    x.wrapping_add(y)
}

/// Relies on `UInt::mul_wide`: the exact double-width product, returned
/// as its `(low, high)` halves.
#[verifier::external_body]
pub(crate) fn uint_mul_wide(x: &Uint256, y: &Uint256) -> (r: (Uint256, Uint256))
    ensures
        uint_val(r.0) + pow2(256) * uint_val(r.1) == uint_val(*x) * uint_val(*y),
        uint_val(r.0) < pow2(256),
        uint_val(r.1) < pow2(256),
{
    x.mul_wide(y)
}

/// Relies on `UInt::concat`: concatenates a most-significant and a
/// least-significant half into the double-width value, losslessly.
#[verifier::external_body]
pub(crate) fn uint_concat(hi: &Uint256, lo: &Uint256) -> (r: Uint512)
    ensures
        wide_val(r) == uint_val(*hi) * pow2(256) + uint_val(*lo),
{
    hi.concat(lo)
}

/// Relies on `UInt::split`: splits a double-width value into its
/// `(high, low)` halves, losslessly.
#[verifier::external_body]
pub(crate) fn wide_split(x: &Uint512) -> (r: (Uint256, Uint256))
    ensures
        uint_val(r.0) * pow2(256) + uint_val(r.1) == wide_val(*x),
        uint_val(r.0) < pow2(256),
        uint_val(r.1) < pow2(256),
{
    x.split()
}

/// Relies on `Rem<&NonZero<UInt>> for &UInt`: the remainder of the value
/// by the non-zero modulus.
#[verifier::external_body]
pub(crate) fn wide_rem(x: &Uint512, m: &NzUint512) -> (r: Uint512)
    ensures
        wide_val(r) == wide_val(*x) % nz_wide_val(*m),
        wide_val(r) < nz_wide_val(*m),
{
    x % &m.inner
}

/// Relies on `Rem<&NonZero<UInt>> for &UInt`: the remainder of the value
/// by the non-zero modulus.
#[verifier::external_body]
pub(crate) fn uint_rem(x: &Uint256, m: &NzUint256) -> (r: Uint256)
    ensures
        uint_val(r) == uint_val(*x) % nz_val(*m),
        uint_val(r) < nz_val(*m),
{
    x % &m.inner
}

/// Relies on `NonZero::new`: succeeds exactly on a non-zero value and
/// wraps it unchanged.
#[verifier::external_body]
pub(crate) fn nonzero_new(x: Uint256) -> (r: Option<NzUint256>)
    ensures
        (r is Some) == (uint_val(x) != 0),
        r matches Some(nz) ==> nz_val(nz) == uint_val(x) && nz_val(nz) < pow2(256),
{
    let o: Option<crypto_bigint::NonZero<crypto_bigint::UInt<4>>> =
        crypto_bigint::NonZero::new(x).into();
    o.map(|inner| NzUint256 { inner })
}

/// Relies on `NonZero::new`: succeeds exactly on a non-zero value and
/// wraps it unchanged.
#[verifier::external_body]
pub(crate) fn nonzero_new_wide(x: Uint512) -> (r: Option<NzUint512>)
    ensures
        (r is Some) == (wide_val(x) != 0),
        r matches Some(nz) ==> nz_wide_val(nz) == wide_val(x) && nz_wide_val(nz) < pow2(512),
{
    let o: Option<crypto_bigint::NonZero<crypto_bigint::UInt<8>>> =
        crypto_bigint::NonZero::new(x).into();
    o.map(|inner| NzUint512 { inner })
}

/// Relies on `NonZero::MAX`: the maximum representable value, which is
/// not zero.
#[verifier::external_body]
pub(crate) fn nonzero_max() -> (r: NzUint256)
    ensures
        nz_val(r) == (pow2(256) - 1) as nat,
{
    NzUint256 { inner: crypto_bigint::NonZero::MAX }
}

/// Relies on `Deref for NonZero`: hands out the wrapped value, which the
/// wrapper's construction guarantees non-zero and which the fixed width
/// bounds below 2^256.
#[verifier::external_body]
pub(crate) fn nz_get(x: &NzUint256) -> (r: Uint256)
    ensures
        uint_val(r) == nz_val(*x),
        0 < uint_val(r) < pow2(256),
{
    *x.inner
}

/// Relies on `UInt::random_mod`: rejection sampling of a uniform value
/// below the modulus. The draw depends on the generator's state, so only
/// the bound holds of every outcome.
#[verifier::external_body]
pub(crate) fn uint_random_mod<R: rand::CryptoRng + rand::RngCore>(
    rng: &mut R,
    m: &NzUint256,
) -> (r: Uint256)
    ensures
        uint_val(r) < nz_val(*m),
{
    crypto_bigint::RandomMod::random_mod(rng, &m.inner)
}

} // verus!
