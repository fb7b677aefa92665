//! Widened modular multiplication, modular exponentiation, bit tests and
//! the two random-sampling primitives, built on the fixed-width integer
//! primitives behind [`crate::bigint`].
//!
//! None of these operations is constant-time: the cost of the reduction
//! and the conditional multiply of the exponentiation depend on operand
//! bit patterns, so callers must not rely on them for secret-dependent
//! timing guarantees.

use vstd::arithmetic::div_mod::{
    lemma_basic_div, lemma_mod_breakdown, lemma_mod_self_0, lemma_mul_mod_noop_general,
    lemma_small_mod,
};
use vstd::arithmetic::power::{lemma_pow1, lemma_pow_adds, pow};
use vstd::arithmetic::power2::{
    lemma2_to64, lemma_pow2_adds, lemma_pow2_pos, lemma_pow2_strictly_increases, pow2,
};
use vstd::prelude::*;

use crate::bigint::{
    nonzero_max, nonzero_new, nz_get, nz_val, nz_wide_val, uint_bits, uint_concat, uint_eq,
    uint_from_u64, uint_is_odd, uint_mul_wide, uint_one, uint_or_single_bit, uint_random_mod,
    uint_rem, uint_saturating_add, uint_saturating_sub, uint_shl, uint_shr, uint_val,
    uint_wrapping_add, uint_wrapping_mul, uint_zero, wide_rem, wide_split, NzUint256, Uint256,
};
use vstd::string::StrSliceExecFns;

pub use crate::bigint::promote_corenz;

verus! {

/// Whether bit `i` of the natural number `v` is set.
pub open spec fn bit_of(v: nat, i: nat) -> bool {
    (v / pow2(i)) % 2 == 1
}

/// True exactly when the value is the multiplicative identity.
pub fn is_one(x: &Uint256) -> (r: bool)
    ensures
        r == (uint_val(*x) == 1),
{
    let one = uint_one();
    uint_eq(x, &one)
}

/// Promotes a non-zero 256-bit value to 512 bits by zero-extension,
/// preserving the value and hence the non-zero invariant.
pub fn promote_nz(x: &NzUint256) -> (r: crate::bigint::NzUint512)
    ensures
        nz_wide_val(r) == nz_val(*x),
        0 < nz_val(*x) < pow2(256),
{
    let zero = uint_zero();
    let inner = nz_get(x);
    let wide = uint_concat(&zero, &inner);
    match crate::bigint::nonzero_new_wide(wide) {
        Some(m) => m,
        None => vstd::pervasive::unreached(),
    }
}

/// Modular multiplication by widening: the exact double-width product is
/// reduced by the zero-extended modulus, so no overflow can occur.
/// Not constant-time.
pub fn mul_mod(x: &Uint256, y: &Uint256, m: &NzUint256) -> (r: Uint256)
    ensures
        uint_val(r) == (uint_val(*x) * uint_val(*y)) % nz_val(*m),
        uint_val(r) < nz_val(*m),
        0 < nz_val(*m) < pow2(256),
{
    let (lo, hi) = uint_mul_wide(x, y);
    let wide = uint_concat(&hi, &lo);
    let m_wide = promote_nz(m);
    let reduced = wide_rem(&wide, &m_wide);
    let (r_hi, r_lo) = wide_split(&reduced);
    proof {
        assert(crate::bigint::wide_val(wide) == uint_val(*x) * uint_val(*y));
        assert(crate::bigint::wide_val(reduced) < pow2(256));
        assert(uint_val(r_hi) == 0) by (nonlinear_arith)
            requires
                uint_val(r_hi) * pow2(256) + uint_val(r_lo) < pow2(256),
                pow2(256) > 0,
        {
        }
        assert(uint_val(r_lo) == crate::bigint::wide_val(reduced));
    }
    r_lo
}

/// Modular exponentiation by binary square-and-multiply, scanning the
/// exponent's bits from least to most significant.
///
/// By convention a zero base gives zero for every exponent, including a
/// zero exponent; a zero exponent on a non-zero base gives one, even for
/// the modulus one. Not constant-time: the conditional multiply leaks the
/// exponent's bit pattern through timing.
pub fn modpow(x: Uint256, e: &Uint256, m: &NzUint256) -> (r: Uint256)
    ensures
        uint_val(x) == 0 ==> uint_val(r) == 0,
        uint_val(x) != 0 && uint_val(*e) == 0 ==> uint_val(r) == 1,
        uint_val(x) != 0 && uint_val(*e) != 0 ==> uint_val(r) == pow(
            uint_val(x) as int,
            uint_val(*e),
        ) % (nz_val(*m) as int),
{
    let zero = uint_zero();
    if uint_eq(&x, &zero) {
        x
    } else if uint_eq(e, &zero) {
        uint_one()
    } else {
        let ghost gx = uint_val(x) as int;
        let ghost ge = uint_val(*e);
        let ghost gm = nz_val(*m) as int;
        let mut this_power = uint_rem(&x, m);
        let mut result = uint_one();
        let nbits = uint_bits(e);
        proof {
            lemma2_to64();
            lemma_pow1(gx);
        }
        let mut bit_index: usize = 0;
        while bit_index < nbits
            invariant
                bit_index <= nbits <= 256,
                gx == uint_val(x),
                ge == uint_val(*e),
                gm == nz_val(*m),
                0 < gm,
                ge < pow2(nbits as nat),
                uint_val(this_power) == pow(gx, pow2(bit_index as nat)) % gm,
                uint_val(this_power) < gm,
                ge % pow2(bit_index as nat) == 0 ==> uint_val(result) == 1,
                ge % pow2(bit_index as nat) != 0 ==> uint_val(result) == pow(
                    gx,
                    ge % pow2(bit_index as nat),
                ) % gm,
            decreases nbits - bit_index,
        {
            let ghost k = bit_index as nat;
            let ghost p2k = pow2(k);
            proof {
                lemma_pow2_pos(k);
                lemma_pow2_adds(k, 1);
                lemma2_to64();
                lemma_mod_breakdown(ge as int, p2k as int, 2);
            }
            if is_bit_set(e, bit_index) {
                proof {
                    assert((ge / p2k) % 2 == 1);
                    assert(ge % pow2(k + 1) == ge % p2k + p2k);
                    if ge % p2k == 0 {
                        lemma_small_mod(uint_val(this_power), gm as nat);
                    } else {
                        lemma_mul_mod_noop_general(pow(gx, ge % p2k), pow(gx, p2k), gm);
                        lemma_pow_adds(gx, ge % p2k, p2k);
                    }
                }
                result = mul_mod(&result, &this_power, m);
            } else {
                proof {
                    assert((ge / p2k) % 2 == 0);
                    assert(ge % pow2(k + 1) == ge % p2k);
                }
            }
            proof {
                lemma_pow_adds(gx, p2k, p2k);
                lemma_mul_mod_noop_general(pow(gx, p2k), pow(gx, p2k), gm);
            }
            this_power = mul_mod(&this_power, &this_power, m);
            bit_index += 1;
        }
        proof {
            lemma_small_mod(ge, pow2(nbits as nat));
        }
        result
    }
}

/// Whether bit `i` of the value is set; bits past the value's bit length
/// read as zero.
pub fn is_bit_set(x: &Uint256, i: usize) -> (r: bool)
    ensures
        r == bit_of(uint_val(*x), i as nat),
{
    let nbits = uint_bits(x);
    if i >= nbits {
        proof {
            if (nbits as nat) < (i as nat) {
                lemma_pow2_strictly_increases(nbits as nat, i as nat);
            }
            lemma_pow2_pos(i as nat);
            lemma_basic_div(uint_val(*x) as int, pow2(i as nat) as int);
        }
        false
    } else {
        let shifted = uint_shr(x, i);
        uint_is_odd(&shifted)
    }
}

/// Draws a value uniformly from the half-open range `low..high`.
///
/// An empty range is a caller contract violation, which the precondition
/// rules out; the underlying draw is unbiased rejection sampling.
pub fn gen_biguint_range<R: rand::CryptoRng + rand::RngCore>(
    rng: &mut R,
    low: Uint256,
    high: Uint256,
) -> (r: Uint256)
    requires
        uint_val(low) < uint_val(high),
        uint_val(high) < pow2(256),
    ensures
        uint_val(low) <= uint_val(r) < uint_val(high),
{
    let span = uint_saturating_sub(&high, &low);
    match nonzero_new(span) {
        Some(m) => {
            let draw = uint_random_mod(rng, &m);
            uint_saturating_add(&draw, &low)
        },
        None => vstd::pervasive::unreached(),
    }
}

/// Draws a value whose bit length is exactly `bit_size`: the bit at index
/// `bit_size - 1` is forced on and all lower bits are uniformly random.
///
/// A bit size of zero or above the representable width is a caller
/// contract violation, which the precondition rules out.
pub fn gen_biguint_bits<R: rand::CryptoRng + rand::RngCore>(
    rng: &mut R,
    bit_size: usize,
) -> (r: Uint256)
    requires
        1 <= bit_size <= 256,
    ensures
        pow2((bit_size - 1) as nat) <= uint_val(r) < pow2(bit_size as nat),
{
    let ghost b = bit_size as nat;
    let one = uint_one();
    let mask = uint_shl(&one, bit_size - 1);
    proof {
        lemma_pow2_pos((b - 1) as nat);
        lemma_pow2_strictly_increases((b - 1) as nat, 256);
        lemma_small_mod(pow2((b - 1) as nat), pow2(256));
        assert(uint_val(mask) == pow2((b - 1) as nat));
        lemma_pow2_adds((b - 1) as nat, 1);
        lemma2_to64();
        assert(pow2(b) == pow2((b - 1) as nat) * 2);
    }
    let shifted = uint_shl(&mask, 1);
    let modulo = match nonzero_new(shifted) {
        Some(m) => m,
        None => {
            proof {
                lemma_mod_self_0(pow2(256) as int);
            }
            nonzero_max()
        },
    };
    proof {
        if b < 256 {
            lemma_pow2_strictly_increases(b, 256);
            lemma_small_mod(pow2(b), pow2(256));
            assert(nz_val(modulo) == pow2(b));
        } else {
            lemma_mod_self_0(pow2(256) as int);
            assert(nz_val(modulo) == pow2(256) - 1);
        }
    }
    let draw = uint_random_mod(rng, &modulo);
    proof {
        let ghost k = (b - 1) as nat;
        assert(uint_val(mask) == pow2(k) && uint_val(draw) < pow2(k + 1));
    }
    uint_or_single_bit(&draw, &mask)
}

/// The numeric value of an alphanumeric digit character: `0`-`9` map to
/// 0-9, letters of either case map to 10-35; other characters are not
/// digits. The radix is never consulted.
pub open spec fn spec_digit(c: char) -> Option<u32> {
    let v = c as u32;
    if '0' as u32 <= v && v <= '9' as u32 {
        Some((v - '0' as u32) as u32)
    } else if 'a' as u32 <= v && v <= 'z' as u32 {
        Some((v - 'a' as u32 + 10) as u32)
    } else if 'A' as u32 <= v && v <= 'Z' as u32 {
        Some((v - 'A' as u32 + 10) as u32)
    } else {
        None
    }
}

/// The value of a digit string, most significant digit first, accumulated
/// with wrapping arithmetic at the fixed 256-bit width.
pub open spec fn radix_value(s: Seq<char>, radix: nat) -> nat
    decreases s.len(),
{
    if s.len() == 0 {
        0
    } else {
        ((radix_value(s.drop_last(), radix) * radix) % pow2(256) + spec_digit(
            s.last(),
        ).unwrap() as nat) % pow2(256)
    }
}

fn from_digit(c: char) -> (r: Option<u32>)
    ensures
        r == spec_digit(c),
{
    let v = c as u32;
    if v >= '0' as u32 && v <= '9' as u32 {
        Some(v - '0' as u32)
    } else if v >= 'a' as u32 && v <= 'z' as u32 {
        Some(v - 'a' as u32 + 10)
    } else if v >= 'A' as u32 && v <= 'Z' as u32 {
        Some(v - 'A' as u32 + 10)
    } else {
        None
    }
}

/// Parses a string of digit characters, most significant first, into a
/// 256-bit value with wrapping arithmetic; any non-alphanumeric character
/// makes the parse fail. Digit values are not checked against the radix:
/// the parser is deliberately permissive.
pub fn from_str_radix(s: &str, radix: usize) -> (r: Option<Uint256>)
    ensures
        match r {
            Some(v) => (forall|j: int| 0 <= j < s@.len() ==> spec_digit(s@[j]) is Some)
                && uint_val(v) == radix_value(s@, radix as nat),
            None => exists|j: int| 0 <= j < s@.len() && spec_digit(s@[j]) is None,
        },
{
    let mut acc = uint_zero();
    let radix_u = uint_from_u64(radix as u64);
    let n = s.unicode_len();
    let mut i: usize = 0;
    proof {
        assert(s@.take(0) =~= Seq::<char>::empty());
    }
    while i < n
        invariant
            i <= n,
            n == s@.len(),
            uint_val(radix_u) == radix as nat,
            uint_val(acc) == radix_value(s@.take(i as int), radix as nat),
            forall|j: int| 0 <= j < i ==> spec_digit(s@[j]) is Some,
        decreases n - i,
    {
        let c = s.get_char(i);
        let d = match from_digit(c) {
            Some(d) => d,
            None => {
                proof {
                    assert(spec_digit(s@[i as int]) is None);
                }
                return None;
            },
        };
        let d_u = uint_from_u64(d as u64);
        acc = uint_wrapping_mul(&acc, &radix_u);
        acc = uint_wrapping_add(&acc, &d_u);
        proof {
            assert(s@.take(i as int + 1).drop_last() =~= s@.take(i as int));
            assert(s@.take(i as int + 1).last() == s@[i as int]);
        }
        i += 1;
    }
    proof {
        assert(s@.take(n as int) =~= s@);
    }
    Some(acc)
}

/// Law: the exponentiation contract agrees, step by step, with the
/// reference defined by repeated modular multiplication: raising to
/// `e + 1` is one more modular multiplication by the base on the result
/// for `e`.
pub proof fn lemma_modpow_matches_repeated_multiplication(x: nat, e: nat, m: nat)
    requires
        0 < m,
    ensures
        pow(x as int, e + 1) % (m as int) == ((pow(x as int, e) % (m as int)) * (x as int)) % (
        m as int),
{
    lemma_pow_adds(x as int, e, 1);
    lemma_pow1(x as int);
    lemma_mul_mod_noop_general(pow(x as int, e), x as int, m as int);
}

} // verus!
