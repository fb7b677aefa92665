use crypto_bigint::{NonZero, U256};
use prime_core::bigint::NzUint256;
use prime_core::compat::{
    from_str_radix, gen_biguint_bits, gen_biguint_range, is_bit_set, is_one, modpow, mul_mod,
    promote_corenz, promote_nz,
};
use rand::rngs::StdRng;
use rand::{Rng, SeedableRng};

fn reference_mul_mod(a: &U256, b: &U256, m: &NonZero<U256>) -> U256 {
    let (lo, hi) = a.mul_wide(b);
    let wide = hi.concat(&lo);
    let m_wide = NonZero::new(U256::ZERO.concat(&**m)).unwrap();
    let reduced = wide % &m_wide;
    let (_hi, lo) = reduced.split();
    lo
}

fn reference_modpow(x: &U256, e: u64, m: &NonZero<U256>) -> U256 {
    assert!(e >= 1);
    let mut r = *x % m;
    let mut i = 1u64;
    while i < e {
        r = reference_mul_mod(&r, x, m);
        i += 1;
    }
    r
}

#[test]
fn modpow_spec() {
    let x = from_str_radix("109BF050E8004F525", 16).unwrap();
    let e = from_str_radix("1F60DB8AD35B04936", 16).unwrap();
    let m = NzUint256::new(from_str_radix("1F60DB8AD35B04937", 16).unwrap()).unwrap();
    let r = modpow(x, &e, &m);
    assert_eq!(r, U256::ONE);
}

#[test]
fn is_bit_set_spec() {
    let x: U256 = 0b1010111100000101_u64.into();
    assert!(is_bit_set(&x, 0));
    assert!(!is_bit_set(&x, 1));
    assert!(is_bit_set(&x, 2));
    assert!(!is_bit_set(&x, 3));
    assert!(!is_bit_set(&x, 4));
    assert!(!is_bit_set(&x, 5));
    assert!(!is_bit_set(&x, 6));
    assert!(!is_bit_set(&x, 7));
    assert!(is_bit_set(&x, 8));
    assert!(is_bit_set(&x, 9));
    assert!(is_bit_set(&x, 10));
    assert!(is_bit_set(&x, 11));
    assert!(!is_bit_set(&x, 12));
    assert!(is_bit_set(&x, 13));
    assert!(!is_bit_set(&x, 14));
    assert!(is_bit_set(&x, 15));
}

#[test]
fn mod_spec() {
    let x: U256 = from_str_radix(
        "113910913923300788319699387848674650656041243163866388656000063249848353322899",
        10,
    )
    .unwrap();
    let three: NonZero<U256> = NonZero::new(3u32.into()).unwrap();
    let r: U256 = x % &three;
    assert_eq!(r, 2u32.into());
}

#[test]
fn modpow_zero_base_gives_zero() {
    let m = NzUint256::new(U256::from(7u64)).unwrap();
    assert_eq!(modpow(U256::ZERO, &U256::from(5u64), &m), U256::ZERO);
    assert_eq!(modpow(U256::ZERO, &U256::ZERO, &m), U256::ZERO);
}

#[test]
fn modpow_zero_exponent_gives_one() {
    let m = NzUint256::new(U256::from(7u64)).unwrap();
    assert_eq!(modpow(U256::from(5u64), &U256::ZERO, &m), U256::ONE);
}

#[test]
fn modpow_matches_repeated_multiplication() {
    let mut rng = StdRng::seed_from_u64(7);
    for _ in 0..40 {
        let x: U256 = rng.gen::<u64>().into();
        let e: u64 = rng.gen_range(1..200);
        let m_val: u64 = rng.gen_range(2..u64::MAX);
        let m_ref = NonZero::new(U256::from(m_val)).unwrap();
        let m = NzUint256::new(U256::from(m_val)).unwrap();
        let expected = reference_modpow(&x, e, &m_ref);
        let got = modpow(x, &U256::from(e), &m);
        assert_eq!(got, expected);
    }
}

#[test]
fn small_modular_products() {
    let m = NzUint256::new(U256::from(5u64)).unwrap();
    let r = mul_mod(&U256::from(6u64), &U256::from(7u64), &m);
    assert_eq!(r, U256::from(2u64));
    assert!(is_one(&U256::ONE));
    assert!(!is_one(&U256::ZERO));
}

#[test]
fn promoted_values_keep_their_meaning() {
    let m = promote_corenz(7);
    let r = modpow(U256::from(10u64), &U256::from(2u64), &m);
    assert_eq!(r, U256::from(2u64));

    let m5 = NzUint256::new(U256::from(5u64)).unwrap();
    let _wide = promote_nz(&m5);
}

#[test]
fn nonzero_construction_fails_exactly_on_zero() {
    assert!(NzUint256::new(U256::ZERO).is_none());
    assert!(NzUint256::new(U256::ONE).is_some());
}

#[test]
fn range_sampling_stays_in_bounds_and_covers() {
    let mut rng = StdRng::seed_from_u64(42);
    let low = U256::from(1000u64);
    let high = U256::from(1008u64);
    let mut counts = [0usize; 8];
    let mut trials = 0usize;
    while trials < 10000 {
        let v = gen_biguint_range(&mut rng, low, high);
        assert!(v >= low);
        assert!(v < high);
        let idx = (v.to_words()[0] - 1000) as usize;
        counts[idx] += 1;
        trials += 1;
    }
    for c in counts {
        assert!(c > 1000, "distribution looks skewed: {:?}", counts);
    }
}

#[test]
fn bit_sampling_sets_exact_bit_length() {
    let mut rng = StdRng::seed_from_u64(43);
    for &bits in &[1usize, 2, 63, 64, 65, 128, 255, 256] {
        let mut trials = 0usize;
        while trials < 200 {
            let v = gen_biguint_bits(&mut rng, bits);
            assert_eq!(v.bits_vartime(), bits);
            assert!(is_bit_set(&v, bits - 1));
            trials += 1;
        }
    }
    let mut trials = 0usize;
    while trials < 10000 {
        let v = gen_biguint_bits(&mut rng, 64);
        assert_eq!(v.bits_vartime(), 64);
        trials += 1;
    }
}

#[test]
fn modpow_with_modulus_one_reduces_to_zero() {
    let m = NzUint256::new(U256::ONE).unwrap();
    assert_eq!(modpow(U256::from(5u64), &U256::from(3u64), &m), U256::ZERO);
    assert_eq!(modpow(U256::from(5u64), &U256::ZERO, &m), U256::ONE);
}

#[test]
fn bits_beyond_the_width_read_as_zero() {
    let x: U256 = u64::MAX.into();
    assert!(!is_bit_set(&x, 64));
    assert!(!is_bit_set(&x, 255));
    assert!(!is_bit_set(&x, 300));
}

#[test]
fn full_width_range_sampling_stays_below_the_bound() {
    let mut rng = StdRng::seed_from_u64(44);
    let mut trials = 0usize;
    while trials < 50 {
        let v = gen_biguint_range(&mut rng, U256::ZERO, U256::MAX);
        assert!(v < U256::MAX);
        trials += 1;
    }
}

#[test]
fn parses_digits_and_rejects_other_characters() {
    assert_eq!(from_str_radix("255", 10).unwrap(), U256::from(255u64));
    assert_eq!(from_str_radix("ff", 16).unwrap(), U256::from(255u64));
    assert_eq!(from_str_radix("FF", 16).unwrap(), U256::from(255u64));
    assert_eq!(from_str_radix("", 10).unwrap(), U256::ZERO);
    assert!(from_str_radix("12!4", 10).is_none());
}
