use prime_core::error::Error;
use prime_core::safe_prime;
use prime_core::MIN_BIT_LENGTH;

#[test]
fn rejects_bit_length_below_minimum() {
    match safe_prime::new(16) {
        Err(Error::BitLength(l)) => assert_eq!(l, 16),
        _ => panic!("expected a bit-length rejection"),
    }
    assert!(safe_prime::new(MIN_BIT_LENGTH - 1).is_err());
    assert!(safe_prime::new(MIN_BIT_LENGTH).is_ok());
    assert!(safe_prime::new(256).is_ok());
}

// The safe-prime search itself and its membership predicates are external
// collaborators of this library; here the front door's policy is driven
// with the bit lengths those collaborators are asked for.
#[test]
fn tests() {
    let bits_options = [128usize, 256, 512, 1024];
    for bits in bits_options.iter().filter(|n| **n <= 16 * 8) {
        assert!(safe_prime::new(*bits).is_ok());
    }
}

#[test]
fn random_source_failures_map_to_initialization_errors() {
    let source = rand::Error::new(String::from("entropy source unavailable"));
    let err = Error::from(source);
    assert!(matches!(err, Error::OsRngInitialization(_)));
}
