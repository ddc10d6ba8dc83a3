//! Boundaries of the engine's field-element and address domains.

use starknet_tx::felt::{StarkContractAddress, StarkFelt, StarknetApiError};
use starknet_tx::word::Word256;

#[test]
fn largest_field_element_is_accepted() {
    // One below the Stark prime 2^251 + 17 * 2^192 + 1.
    let just_below = Word256 {
        w0: 0x0800000000000011,
        w1: 0,
        w2: 0,
        w3: 0,
    };
    let f = StarkFelt::new(just_below).unwrap();
    assert_eq!(f.value, just_below);
}

#[test]
fn the_prime_itself_is_rejected() {
    let prime = Word256 {
        w0: 0x0800000000000011,
        w1: 0,
        w2: 0,
        w3: 1,
    };
    assert!(matches!(StarkFelt::new(prime), Err(StarknetApiError::OutOfRange)));
}

#[test]
fn values_above_the_prime_are_rejected() {
    let above = Word256 {
        w0: 0x0800000000000012,
        w1: 0,
        w2: 0,
        w3: 0,
    };
    assert!(matches!(StarkFelt::new(above), Err(StarknetApiError::OutOfRange)));
    let max = Word256 {
        w0: u64::MAX,
        w1: u64::MAX,
        w2: u64::MAX,
        w3: u64::MAX,
    };
    assert!(matches!(StarkFelt::new(max), Err(StarknetApiError::OutOfRange)));
}

#[test]
fn addresses_stop_below_two_to_the_251() {
    let just_below = Word256 {
        w0: 0x07ffffffffffffff,
        w1: u64::MAX,
        w2: u64::MAX,
        w3: u64::MAX,
    };
    let f = StarkFelt::new(just_below).unwrap();
    assert!(StarkContractAddress::new(f).is_ok());

    // 2^251 is still a field element but no longer an address.
    let at_bound = Word256 {
        w0: 0x0800000000000000,
        w1: 0,
        w2: 0,
        w3: 0,
    };
    let f = StarkFelt::new(at_bound).unwrap();
    assert!(matches!(
        StarkContractAddress::new(f),
        Err(StarknetApiError::OutOfRange)
    ));
}

#[test]
fn zero_and_small_values_are_everywhere_valid() {
    let zero = Word256::zero();
    let f = StarkFelt::new(zero).unwrap();
    assert!(StarkContractAddress::new(f).is_ok());
    let one = Word256::from_u64(1);
    let f = StarkFelt::new(one).unwrap();
    assert!(StarkContractAddress::new(f).is_ok());
}
