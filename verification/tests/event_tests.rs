//! Event construction and builder validation.

use starknet_tx::bounded::MAX_ARRAY_SIZE;
use starknet_tx::event::{EventContent, EventError, EventWrapper};
use starknet_tx::felt::{StarkContractAddress, StarkFelt};
use starknet_tx::word::Word256;

fn w(n: u64) -> Word256 {
    Word256::from_u64(n)
}

fn felt(n: u64) -> StarkFelt {
    StarkFelt::new(w(n)).unwrap()
}

fn addr(n: u64) -> StarkContractAddress {
    StarkContractAddress::new(felt(n)).unwrap()
}

#[test]
fn empty_event_has_no_keys_no_data_and_sentinel_address() {
    let e = EventWrapper::empty();
    assert_eq!(e.keys.len(), 0);
    assert_eq!(e.data.len(), 0);
    assert_eq!(e.from_address, w(1));
}

#[test]
fn empty_builder_builds_the_empty_event() {
    let e = EventWrapper::builder().build().unwrap();
    assert_eq!(e.keys.len(), 0);
    assert_eq!(e.data.len(), 0);
    assert_eq!(e.from_address, w(1));
}

#[test]
fn build_preserves_order_and_values() {
    let e = EventWrapper::builder()
        .with_keys(vec![w(3), w(1), w(2)])
        .with_data(vec![w(9), w(8)])
        .build()
        .unwrap();
    assert_eq!(e.keys.len(), 3);
    assert_eq!(*e.keys.get(0), w(3));
    assert_eq!(*e.keys.get(1), w(1));
    assert_eq!(*e.keys.get(2), w(2));
    assert_eq!(e.data.len(), 2);
    assert_eq!(*e.data.get(0), w(9));
    assert_eq!(*e.data.get(1), w(8));
}

#[test]
fn build_at_the_bound_succeeds() {
    let keys = vec![w(7); MAX_ARRAY_SIZE];
    let e = EventWrapper::builder().with_keys(keys).build().unwrap();
    assert_eq!(e.keys.len(), MAX_ARRAY_SIZE);
}

#[test]
fn build_rejects_too_many_keys() {
    let keys = vec![w(7); MAX_ARRAY_SIZE + 1];
    let r = EventWrapper::builder().with_keys(keys).build();
    assert!(matches!(r, Err(EventError::InvalidKeys)));
}

#[test]
fn build_rejects_too_many_data_elements() {
    let data = vec![w(7); MAX_ARRAY_SIZE + 1];
    let r = EventWrapper::builder().with_data(data).build();
    assert!(matches!(r, Err(EventError::InvalidData)));
}

#[test]
fn too_many_keys_is_reported_before_too_much_data() {
    let keys = vec![w(1); MAX_ARRAY_SIZE + 1];
    let data = vec![w(2); MAX_ARRAY_SIZE + 1];
    let r = EventWrapper::builder().with_keys(keys).with_data(data).build();
    assert!(matches!(r, Err(EventError::InvalidKeys)));
}

#[test]
fn build_keeps_a_supplied_address() {
    let e = EventWrapper::builder()
        .with_from_address(addr(42))
        .build()
        .unwrap();
    assert_eq!(e.from_address, w(42));
}

#[test]
fn event_content_is_reencoded_losslessly() {
    let content = EventContent { keys: vec![felt(5), felt(6)], data: vec![felt(7)] };
    let e = EventWrapper::builder().with_event_content(content).build().unwrap();
    assert_eq!(e.keys.len(), 2);
    assert_eq!(*e.keys.get(0), w(5));
    assert_eq!(*e.keys.get(1), w(6));
    assert_eq!(e.data.len(), 1);
    assert_eq!(*e.data.get(0), w(7));
}

#[test]
fn default_event_is_two_ones_everywhere() {
    let e = EventWrapper::default();
    assert_eq!(e.keys.len(), 2);
    assert_eq!(*e.keys.get(0), w(1));
    assert_eq!(*e.keys.get(1), w(1));
    assert_eq!(e.data.len(), 2);
    assert_eq!(*e.data.get(0), w(1));
    assert_eq!(*e.data.get(1), w(1));
    assert_eq!(e.from_address, w(1));
}

#[test]
fn new_event_takes_the_given_parts() {
    let keys = starknet_tx::bounded::BoundedVec::try_from_vec(vec![w(4)]).unwrap();
    let data = starknet_tx::bounded::BoundedVec::try_from_vec(vec![w(5), w(6)]).unwrap();
    let e = EventWrapper::new(keys, data, w(9));
    assert_eq!(e.keys.len(), 1);
    assert_eq!(*e.keys.get(0), w(4));
    assert_eq!(e.data.len(), 2);
    assert_eq!(e.from_address, w(9));
}
