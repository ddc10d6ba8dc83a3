//! The four kind-specific projections: field preservation, fallbacks,
//! placeholders, and range failures.

use starknet_tx::bounded::BoundedVec;
use starknet_tx::felt::{Fee, StarknetApiError};
use starknet_tx::transaction::{CallEntryPointWrapper, Transaction};
use starknet_tx::word::Word256;

fn w(n: u64) -> Word256 {
    Word256::from_u64(n)
}

fn over_prime() -> Word256 {
    Word256 { w0: 0x0800000000000012, w1: 0, w2: 0, w3: 0 }
}

fn record(
    hash: Word256,
    sender: Word256,
    signature: Vec<Word256>,
    selector: Option<Word256>,
    calldata: Vec<Word256>,
    class_hash: Option<Word256>,
) -> Transaction {
    Transaction::new(
        w(1),
        hash,
        BoundedVec::try_from_vec(signature).unwrap(),
        BoundedVec::empty(),
        sender,
        w(11),
        CallEntryPointWrapper::new(
            selector,
            BoundedVec::try_from_vec(calldata).unwrap(),
            class_hash,
        ),
        None,
    )
}

#[test]
fn invoke_projection_preserves_every_field() {
    let t = record(w(77), w(5), vec![w(21), w(22)], None, vec![w(31), w(32)], None);
    let tx = t.try_into_invoke().unwrap();
    assert_eq!(tx.transaction_hash.value, w(77));
    assert_eq!(tx.version.value, w(1));
    assert_eq!(tx.nonce.value, w(11));
    assert_eq!(tx.sender_address.value.value, w(5));
    assert_eq!(tx.max_fee, Fee(2));
    assert_eq!(tx.signature.len(), 2);
    assert_eq!(tx.signature[0].value, w(21));
    assert_eq!(tx.signature[1].value, w(22));
    assert_eq!(tx.calldata.len(), 2);
    assert_eq!(tx.calldata[0].value, w(31));
    assert_eq!(tx.calldata[1].value, w(32));
    assert!(tx.entry_point_selector.is_none());
}

#[test]
fn invoke_projection_never_carries_a_selector() {
    let t = record(w(77), w(5), vec![], Some(w(99)), vec![], None);
    let tx = t.try_into_invoke().unwrap();
    assert!(tx.entry_point_selector.is_none());
}

#[test]
fn l1_handler_projection_takes_the_recorded_selector() {
    let t = record(w(77), w(5), vec![], Some(w(99)), vec![w(3)], None);
    let tx = t.try_into_l1_handler().unwrap();
    assert_eq!(tx.transaction_hash.value, w(77));
    assert_eq!(tx.version.value, w(1));
    assert_eq!(tx.nonce.value, w(11));
    assert_eq!(tx.contract_address.value.value, w(5));
    assert_eq!(tx.entry_point_selector.value, w(99));
    assert_eq!(tx.calldata.len(), 1);
    assert_eq!(tx.calldata[0].value, w(3));
}

#[test]
fn l1_handler_selector_falls_back_to_zero() {
    let t = record(w(77), w(5), vec![], None, vec![], None);
    let tx = t.try_into_l1_handler().unwrap();
    assert_eq!(tx.entry_point_selector.value, Word256::zero());
}

#[test]
fn l1_handler_ignores_the_signature() {
    // A signature element far above the prime stops the kinds that read the
    // signature, but not the settlement-layer projection, which has none.
    let t = record(w(77), w(5), vec![over_prime()], None, vec![], None);
    assert!(t.try_into_l1_handler().is_ok());
    assert!(matches!(t.try_into_invoke(), Err(StarknetApiError::OutOfRange)));
    assert!(matches!(t.try_into_declare(), Err(StarknetApiError::OutOfRange)));
    assert!(matches!(
        t.try_into_deploy_account(),
        Err(StarknetApiError::OutOfRange)
    ));
}

#[test]
fn declare_projection_preserves_fields_and_class_hash() {
    let t = record(w(77), w(5), vec![w(21)], None, vec![], Some(w(400)));
    let tx = t.try_into_declare().unwrap();
    assert_eq!(tx.transaction_hash.value, w(77));
    assert_eq!(tx.version.value, w(1));
    assert_eq!(tx.nonce.value, w(11));
    assert_eq!(tx.sender_address.value.value, w(5));
    assert_eq!(tx.max_fee, Fee(2));
    assert_eq!(tx.class_hash.value, w(400));
    assert_eq!(tx.signature.len(), 1);
    assert_eq!(tx.signature[0].value, w(21));
}

#[test]
fn declare_class_hash_falls_back_to_zero() {
    let t = record(w(77), w(5), vec![], None, vec![], None);
    let tx = t.try_into_declare().unwrap();
    assert_eq!(tx.class_hash.value, Word256::zero());
}

#[test]
fn deploy_account_projection_reuses_the_sender_as_new_address() {
    let t = record(w(77), w(5), vec![w(21)], None, vec![w(31)], Some(w(400)));
    let tx = t.try_into_deploy_account().unwrap();
    assert_eq!(tx.transaction_hash.value, w(77));
    assert_eq!(tx.version.value, w(1));
    assert_eq!(tx.nonce.value, w(11));
    assert_eq!(tx.contract_address.value.value, w(5));
    assert_eq!(tx.max_fee, Fee(2));
    assert_eq!(tx.class_hash.value, w(400));
    assert_eq!(tx.constructor_calldata.len(), 1);
    assert_eq!(tx.constructor_calldata[0].value, w(31));
    assert_eq!(tx.contract_address_salt.value, Word256::zero());
}

#[test]
fn an_out_of_range_hash_stops_every_projection() {
    let t = record(over_prime(), w(5), vec![], None, vec![], None);
    assert!(matches!(t.try_into_invoke(), Err(StarknetApiError::OutOfRange)));
    assert!(matches!(
        t.try_into_l1_handler(),
        Err(StarknetApiError::OutOfRange)
    ));
    assert!(matches!(t.try_into_declare(), Err(StarknetApiError::OutOfRange)));
    assert!(matches!(
        t.try_into_deploy_account(),
        Err(StarknetApiError::OutOfRange)
    ));
}

#[test]
fn a_sender_outside_the_address_domain_is_rejected() {
    // 2^251 is a valid field element but not a valid contract address.
    let sender = Word256 { w0: 0x0800000000000000, w1: 0, w2: 0, w3: 0 };
    let t = record(w(77), sender, vec![], None, vec![], None);
    assert!(matches!(t.try_into_invoke(), Err(StarknetApiError::OutOfRange)));
    assert!(matches!(
        t.try_into_l1_handler(),
        Err(StarknetApiError::OutOfRange)
    ));
}

#[test]
fn an_out_of_range_calldata_element_stops_the_kinds_that_read_it() {
    let t = record(w(77), w(5), vec![], None, vec![over_prime()], None);
    assert!(matches!(t.try_into_invoke(), Err(StarknetApiError::OutOfRange)));
    assert!(matches!(
        t.try_into_l1_handler(),
        Err(StarknetApiError::OutOfRange)
    ));
    assert!(matches!(
        t.try_into_deploy_account(),
        Err(StarknetApiError::OutOfRange)
    ));
    // The declaration projection reads no call data.
    assert!(t.try_into_declare().is_ok());
}

#[test]
fn default_record_and_from_tx_hash() {
    let d = Transaction::default();
    assert_eq!(d.version, Word256::zero());
    assert_eq!(d.hash, w(1));
    assert_eq!(d.nonce, Word256::zero());
    assert_eq!(d.sender_address, w(1));
    assert_eq!(d.signature.len(), 2);
    assert_eq!(d.events.len(), 2);
    assert!(d.contract_class.is_none());

    let t = Transaction::from_tx_hash(w(123));
    assert_eq!(t.hash, w(123));
    assert_eq!(t.version, Word256::zero());
    assert_eq!(t.sender_address, w(1));
    assert_eq!(t.signature.len(), 2);
}
