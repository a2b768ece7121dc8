use quorum_store::types::{
    Batch, BatchInfo, Fragment, LogicalTime, SerializedTransaction, TransportError,
};

fn sample_payload() -> Vec<SerializedTransaction> {
    vec![
        SerializedTransaction::new(vec![1, 2, 3]),
        SerializedTransaction::new(vec![4, 5]),
    ]
}

fn sample_fragment(source: u64, expiration: Option<LogicalTime>) -> Fragment {
    Fragment::new(3, 5, 0, sample_payload(), expiration, source)
}

#[test]
fn fragment_accepts_valid() {
    let fragment = sample_fragment(7, Some(LogicalTime { epoch: 3, round: 9 }));
    assert_eq!(fragment.verify(7, true), Ok(()));
}

#[test]
fn fragment_accepts_without_expiration() {
    let fragment = sample_fragment(7, None);
    assert_eq!(fragment.verify(7, true), Ok(()));
}

#[test]
fn fragment_rejects_sender_mismatch() {
    let fragment = sample_fragment(7, None);
    assert_eq!(fragment.verify(8, true), Err(TransportError::SenderMismatch));
}

#[test]
fn fragment_rejects_quorum_store_disabled() {
    let fragment = sample_fragment(7, None);
    assert_eq!(fragment.verify(7, false), Err(TransportError::QuorumStoreDisabled));
}

#[test]
fn fragment_rejects_expiration_epoch_mismatch() {
    let fragment = sample_fragment(7, Some(LogicalTime { epoch: 4, round: 9 }));
    assert_eq!(fragment.verify(7, true), Err(TransportError::EpochMismatch));
}

#[test]
fn fragment_disabled_check_comes_first() {
    // All three checks would fail; the feature gate short-circuits.
    let fragment = sample_fragment(7, Some(LogicalTime { epoch: 4, round: 9 }));
    assert_eq!(fragment.verify(8, false), Err(TransportError::QuorumStoreDisabled));
}

#[test]
fn fragment_getters() {
    let fragment = sample_fragment(7, Some(LogicalTime { epoch: 3, round: 9 }));
    assert_eq!(fragment.epoch(), 3);
    assert_eq!(fragment.source(), 7);
    assert_eq!(fragment.fragment_id(), 0);
    assert_eq!(fragment.batch_id(), 5);
    let transactions = fragment.take_transactions();
    assert_eq!(transactions.len(), 2);
    assert_eq!(transactions[0].bytes(), &vec![1u8, 2, 3]);
}

#[test]
fn batch_request_and_response_verify_identically() {
    // A request (no payload) and a response (payload) from the same source
    // pass and fail the boundary checks identically.
    let request = Batch::new(3, 7, 42, None);
    let response = Batch::new(3, 7, 42, Some(sample_payload()));
    assert_eq!(request.verify(7, true), Ok(()));
    assert_eq!(response.verify(7, true), Ok(()));
    assert_eq!(request.verify(8, true), Err(TransportError::SenderMismatch));
    assert_eq!(response.verify(8, true), Err(TransportError::SenderMismatch));
    assert_eq!(request.verify(7, false), Err(TransportError::QuorumStoreDisabled));
    assert_eq!(response.verify(7, false), Err(TransportError::QuorumStoreDisabled));
}

#[test]
fn batch_fields_and_payload() {
    let response = Batch::new(3, 7, 42, Some(sample_payload()));
    assert_eq!(response.epoch(), 3);
    assert_eq!(response.batch_info, BatchInfo { epoch: 3, digest: 42 });
    let payload = response.get_payload();
    assert_eq!(payload.len(), 2);
    assert_eq!(payload[1].bytes(), &vec![4u8, 5]);
}

#[test]
fn serialized_transaction_accessors() {
    let mut txn = SerializedTransaction::new(vec![9, 8, 7]);
    assert_eq!(txn.len(), 3);
    assert_eq!(txn.bytes(), &vec![9u8, 8, 7]);
    let taken = txn.take_bytes();
    assert_eq!(taken, vec![9u8, 8, 7]);
    assert_eq!(txn.len(), 0);
    assert_eq!(txn.bytes(), &Vec::<u8>::new());
}
