use quorum_store::proof_builder::ProofBuilder;
use quorum_store::proof_of_store::{
    ProofOfStore, QuorumStoreError, SignedDigest, SignedDigestError, SignedDigestInfo,
};
use quorum_store::types::LogicalTime;
use quorum_store::validator_verifier::{ValidatorConsensusInfo, ValidatorVerifier};

fn three_equal_validators(quorum: u64) -> ValidatorVerifier {
    ValidatorVerifier::new(
        vec![
            ValidatorConsensusInfo { address: 1, voting_power: 10 },
            ValidatorConsensusInfo { address: 2, voting_power: 10 },
            ValidatorConsensusInfo { address: 3, voting_power: 10 },
        ],
        quorum,
    )
}

fn info(digest: u64) -> SignedDigestInfo {
    SignedDigestInfo { digest, expiration: LogicalTime { epoch: 1, round: 4 } }
}

fn endorsement(peer_id: u64, digest: u64) -> SignedDigest {
    SignedDigest { peer_id, info: info(digest), signature: 1000 + peer_id }
}

#[test]
fn unknown_digest_is_reported_and_state_unchanged() {
    let verifier = three_equal_validators(25);
    let mut builder = ProofBuilder::new(1000, 3);
    // No registration at all: every append reports the unknown digest.
    for _ in 0..3 {
        let r = builder.add_signature(endorsement(1, 42), &verifier);
        assert!(matches!(r, Err(SignedDigestError::WrongDigest)));
    }
    // The no-op left nothing behind: a later registration starts empty and
    // completes only after three fresh endorsements.
    builder.init_proof(info(42), 5).unwrap();
    assert!(matches!(builder.add_signature(endorsement(1, 42), &verifier), Ok(None)));
    assert!(matches!(builder.add_signature(endorsement(2, 42), &verifier), Ok(None)));
    assert!(matches!(builder.add_signature(endorsement(3, 42), &verifier), Ok(Some(_))));
}

#[test]
fn duplicate_signer_rejected_without_altering_power() {
    let verifier = three_equal_validators(25);
    let mut builder = ProofBuilder::new(1000, 3);
    builder.init_proof(info(7), 11).unwrap();
    assert!(matches!(builder.add_signature(endorsement(1, 7), &verifier), Ok(None)));
    // A second contribution from the same validator is rejected...
    let dup = builder.add_signature(endorsement(1, 7), &verifier);
    assert!(matches!(dup, Err(SignedDigestError::DuplicateSignature)));
    // ...and the accumulated power is unchanged: validator 2 alone does not
    // complete (20 < 25), validator 3 does (30 >= 25, own signature present).
    assert!(matches!(builder.add_signature(endorsement(2, 7), &verifier), Ok(None)));
    let done = builder.add_signature(endorsement(3, 7), &verifier);
    match done {
        Ok(Some(reply)) => {
            assert_eq!(reply.digest, 7);
            match reply.result {
                Ok((proof_of_store, batch_id)) => {
                    assert_eq!(batch_id, 11);
                    // The duplicate was not merged in: exactly three
                    // signatures, one per distinct validator.
                    assert_eq!(proof_of_store.multi_signature.len(), 3);
                    assert_eq!(proof_of_store.info, info(7));
                }
                Err(_) => panic!("completed proof expected"),
            }
        }
        _ => panic!("resolution expected"),
    }
}

#[test]
fn mismatched_metadata_rejected() {
    let verifier = three_equal_validators(25);
    let mut builder = ProofBuilder::new(1000, 11);
    builder.init_proof(info(7), 11).unwrap();
    // Same digest, different expiration metadata: rejected as wrong digest.
    let mut twisted = endorsement(1, 7);
    twisted.info.expiration = LogicalTime { epoch: 2, round: 4 };
    assert!(matches!(
        builder.add_signature(twisted, &verifier),
        Err(SignedDigestError::WrongDigest)
    ));
    // The entry is intact and a well-formed endorsement still folds.
    assert!(matches!(builder.add_signature(endorsement(1, 7), &verifier), Ok(None)));
}

#[test]
fn one_fold_short_of_quorum_never_resolves() {
    let verifier = three_equal_validators(25);
    let mut builder = ProofBuilder::new(1000, 3);
    builder.init_proof(info(9), 2).unwrap();
    // 10, then 20 voting power: both below the 25 threshold.
    assert!(matches!(builder.add_signature(endorsement(1, 9), &verifier), Ok(None)));
    assert!(matches!(builder.add_signature(endorsement(2, 9), &verifier), Ok(None)));
}

#[test]
fn readiness_requires_own_signature() {
    // Validators 1 and 2 alone reach the 20 threshold, but the aggregator's
    // own validator (99, not even in the set) has not signed: not ready.
    let verifier = three_equal_validators(20);
    let mut builder = ProofBuilder::new(1000, 99);
    builder.init_proof(info(9), 2).unwrap();
    assert!(matches!(builder.add_signature(endorsement(1, 9), &verifier), Ok(None)));
    assert!(matches!(builder.add_signature(endorsement(2, 9), &verifier), Ok(None)));
    // Once the own identity signs (contributing no power), the certificate
    // becomes locally attestable and resolves.
    assert!(matches!(builder.add_signature(endorsement(99, 9), &verifier), Ok(Some(_))));
}

#[test]
fn end_to_end_completion_with_three_signatures() {
    // Register digest 101 with batch id 7 and a 1000 ms deadline; two
    // validators stay below the threshold, the third crosses it.
    let verifier = three_equal_validators(25);
    let mut builder = ProofBuilder::new(1000, 3);
    builder.init_proof(info(101), 7).unwrap();
    assert!(matches!(builder.add_signature(endorsement(1, 101), &verifier), Ok(None)));
    assert!(matches!(builder.add_signature(endorsement(2, 101), &verifier), Ok(None)));
    let done = builder.add_signature(endorsement(3, 101), &verifier);
    match done {
        Ok(Some(reply)) => {
            assert_eq!(reply.digest, 101);
            match reply.result {
                Ok((proof_of_store, batch_id)) => {
                    assert_eq!(batch_id, 7);
                    assert_eq!(proof_of_store.multi_signature.len(), 3);
                }
                Err(_) => panic!("completed proof expected"),
            }
        }
        _ => panic!("exactly one completed resolution expected"),
    }
    // The digest is resolved: no second resolution is possible.
    assert!(matches!(
        builder.add_signature(endorsement(1, 101), &verifier),
        Err(SignedDigestError::WrongDigest)
    ));
    // Ticks past the original deadline produce no late timeout either.
    for _ in 0..12 {
        assert!(builder.expire().is_empty());
    }
}

#[test]
fn end_to_end_timeout_without_signatures() {
    // Register digest 202 with batch id 9 and a 100 ms deadline; nothing
    // arrives, and the first tick past the deadline resolves it as timed out.
    let verifier = three_equal_validators(25);
    let mut builder = ProofBuilder::new(100, 3);
    builder.init_proof(info(202), 9).unwrap();
    let replies = builder.expire();
    assert_eq!(replies.len(), 1);
    assert_eq!(replies[0].digest, 202);
    match &replies[0].result {
        Err(QuorumStoreError::Timeout(batch_id)) => assert_eq!(*batch_id, 9),
        _ => panic!("timeout resolution expected"),
    }
    // Exactly once: later ticks and appends see nothing.
    assert!(builder.expire().is_empty());
    assert!(matches!(
        builder.add_signature(endorsement(1, 202), &verifier),
        Err(SignedDigestError::WrongDigest)
    ));
}

#[test]
fn quorum_just_before_deadline_completes() {
    // 250 ms deadline rounds up to three ticks; quorum on the third
    // validator during the third 100 ms interval beats the deadline.
    let verifier = three_equal_validators(25);
    let mut builder = ProofBuilder::new(250, 3);
    builder.init_proof(info(55), 4).unwrap();
    assert!(builder.expire().is_empty());
    assert!(builder.expire().is_empty());
    assert!(matches!(builder.add_signature(endorsement(1, 55), &verifier), Ok(None)));
    assert!(matches!(builder.add_signature(endorsement(2, 55), &verifier), Ok(None)));
    assert!(matches!(builder.add_signature(endorsement(3, 55), &verifier), Ok(Some(_))));
    // The deadline tick finds the digest already resolved.
    assert!(builder.expire().is_empty());
}

#[test]
fn no_quorum_by_deadline_times_out() {
    // 250 ms deadline, one lone signature: the third tick resolves it as
    // timed out, not before.
    let verifier = three_equal_validators(25);
    let mut builder = ProofBuilder::new(250, 3);
    builder.init_proof(info(56), 5).unwrap();
    assert!(matches!(builder.add_signature(endorsement(1, 56), &verifier), Ok(None)));
    assert!(builder.expire().is_empty());
    assert!(builder.expire().is_empty());
    let replies = builder.expire();
    assert_eq!(replies.len(), 1);
    assert_eq!(replies[0].digest, 56);
    assert!(matches!(replies[0].result, Err(QuorumStoreError::Timeout(5))));
}

#[test]
fn reregistration_resolves_once_per_live_entry() {
    // Registering the same digest again replaces the entry and schedules an
    // additional, independent deadline; still at most one reply per tick
    // pass, carrying the live entry's batch id.
    let mut builder = ProofBuilder::new(100, 3);
    builder.init_proof(info(77), 1).unwrap();
    builder.init_proof(info(77), 2).unwrap();
    let replies = builder.expire();
    assert_eq!(replies.len(), 1);
    assert_eq!(replies[0].digest, 77);
    assert!(matches!(replies[0].result, Err(QuorumStoreError::Timeout(2))));
    assert!(builder.expire().is_empty());
}

#[test]
fn certificate_folding_rules() {
    let verifier = three_equal_validators(25);
    let mut cert = ProofOfStore::new(info(33));
    assert_eq!(cert.multi_signature.len(), 0);
    assert!(!cert.ready(&verifier, 3));
    assert_eq!(cert.add_signature(info(33), 1, 501), Ok(()));
    // A contribution over different metadata is rejected, even from a new
    // signer.
    assert_eq!(cert.add_signature(info(34), 2, 502), Err(SignedDigestError::WrongDigest));
    // A second contribution from the same validator is rejected.
    assert_eq!(cert.add_signature(info(33), 1, 503), Err(SignedDigestError::DuplicateSignature));
    assert_eq!(cert.multi_signature.len(), 1);
    assert_eq!(cert.add_signature(info(33), 2, 502), Ok(()));
    assert_eq!(cert.add_signature(info(33), 3, 503), Ok(()));
    // 30 voting power crosses the 25 threshold, but only a signer sees the
    // certificate as ready.
    assert!(cert.ready(&verifier, 3));
    assert!(!cert.ready(&verifier, 4));
}

#[test]
fn voting_power_lookup() {
    let verifier = three_equal_validators(25);
    assert_eq!(verifier.get_voting_power(1), 10);
    assert_eq!(verifier.get_voting_power(2), 10);
    assert_eq!(verifier.get_voting_power(9), 0);
    assert!(verifier.check_voting_power(&vec![1, 2, 3]));
    assert!(!verifier.check_voting_power(&vec![1, 2]));
    assert!(!verifier.check_voting_power(&Vec::new()));
}
