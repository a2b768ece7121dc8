//! Wire-level transport types of the quorum store: a `Fragment` carries one
//! chunk of a batch's transaction payload, and a `Batch` is a request for, or
//! a response with, a full batch's content. Both carry an epoch and a claimed
//! source identity; `verify` checks those authenticity fields before the
//! payload may be trusted. Payload-to-digest correspondence is deliberately
//! not checked here: that expensive hash is left to the caller.

use vstd::prelude::*;

verus! {

/// Per-producer sequence number of a batch of transactions.
pub type BatchId = u64;

/// Identity of a peer (validator), as a plain number.
pub type PeerId = u64;

/// Content digest identifying a batch of transactions, as a plain number.
pub type Digest = u64;

/// A logical point in consensus time: an epoch and a round within it.
#[derive(Clone, Copy, Debug, PartialEq, Eq, Structural)]
pub struct LogicalTime {
    pub epoch: u64,
    pub round: u64,
}

/// Why a fragment or batch failed boundary validation.
#[derive(Clone, Copy, Debug, PartialEq, Eq, Structural)]
pub enum TransportError {
    /// Quorum-store processing is disabled on the receiving node.
    QuorumStoreDisabled,
    /// An embedded expiration's epoch disagrees with the carrier's own epoch.
    EpochMismatch,
    /// The claimed source is not the network-attested sender.
    SenderMismatch,
}

/// A transaction in pre-serialized form; the bytes are opaque to this layer,
/// only their length is used for accounting.
#[derive(Clone, Debug, PartialEq, Eq)]
pub struct SerializedTransaction {
    bytes: Vec<u8>,
}

impl View for SerializedTransaction {
    type V = Seq<u8>;

    closed spec fn view(&self) -> Seq<u8> {
        self.bytes@
    }
}

impl SerializedTransaction {
    /// Wraps already-serialized transaction bytes.
    pub fn new(bytes: Vec<u8>) -> (r: Self)
        ensures
            r@ == bytes@,
    {
        SerializedTransaction { bytes }
    }

    /// Byte length of the serialized transaction.
    pub fn len(&self) -> (n: usize)
        ensures
            n == self@.len(),
    {
        self.bytes.len()
    }

    /// Borrows the serialized bytes.
    pub fn bytes(&self) -> (b: &Vec<u8>)
        ensures
            b@ == self@,
    {
        &self.bytes
    }

    /// Moves the serialized bytes out, leaving the transaction empty.
    pub fn take_bytes(&mut self) -> (b: Vec<u8>)
        ensures
            b@ == old(self)@,
            final(self)@ == Seq::<u8>::empty(),
    {
        let mut tmp: Vec<u8> = Vec::new();
        core::mem::swap(&mut tmp, &mut self.bytes);
        tmp
    }
}

/// One chunk of a batch's transaction payload: its position within the batch
/// and, on the last fragment, the batch's logical expiration.
#[derive(Clone, Debug)]
pub struct FragmentInfo {
    pub epoch: u64,
    pub batch_id: BatchId,
    pub fragment_id: usize,
    pub payload: Vec<SerializedTransaction>,
    pub maybe_expiration: Option<LogicalTime>,
}

impl FragmentInfo {
    fn new(
        epoch: u64,
        batch_id: u64,
        fragment_id: usize,
        fragment_payload: Vec<SerializedTransaction>,
        maybe_expiration: Option<LogicalTime>,
    ) -> (r: Self)
        ensures
            r.epoch == epoch,
            r.batch_id == batch_id,
            r.fragment_id == fragment_id,
            r.payload == fragment_payload,
            r.maybe_expiration == maybe_expiration,
    {
        FragmentInfo { epoch, batch_id, fragment_id, payload: fragment_payload, maybe_expiration }
    }

    /// Moves the fragment's transactions out.
    pub fn take_transactions(self) -> (r: Vec<SerializedTransaction>)
        ensures
            r == self.payload,
    {
        self.payload
    }

    /// Position of this fragment within its batch.
    pub fn fragment_id(&self) -> (r: usize)
        ensures
            r == self.fragment_id,
    {
        self.fragment_id
    }

    /// The batch this fragment belongs to.
    pub fn batch_id(&self) -> (r: BatchId)
        ensures
            r == self.batch_id,
    {
        self.batch_id
    }

    /// The batch's logical expiration, carried on the final fragment.
    pub fn maybe_expiration(&self) -> (r: Option<LogicalTime>)
        ensures
            r == self.maybe_expiration,
    {
        self.maybe_expiration
    }
}

/// A `FragmentInfo` together with its claimed source identity.
#[derive(Clone, Debug)]
pub struct Fragment {
    pub source: PeerId,
    pub fragment_info: FragmentInfo,
}

impl Fragment {
    pub fn new(
        epoch: u64,
        batch_id: u64,
        fragment_id: usize,
        fragment_payload: Vec<SerializedTransaction>,
        maybe_expiration: Option<LogicalTime>,
        peer_id: PeerId,
    ) -> (r: Self)
        ensures
            r.source == peer_id,
            r.fragment_info.epoch == epoch,
            r.fragment_info.batch_id == batch_id,
            r.fragment_info.fragment_id == fragment_id,
            r.fragment_info.payload == fragment_payload,
            r.fragment_info.maybe_expiration == maybe_expiration,
    {
        let fragment_info = FragmentInfo::new(
            epoch,
            batch_id,
            fragment_id,
            fragment_payload,
            maybe_expiration,
        );
        Fragment { source: peer_id, fragment_info }
    }

    /// What `verify` returns: the first failing of the three independent
    /// checks (feature gate, expiration-epoch consistency, sender identity),
    /// or success when all pass. The payload plays no part.
    pub open spec fn verify_result(&self, peer_id: PeerId, quorum_store_enabled: bool) -> Result<
        (),
        TransportError,
    > {
        if !quorum_store_enabled {
            Err(TransportError::QuorumStoreDisabled)
        } else if match self.fragment_info.maybe_expiration {
            Some(expiration) => expiration.epoch != self.fragment_info.epoch,
            None => false,
        } {
            Err(TransportError::EpochMismatch)
        } else if self.source == peer_id {
            Ok(())
        } else {
            Err(TransportError::SenderMismatch)
        }
    }

    /// Boundary validation: fails if quorum store is locally disabled, if an
    /// embedded expiration's epoch disagrees with the fragment's epoch, or if
    /// the claimed source differs from the attested sender `peer_id`; accepts
    /// otherwise, independent of payload content.
    pub fn verify(&self, peer_id: PeerId, quorum_store_enabled: bool) -> (r: Result<
        (),
        TransportError,
    >)
        ensures
            r == self.verify_result(peer_id, quorum_store_enabled),
    {
        if !quorum_store_enabled {
            return Err(TransportError::QuorumStoreDisabled);
        }
        if let Some(expiration) = &self.fragment_info.maybe_expiration {
            if expiration.epoch != self.fragment_info.epoch {
                return Err(TransportError::EpochMismatch);
            }
        }
        if self.source == peer_id {
            Ok(())
        } else {
            Err(TransportError::SenderMismatch)
        }
    }

    /// The fragment's epoch.
    pub fn epoch(&self) -> (r: u64)
        ensures
            r == self.fragment_info.epoch,
    {
        self.fragment_info.epoch
    }

    /// Moves the fragment's transactions out.
    pub fn take_transactions(self) -> (r: Vec<SerializedTransaction>)
        ensures
            r == self.fragment_info.payload,
    {
        self.fragment_info.take_transactions()
    }

    /// The claimed source identity.
    pub fn source(&self) -> (r: PeerId)
        ensures
            r == self.source,
    {
        self.source
    }

    /// Position of this fragment within its batch.
    pub fn fragment_id(&self) -> (r: usize)
        ensures
            r == self.fragment_info.fragment_id,
    {
        self.fragment_info.fragment_id()
    }

    /// The batch this fragment belongs to.
    pub fn batch_id(&self) -> (r: BatchId)
        ensures
            r == self.fragment_info.batch_id,
    {
        self.fragment_info.batch_id()
    }
}

/// Identity of a batch: the epoch it was produced in and its content digest.
#[derive(Clone, Copy, Debug, PartialEq, Eq, Structural)]
pub struct BatchInfo {
    pub epoch: u64,
    pub digest: Digest,
}

/// A full-batch request (payload absent) or response (payload present),
/// together with its claimed source identity.
#[derive(Clone, Debug)]
pub struct Batch {
    pub source: PeerId,
    pub maybe_payload: Option<Vec<SerializedTransaction>>,
    pub batch_info: BatchInfo,
}

impl Batch {
    pub fn new(
        epoch: u64,
        source: PeerId,
        digest_hash: Digest,
        maybe_payload: Option<Vec<SerializedTransaction>>,
    ) -> (r: Self)
        ensures
            r.source == source,
            r.maybe_payload == maybe_payload,
            r.batch_info == (BatchInfo { epoch, digest: digest_hash }),
    {
        let batch_info = BatchInfo { epoch, digest: digest_hash };
        Batch { source, maybe_payload, batch_info }
    }

    /// The batch's epoch.
    pub fn epoch(&self) -> (r: u64)
        ensures
            r == self.batch_info.epoch,
    {
        self.batch_info.epoch
    }

    /// What `verify` returns: the feature-gate check, then the sender check;
    /// the payload and the digest play no part.
    pub open spec fn verify_result(&self, peer_id: PeerId, quorum_store_enabled: bool) -> Result<
        (),
        TransportError,
    > {
        if !quorum_store_enabled {
            Err(TransportError::QuorumStoreDisabled)
        } else if self.source == peer_id {
            Ok(())
        } else {
            Err(TransportError::SenderMismatch)
        }
    }

    /// Boundary validation: fails if quorum store is locally disabled or the
    /// claimed source differs from the attested sender. Whether the payload
    /// matches the digest is deliberately not checked here; that expensive
    /// comparison is left to the caller.
    pub fn verify(&self, peer_id: PeerId, quorum_store_enabled: bool) -> (r: Result<
        (),
        TransportError,
    >)
        ensures
            r == self.verify_result(peer_id, quorum_store_enabled),
    {
        if !quorum_store_enabled {
            return Err(TransportError::QuorumStoreDisabled);
        }
        if self.source == peer_id {
            Ok(())
        } else {
            Err(TransportError::SenderMismatch)
        }
    }

    /// The payload of a response batch. Only response batches carry one.
    pub fn get_payload(self) -> (r: Vec<SerializedTransaction>)
        requires
            self.maybe_payload is Some,
        ensures
            r == self.maybe_payload->0,
    {
        match self.maybe_payload {
            Some(payload) => payload,
            None => vstd::pervasive::unreached(),
        }
    }
}

/// A request batch and a response batch for the same identity from the same
/// source pass or fail boundary validation identically: `verify` never reads
/// the payload.
pub proof fn lemma_batch_verify_ignores_payload(
    a: Batch,
    b: Batch,
    peer_id: PeerId,
    quorum_store_enabled: bool,
)
    requires
        a.source == b.source,
    ensures
        a.verify_result(peer_id, quorum_store_enabled) == b.verify_result(
            peer_id,
            quorum_store_enabled,
        ),
{
}

/// Whether a fragment passes boundary validation likewise never depends on
/// its payload or its position within the batch.
pub proof fn lemma_fragment_verify_ignores_payload(
    a: Fragment,
    b: Fragment,
    peer_id: PeerId,
    quorum_store_enabled: bool,
)
    requires
        a.source == b.source,
        a.fragment_info.epoch == b.fragment_info.epoch,
        a.fragment_info.maybe_expiration == b.fragment_info.maybe_expiration,
    ensures
        a.verify_result(peer_id, quorum_store_enabled) == b.verify_result(
            peer_id,
            quorum_store_enabled,
        ),
{
}

} // verus!
