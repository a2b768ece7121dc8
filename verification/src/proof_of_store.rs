//! The proof of store: an aggregate of validator signatures over one signed
//! digest. Signatures are folded in one at a time; a validator may contribute
//! at most once, and a contribution for a different digest or metadata than
//! the certificate was created for is rejected. The certificate is ready once
//! the signers' combined voting power reaches the quorum threshold and the
//! local validator is itself among the signers.

use vstd::prelude::*;
use crate::types::{BatchId, Digest, LogicalTime, PeerId};
use crate::validator_verifier::{combined_power, ValidatorVerifier};

verus! {

/// A validator's signature over a signed digest. The cryptographic content is
/// opaque to this layer; a plain number stands for it.
pub type Signature = u64;

/// The digest and the metadata that validators sign over; immutable once a
/// proof context is created for it.
#[derive(Clone, Copy, Debug, PartialEq, Eq, Structural)]
pub struct SignedDigestInfo {
    pub digest: Digest,
    pub expiration: LogicalTime,
}

/// One validator's signed endorsement of a digest.
#[derive(Clone, Copy, Debug, PartialEq, Eq, Structural)]
pub struct SignedDigest {
    pub peer_id: PeerId,
    pub info: SignedDigestInfo,
    pub signature: Signature,
}

/// Why a signed digest could not be folded into a certificate.
#[derive(Clone, Copy, Debug, PartialEq, Eq, Structural)]
pub enum SignedDigestError {
    /// The digest has no active proof context, or the endorsement's metadata
    /// differs from what the certificate was created for.
    WrongDigest,
    /// The signer has already contributed to this certificate.
    DuplicateSignature,
}

/// The failure a registrant is told about when its digest is resolved without
/// a completed proof.
#[derive(Clone, Copy, Debug, PartialEq, Eq, Structural)]
pub enum QuorumStoreError {
    /// No quorum was reached within the configured deadline; carries the
    /// originating batch id.
    Timeout(BatchId),
}

/// An in-progress (or completed) aggregate of signatures over one signed
/// digest.
#[derive(Clone, Debug)]
pub struct ProofOfStore {
    pub info: SignedDigestInfo,
    pub multi_signature: Vec<(PeerId, Signature)>,
}

impl ProofOfStore {
    /// The validators that have contributed so far, in fold order.
    pub open spec fn signers(&self) -> Seq<PeerId> {
        self.multi_signature@.map_values(|p: (PeerId, Signature)| p.0)
    }

    /// Whether `peer` has already contributed a signature.
    pub open spec fn has_signed(&self, peer: PeerId) -> bool {
        self.signers().contains(peer)
    }

    /// Well-formedness: no validator appears twice among the signatures.
    pub open spec fn wf(&self) -> bool {
        forall|i: int, j: int|
            0 <= i < j < self.multi_signature@.len() ==> self.multi_signature@[i].0
                != self.multi_signature@[j].0
    }

    /// Whether the certificate is ready from the local validator's point of
    /// view: the signers' combined power reaches the quorum threshold, and
    /// the local validator has itself signed, so that the certificate is
    /// locally attestable and not only usable by others.
    pub open spec fn is_ready(&self, verifier: &ValidatorVerifier, my_peer_id: PeerId) -> bool {
        self.has_signed(my_peer_id) && verifier.quorum(self.signers())
    }

    /// An empty certificate over `info`.
    pub fn new(info: SignedDigestInfo) -> (r: Self)
        ensures
            r.info == info,
            r.multi_signature@ == Seq::<(PeerId, Signature)>::empty(),
            r.wf(),
    {
        ProofOfStore { info, multi_signature: Vec::new() }
    }

    /// Folds one endorsement in. Rejects metadata that differs from what the
    /// certificate was created for, and a second contribution from the same
    /// validator; either rejection leaves the certificate unchanged.
    pub fn add_signature(
        &mut self,
        info: SignedDigestInfo,
        peer_id: PeerId,
        signature: Signature,
    ) -> (r: Result<(), SignedDigestError>)
        requires
            old(self).wf(),
        ensures
            final(self).wf(),
            final(self).info == old(self).info,
            info != old(self).info ==> r == Err::<(), SignedDigestError>(
                SignedDigestError::WrongDigest,
            ) && *final(self) == *old(self),
            info == old(self).info && old(self).has_signed(peer_id) ==> r == Err::<
                (),
                SignedDigestError,
            >(SignedDigestError::DuplicateSignature) && *final(self) == *old(self),
            info == old(self).info && !old(self).has_signed(peer_id) ==> r == Ok::<
                (),
                SignedDigestError,
            >(()) && final(self).multi_signature@ == old(self).multi_signature@.push(
                (peer_id, signature),
            ),
    {
        if !(self.info == info) {
            return Err(SignedDigestError::WrongDigest);
        }
        let n = self.multi_signature.len();
        let mut i: usize = 0;
        while i < n
            invariant
                0 <= i <= n,
                n == self.multi_signature@.len(),
                *self == *old(self),
                self.wf(),
                self.info == info,
                forall|k: int| 0 <= k < i ==> self.multi_signature@[k].0 != peer_id,
            decreases n - i,
        {
            if self.multi_signature[i].0 == peer_id {
                assert(self.signers()[i as int] == peer_id);
                return Err(SignedDigestError::DuplicateSignature);
            }
            i = i + 1;
        }
        assert(!self.has_signed(peer_id)) by {
            if self.signers().contains(peer_id) {
                let k = choose|k: int| 0 <= k < self.signers().len() && self.signers()[k] == peer_id;
                assert(self.multi_signature@[k].0 == peer_id);
            }
        }
        self.multi_signature.push((peer_id, signature));
        Ok(())
    }

    /// Evaluates readiness against the active validator set, from the local
    /// validator's point of view.
    pub fn ready(&self, validator_verifier: &ValidatorVerifier, my_peer_id: PeerId) -> (r: bool)
        ensures
            r == self.is_ready(validator_verifier, my_peer_id),
    {
        let n = self.multi_signature.len();
        let mut signer_ids: Vec<PeerId> = Vec::new();
        let mut mine = false;
        let mut i: usize = 0;
        while i < n
            invariant
                0 <= i <= n,
                n == self.multi_signature@.len(),
                signer_ids@ =~= self.signers().take(i as int),
                mine == self.signers().take(i as int).contains(my_peer_id),
            decreases n - i,
        {
            let peer = self.multi_signature[i].0;
            signer_ids.push(peer);
            assert(self.signers().take(i as int + 1) =~= self.signers().take(i as int).push(peer));
            if peer == my_peer_id {
                mine = true;
                assert(self.signers().take(i as int + 1).last() == my_peer_id);
            }
            i = i + 1;
        }
        assert(self.signers().take(n as int) =~= self.signers());
        mine && validator_verifier.check_voting_power(&signer_ids)
    }
}

/// One fold short of quorum never resolves: while the signers' combined power
/// is below the threshold, the certificate is not ready for any local
/// identity.
pub proof fn lemma_below_quorum_not_ready(
    cert: ProofOfStore,
    verifier: &ValidatorVerifier,
    my_peer_id: PeerId,
)
    requires
        combined_power(verifier.validators@, cert.signers()) < verifier.quorum_voting_power,
    ensures
        !cert.is_ready(verifier, my_peer_id),
{
}

/// Crossing the threshold resolves: as soon as the signers' combined power
/// reaches the quorum threshold and the local validator is among them, the
/// certificate is ready.
pub proof fn lemma_quorum_with_self_is_ready(
    cert: ProofOfStore,
    verifier: &ValidatorVerifier,
    my_peer_id: PeerId,
)
    requires
        combined_power(verifier.validators@, cert.signers()) >= verifier.quorum_voting_power,
        cert.has_signed(my_peer_id),
    ensures
        cert.is_ready(verifier, my_peer_id),
{
}

} // verus!
