//! The proof aggregator: sole owner of the digest-to-in-progress-proof map
//! and of the timeout tracker. Commands are handled strictly one at a time by
//! the owning loop; the periodic tick is interleaved between, never inside,
//! command handling. Each registered digest is resolved exactly once — by a
//! completed proof when quorum is reached, or by a timeout failure when the
//! deadline elapses first — and the resolution is produced together with the
//! removal of the digest's map entry, so a second resolution of the same
//! registration is structurally impossible.

use std::collections::HashMap;
use vstd::prelude::*;
use crate::proof_of_store::{ProofOfStore, QuorumStoreError, SignedDigest, SignedDigestError,
    SignedDigestInfo};
use crate::types::{BatchId, Digest, PeerId};
use crate::utils::{elapsed_digests, kept_entries, lemma_elapsed_entry_reported,
    lemma_pending_entry_kept, lemma_reported_digest_was_registered, ticks_for, DigestTimeouts};
use crate::validator_verifier::ValidatorVerifier;

verus! {

broadcast use vstd::std_specs::hash::group_hash_axioms;

/// The one-shot resolution of one registered digest: the completed proof and
/// its batch id on success, or a timeout failure carrying the batch id. The
/// surrounding loop delivers it on the channel stored for `digest` at
/// registration.
#[derive(Debug)]
pub struct ProofReply {
    pub digest: Digest,
    pub result: Result<(ProofOfStore, BatchId), QuorumStoreError>,
}

/// Pending aggregation state of one digest: the in-progress certificate and
/// the batch id that tags the eventual resolution.
#[derive(Clone, Debug)]
pub struct ProofContext {
    pub proof_of_store: ProofOfStore,
    pub batch_id: BatchId,
}

/// The map after removing every digest of `ds`, first to last.
pub open spec fn remove_all(m: Map<Digest, ProofContext>, ds: Seq<Digest>) -> Map<
    Digest,
    ProofContext,
>
    decreases ds.len(),
{
    if ds.len() == 0 {
        m
    } else {
        remove_all(m.remove(ds[0]), ds.skip(1))
    }
}

/// The timeout replies an expiry pass over `ds` produces against the pending
/// map `m`: one reply per expired digest that is still pending, in order, and
/// none for a digest with no entry.
pub open spec fn timeout_replies(m: Map<Digest, ProofContext>, ds: Seq<Digest>) -> Seq<ProofReply>
    decreases ds.len(),
{
    if ds.len() == 0 {
        Seq::empty()
    } else if m.contains_key(ds[0]) {
        seq![
            ProofReply {
                digest: ds[0],
                result: Err(QuorumStoreError::Timeout(m[ds[0]].batch_id)),
            },
        ] + timeout_replies(m.remove(ds[0]), ds.skip(1))
    } else {
        timeout_replies(m, ds.skip(1))
    }
}

/// The proof aggregator's state: its own identity (used only to decide local
/// attestability of a finished certificate and for diagnostics), the uniform
/// proof timeout, the pending digests, and the timeout tracker.
pub struct ProofBuilder {
    pub peer_id: PeerId,
    pub proof_timeout_ms: u64,
    pub digest_to_proof: HashMap<Digest, ProofContext>,
    pub timeouts: DigestTimeouts,
}

impl ProofBuilder {
    /// Well-formedness: the configured timeout is a positive duration, the
    /// tracker is well-formed, and every pending digest holds a well-formed
    /// certificate created for exactly that digest and has a timeout
    /// registration scheduled.
    pub open spec fn wf(&self) -> bool {
        &&& 1 <= self.proof_timeout_ms
        &&& self.timeouts.wf()
        &&& forall|d: Digest| #[trigger]
            self.digest_to_proof@.contains_key(d) ==> {
                &&& self.digest_to_proof@[d].proof_of_store.wf()
                &&& self.digest_to_proof@[d].proof_of_store.info.digest == d
                &&& exists|i: int|
                    0 <= i < self.timeouts.entries@.len()
                        && (#[trigger] self.timeouts.entries@[i]).1 == d
            }
    }

    /// A fresh aggregator with no pending digest, at tick zero.
    pub fn new(proof_timeout_ms: u64, peer_id: PeerId) -> (r: Self)
        requires
            1 <= proof_timeout_ms,
        ensures
            r.peer_id == peer_id,
            r.proof_timeout_ms == proof_timeout_ms,
            r.digest_to_proof@ == Map::<Digest, ProofContext>::empty(),
            r.timeouts.tick == 0,
            r.timeouts.entries@ == Seq::<(u64, Digest)>::empty(),
            r.wf(),
    {
        ProofBuilder {
            peer_id,
            proof_timeout_ms,
            digest_to_proof: HashMap::new(),
            timeouts: DigestTimeouts::new(),
        }
    }

    /// Registers `info.digest`: stores an empty certificate over `info`
    /// tagged with `batch_id`, and schedules a timeout of the configured
    /// duration. No resolution is produced here. The call site guarantees the
    /// digest is not already registered; registering it again nonetheless
    /// replaces the entry and schedules an additional deadline.
    pub fn init_proof(&mut self, info: SignedDigestInfo, batch_id: BatchId) -> (r: Result<
        (),
        SignedDigestError,
    >)
        requires
            old(self).wf(),
            old(self).timeouts.tick + ticks_for(old(self).proof_timeout_ms) <= u64::MAX,
        ensures
            final(self).wf(),
            r matches Ok(()),
            final(self).peer_id == old(self).peer_id,
            final(self).proof_timeout_ms == old(self).proof_timeout_ms,
            final(self).timeouts.tick == old(self).timeouts.tick,
            final(self).timeouts.entries@ == old(self).timeouts.entries@.push(
                (
                    (old(self).timeouts.tick + ticks_for(old(self).proof_timeout_ms)) as u64,
                    info.digest,
                ),
            ),
            final(self).digest_to_proof@.contains_key(info.digest),
            final(self).digest_to_proof@[info.digest].batch_id == batch_id,
            final(self).digest_to_proof@[info.digest].proof_of_store.info == info,
            final(self).digest_to_proof@[info.digest].proof_of_store.signers().len() == 0,
            final(self).digest_to_proof@.remove(info.digest) == old(self).digest_to_proof@.remove(
                info.digest,
            ),
    {
        self.timeouts.add_digest(info.digest, self.proof_timeout_ms);
        let ctx = ProofContext { proof_of_store: ProofOfStore::new(info), batch_id };
        self.digest_to_proof.insert(info.digest, ctx);
        proof {
            let old_entries = old(self).timeouts.entries@;
            let new_entries = self.timeouts.entries@;
            assert forall|d: Digest| #[trigger]
                self.digest_to_proof@.contains_key(d) implies {
                &&& self.digest_to_proof@[d].proof_of_store.wf()
                &&& self.digest_to_proof@[d].proof_of_store.info.digest == d
                &&& exists|i: int|
                    0 <= i < new_entries.len() && (#[trigger] new_entries[i]).1 == d
            } by {
                if d == info.digest {
                    assert((new_entries[new_entries.len() - 1]).1 == d);
                } else {
                    assert(old(self).digest_to_proof@.contains_key(d));
                    let i = choose|i: int|
                        0 <= i < old_entries.len() && (#[trigger] old_entries[i]).1 == d;
                    assert((new_entries[i]).1 == d);
                }
            }
        }
        Ok(())
    }

    /// Folds one endorsement into the certificate of its digest.
    ///
    /// With no active proof context for the digest, the unknown digest is
    /// reported and nothing changes — a benign outcome when the digest
    /// already resolved. A mismatched metadata or a duplicate signer is
    /// rejected, the entry unchanged. A successful fold either completes the
    /// proof — when the signers' combined power reaches the quorum threshold
    /// and this aggregator's own validator has signed — removing the entry
    /// and producing the one resolution, or leaves the grown certificate
    /// pending.
    pub fn add_signature(
        &mut self,
        signed_digest: SignedDigest,
        validator_verifier: &ValidatorVerifier,
    ) -> (r: Result<Option<ProofReply>, SignedDigestError>)
        requires
            old(self).wf(),
        ensures
            final(self).wf(),
            final(self).peer_id == old(self).peer_id,
            final(self).proof_timeout_ms == old(self).proof_timeout_ms,
            final(self).timeouts == old(self).timeouts,
            !old(self).digest_to_proof@.contains_key(signed_digest.info.digest) ==> {
                &&& r matches Err(e) && e == SignedDigestError::WrongDigest
                &&& final(self).digest_to_proof@ == old(self).digest_to_proof@
            },
            old(self).digest_to_proof@.contains_key(signed_digest.info.digest) ==> {
                let d = signed_digest.info.digest;
                let cert = old(self).digest_to_proof@[d].proof_of_store;
                let kept_batch_id = old(self).digest_to_proof@[d].batch_id;
                let grown = cert.signers().push(signed_digest.peer_id);
                &&& signed_digest.info != cert.info ==> {
                    &&& r matches Err(e) && e == SignedDigestError::WrongDigest
                    &&& final(self).digest_to_proof@ == old(self).digest_to_proof@
                }
                &&& signed_digest.info == cert.info && cert.has_signed(signed_digest.peer_id)
                    ==> {
                    &&& r matches Err(e) && e == SignedDigestError::DuplicateSignature
                    &&& final(self).digest_to_proof@ == old(self).digest_to_proof@
                }
                &&& signed_digest.info == cert.info && !cert.has_signed(signed_digest.peer_id)
                    && grown.contains(old(self).peer_id) && validator_verifier.quorum(grown) ==> {
                    &&& r matches Ok(Some(reply)) && {
                        &&& reply.digest == d
                        &&& reply.result matches Ok(done) && {
                            &&& done.1 == kept_batch_id
                            &&& done.0.info == cert.info
                            &&& done.0.multi_signature@ == cert.multi_signature@.push(
                                (signed_digest.peer_id, signed_digest.signature),
                            )
                        }
                    }
                    &&& final(self).digest_to_proof@ == old(self).digest_to_proof@.remove(d)
                }
                &&& signed_digest.info == cert.info && !cert.has_signed(signed_digest.peer_id) && !(
                grown.contains(old(self).peer_id) && validator_verifier.quorum(grown)) ==> {
                    &&& r matches Ok(pending) && pending is None
                    &&& final(self).digest_to_proof@.contains_key(d)
                    &&& final(self).digest_to_proof@.remove(d) == old(
                        self,
                    ).digest_to_proof@.remove(d)
                    &&& final(self).digest_to_proof@[d].batch_id == kept_batch_id
                    &&& final(self).digest_to_proof@[d].proof_of_store.info == cert.info
                    &&& final(self).digest_to_proof@[d].proof_of_store.multi_signature@
                        == cert.multi_signature@.push(
                        (signed_digest.peer_id, signed_digest.signature),
                    )
                }
            },
    {
        let digest = signed_digest.info.digest;
        match self.digest_to_proof.remove(&digest) {
            None => {
                proof {
                    assert(self.digest_to_proof@ =~= old(self).digest_to_proof@);
                }
                Err(SignedDigestError::WrongDigest)
            },
            Some(mut ctx) => {
                let ghost cert = ctx.proof_of_store;
                match ctx.proof_of_store.add_signature(
                    signed_digest.info,
                    signed_digest.peer_id,
                    signed_digest.signature,
                ) {
                    Err(e) => {
                        self.digest_to_proof.insert(digest, ctx);
                        proof {
                            assert(self.digest_to_proof@ =~= old(self).digest_to_proof@);
                        }
                        Err(e)
                    },
                    Ok(()) => {
                        proof {
                            assert(ctx.proof_of_store.signers() =~= cert.signers().push(
                                signed_digest.peer_id,
                            ));
                        }
                        if ctx.proof_of_store.ready(validator_verifier, self.peer_id) {
                            Ok(
                                Some(
                                    ProofReply {
                                        digest,
                                        result: Ok((ctx.proof_of_store, ctx.batch_id)),
                                    },
                                ),
                            )
                        } else {
                            self.digest_to_proof.insert(digest, ctx);
                            proof {
                                assert(self.digest_to_proof@ =~= old(
                                    self,
                                ).digest_to_proof@.insert(digest, ctx));
                            }
                            Ok(None)
                        }
                    },
                }
            },
        }
    }

    /// Advances time by one tick and resolves, with a timeout failure
    /// carrying its batch id, every digest whose deadline has elapsed and
    /// that is still pending. An expired registration whose digest already
    /// resolved is discarded: the tracker's exactly-once consumption means it
    /// cannot fire again later.
    pub fn expire(&mut self) -> (replies: Vec<ProofReply>)
        requires
            old(self).wf(),
            old(self).timeouts.tick < u64::MAX,
        ensures
            final(self).wf(),
            final(self).peer_id == old(self).peer_id,
            final(self).proof_timeout_ms == old(self).proof_timeout_ms,
            final(self).timeouts.tick == old(self).timeouts.tick + 1,
            final(self).timeouts.entries@ == kept_entries(
                old(self).timeouts.entries@,
                (old(self).timeouts.tick + 1) as u64,
            ),
            final(self).digest_to_proof@ == remove_all(
                old(self).digest_to_proof@,
                elapsed_digests(old(self).timeouts.entries@, (old(self).timeouts.tick + 1) as u64),
            ),
            replies@ == timeout_replies(
                old(self).digest_to_proof@,
                elapsed_digests(old(self).timeouts.entries@, (old(self).timeouts.tick + 1) as u64),
            ),
    {
        let expired = self.timeouts.expire();
        let ghost ds = expired@;
        let ghost m0 = self.digest_to_proof@;
        let mut replies: Vec<ProofReply> = Vec::new();
        let n = expired.len();
        let mut i: usize = 0;
        proof {
            assert(ds.skip(0) =~= ds);
        }
        while i < n
            invariant
                0 <= i <= n,
                n == ds.len(),
                expired@ == ds,
                self.peer_id == old(self).peer_id,
                self.proof_timeout_ms == old(self).proof_timeout_ms,
                1 <= self.proof_timeout_ms,
                self.timeouts.tick == old(self).timeouts.tick + 1,
                self.timeouts.entries@ == kept_entries(
                    old(self).timeouts.entries@,
                    self.timeouts.tick,
                ),
                self.timeouts.wf(),
                remove_all(self.digest_to_proof@, ds.skip(i as int)) == remove_all(m0, ds),
                replies@ + timeout_replies(self.digest_to_proof@, ds.skip(i as int))
                    == timeout_replies(m0, ds),
                forall|d: Digest| #[trigger]
                    self.digest_to_proof@.contains_key(d) ==> m0.contains_key(d)
                        && self.digest_to_proof@[d] == m0[d],
            decreases n - i,
        {
            let d = expired[i];
            let ghost m_before = self.digest_to_proof@;
            proof {
                assert(ds.skip(i as int)[0] == d);
                assert(ds.skip(i as int).skip(1) =~= ds.skip(i as int + 1));
            }
            match self.digest_to_proof.remove(&d) {
                Some(ctx) => {
                    let reply = ProofReply {
                        digest: d,
                        result: Err(QuorumStoreError::Timeout(ctx.batch_id)),
                    };
                    replies.push(reply);
                    proof {
                        assert(timeout_replies(m_before, ds.skip(i as int)) =~= seq![reply]
                            + timeout_replies(m_before.remove(d), ds.skip(i as int + 1)));
                        assert(replies@ + timeout_replies(
                            self.digest_to_proof@,
                            ds.skip(i as int + 1),
                        ) =~= timeout_replies(m0, ds));
                    }
                },
                None => {
                    proof {
                        assert(self.digest_to_proof@ =~= m_before);
                        assert(m_before.remove(d) =~= m_before);
                    }
                },
            }
            i = i + 1;
        }
        proof {
            assert(ds.skip(n as int) =~= Seq::<Digest>::empty());
            assert(replies@ + timeout_replies(self.digest_to_proof@, ds.skip(n as int)) =~= replies@);
            let t = (old(self).timeouts.tick + 1) as u64;
            let old_entries = old(self).timeouts.entries@;
            assert forall|d: Digest| #[trigger]
                self.digest_to_proof@.contains_key(d) implies {
                &&& self.digest_to_proof@[d].proof_of_store.wf()
                &&& self.digest_to_proof@[d].proof_of_store.info.digest == d
                &&& exists|i: int|
                    0 <= i < self.timeouts.entries@.len()
                        && (#[trigger] self.timeouts.entries@[i]).1 == d
            } by {
                assert(m0.contains_key(d) && self.digest_to_proof@[d] == m0[d]);
                lemma_remove_all_contains(m0, ds, d);
                let k = choose|k: int|
                    0 <= k < old_entries.len() && (#[trigger] old_entries[k]).1 == d;
                if old_entries[k].0 <= t {
                    lemma_elapsed_entry_reported(old_entries, t, k);
                    let j = choose|j: int|
                        0 <= j < elapsed_digests(old_entries, t).len() && elapsed_digests(
                            old_entries,
                            t,
                        )[j] == d;
                    assert(ds.contains(d));
                } else {
                    lemma_pending_entry_kept(old_entries, t, k);
                    let e = old_entries[k];
                    let j = choose|j: int|
                        0 <= j < kept_entries(old_entries, t).len() && kept_entries(
                            old_entries,
                            t,
                        )[j] == e;
                    assert((self.timeouts.entries@[j]).1 == d);
                }
            }
        }
        replies
    }
}

/// A digest that is not (or no longer) pending never resolves: every removal
/// of `ds` digests from `m` leaves exactly the pending digests outside `ds`,
/// with their state untouched.
pub proof fn lemma_remove_all_contains(m: Map<Digest, ProofContext>, ds: Seq<Digest>, d: Digest)
    ensures
        remove_all(m, ds).contains_key(d) <==> (m.contains_key(d) && !ds.contains(d)),
        remove_all(m, ds).contains_key(d) ==> remove_all(m, ds)[d] == m[d],
    decreases ds.len(),
{
    if ds.len() == 0 {
    } else {
        lemma_remove_all_contains(m.remove(ds[0]), ds.skip(1), d);
        assert(ds.contains(d) <==> (d == ds[0] || ds.skip(1).contains(d))) by {
            if ds.contains(d) {
                let k = choose|k: int| 0 <= k < ds.len() && ds[k] == d;
                if k > 0 {
                    assert(ds.skip(1)[k - 1] == d);
                }
            }
            if ds.skip(1).contains(d) {
                let k = choose|k: int| 0 <= k < ds.skip(1).len() && ds.skip(1)[k] == d;
                assert(ds[k + 1] == d);
            }
        }
    }
}

/// Every timeout reply of one expiry pass is for a digest that was pending,
/// and it carries that digest's batch id: replies are never invented for an
/// unregistered or already-resolved digest.
pub proof fn lemma_timeout_replies_from_pending(m: Map<Digest, ProofContext>, ds: Seq<Digest>)
    ensures
        forall|k: int|
            0 <= k < timeout_replies(m, ds).len() ==> {
                let reply = #[trigger] timeout_replies(m, ds)[k];
                &&& m.contains_key(reply.digest)
                &&& reply.result == Err::<(ProofOfStore, BatchId), QuorumStoreError>(
                    QuorumStoreError::Timeout(m[reply.digest].batch_id),
                )
            },
    decreases ds.len(),
{
    if ds.len() == 0 {
    } else if m.contains_key(ds[0]) {
        lemma_timeout_replies_from_pending(m.remove(ds[0]), ds.skip(1));
        let r = timeout_replies(m, ds);
        let rest = timeout_replies(m.remove(ds[0]), ds.skip(1));
        assert forall|k: int| 0 <= k < r.len() implies {
            let reply = #[trigger] r[k];
            &&& m.contains_key(reply.digest)
            &&& reply.result == Err::<(ProofOfStore, BatchId), QuorumStoreError>(
                QuorumStoreError::Timeout(m[reply.digest].batch_id),
            )
        } by {
            if k > 0 {
                assert(r[k] == rest[k - 1]);
                assert(m.remove(ds[0]).contains_key(rest[k - 1].digest));
            }
        }
    } else {
        lemma_timeout_replies_from_pending(m, ds.skip(1));
    }
}

/// No digest resolves twice within one expiry pass: the timeout replies of a
/// pass name pairwise distinct digests.
pub proof fn lemma_timeout_replies_distinct(m: Map<Digest, ProofContext>, ds: Seq<Digest>)
    ensures
        forall|j: int, k: int|
            0 <= j < k < timeout_replies(m, ds).len() ==> (#[trigger] timeout_replies(m, ds)[j]).digest
                != (#[trigger] timeout_replies(m, ds)[k]).digest,
    decreases ds.len(),
{
    if ds.len() == 0 {
    } else if m.contains_key(ds[0]) {
        lemma_timeout_replies_distinct(m.remove(ds[0]), ds.skip(1));
        lemma_timeout_replies_from_pending(m.remove(ds[0]), ds.skip(1));
        let r = timeout_replies(m, ds);
        let rest = timeout_replies(m.remove(ds[0]), ds.skip(1));
        assert forall|j: int, k: int| 0 <= j < k < r.len() implies (#[trigger] r[j]).digest
            != (#[trigger] r[k]).digest by {
            assert(r[k] == rest[k - 1]);
            assert(m.remove(ds[0]).contains_key(rest[k - 1].digest));
            if j > 0 {
                assert(r[j] == rest[j - 1]);
            } else {
                assert(r[0].digest == ds[0]);
                assert(!m.remove(ds[0]).contains_key(ds[0]));
            }
        }
    } else {
        lemma_timeout_replies_distinct(m, ds.skip(1));
    }
}

/// No early timeout: a pending digest none of whose scheduled deadlines has
/// elapsed by the next tick survives the expiry pass — its entry and state
/// are untouched and a deadline stays scheduled, so the aggregator's
/// well-formedness is self-sustaining until either quorum or the deadline
/// resolves the digest.
pub proof fn lemma_pending_digest_survives_early_tick(b: &ProofBuilder, d: Digest)
    requires
        b.wf(),
        b.timeouts.tick < u64::MAX,
        b.digest_to_proof@.contains_key(d),
        forall|i: int|
            0 <= i < b.timeouts.entries@.len() && (#[trigger] b.timeouts.entries@[i]).1 == d
                ==> b.timeouts.entries@[i].0 > b.timeouts.tick + 1,
    ensures
        remove_all(
            b.digest_to_proof@,
            elapsed_digests(b.timeouts.entries@, (b.timeouts.tick + 1) as u64),
        ).contains_key(d),
        remove_all(
            b.digest_to_proof@,
            elapsed_digests(b.timeouts.entries@, (b.timeouts.tick + 1) as u64),
        )[d] == b.digest_to_proof@[d],
        exists|i: int|
            0 <= i < kept_entries(b.timeouts.entries@, (b.timeouts.tick + 1) as u64).len() && (
            #[trigger] kept_entries(b.timeouts.entries@, (b.timeouts.tick + 1) as u64)[i]).1 == d,
{
    let t = (b.timeouts.tick + 1) as u64;
    let entries = b.timeouts.entries@;
    let ds = elapsed_digests(entries, t);
    assert(!ds.contains(d)) by {
        if ds.contains(d) {
            let j = choose|j: int| 0 <= j < ds.len() && ds[j] == d;
            lemma_reported_digest_was_registered(entries, t, j);
        }
    }
    lemma_remove_all_contains(b.digest_to_proof@, ds, d);
    let k = choose|k: int| 0 <= k < entries.len() && (#[trigger] entries[k]).1 == d;
    lemma_pending_entry_kept(entries, t, k);
    let e = entries[k];
    let j = choose|j: int|
        0 <= j < kept_entries(entries, t).len() && kept_entries(entries, t)[j] == e;
    assert((kept_entries(entries, t)[j]).1 == d);
}

/// Liveness at the deadline: a pending digest one of whose scheduled
/// deadlines has elapsed by the next tick is resolved by that expiry pass —
/// `expire` produces a timeout reply for it. Together with the
/// well-formedness clause that every pending digest has a deadline
/// scheduled, a digest that never reaches quorum cannot stay pending past
/// its deadline while the tick keeps being polled.
pub proof fn lemma_pending_digest_resolves_at_deadline(b: &ProofBuilder, k: int)
    requires
        b.wf(),
        b.timeouts.tick < u64::MAX,
        0 <= k < b.timeouts.entries@.len(),
        b.timeouts.entries@[k].0 <= b.timeouts.tick + 1,
        b.digest_to_proof@.contains_key(b.timeouts.entries@[k].1),
    ensures
        exists|j: int|
            0 <= j < timeout_replies(
                b.digest_to_proof@,
                elapsed_digests(b.timeouts.entries@, (b.timeouts.tick + 1) as u64),
            ).len() && (#[trigger] timeout_replies(
                b.digest_to_proof@,
                elapsed_digests(b.timeouts.entries@, (b.timeouts.tick + 1) as u64),
            )[j]).digest == b.timeouts.entries@[k].1,
{
    let t = (b.timeouts.tick + 1) as u64;
    let d = b.timeouts.entries@[k].1;
    lemma_elapsed_entry_reported(b.timeouts.entries@, t, k);
    let ds = elapsed_digests(b.timeouts.entries@, t);
    lemma_elapsed_pending_digest_resolves(b.digest_to_proof@, ds, d);
}

/// A pending digest whose deadline has elapsed does resolve in that pass: the
/// expiry that consumes its registration produces a timeout reply for it.
pub proof fn lemma_elapsed_pending_digest_resolves(
    m: Map<Digest, ProofContext>,
    ds: Seq<Digest>,
    d: Digest,
)
    requires
        m.contains_key(d),
        ds.contains(d),
    ensures
        exists|k: int|
            0 <= k < timeout_replies(m, ds).len() && (#[trigger] timeout_replies(m, ds)[k]).digest
                == d,
    decreases ds.len(),
{
    let r = timeout_replies(m, ds);
    if ds[0] == d {
        assert(m.contains_key(ds[0]));
        assert(r[0].digest == d);
    } else {
        assert(ds.skip(1).contains(d)) by {
            let k = choose|k: int| 0 <= k < ds.len() && ds[k] == d;
            assert(ds.skip(1)[k - 1] == d);
        }
        if m.contains_key(ds[0]) {
            lemma_elapsed_pending_digest_resolves(m.remove(ds[0]), ds.skip(1), d);
            let rest = timeout_replies(m.remove(ds[0]), ds.skip(1));
            let k = choose|k: int| 0 <= k < rest.len() && (#[trigger] rest[k]).digest == d;
            assert(r[k + 1].digest == d);
        } else {
            lemma_elapsed_pending_digest_resolves(m, ds.skip(1), d);
        }
    }
}

} // verus!
