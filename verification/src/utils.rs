//! The digest timeout tracker: a deadline per registration, bucketed by the
//! aggregator's polling tick. `add_digest` schedules a deadline a whole
//! number of ticks ahead — the least number of ticks that covers the
//! requested duration — and `expire` advances time by one tick and hands out,
//! exactly once, every registration whose deadline has elapsed.

use vstd::prelude::*;
use crate::types::Digest;

verus! {

/// Length of one polling tick in milliseconds.
pub const TICK_INTERVAL_MS: u64 = 100;

/// The number of whole ticks that covers `timeout_ms` milliseconds: the
/// ceiling of `timeout_ms / TICK_INTERVAL_MS`.
pub open spec fn ticks_for(timeout_ms: u64) -> int {
    timeout_ms as int / TICK_INTERVAL_MS as int + if timeout_ms as int % TICK_INTERVAL_MS as int
        == 0 {
        0int
    } else {
        1int
    }
}

/// The registrations of `s` whose deadline is still ahead of tick `t`, in
/// their original order.
pub open spec fn kept_entries(s: Seq<(u64, Digest)>, t: u64) -> Seq<(u64, Digest)>
    decreases s.len(),
{
    if s.len() == 0 {
        Seq::empty()
    } else {
        let rest = kept_entries(s.drop_last(), t);
        if s.last().0 > t {
            rest.push(s.last())
        } else {
            rest
        }
    }
}

/// The digests of `s` whose deadline has elapsed at tick `t`, in their
/// original order of registration.
pub open spec fn elapsed_digests(s: Seq<(u64, Digest)>, t: u64) -> Seq<Digest>
    decreases s.len(),
{
    if s.len() == 0 {
        Seq::empty()
    } else {
        let rest = elapsed_digests(s.drop_last(), t);
        if s.last().0 <= t {
            rest.push(s.last().1)
        } else {
            rest
        }
    }
}

/// Tracks one deadline per registration of a digest. Re-registering a digest
/// is allowed and schedules an additional, independent deadline.
#[derive(Clone, Debug)]
pub struct DigestTimeouts {
    /// The current logical tick.
    pub tick: u64,
    /// Pending registrations: deadline tick and digest, in registration
    /// order.
    pub entries: Vec<(u64, Digest)>,
}

impl DigestTimeouts {
    /// Well-formedness: every pending deadline is still ahead.
    pub open spec fn wf(&self) -> bool {
        forall|i: int| 0 <= i < self.entries@.len() ==> (#[trigger] self.entries@[i]).0 > self.tick
    }

    /// An empty tracker at tick zero.
    pub fn new() -> (r: Self)
        ensures
            r.tick == 0,
            r.entries@ == Seq::<(u64, Digest)>::empty(),
            r.wf(),
    {
        DigestTimeouts { tick: 0, entries: Vec::new() }
    }

    /// Registers a deadline `timeout_ms` milliseconds ahead, rounded up to a
    /// whole tick.
    pub fn add_digest(&mut self, digest: Digest, timeout_ms: u64)
        requires
            old(self).wf(),
            1 <= timeout_ms,
            old(self).tick + ticks_for(timeout_ms) <= u64::MAX,
        ensures
            final(self).wf(),
            final(self).tick == old(self).tick,
            final(self).entries@ == old(self).entries@.push(
                ((old(self).tick + ticks_for(timeout_ms)) as u64, digest),
            ),
    {
        let extra: u64 = if timeout_ms % TICK_INTERVAL_MS == 0 {
            0
        } else {
            1
        };
        let deadline_ticks: u64 = timeout_ms / TICK_INTERVAL_MS + extra;
        let deadline: u64 = self.tick + deadline_ticks;
        self.entries.push((deadline, digest));
    }

    /// Advances time by one tick and returns, exactly once each, every
    /// registration whose deadline has elapsed; the rest stay pending.
    pub fn expire(&mut self) -> (expired: Vec<Digest>)
        requires
            old(self).wf(),
            old(self).tick < u64::MAX,
        ensures
            final(self).wf(),
            final(self).tick == old(self).tick + 1,
            final(self).entries@ == kept_entries(
                old(self).entries@,
                (old(self).tick + 1) as u64,
            ),
            expired@ == elapsed_digests(old(self).entries@, (old(self).tick + 1) as u64),
    {
        let t: u64 = self.tick + 1;
        self.tick = t;
        let n = self.entries.len();
        let mut kept: Vec<(u64, Digest)> = Vec::new();
        let mut out: Vec<Digest> = Vec::new();
        let mut i: usize = 0;
        while i < n
            invariant
                0 <= i <= n,
                n == self.entries@.len(),
                self.entries@ == old(self).entries@,
                self.tick == t,
                t == old(self).tick + 1,
                kept@ == kept_entries(self.entries@.take(i as int), t),
                out@ == elapsed_digests(self.entries@.take(i as int), t),
            decreases n - i,
        {
            let entry = self.entries[i];
            assert(self.entries@.take(i as int + 1).drop_last() =~= self.entries@.take(i as int));
            assert(self.entries@.take(i as int + 1).last() == entry);
            if entry.0 > t {
                kept.push(entry);
            } else {
                out.push(entry.1);
            }
            i = i + 1;
        }
        assert(self.entries@.take(n as int) =~= self.entries@);
        self.entries = kept;
        proof {
            lemma_kept_entries_ahead(old(self).entries@, t);
        }
        out
    }
}

/// Every registration kept past tick `t` has a deadline strictly ahead of
/// `t`, and was among the registrations before the tick.
pub proof fn lemma_kept_entries_ahead(s: Seq<(u64, Digest)>, t: u64)
    ensures
        forall|j: int|
            0 <= j < kept_entries(s, t).len() ==> (#[trigger] kept_entries(s, t)[j]).0 > t
                && s.contains(kept_entries(s, t)[j]),
    decreases s.len(),
{
    if s.len() > 0 {
        lemma_kept_entries_ahead(s.drop_last(), t);
        let r = kept_entries(s, t);
        let rest = kept_entries(s.drop_last(), t);
        assert forall|j: int| 0 <= j < r.len() implies (#[trigger] r[j]).0 > t && s.contains(
            r[j],
        ) by {
            if j < rest.len() {
                assert(r[j] == rest[j]);
                let k = choose|k: int|
                    0 <= k < s.drop_last().len() && s.drop_last()[k] == rest[j];
                assert(s[k] == rest[j]);
            } else {
                assert(s.last().0 > t && r[j] == s.last());
                assert(s[s.len() - 1] == s.last());
            }
        }
    }
}

/// A registration whose deadline is still ahead of tick `t` survives the
/// tick: `expire` does not consume it.
pub proof fn lemma_pending_entry_kept(s: Seq<(u64, Digest)>, t: u64, i: int)
    requires
        0 <= i < s.len(),
        s[i].0 > t,
    ensures
        kept_entries(s, t).contains(s[i]),
    decreases s.len(),
{
    if i == s.len() - 1 {
        let r = kept_entries(s, t);
        assert(r.last() == s.last());
        assert(r.contains(s[i])) by {
            assert(r[r.len() - 1] == s[i]);
        }
    } else {
        lemma_pending_entry_kept(s.drop_last(), t, i);
        assert(s.drop_last()[i] == s[i]);
        let rest = kept_entries(s.drop_last(), t);
        if s.last().0 > t {
            let k = choose|k: int| 0 <= k < rest.len() && rest[k] == s[i];
            assert(rest.push(s.last())[k] == s[i]);
        }
    }
}

/// A registration whose deadline has elapsed at tick `t` is consumed and its
/// digest reported: `expire` forgets no elapsed registration.
pub proof fn lemma_elapsed_entry_reported(s: Seq<(u64, Digest)>, t: u64, i: int)
    requires
        0 <= i < s.len(),
        s[i].0 <= t,
    ensures
        elapsed_digests(s, t).contains(s[i].1),
    decreases s.len(),
{
    if i == s.len() - 1 {
        let r = elapsed_digests(s, t);
        assert(r.contains(s[i].1)) by {
            assert(r[r.len() - 1] == s[i].1);
        }
    } else {
        lemma_elapsed_entry_reported(s.drop_last(), t, i);
        assert(s.drop_last()[i] == s[i]);
        let rest = elapsed_digests(s.drop_last(), t);
        let k = choose|k: int| 0 <= k < rest.len() && rest[k] == s[i].1;
        if s.last().0 <= t {
            assert(rest.push(s.last().1)[k] == s[i].1);
        }
    }
}

/// Every digest that `expire` reports comes from a registration whose
/// deadline has elapsed: nothing is reported early or invented.
pub proof fn lemma_reported_digest_was_registered(s: Seq<(u64, Digest)>, t: u64, j: int)
    requires
        0 <= j < elapsed_digests(s, t).len(),
    ensures
        exists|i: int|
            0 <= i < s.len() && (#[trigger] s[i]).0 <= t && s[i].1 == elapsed_digests(s, t)[j],
    decreases s.len(),
{
    let r = elapsed_digests(s, t);
    let rest = elapsed_digests(s.drop_last(), t);
    if j < rest.len() {
        lemma_reported_digest_was_registered(s.drop_last(), t, j);
        assert(rest[j] == r[j]);
        let i = choose|i: int|
            0 <= i < s.drop_last().len() && (#[trigger] s.drop_last()[i]).0 <= t
                && s.drop_last()[i].1 == rest[j];
        assert(s[i] == s.drop_last()[i]);
        assert(s[i].0 <= t && s[i].1 == r[j]);
    } else {
        assert(s.last().0 <= t && s.last().1 == r[j]);
        assert(s[s.len() - 1].0 <= t && s[s.len() - 1].1 == r[j]);
    }
}

/// Deadlines are accurate to one tick: the scheduled whole-tick deadline
/// covers the requested duration, and overshoots it by less than one tick.
pub proof fn lemma_tick_accuracy(timeout_ms: u64)
    requires
        1 <= timeout_ms,
    ensures
        100 * ticks_for(timeout_ms) >= timeout_ms,
        100 * ticks_for(timeout_ms) < timeout_ms + 100,
        1 <= ticks_for(timeout_ms),
{
    vstd::arithmetic::div_mod::lemma_fundamental_div_mod(timeout_ms as int, 100);
}

} // verus!
