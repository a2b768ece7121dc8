//! The validator-set capability the aggregator consults: the voting power of
//! each validator of the active epoch, and the quorum threshold that the
//! combined power of a set of signers must reach for a proof to be complete.

use vstd::prelude::*;
use crate::types::PeerId;

verus! {

/// One validator's consensus weight in the active validator set.
#[derive(Clone, Copy, Debug, PartialEq, Eq, Structural)]
pub struct ValidatorConsensusInfo {
    pub address: PeerId,
    pub voting_power: u64,
}

/// Voting power of `peer` in the table `s`: the power of the first entry with
/// that address, and zero when the peer is not a validator.
pub open spec fn power_in(s: Seq<ValidatorConsensusInfo>, peer: PeerId) -> nat
    decreases s.len(),
{
    if s.len() == 0 {
        0
    } else if s[0].address == peer {
        s[0].voting_power as nat
    } else {
        power_in(s.skip(1), peer)
    }
}

/// Combined voting power of a sequence of signers against the table `s`.
/// A signer that appears twice is counted twice: callers keep signers
/// distinct.
pub open spec fn combined_power(s: Seq<ValidatorConsensusInfo>, signers: Seq<PeerId>) -> nat
    decreases signers.len(),
{
    if signers.len() == 0 {
        0
    } else {
        combined_power(s, signers.drop_last()) + power_in(s, signers.last())
    }
}

/// The active validator set and the quorum threshold of the epoch.
#[derive(Clone, Debug)]
pub struct ValidatorVerifier {
    pub validators: Vec<ValidatorConsensusInfo>,
    pub quorum_voting_power: u64,
}

impl ValidatorVerifier {
    /// Whether the combined power of `signers` reaches the quorum threshold.
    pub open spec fn quorum(&self, signers: Seq<PeerId>) -> bool {
        combined_power(self.validators@, signers) >= self.quorum_voting_power
    }

    /// Builds the capability from the epoch's validator table and its quorum
    /// threshold (the supermajority bound the epoch's configuration fixes).
    pub fn new(validators: Vec<ValidatorConsensusInfo>, quorum_voting_power: u64) -> (r: Self)
        ensures
            r.validators == validators,
            r.quorum_voting_power == quorum_voting_power,
    {
        ValidatorVerifier { validators, quorum_voting_power }
    }

    /// Voting power of one peer; zero when the peer is not in the set.
    pub fn get_voting_power(&self, peer: PeerId) -> (r: u64)
        ensures
            r == power_in(self.validators@, peer),
    {
        let n = self.validators.len();
        let mut i: usize = 0;
        assert(self.validators@.skip(0) =~= self.validators@);
        while i < n
            invariant
                0 <= i <= n,
                n == self.validators@.len(),
                power_in(self.validators@, peer) == power_in(self.validators@.skip(i as int), peer),
                forall|k: int| 0 <= k < i ==> self.validators@[k].address != peer,
            decreases n - i,
        {
            let entry = self.validators[i];
            if entry.address == peer {
                assert(self.validators@.skip(i as int)[0] == entry);
                return entry.voting_power;
            }
            assert(self.validators@.skip(i as int).skip(1) =~= self.validators@.skip(i as int + 1));
            i = i + 1;
        }
        assert(self.validators@.skip(i as int).len() == 0);
        0
    }

    /// Whether the combined voting power of `signers` reaches the quorum
    /// threshold. A signer listed twice is counted twice: callers keep the
    /// list distinct.
    pub fn check_voting_power(&self, signers: &Vec<PeerId>) -> (r: bool)
        ensures
            r == self.quorum(signers@),
    {
        let n = signers.len();
        let mut sum: u128 = 0;
        let mut i: usize = 0;
        while i < n
            invariant
                0 <= i <= n,
                n == signers@.len(),
                sum == combined_power(self.validators@, signers@.take(i as int)),
                sum <= (i as int) * 0xffff_ffff_ffff_ffffu64,
            decreases n - i,
        {
            let p = self.get_voting_power(signers[i]);
            assert(signers@.take(i as int + 1).drop_last() =~= signers@.take(i as int));
            assert(signers@.take(i as int + 1).last() == signers@[i as int]);
            sum = sum + p as u128;
            i = i + 1;
        }
        assert(signers@.take(n as int) =~= signers@);
        sum >= self.quorum_voting_power as u128
    }
}

} // verus!
