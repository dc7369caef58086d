//! The state that a run threads from one cycle to the next, and what goes
//! into a module in each cycle.

use vstd::prelude::*;

verus! {

/// A 32-byte content hash.
pub type Fingerprint = [u8; 32];

/// The state carried from one cycle's output into the next cycle's input.
#[derive(Clone, Copy, Debug, PartialEq, Eq)]
pub struct ChainedState {
    /// Number of the head that the next cycle builds on; one more after
    /// every cycle.
    pub sequence_number: u64,
    /// Hash of the head that the last cycle's module returned.
    pub fingerprint: Fingerprint,
    /// Sum of the contributions of all cycles so far.
    pub accumulated: u64,
}

/// What one cycle hands to the module, before it is serialized. The head
/// that the module builds on carries a checksum of `prior_state`; to compute
/// it belongs to serializing.
#[derive(Clone, Copy, Debug, PartialEq, Eq)]
pub struct ValidationInput {
    /// Number of the parent head.
    pub sequence_number: u64,
    /// Hash of the head before the parent head.
    pub fingerprint: Fingerprint,
    /// The value accumulated before this cycle.
    pub prior_state: u64,
    /// The amount that this cycle adds.
    pub contribution: u64,
}

/// The sum of a sequence of contributions.
pub open spec fn total(contributions: Seq<u64>) -> int
    decreases contributions.len(),
{
    if contributions.len() == 0 {
        0
    } else {
        total(contributions.drop_last()) + contributions.last()
    }
}

/// The state after a cycle that started in `state`, added `contribution`,
/// and whose module returned a head with hash `fingerprint`.
pub open spec fn advanced(state: ChainedState, fingerprint: Fingerprint, contribution: u64)
    -> ChainedState {
    ChainedState {
        sequence_number: (state.sequence_number + 1) as u64,
        fingerprint,
        accumulated: (state.accumulated + contribution) as u64,
    }
}

/// The input of a cycle that starts in `state` and adds `contribution`.
pub open spec fn input_of(state: ChainedState, contribution: u64) -> ValidationInput {
    ValidationInput {
        sequence_number: state.sequence_number,
        fingerprint: state.fingerprint,
        prior_state: state.accumulated,
        contribution,
    }
}

/// The sum of the first `k + 1` contributions is the sum of the first `k`
/// and the one that follows them.
pub proof fn lemma_total_step(contributions: Seq<u64>, k: int)
    requires
        0 <= k < contributions.len(),
    ensures
        total(contributions.take(k + 1)) == total(contributions.take(k)) + contributions[k],
{
    assert(contributions.take(k + 1).drop_last() =~= contributions.take(k));
}

/// The sum of the first `k` contributions is at most the sum of all.
pub proof fn lemma_total_prefix(contributions: Seq<u64>, k: int)
    requires
        0 <= k <= contributions.len(),
    ensures
        0 <= total(contributions.take(k)) <= total(contributions),
    decreases contributions.len() - k,
{
    if k == contributions.len() {
        assert(contributions.take(k) =~= contributions);
        lemma_total_nonnegative(contributions);
    } else {
        lemma_total_step(contributions, k);
        lemma_total_prefix(contributions, k + 1);
        lemma_total_nonnegative(contributions.take(k));
    }
}

/// A sum of contributions is not negative.
pub proof fn lemma_total_nonnegative(contributions: Seq<u64>)
    ensures
        0 <= total(contributions),
    decreases contributions.len(),
{
    if contributions.len() > 0 {
        lemma_total_nonnegative(contributions.drop_last());
    }
}

impl ChainedState {
    /// The state before the first cycle of a fresh chain: number 0, a hash
    /// of zeros, nothing accumulated.
    pub fn genesis() -> (state: ChainedState)
        ensures
            state.sequence_number == 0,
            state.accumulated == 0,
            state.fingerprint@ == Seq::new(32, |i: int| 0u8),
    {
        let state = ChainedState { sequence_number: 0, fingerprint: [0u8; 32], accumulated: 0 };
        assert(state.fingerprint@ =~= Seq::new(32, |i: int| 0u8));
        state
    }

    /// The input of a cycle that starts in this state and adds
    /// `contribution`.
    pub fn input(&self, contribution: u64) -> (input: ValidationInput)
        ensures
            input == input_of(*self, contribution),
    {
        ValidationInput {
            sequence_number: self.sequence_number,
            fingerprint: self.fingerprint,
            prior_state: self.accumulated,
            contribution,
        }
    }

    /// The state after a cycle that started in this state, added
    /// `contribution`, and whose module returned a head with hash
    /// `fingerprint`.
    pub fn advance(&self, fingerprint: Fingerprint, contribution: u64) -> (next: ChainedState)
        requires
            self.sequence_number < u64::MAX,
            self.accumulated + contribution <= u64::MAX,
        ensures
            next == advanced(*self, fingerprint, contribution),
            next.sequence_number == self.sequence_number + 1,
            next.accumulated == self.accumulated + contribution,
            next.fingerprint == fingerprint,
    {
        ChainedState {
            sequence_number: self.sequence_number + 1,
            fingerprint,
            accumulated: self.accumulated + contribution,
        }
    }
}

} // verus!
