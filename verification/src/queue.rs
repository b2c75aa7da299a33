//! The proposal queue: a bounded first-in, first-out buffer of proposal
//! bodies that wait for a referendum.

use crate::primitives::bodies;
use vstd::prelude::*;

verus! {

/// The proposal queue as a mathematical value.
pub struct QueueState {
    /// No queued proposal is longer than this.
    pub max_proposal_length: nat,
    /// The queue never holds more proposals than this.
    pub capacity: nat,
    /// The queued bodies, oldest first.
    pub proposals: Seq<Seq<u8>>,
}

impl QueueState {
    /// The queue holds at most `capacity` proposals, each within the length
    /// limit.
    pub open spec fn wf(self) -> bool {
        &&& self.proposals.len() <= self.capacity
        &&& forall|i: int|
            0 <= i < self.proposals.len() ==> (#[trigger] self.proposals[i]).len()
                <= self.max_proposal_length
    }

    /// Whether a proposal body is within the length limit.
    pub open spec fn fits(self, proposal: Seq<u8>) -> bool {
        proposal.len() <= self.max_proposal_length
    }

    /// Whether the queue is at capacity.
    pub open spec fn is_full(self) -> bool {
        self.proposals.len() >= self.capacity
    }

    /// The queue after `proposal` joins at the tail.
    pub open spec fn appended(self, proposal: Seq<u8>) -> QueueState {
        QueueState { proposals: self.proposals.push(proposal), ..self }
    }

    /// The queue after its `n` oldest proposals leave at the head.
    pub open spec fn without_front(self, n: int) -> QueueState
        recommends
            0 <= n <= self.proposals.len(),
    {
        QueueState { proposals: self.proposals.skip(n), ..self }
    }
}

/// First in, first out: a proposal that joins the queue leaves after all that
/// were queued before it, and never changes which proposals leave while it
/// waits.
pub proof fn lemma_queue_is_fifo(queue: QueueState, proposal: Seq<u8>, n: int)
    requires
        0 <= n <= queue.proposals.len(),
    ensures
        queue.appended(proposal).proposals.take(n) == queue.proposals.take(n),
        queue.appended(proposal).without_front(n) == queue.without_front(n).appended(proposal),
        queue.appended(proposal).proposals.last() == proposal,
{
    assert(queue.appended(proposal).proposals.take(n) =~= queue.proposals.take(n));
    assert(queue.appended(proposal).proposals.skip(n) =~= queue.proposals.skip(n).push(
        proposal,
    ));
}

/// Appending where the queue has room, and removing at the head, keep the
/// queue within its bounds.
pub proof fn lemma_queue_stays_bounded(queue: QueueState, proposal: Seq<u8>, n: int)
    requires
        queue.wf(),
        0 <= n <= queue.proposals.len(),
    ensures
        queue.fits(proposal) && !queue.is_full() ==> queue.appended(proposal).wf(),
        queue.without_front(n).wf(),
{
    let shorter = queue.without_front(n);
    assert forall|i: int| 0 <= i < shorter.proposals.len() implies (
    #[trigger] shorter.proposals[i]).len() <= shorter.max_proposal_length by {
        assert(shorter.proposals[i] == queue.proposals[i + n]);
    }
}

/// The proposal queue.
pub struct ProposalQueue {
    proposals: Vec<Vec<u8>>,
    max_proposal_length: u32,
    capacity: u32,
}

impl View for ProposalQueue {
    type V = QueueState;

    closed spec fn view(&self) -> QueueState {
        QueueState {
            max_proposal_length: self.max_proposal_length as nat,
            capacity: self.capacity as nat,
            proposals: bodies(self.proposals@),
        }
    }
}

impl ProposalQueue {
    /// An empty queue for at most `capacity` proposals of at most
    /// `max_proposal_length` bytes each.
    pub fn new(max_proposal_length: u32, capacity: u32) -> (queue: ProposalQueue)
        ensures
            queue@ == (QueueState {
                max_proposal_length: max_proposal_length as nat,
                capacity: capacity as nat,
                proposals: Seq::empty(),
            }),
            queue@.wf(),
    {
        let queue = ProposalQueue { proposals: Vec::new(), max_proposal_length, capacity };
        assert(queue@.proposals =~= Seq::empty());
        queue
    }

    /// The length limit of a proposal.
    pub fn max_proposal_length(&self) -> (limit: u32)
        ensures
            limit == self@.max_proposal_length,
    {
        self.max_proposal_length
    }

    /// The most proposals the queue holds.
    pub fn capacity(&self) -> (capacity: u32)
        ensures
            capacity == self@.capacity,
    {
        self.capacity
    }

    /// Number of queued proposals.
    pub fn len(&self) -> (len: usize)
        ensures
            len == self@.proposals.len(),
    {
        self.proposals.len()
    }

    /// The queued proposals, oldest first.
    pub fn proposals(&self) -> (proposals: &Vec<Vec<u8>>)
        ensures
            bodies(proposals@) == self@.proposals,
    {
        &self.proposals
    }

    /// Whether `proposal` is within the length limit.
    pub fn fits(&self, proposal: &Vec<u8>) -> (fits: bool)
        ensures
            fits == self@.fits(proposal@),
    {
        proposal.len() <= self.max_proposal_length as usize
    }

    /// Whether the queue is at capacity.
    pub fn is_full(&self) -> (full: bool)
        ensures
            full == self@.is_full(),
    {
        self.proposals.len() >= self.capacity as usize
    }

    /// Appends `proposal` at the tail.
    pub fn append(&mut self, proposal: Vec<u8>)
        requires
            old(self)@.wf(),
            old(self)@.fits(proposal@),
            !old(self)@.is_full(),
        ensures
            final(self)@ == old(self)@.appended(proposal@),
            final(self)@.wf(),
    {
        self.proposals.push(proposal);
        proof {
            assert(final(self)@.proposals =~= old(self)@.proposals.push(proposal@));
            lemma_queue_stays_bounded(old(self)@, proposal@, 0);
        }
    }

    /// Removes the `n` oldest proposals and hands them back, oldest first.
    pub fn take_front(&mut self, n: usize) -> (taken: Vec<Vec<u8>>)
        requires
            old(self)@.wf(),
            n <= old(self)@.proposals.len(),
        ensures
            taken@.len() == n,
            bodies(taken@) == old(self)@.proposals.take(n as int),
            final(self)@ == old(self)@.without_front(n as int),
            final(self)@.wf(),
    {
        let mut rest = self.proposals.split_off(n);
        std::mem::swap(&mut self.proposals, &mut rest);
        proof {
            assert(bodies(rest@) =~= old(self)@.proposals.take(n as int));
            assert(final(self)@.proposals =~= old(self)@.proposals.skip(n as int));
            lemma_queue_stays_bounded(old(self)@, Seq::empty(), n as int);
        }
        rest
    }
}

} // verus!
