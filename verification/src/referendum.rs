//! The referendum store: every proposal ever put to a vote, by referendum
//! index and slot index, together with the one referendum that may be open.

use crate::primitives::{BlockNumber, H256};
use crate::types::{FinishedProposalInfo, OngoingProposalInfo, ProposalInfo, Tally, Vote};
use vstd::prelude::*;

verus! {

/// The index of a referendum: how many referenda closed before it opened.
pub type ReferendumIndex = u32;

/// The index of a proposal slot within its referendum.
pub type ProposalIndex = u32;

/// The outcome state of a slot as the store holds it.
pub type SlotInfo = ProposalInfo<H256, BlockNumber>;

/// The slots of a referendum that opens on proposals with the given content
/// hashes: one per hash, in order, with nothing counted yet.
pub open spec fn fresh_slots(hashes: Seq<H256>) -> Seq<SlotInfo> {
    Seq::new(
        hashes.len(),
        |s: int|
            ProposalInfo::Ongoing(
                OngoingProposalInfo { proposal_hash: hashes[s], tally: Tally::zero() },
            ),
    )
}

/// The outcomes of the slots of a referendum that closes at `end`.
pub open spec fn outcomes(slots: Seq<SlotInfo>, end: BlockNumber) -> Seq<SlotInfo> {
    Seq::new(slots.len(), |s: int| slots[s].finished_at(end))
}

/// The index of the first slot, from `from` on, whose counter cannot take the
/// votes that `ballot` has for it; the number of slots where every counter
/// can.
pub open spec fn first_overflow(slots: Seq<SlotInfo>, ballot: Seq<(u32, Vote)>, from: int) -> int
    decreases slots.len() - from,
{
    if 0 <= from < slots.len() && slots[from].tally().can_add(ballot[from].1, ballot[from].0) {
        first_overflow(slots, ballot, from + 1)
    } else {
        from
    }
}

/// The slots after the votes that `ballot` has for the first `n` of them are
/// counted.
pub open spec fn with_ballot(slots: Seq<SlotInfo>, ballot: Seq<(u32, Vote)>, n: int) -> Seq<
    SlotInfo,
> {
    Seq::new(
        slots.len(),
        |s: int|
            if s < n {
                slots[s].voted(ballot[s].1, ballot[s].0)
            } else {
                slots[s]
            },
    )
}

/// The referendum store as a mathematical value.
pub struct ReferendumState {
    /// Number of slots of every referendum.
    pub slots: nat,
    /// The referenda that have closed, by index.
    pub closed: Seq<Seq<SlotInfo>>,
    /// The slots of the open referendum, if one is open. Its index is the
    /// number of closed referenda.
    pub current: Option<Seq<SlotInfo>>,
    /// The tick at which the open referendum closes; it keeps its last value
    /// while none is open.
    pub ends_at: BlockNumber,
}

impl ReferendumState {
    /// The store before any referendum.
    pub open spec fn empty(slots: nat) -> ReferendumState {
        ReferendumState { slots, closed: Seq::empty(), current: None, ends_at: 0 }
    }

    /// Referenda that have taken place thus far, which is also the index of
    /// the open or next referendum.
    pub open spec fn count(self) -> nat {
        self.closed.len()
    }

    /// Whether a referendum is open.
    pub open spec fn active(self) -> bool {
        self.current is Some
    }

    /// The entry of slot `s` of referendum `r`, if it was ever created.
    pub open spec fn info(self, r: int, s: int) -> Option<SlotInfo> {
        if 0 <= r < self.closed.len() && 0 <= s < self.closed[r].len() {
            Some(self.closed[r][s])
        } else if r == self.closed.len() && self.current is Some && 0 <= s
            < self.current->0.len() {
            Some(self.current->0[s])
        } else {
            None
        }
    }

    /// Every referendum has `slots` entries; those of closed referenda are
    /// finished and those of the open one are ongoing.
    pub open spec fn wf(self) -> bool {
        &&& self.slots <= u32::MAX
        &&& self.closed.len() <= u32::MAX
        &&& forall|r: int|
            0 <= r < self.closed.len() ==> (#[trigger] self.closed[r]).len() == self.slots
        &&& forall|r: int, s: int|
            0 <= r < self.closed.len() && 0 <= s < self.slots
                ==> #[trigger] self.closed[r][s] is Finished
        &&& self.current matches Some(current) ==> {
            &&& current.len() == self.slots
            &&& forall|s: int| 0 <= s < self.slots ==> #[trigger] current[s] is Ongoing
        }
    }

    /// The store after a referendum opens on proposals with the given hashes.
    /// The new referendum takes the place of one that was still open.
    pub open spec fn opened(self, ends_at: BlockNumber, hashes: Seq<H256>) -> ReferendumState {
        ReferendumState { current: Some(fresh_slots(hashes)), ends_at, ..self }
    }

    /// The store after the open referendum closes: each of its slots is
    /// finished, approved exactly where its ayes outnumber its nays.
    pub open spec fn finished(self) -> ReferendumState
        recommends
            self.active(),
    {
        ReferendumState {
            closed: self.closed.push(outcomes(self.current->0, self.ends_at)),
            current: None,
            ..self
        }
    }

    /// The store after `amount` votes in direction `vote` are counted on slot
    /// `slot` of the open referendum.
    pub open spec fn voted(self, slot: int, vote: Vote, amount: u32) -> ReferendumState
        recommends
            self.active(),
            0 <= slot < self.slots,
    {
        ReferendumState {
            current: Some(
                self.current->0.update(slot, self.current->0[slot].voted(vote, amount)),
            ),
            ..self
        }
    }

    /// The store after the votes that `ballot` has for the first `n` slots of
    /// the open referendum are counted.
    pub open spec fn balloted(self, ballot: Seq<(u32, Vote)>, n: int) -> ReferendumState
        recommends
            self.active(),
            0 <= n <= self.slots,
    {
        ReferendumState { current: Some(with_ballot(self.current->0, ballot, n)), ..self }
    }

    /// Whether every finished entry of `self` is still the same entry in
    /// `later`.
    pub open spec fn outcomes_kept_by(self, later: ReferendumState) -> bool {
        forall|r: int, s: int|
            (#[trigger] self.info(r, s)) matches Some(ProposalInfo::Finished(_)) ==> later.info(
                r,
                s,
            ) == self.info(r, s)
    }
}

/// Opening a referendum leaves every finished entry as it was.
pub proof fn lemma_opening_keeps_outcomes(
    state: ReferendumState,
    ends_at: BlockNumber,
    hashes: Seq<H256>,
)
    requires
        state.wf(),
    ensures
        state.outcomes_kept_by(state.opened(ends_at, hashes)),
{
}

/// Closing the open referendum leaves every finished entry as it was.
pub proof fn lemma_closing_keeps_outcomes(state: ReferendumState)
    requires
        state.wf(),
        state.active(),
    ensures
        state.outcomes_kept_by(state.finished()),
{
}

/// Counting votes leaves every finished entry as it was.
pub proof fn lemma_voting_keeps_outcomes(
    state: ReferendumState,
    slot: int,
    vote: Vote,
    amount: u32,
)
    requires
        state.wf(),
        state.active(),
        0 <= slot < state.slots,
    ensures
        state.outcomes_kept_by(state.voted(slot, vote, amount)),
{
}

/// Counting a ballot slot by slot: no votes counted is no change, and one
/// more slot is one more call of `voted`. Finished entries stay as they were.
pub proof fn lemma_balloted(state: ReferendumState, ballot: Seq<(u32, Vote)>, n: int)
    requires
        state.wf(),
        state.active(),
        0 <= n <= state.slots,
    ensures
        state.balloted(ballot, 0) == state,
        state.balloted(ballot, n).wf(),
        state.outcomes_kept_by(state.balloted(ballot, n)),
        n < state.slots ==> state.balloted(ballot, n + 1) == state.balloted(ballot, n).voted(
            n,
            ballot[n].1,
            ballot[n].0,
        ),
        n < state.slots ==> state.balloted(ballot, n).current->0[n] == state.current->0[n],
{
    assert(with_ballot(state.current->0, ballot, 0) =~= state.current->0);
    if n < state.slots {
        assert(with_ballot(state.current->0, ballot, n + 1) =~= with_ballot(
            state.current->0,
            ballot,
            n,
        ).update(n, with_ballot(state.current->0, ballot, n)[n].voted(ballot[n].1, ballot[n].0)));
    }
}

/// The first overflow lies among the slots, and every slot before it can
/// take its votes.
pub proof fn lemma_first_overflow(slots: Seq<SlotInfo>, ballot: Seq<(u32, Vote)>, from: int)
    requires
        0 <= from <= slots.len(),
    ensures
        from <= first_overflow(slots, ballot, from) <= slots.len(),
        forall|s: int|
            from <= s < first_overflow(slots, ballot, from) ==> (
            #[trigger] slots[s]).tally().can_add(ballot[s].1, ballot[s].0),
        first_overflow(slots, ballot, from) < slots.len() ==> !slots[first_overflow(
            slots,
            ballot,
            from,
        )].tally().can_add(
            ballot[first_overflow(slots, ballot, from)].1,
            ballot[first_overflow(slots, ballot, from)].0,
        ),
    decreases slots.len() - from,
{
    if from < slots.len() && slots[from].tally().can_add(ballot[from].1, ballot[from].0) {
        lemma_first_overflow(slots, ballot, from + 1);
    }
}

/// Opening keeps the store well formed.
pub proof fn lemma_opened_wf(state: ReferendumState, ends_at: BlockNumber, hashes: Seq<H256>)
    requires
        state.wf(),
        hashes.len() == state.slots,
    ensures
        state.opened(ends_at, hashes).wf(),
        state.opened(ends_at, hashes).active(),
        state.opened(ends_at, hashes).count() == state.count(),
{
}

/// Closing keeps the store well formed and turns each slot of the open
/// referendum from ongoing to finished.
pub proof fn lemma_finished_wf(state: ReferendumState)
    requires
        state.wf(),
        state.active(),
        state.count() < u32::MAX,
    ensures
        state.finished().wf(),
        !state.finished().active(),
        state.finished().count() == state.count() + 1,
        forall|s: int|
            0 <= s < state.slots ==> #[trigger] state.finished().info(state.count() as int, s)
                == Some(state.current->0[s].finished_at(state.ends_at)),
{
    let after = state.finished();
    assert forall|r: int, s: int|
        0 <= r < after.closed.len() && 0 <= s < after.slots implies #[trigger] after.closed[r][s]
        is Finished by {
        if r < state.closed.len() {
            assert(after.closed[r] == state.closed[r]);
            assert(state.closed[r][s] is Finished);
        }
    }
    assert forall|r: int| 0 <= r < after.closed.len() implies (#[trigger] after.closed[r]).len()
        == after.slots by {
        if r < state.closed.len() {
            assert(after.closed[r] == state.closed[r]);
        }
    }
}

/// The entries of a list of referenda, each as a sequence of slots.
pub open spec fn slot_lists(referenda: Seq<Vec<SlotInfo>>) -> Seq<Seq<SlotInfo>> {
    Seq::new(referenda.len(), |r: int| referenda[r]@)
}

/// The state that a store has when set up from the given parts.
pub open spec fn state_of_parts(
    slots_per_referendum: u32,
    finished: Seq<Vec<SlotInfo>>,
    current: Option<Vec<SlotInfo>>,
    ends_at: BlockNumber,
) -> ReferendumState {
    ReferendumState {
        slots: slots_per_referendum as nat,
        closed: slot_lists(finished),
        current: match current {
            Some(slots) => Some(slots@),
            None => None,
        },
        ends_at,
    }
}

/// Whether `slots` are the `n` slots of a closed referendum, if `closed`, or
/// of an open one, if not.
pub open spec fn slots_are(slots: Seq<SlotInfo>, n: nat, closed: bool) -> bool {
    &&& slots.len() == n
    &&& forall|s: int| 0 <= s < n ==> (#[trigger] slots[s] is Finished) == closed
}

/// Tells whether `slots` are the `n` slots of a closed referendum, if
/// `closed`, or of an open one, if not.
pub fn check_slots(slots: &Vec<SlotInfo>, n: u32, closed: bool) -> (ok: bool)
    ensures
        ok == slots_are(slots@, n as nat, closed),
{
    if slots.len() != n as usize {
        return false;
    }
    let mut s: usize = 0;
    while s < slots.len()
        invariant
            s <= slots@.len() == n,
            forall|t: int| 0 <= t < s ==> (#[trigger] slots@[t] is Finished) == closed,
        decreases slots.len() - s,
    {
        if slots[s].has_finished() != closed {
            return false;
        }
        s += 1;
    }
    true
}

/// The referendum store.
pub struct ReferendumStore {
    slots_per_referendum: u32,
    finished: Vec<Vec<SlotInfo>>,
    current: Vec<SlotInfo>,
    active: bool,
    ends_at: BlockNumber,
}

impl View for ReferendumStore {
    type V = ReferendumState;

    closed spec fn view(&self) -> ReferendumState {
        ReferendumState {
            slots: self.slots_per_referendum as nat,
            closed: Seq::new(self.finished@.len(), |r: int| self.finished@[r]@),
            current: if self.active {
                Some(self.current@)
            } else {
                None
            },
            ends_at: self.ends_at,
        }
    }
}

impl ReferendumStore {
    /// A store without referenda, for referenda of `slots_per_referendum`
    /// slots each.
    pub fn new(slots_per_referendum: u32) -> (store: ReferendumStore)
        ensures
            store@ == ReferendumState::empty(slots_per_referendum as nat),
            store@.wf(),
    {
        let store = ReferendumStore {
            slots_per_referendum,
            finished: Vec::new(),
            current: Vec::new(),
            active: false,
            ends_at: 0,
        };
        assert(store@.closed =~= Seq::empty());
        store
    }

    /// Sets a store up from what an earlier store held: the closed referenda
    /// by index, the slots of the open referendum if one was open, and the
    /// tick it ends at. Parts that no store can hold are turned down.
    pub fn restore(
        slots_per_referendum: u32,
        finished: Vec<Vec<SlotInfo>>,
        current: Option<Vec<SlotInfo>>,
        ends_at: BlockNumber,
    ) -> (res: Option<ReferendumStore>)
        ensures
            res is Some <==> state_of_parts(slots_per_referendum, finished@, current, ends_at).wf(),
            res matches Some(store) ==> store@ == state_of_parts(
                slots_per_referendum,
                finished@,
                current,
                ends_at,
            ),
    {
        let ghost state = state_of_parts(slots_per_referendum, finished@, current, ends_at);
        if finished.len() > u32::MAX as usize {
            return None;
        }
        let mut r: usize = 0;
        while r < finished.len()
            invariant
                r <= finished@.len(),
                state == state_of_parts(slots_per_referendum, finished@, current, ends_at),
                forall|q: int|
                    0 <= q < r ==> slots_are(
                        #[trigger] finished@[q]@,
                        slots_per_referendum as nat,
                        true,
                    ),
            decreases finished.len() - r,
        {
            if !check_slots(&finished[r], slots_per_referendum, true) {
                proof {
                    let slots = finished@[r as int]@;
                    assert(state.closed[r as int] == slots);
                    if slots.len() == slots_per_referendum {
                        let s = choose|s: int|
                            0 <= s < slots_per_referendum && !(#[trigger] slots[s] is Finished);
                        assert(!(state.closed[r as int][s] is Finished));
                    }
                }
                return None;
            }
            r += 1;
        }
        let (active, slots): (bool, Vec<SlotInfo>) = match current {
            Some(slots) => {
                if !check_slots(&slots, slots_per_referendum, false) {
                    proof {
                        if slots@.len() == slots_per_referendum {
                            let s = choose|s: int|
                                0 <= s < slots_per_referendum && (#[trigger] slots@[s]
                                    is Finished);
                            assert(!(state.current->0[s] is Ongoing));
                        }
                    }
                    return None;
                }
                (true, slots)
            },
            None => (false, Vec::new()),
        };
        let store = ReferendumStore {
            slots_per_referendum,
            finished,
            current: slots,
            active,
            ends_at,
        };
        proof {
            assert(store@.closed =~= state.closed);
            assert forall|q: int, s: int|
                0 <= q < state.closed.len() && 0 <= s < state.slots implies (
            #[trigger] state.closed[q][s]) is Finished by {
                assert(slots_are(finished@[q]@, slots_per_referendum as nat, true));
            }
            assert forall|q: int| 0 <= q < state.closed.len() implies (
            #[trigger] state.closed[q]).len() == state.slots by {
                assert(slots_are(finished@[q]@, slots_per_referendum as nat, true));
            }
        }
        Some(store)
    }

    /// Number of slots of every referendum.
    pub fn slots_per_referendum(&self) -> (slots: u32)
        ensures
            slots == self@.slots,
    {
        self.slots_per_referendum
    }

    /// Referenda that have taken place thus far.
    pub fn referendum_count(&self) -> (count: ReferendumIndex)
        requires
            self@.wf(),
        ensures
            count == self@.count(),
    {
        self.finished.len() as u32
    }

    /// The tick at which the open referendum closes.
    pub fn referendum_ends_at(&self) -> (ends_at: BlockNumber)
        ensures
            ends_at == self@.ends_at,
    {
        self.ends_at
    }

    /// Whether a referendum is open.
    pub fn is_active(&self) -> (active: bool)
        ensures
            active == self@.active(),
    {
        self.active
    }

    /// The entry of slot `proposal_index` of referendum `referendum_index`,
    /// if it was ever created.
    pub fn referendum_info(
        &self,
        referendum_index: ReferendumIndex,
        proposal_index: ProposalIndex,
    ) -> (info: Option<SlotInfo>)
        ensures
            info == self@.info(referendum_index as int, proposal_index as int),
    {
        let r = referendum_index as usize;
        let s = proposal_index as usize;
        if r < self.finished.len() {
            if s < self.finished[r].len() {
                Some(self.finished[r][s])
            } else {
                None
            }
        } else if r == self.finished.len() && self.active && s < self.current.len() {
            Some(self.current[s])
        } else {
            None
        }
    }

    /// Opens a referendum that closes at `ends_at` on proposals with the
    /// content hashes `hashes`, one slot per hash.
    pub fn open(&mut self, ends_at: BlockNumber, hashes: &Vec<H256>)
        requires
            old(self)@.wf(),
            hashes@.len() == old(self)@.slots,
        ensures
            final(self)@ == old(self)@.opened(ends_at, hashes@),
            final(self)@.wf(),
    {
        let mut slots: Vec<SlotInfo> = Vec::new();
        let mut s: usize = 0;
        while s < hashes.len()
            invariant
                s <= hashes@.len(),
                slots@ == fresh_slots(hashes@.take(s as int)),
            decreases hashes.len() - s,
        {
            slots.push(
                ProposalInfo::Ongoing(
                    OngoingProposalInfo {
                        proposal_hash: hashes[s],
                        tally: Tally { aye_votes: 0, nay_votes: 0 },
                    },
                ),
            );
            s += 1;
            assert(slots@ =~= fresh_slots(hashes@.take(s as int)));
        }
        assert(hashes@.take(hashes@.len() as int) =~= hashes@);
        self.current = slots;
        self.active = true;
        self.ends_at = ends_at;
        proof {
            assert(final(self)@.closed =~= old(self)@.closed);
            lemma_opened_wf(old(self)@, ends_at, hashes@);
        }
    }

    /// Closes the open referendum and hands back the outcomes of its slots,
    /// by slot index.
    pub fn close(&mut self) -> (finished_proposals: Vec<SlotInfo>)
        requires
            old(self)@.wf(),
            old(self)@.active(),
            old(self)@.count() < u32::MAX,
        ensures
            final(self)@ == old(self)@.finished(),
            final(self)@.wf(),
            finished_proposals@ == outcomes(old(self)@.current->0, old(self)@.ends_at),
    {
        let end = self.ends_at;
        let mut finished_proposals: Vec<SlotInfo> = Vec::new();
        let mut stored: Vec<SlotInfo> = Vec::new();
        let mut s: usize = 0;
        while s < self.current.len()
            invariant
                s <= self.current@.len(),
                *self == *old(self),
                end == self.ends_at,
                self@.wf(),
                self@.active(),
                finished_proposals@ == outcomes(self.current@.take(s as int), end),
                stored@ == finished_proposals@,
            decreases self.current.len() - s,
        {
            let approved = match &self.current[s] {
                ProposalInfo::Ongoing(ongoing_info) => ongoing_info.tally.result(),
                ProposalInfo::Finished(finished) => finished.approved,
            };
            assert(self@.current->0[s as int] is Ongoing);
            let new_proposal_info = ProposalInfo::Finished(FinishedProposalInfo { approved, end });
            finished_proposals.push(new_proposal_info);
            stored.push(new_proposal_info);
            s += 1;
            assert(finished_proposals@ =~= outcomes(self.current@.take(s as int), end));
        }
        assert(self.current@.take(self.current@.len() as int) =~= self.current@);
        self.finished.push(stored);
        self.current = Vec::new();
        self.active = false;
        proof {
            assert(final(self)@.closed =~= old(self)@.finished().closed);
            lemma_finished_wf(old(self)@);
        }
        finished_proposals
    }

    /// Counts `amount` votes in direction `vote` on slot `slot` of the open
    /// referendum, unless the counter would overflow: then nothing changes.
    pub fn add_votes(&mut self, slot: ProposalIndex, vote: Vote, amount: u32) -> (counted: bool)
        requires
            old(self)@.wf(),
            old(self)@.active(),
            slot < old(self)@.slots,
        ensures
            counted == old(self)@.current->0[slot as int].tally().can_add(vote, amount),
            counted ==> final(self)@ == old(self)@.voted(slot as int, vote, amount),
            !counted ==> final(self)@ == old(self)@,
            final(self)@.wf(),
    {
        let s = slot as usize;
        assert(self@.current->0[s as int] is Ongoing);
        let updated: Option<SlotInfo> = match &self.current[s] {
            ProposalInfo::Ongoing(ongoing_info) => match ongoing_info.tally.checked_add(
                vote,
                amount,
            ) {
                Some(tally) => Some(
                    ProposalInfo::Ongoing(
                        OngoingProposalInfo { proposal_hash: ongoing_info.proposal_hash, tally },
                    ),
                ),
                None => None,
            },
            ProposalInfo::Finished(_) => None,
        };
        match updated {
            Some(proposal_info) => {
                self.current[s] = proposal_info;
                proof {
                    assert(final(self)@.closed =~= old(self)@.closed);
                    assert(final(self)@.current->0 =~= old(self)@.voted(
                        slot as int,
                        vote,
                        amount,
                    ).current->0);
                }
                true
            },
            None => false,
        }
    }
}

} // verus!
