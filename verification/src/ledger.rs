use vstd::prelude::*;
use vstd::arithmetic::power2::lemma_pow2_unfold;
use crate::errors::RoundError;
use crate::state::RoundState;
use crate::state::capacity_of;
use crate::state::lemma_capacity_fits;
use crate::state::round_capacity;
use crate::state::MAX_ROUND_INDEX;

verus! {

/// What a granted request did to the round.
#[derive(Clone, Copy, Debug, PartialEq, Eq, Structural)]
pub enum Transition {
    /// `fill` slots were sold and the same round goes on.
    Filled { fill: u64 },
    /// `fill` slots were sold, which completed the round, and the next round
    /// has taken its place.
    RolledOver { fill: u64 },
}

impl Transition {
    /// The number of slots that were sold.
    pub open spec fn spec_fill(&self) -> u64 {
        match *self {
            Transition::Filled { fill } => fill,
            Transition::RolledOver { fill } => fill,
        }
    }

    /// The number of slots that were sold.
    #[verifier::when_used_as_spec(spec_fill)]
    pub fn fill(&self) -> (fill: u64)
        ensures
            fill == self.spec_fill(),
    {
        match *self {
            Transition::Filled { fill } => fill,
            Transition::RolledOver { fill } => fill,
        }
    }

    /// Whether the next round has taken the place of the one sold from.
    pub fn rolled_over(&self) -> (rolled: bool)
        ensures
            rolled == (*self is RolledOver),
    {
        match *self {
            Transition::Filled { .. } => false,
            Transition::RolledOver { .. } => true,
        }
    }
}

impl RoundState {
    /// Whether a round can follow this one: the capacity of the next index
    /// must fit in a `u64`.
    pub open spec fn can_roll(&self) -> bool {
        self.round_index < MAX_ROUND_INDEX
    }

    /// The slots that a request is granted: the request itself while it
    /// leaves the round open, else exactly what is left of the round.
    pub open spec fn grant(&self, requested: nat) -> nat {
        if requested < self.remaining() {
            requested
        } else {
            self.remaining()
        }
    }

    /// Whether a request is refused: nothing is left of the round and no
    /// round can follow it.
    pub open spec fn refuses(&self) -> bool {
        self.remaining() == 0 && !self.can_roll()
    }

    /// Whether a request completes the round and brings the next one.
    pub open spec fn rolls_on(&self, requested: nat) -> bool {
        requested >= self.remaining() && self.can_roll()
    }

    /// The round that follows this one: the next index, twice the capacity,
    /// nothing sold.
    pub open spec fn successor(&self) -> RoundState {
        RoundState {
            round_index: (self.round_index + 1) as u32,
            total_slot_number: capacity_of((self.round_index + 1) as nat) as u64,
            current_slot_number: 0,
        }
    }

    /// The round after a request. A request that leaves the round open is
    /// added to what is sold. One that completes it brings the successor;
    /// where none can follow, the round is left full. A refused request
    /// changes nothing.
    pub open spec fn after(&self, requested: nat) -> RoundState {
        if requested < self.remaining() {
            RoundState {
                current_slot_number: (self.current_slot_number + requested) as u64,
                ..*self
            }
        } else if self.can_roll() {
            self.successor()
        } else {
            RoundState { current_slot_number: self.total_slot_number, ..*self }
        }
    }

    /// The round after a sequence of requests, taken in order.
    pub open spec fn after_all(&self, requests: Seq<u64>) -> RoundState
        decreases requests.len(),
    {
        if requests.len() == 0 {
            *self
        } else {
            self.after_all(requests.drop_last()).after(requests.last() as nat)
        }
    }

    /// Tests the round's invariant.
    pub fn is_well_formed(&self) -> (ok: bool)
        ensures
            ok == self.wf(),
    {
        1 <= self.round_index && self.round_index <= MAX_ROUND_INDEX && self.total_slot_number
            == round_capacity(self.round_index) && self.current_slot_number
            <= self.total_slot_number
    }

    /// A fresh round with the given index.
    pub fn create(round_index: u32) -> (round: RoundState)
        requires
            1 <= round_index <= MAX_ROUND_INDEX,
        ensures
            round.wf(),
            round.round_index == round_index,
            round.total_slot_number == capacity_of(round_index as nat),
            round.current_slot_number == 0,
    {
        RoundState {
            round_index,
            total_slot_number: round_capacity(round_index),
            current_slot_number: 0,
        }
    }

    /// The slots that `advance` would sell for this request, without
    /// selling them.
    pub fn quote(&self, requested: u64) -> (fill: u64)
        requires
            self.wf(),
        ensures
            fill == self.grant(requested as nat),
            fill <= requested,
    {
        let remaining: u64 = self.total_slot_number - self.current_slot_number;
        if requested < remaining {
            requested
        } else {
            remaining
        }
    }

    /// Sells slots of the round. A request below what is left is granted
    /// whole. Any other request is cut down to what is left, and the next
    /// round takes this one's place at once; what was asked beyond is
    /// dropped. At the last index no round can follow: the round is then
    /// left full, and every later request is refused.
    pub fn advance(&mut self, requested: u64) -> (result: Result<Transition, RoundError>)
        requires
            old(self).wf(),
        ensures
            final(self).wf(),
            *final(self) == old(self).after(requested as nat),
            old(self).refuses() <==> result is Err,
            result is Err ==> result == Err::<Transition, RoundError>(RoundError::OverMaxSlot)
                && *final(self) == *old(self),
            result is Ok ==> result->Ok_0.spec_fill() == old(self).grant(requested as nat),
            result is Ok ==> (result->Ok_0 is RolledOver <==> old(self).rolls_on(requested as nat)),
    {
        let remaining: u64 = self.total_slot_number - self.current_slot_number;
        if requested < remaining {
            self.current_slot_number = self.current_slot_number + requested;
            Ok(Transition::Filled { fill: requested })
        } else if self.round_index < MAX_ROUND_INDEX {
            let next: u32 = self.round_index + 1;
            self.round_index = next;
            self.total_slot_number = round_capacity(next);
            self.current_slot_number = 0;
            Ok(Transition::RolledOver { fill: remaining })
        } else if remaining > 0 {
            self.current_slot_number = self.total_slot_number;
            Ok(Transition::Filled { fill: remaining })
        } else {
            Err(RoundError::OverMaxSlot)
        }
    }
}

/// A request keeps the round's invariant: what is sold never exceeds the
/// capacity, and the capacity stays the one of the round's index.
pub proof fn lemma_after_keeps_invariant(round: RoundState, requested: nat)
    requires
        round.wf(),
    ensures
        round.after(requested).wf(),
        round.after(requested).current_slot_number <= round.after(requested).total_slot_number,
{
    if requested >= round.remaining() && round.can_roll() {
        lemma_capacity_fits((round.round_index + 1) as nat);
    }
}

/// Whatever requests are made of a round, in whatever number, after each of
/// them no more is sold than the round then holds.
pub proof fn lemma_filled_never_exceeds_capacity(round: RoundState, requests: Seq<u64>)
    requires
        round.wf(),
    ensures
        forall|k: int|
            0 <= k <= requests.len() ==> {
                let seen = #[trigger] round.after_all(requests.take(k));
                seen.wf() && seen.current_slot_number <= seen.total_slot_number
            },
{
    assert forall|k: int| 0 <= k <= requests.len() implies {
        let seen = #[trigger] round.after_all(requests.take(k));
        seen.wf() && seen.current_slot_number <= seen.total_slot_number
    } by {
        lemma_after_all_keeps_invariant(round, requests.take(k));
    }
}

/// A sequence of requests keeps the round's invariant.
pub proof fn lemma_after_all_keeps_invariant(round: RoundState, requests: Seq<u64>)
    requires
        round.wf(),
    ensures
        round.after_all(requests).wf(),
    decreases requests.len(),
{
    if requests.len() > 0 {
        lemma_after_all_keeps_invariant(round, requests.drop_last());
        lemma_after_keeps_invariant(round.after_all(requests.drop_last()), requests.last() as nat);
    }
}

/// A request for at least what is left of a round that another can follow
/// is granted exactly what is left, and brings exactly one rollover: the
/// index goes up by one, the capacity doubles, and nothing is sold of the
/// new round. What was asked beyond leaves no trace: the round is the same
/// as after a request for exactly what was left.
pub proof fn lemma_clamped_request_rolls_once(round: RoundState, requested: nat)
    requires
        round.wf(),
        round.can_roll(),
        requested >= round.remaining(),
    ensures
        round.grant(requested) == round.remaining(),
        round.grant(requested) <= requested,
        round.rolls_on(requested),
        round.after(requested).round_index == round.round_index + 1,
        round.after(requested).total_slot_number == 2 * round.total_slot_number,
        round.after(requested).current_slot_number == 0,
        round.after(requested) == round.after(round.remaining()),
{
    lemma_capacity_fits((round.round_index + 1) as nat);
    lemma_pow2_unfold((round.round_index + 1) as nat);
}

} // verus!
