use vstd::prelude::*;
use vstd::arithmetic::power2::pow2;
use vstd::arithmetic::power2::lemma_pow2_pos;
use vstd::arithmetic::power2::lemma_pow2_unfold;
use vstd::arithmetic::power2::lemma_pow2_strictly_increases;
use vstd::arithmetic::power2::lemma2_to64;
use vstd::arithmetic::power2::lemma2_to64_rest;

verus! {

/// The highest round index whose capacity still fits in a `u64`.
pub const MAX_ROUND_INDEX: u32 = 63;

/// The key of a party or of a value-holding record: 32 opaque bytes.
#[derive(Clone, Copy, Debug, PartialEq, Eq)]
pub struct Identity {
    /// The bytes of the key.
    pub bytes: [u8; 32],
}

impl View for Identity {
    type V = Seq<u8>;

    open spec fn view(&self) -> Seq<u8> {
        self.bytes@
    }
}

impl Identity {
    /// Wraps 32 bytes as an identity.
    pub fn new(bytes: [u8; 32]) -> (id: Identity)
        ensures
            id@ == bytes@,
            id.bytes == bytes,
    {
        Identity { bytes }
    }

    /// Whether two identities are the same key, byte for byte.
    pub fn same(&self, other: &Identity) -> (eq: bool)
        ensures
            eq == (self@ == other@),
    {
        let mut i: usize = 0;
        while i < 32
            invariant
                i <= 32,
                forall|j: int| 0 <= j < i ==> self.bytes@[j] == other.bytes@[j],
            decreases 32 - i,
        {
            if self.bytes[i] != other.bytes[i] {
                return false;
            }
            i += 1;
        }
        assert(self@ =~= other@);
        true
    }
}

/// Protocol-wide parameters of the sale.
#[derive(Clone, Copy, Debug, PartialEq, Eq)]
pub struct GlobalState {
    /// Who may create rounds, change the fee and withdraw from the vault.
    pub owner: Identity,
    /// How many rounds have been created so far.
    pub total_round: u32,
    /// Price of one slot, in the smallest unit of value.
    pub slot_token_price: u64,
    /// The record that escrows the proceeds of the sale.
    pub vault: Identity,
    /// The protocol fee, in parts per thousand of the gross sale value.
    pub fee: u64,
}

/// The round that is currently on sale.
#[derive(Clone, Copy, Debug, PartialEq, Eq, Structural)]
pub struct RoundState {
    /// Index of the round; the first round has index 1.
    pub round_index: u32,
    /// Capacity of the round, in slots.
    pub total_slot_number: u64,
    /// Slots of the round that are sold.
    pub current_slot_number: u64,
}

/// One buyer's settlement ledger.
#[derive(Clone, Copy, Debug, PartialEq, Eq, Structural)]
pub struct UserInfo {
    /// Settled pool: slots bought in rounds before the buyer's latest
    /// purchase, payable now.
    pub total_slot_number: u64,
    /// Pending pool: slots of the buyer's latest purchase, payable once that
    /// round has been superseded.
    pub last_slot_number: u64,
    /// Round of the latest purchase; 0 while the buyer has never bought.
    pub last_round_index: u32,
    /// Everything paid out to the buyer so far.
    pub claimed_slot_number: u64,
}

/// Capacity of the round with the given index: two to the power of it.
pub open spec fn capacity_of(index: nat) -> nat {
    pow2(index)
}

/// Computes the capacity of a round from its index.
pub fn round_capacity(index: u32) -> (capacity: u64)
    requires
        index <= MAX_ROUND_INDEX,
    ensures
        capacity == capacity_of(index as nat),
        capacity >= 1,
{
    let mut capacity: u64 = 1;
    let mut i: u32 = 0;
    proof {
        lemma2_to64();
    }
    while i < index
        invariant
            i <= index <= MAX_ROUND_INDEX,
            capacity == capacity_of(i as nat),
            capacity >= 1,
        decreases index - i,
    {
        proof {
            lemma_pow2_unfold((i + 1) as nat);
            lemma_capacity_fits((i + 1) as nat);
        }
        capacity = capacity * 2;
        i += 1;
    }
    capacity
}

/// The capacity of every index up to the highest fits in a `u64`, and is at
/// least two from the first round on.
pub proof fn lemma_capacity_fits(index: nat)
    requires
        index <= MAX_ROUND_INDEX,
    ensures
        1 <= capacity_of(index) <= u64::MAX,
        index >= 1 ==> capacity_of(index) >= 2,
{
    lemma2_to64();
    lemma2_to64_rest();
    if index < 63 {
        lemma_pow2_strictly_increases(index, 63);
    }
    if index >= 1 {
        lemma_pow2_unfold(index);
    }
    lemma_pow2_pos(index);
    if index >= 1 {
        lemma_pow2_pos((index - 1) as nat);
    }
}

impl Default for Identity {
    /// The identity of 32 zero bytes.
    fn default() -> (id: Identity)
        ensures
            id@ == Seq::new(32, |i: int| 0u8),
    {
        let id = Identity { bytes: [0u8; 32] };
        assert(id@ =~= Seq::new(32, |i: int| 0u8));
        id
    }
}

impl Default for GlobalState {
    /// The parameters before anything is set: no owner, no round, no price.
    fn default() -> (g: GlobalState)
        ensures
            g.total_round == 0,
            g.slot_token_price == 0,
            g.fee == 0,
            g.owner@ == Seq::new(32, |i: int| 0u8),
            g.vault@ == Seq::new(32, |i: int| 0u8),
    {
        GlobalState {
            owner: Identity::default(),
            total_round: 0,
            slot_token_price: 0,
            vault: Identity::default(),
            fee: 0,
        }
    }
}

impl RoundState {
    /// The round's invariant: its index has a capacity that fits, the
    /// capacity is the one of that index, and no more is sold than there is.
    pub open spec fn wf(&self) -> bool {
        &&& 1 <= self.round_index <= MAX_ROUND_INDEX
        &&& self.total_slot_number == capacity_of(self.round_index as nat)
        &&& self.current_slot_number <= self.total_slot_number
    }

    /// Slots of the round that are still for sale.
    pub open spec fn remaining(&self) -> nat
        recommends
            self.wf(),
    {
        (self.total_slot_number - self.current_slot_number) as nat
    }

}

impl Default for RoundState {
    /// The record before any round is created.
    fn default() -> (r: RoundState)
        ensures
            r == (RoundState { round_index: 0, total_slot_number: 0, current_slot_number: 0 }),
    {
        RoundState { round_index: 0, total_slot_number: 0, current_slot_number: 0 }
    }
}

impl Default for UserInfo {
    /// The ledger of a buyer who has never bought.
    fn default() -> (u: UserInfo)
        ensures
            u == (UserInfo {
                total_slot_number: 0,
                last_slot_number: 0,
                last_round_index: 0,
                claimed_slot_number: 0,
            }),
    {
        UserInfo {
            total_slot_number: 0,
            last_slot_number: 0,
            last_round_index: 0,
            claimed_slot_number: 0,
        }
    }
}

} // verus!
