use vstd::prelude::*;
use crate::state::UserInfo;

verus! {

/// The multiplier of a payout, in parts per thousand, before the fee is
/// taken off.
pub const PAYOUT_BASE: u64 = 2000;

/// What a number of slots pays out at a price and a fee, rounded down.
pub open spec fn payout_of(slots: nat, price: nat, fee_permille: nat) -> nat
    recommends
        fee_permille <= 2000,
{
    ((2000 - fee_permille) * slots * price / 1000) as nat
}

impl UserInfo {
    /// Whether the round of the latest purchase has been superseded: at
    /// least one round has been created after it.
    pub open spec fn superseded(&self, total_round: u32) -> bool {
        total_round > self.last_round_index
    }

    /// The slots that a claim pays for: the settled pool, and the pending
    /// pool too once its round has been superseded.
    pub open spec fn payable(&self, total_round: u32) -> nat {
        if self.superseded(total_round) {
            (self.total_slot_number + self.last_slot_number) as nat
        } else {
            self.total_slot_number as nat
        }
    }

    /// The ledger after a purchase of `fill` slots in round `round_index`.
    /// The first purchase starts from an empty settled pool; every later
    /// one folds the pending pool into the settled one.
    pub open spec fn after_purchase(&self, round_index: u32, fill: u64) -> UserInfo {
        UserInfo {
            total_slot_number: if self.last_round_index == 0 {
                0
            } else {
                (self.total_slot_number + self.last_slot_number) as u64
            },
            last_slot_number: fill,
            last_round_index: round_index,
            claimed_slot_number: self.claimed_slot_number,
        }
    }

    /// The ledger after a claim that paid `payout`: the pools that were paid
    /// are empty, and the payout is added to what was claimed.
    pub open spec fn after_claim(&self, total_round: u32, payout: u64) -> UserInfo {
        UserInfo {
            total_slot_number: 0,
            last_slot_number: if self.superseded(total_round) {
                0
            } else {
                self.last_slot_number
            },
            last_round_index: self.last_round_index,
            claimed_slot_number: (self.claimed_slot_number + payout) as u64,
        }
    }

    /// Whether a purchase can be recorded: folding the pending pool into the
    /// settled one must not overflow.
    pub open spec fn can_record(&self) -> bool {
        self.last_round_index != 0 ==> self.total_slot_number + self.last_slot_number <= u64::MAX
    }

    /// Whether a claim can be paid: the fee is no more than the multiplier,
    /// and the audit counter can take the payout.
    pub open spec fn can_claim(&self, total_round: u32, price: u64, fee: u64) -> bool {
        &&& fee <= 2000
        &&& self.claimed_slot_number + payout_of(self.payable(total_round), price as nat, fee as nat)
            <= u64::MAX
    }

    /// Tests whether a purchase can be recorded.
    pub fn fits_purchase(&self) -> (fits: bool)
        ensures
            fits == self.can_record(),
    {
        self.last_round_index == 0 || self.total_slot_number <= u64::MAX - self.last_slot_number
    }

    /// Tests whether a claim can be paid at the given round count, price and
    /// fee.
    pub fn fits_claim(&self, total_round: u32, price: u64, fee: u64) -> (fits: bool)
        ensures
            fits == self.can_claim(total_round, price, fee),
    {
        if fee > PAYOUT_BASE {
            return false;
        }
        let slots: u128 = if total_round > self.last_round_index {
            (self.total_slot_number as u128) + (self.last_slot_number as u128)
        } else {
            self.total_slot_number as u128
        };
        assert(slots == self.payable(total_round));
        let rate: u128 = (PAYOUT_BASE - fee) as u128;
        assert(rate * slots <= 2000 * 0x2_0000_0000_0000_0000) by (nonlinear_arith)
            requires
                rate <= 2000,
                slots < 0x2_0000_0000_0000_0000,
        ;
        let weighted: u128 = rate * slots;
        assert(weighted * price == (2000 - fee) * slots * price);
        assert(weighted * price / 1000 == payout_of(slots as nat, price as nat, fee as nat));
        match weighted.checked_mul(price as u128) {
            Some(product) => product / 1000 <= (u64::MAX - self.claimed_slot_number) as u128,
            None => false,
        }
    }

    /// Records a purchase of `fill` slots in round `round_index`.
    pub fn record_purchase(&mut self, round_index: u32, fill: u64)
        requires
            old(self).can_record(),
        ensures
            *final(self) == old(self).after_purchase(round_index, fill),
            final(self).last_slot_number == fill,
            final(self).last_round_index == round_index,
            final(self).claimed_slot_number == old(self).claimed_slot_number,
    {
        if self.last_round_index == 0 {
            self.total_slot_number = 0;
        } else {
            self.total_slot_number = self.total_slot_number + self.last_slot_number;
        }
        self.last_slot_number = fill;
        self.last_round_index = round_index;
    }

    /// Pays out what is payable when `total_round` rounds have been created,
    /// and returns the payout. While the round of the latest purchase has
    /// not been superseded only the settled pool is paid and the pending
    /// pool stays; afterwards both are paid. Every pool that was paid is
    /// left empty.
    pub fn claim(&mut self, total_round: u32, price: u64, fee: u64) -> (payout: u64)
        requires
            old(self).can_claim(total_round, price, fee),
        ensures
            payout == payout_of(old(self).payable(total_round), price as nat, fee as nat),
            *final(self) == old(self).after_claim(total_round, payout),
            final(self).total_slot_number == 0,
            !old(self).superseded(total_round) ==> final(self).last_slot_number
                == old(self).last_slot_number,
            old(self).superseded(total_round) ==> final(self).last_slot_number == 0,
            final(self).claimed_slot_number == old(self).claimed_slot_number + payout,
            final(self).last_round_index == old(self).last_round_index,
    {
        let superseded: bool = total_round > self.last_round_index;
        let slots: u128 = if superseded {
            (self.total_slot_number as u128) + (self.last_slot_number as u128)
        } else {
            self.total_slot_number as u128
        };
        assert(slots == self.payable(total_round));
        let rate: u128 = (PAYOUT_BASE - fee) as u128;
        assert(rate * slots <= 2000 * 0x2_0000_0000_0000_0000) by (nonlinear_arith)
            requires
                rate <= 2000,
                slots < 0x2_0000_0000_0000_0000,
        ;
        let weighted: u128 = rate * slots;
        assert(weighted * price == (2000 - fee) * slots * price);
        assert(weighted * price / 1000 == payout_of(slots as nat, price as nat, fee as nat));
        let product: u128 = weighted * (price as u128);
        let payout: u64 = (product / 1000) as u64;
        self.total_slot_number = 0;
        if superseded {
            self.last_slot_number = 0;
        }
        self.claimed_slot_number = self.claimed_slot_number + payout;
        payout
    }
}

/// A purchase after the first loses no slot: the two pools together hold
/// what they held before and what was bought, and the pending pool holds
/// the new purchase alone.
pub proof fn lemma_purchase_keeps_every_slot(user_info: UserInfo, round_index: u32, fill: u64)
    requires
        user_info.last_round_index != 0,
        user_info.can_record(),
    ensures
        user_info.after_purchase(round_index, fill).last_slot_number == fill,
        user_info.after_purchase(round_index, fill).total_slot_number
            == user_info.total_slot_number + user_info.last_slot_number,
        user_info.after_purchase(round_index, fill).claimed_slot_number
            == user_info.claimed_slot_number,
{
}

/// A claim never lowers the audit counter, and a second claim at once
/// after the first pays nothing from the pools that the first one paid.
pub proof fn lemma_claim_empties_what_it_pays(
    user_info: UserInfo,
    total_round: u32,
    price: u64,
    fee: u64,
)
    requires
        user_info.can_claim(total_round, price, fee),
    ensures
        ({
            let payout = payout_of(user_info.payable(total_round), price as nat, fee as nat);
            let after = user_info.after_claim(total_round, payout as u64);
            &&& after.claimed_slot_number == user_info.claimed_slot_number + payout
            &&& after.claimed_slot_number >= user_info.claimed_slot_number
            &&& after.total_slot_number == 0
            &&& user_info.superseded(total_round) ==> after.payable(total_round) == 0
            &&& !user_info.superseded(total_round) ==> after.last_slot_number
                == user_info.last_slot_number
            &&& payout_of(after.total_slot_number as nat, price as nat, fee as nat) == 0
        }),
{
    assert((2000 - fee) * 0 * price == 0) by (nonlinear_arith);
}

} // verus!
