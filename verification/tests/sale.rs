use round::errors::RoundError;
use round::instructions::{
    authorize_withdrawal, buy_slot, claim_slot, create_round, initialize, settle_claim,
    update_fee, withdraw_sol, Transfer, VaultTransfer,
};
use round::ledger::Transition;
use round::settlement::PAYOUT_BASE;
use round::splitter::{split, Split};
use round::state::{
    round_capacity, GlobalState, Identity, RoundState, UserInfo, MAX_ROUND_INDEX,
};
use solana_program::pubkey::Pubkey;

fn owner() -> Identity {
    Identity::new([1u8; 32])
}

fn vault() -> Identity {
    Identity::new([2u8; 32])
}

fn buyer() -> Identity {
    Identity::new([3u8; 32])
}

fn sale(price: u64, fee: u64) -> GlobalState {
    let mut global = GlobalState::default();
    assert_eq!(initialize(&mut global, &owner(), &vault(), price, fee), Ok(()));
    global
}

fn sale_with_round(price: u64, fee: u64) -> (GlobalState, RoundState) {
    let mut global = sale(price, fee);
    let mut round = RoundState::default();
    assert_eq!(create_round(&mut global, &mut round, &owner(), 1), Ok(()));
    (global, round)
}

#[test]
fn identities_compare_byte_for_byte() {
    let mut bytes = [7u8; 32];
    let a = Identity::new(bytes);
    assert!(a.same(&Identity::new([7u8; 32])));
    bytes[31] = 8;
    assert!(!a.same(&Identity::new(bytes)));
    assert_eq!(Identity::default().bytes, [0u8; 32]);
}

#[test]
fn capacity_is_two_to_the_index() {
    assert_eq!(round_capacity(0), 1);
    assert_eq!(round_capacity(1), 2);
    assert_eq!(round_capacity(2), 4);
    assert_eq!(round_capacity(3), 8);
    assert_eq!(round_capacity(MAX_ROUND_INDEX), 1u64 << 63);
}

#[test]
fn initialize_sets_every_parameter() {
    let global = sale(100, 50);
    assert_eq!(global.owner, owner());
    assert_eq!(global.vault, vault());
    assert_eq!(global.total_round, 0);
    assert_eq!(global.slot_token_price, 100);
    assert_eq!(global.fee, 50);
}

#[test]
fn initialize_refuses_a_fee_of_one_thousand() {
    let mut global = GlobalState::default();
    let before = global;
    assert_eq!(
        initialize(&mut global, &owner(), &vault(), 100, 1000),
        Err(RoundError::MaxFeeError)
    );
    assert_eq!(global, before);
    assert_eq!(initialize(&mut global, &owner(), &vault(), 100, 999), Ok(()));
    assert_eq!(global.fee, 999);
}

#[test]
fn update_fee_is_for_the_owner_and_has_no_bound() {
    let mut global = sale(100, 50);
    assert_eq!(update_fee(&mut global, &buyer(), 10), Err(RoundError::NotAllowedOwner));
    assert_eq!(global.fee, 50);
    assert_eq!(update_fee(&mut global, &owner(), 1500), Ok(()));
    assert_eq!(global.fee, 1500);
    assert_eq!(global.slot_token_price, 100);
    assert_eq!(global.owner, owner());
}

#[test]
fn create_round_wants_the_next_index() {
    let mut global = sale(100, 50);
    let mut round = RoundState::default();
    assert_eq!(
        create_round(&mut global, &mut round, &owner(), 0),
        Err(RoundError::InvalidRoundIndex)
    );
    assert_eq!(
        create_round(&mut global, &mut round, &owner(), 2),
        Err(RoundError::InvalidRoundIndex)
    );
    assert_eq!(global.total_round, 0);
    assert_eq!(round, RoundState::default());
    assert_eq!(create_round(&mut global, &mut round, &owner(), 1), Ok(()));
    assert_eq!(global.total_round, 1);
    assert_eq!(
        round,
        RoundState { round_index: 1, total_slot_number: 2, current_slot_number: 0 }
    );
    assert_eq!(
        create_round(&mut global, &mut round, &owner(), 1),
        Err(RoundError::InvalidRoundIndex)
    );
    assert_eq!(create_round(&mut global, &mut round, &owner(), 2), Ok(()));
    assert_eq!(global.total_round, 2);
    assert_eq!(
        round,
        RoundState { round_index: 2, total_slot_number: 4, current_slot_number: 0 }
    );
}

#[test]
fn create_round_is_for_the_owner() {
    let mut global = sale(100, 50);
    let mut round = RoundState::default();
    assert_eq!(
        create_round(&mut global, &mut round, &buyer(), 1),
        Err(RoundError::NotAllowedOwner)
    );
    assert_eq!(
        create_round(&mut global, &mut round, &buyer(), 5),
        Err(RoundError::NotAllowedOwner)
    );
    assert_eq!(global.total_round, 0);
    assert_eq!(round, RoundState::default());
}

#[test]
fn create_round_with_a_full_counter_is_out_of_sequence() {
    let mut global = sale(100, 50);
    global.total_round = u32::MAX;
    let mut round = RoundState::default();
    assert_eq!(
        create_round(&mut global, &mut round, &owner(), 0),
        Err(RoundError::InvalidRoundIndex)
    );
    assert_eq!(global.total_round, u32::MAX);
}

#[test]
fn a_request_below_what_is_left_is_granted_whole() {
    let mut round = RoundState::create(3);
    assert_eq!(round.quote(5), 5);
    assert_eq!(round.advance(5), Ok(Transition::Filled { fill: 5 }));
    assert_eq!(
        round,
        RoundState { round_index: 3, total_slot_number: 8, current_slot_number: 5 }
    );
    assert_eq!(round.advance(2), Ok(Transition::Filled { fill: 2 }));
    assert_eq!(round.current_slot_number, 7);
    assert_eq!(round.advance(0), Ok(Transition::Filled { fill: 0 }));
    assert_eq!(round.current_slot_number, 7);
}

#[test]
fn a_request_for_exactly_what_is_left_rolls_over() {
    let mut round = RoundState::create(3);
    assert_eq!(round.advance(5), Ok(Transition::Filled { fill: 5 }));
    assert_eq!(round.quote(3), 3);
    assert_eq!(round.advance(3), Ok(Transition::RolledOver { fill: 3 }));
    assert_eq!(
        round,
        RoundState { round_index: 4, total_slot_number: 16, current_slot_number: 0 }
    );
}

#[test]
fn a_request_beyond_what_is_left_is_cut_and_the_excess_dropped() {
    let mut round = RoundState::create(3);
    assert_eq!(round.advance(5), Ok(Transition::Filled { fill: 5 }));
    assert_eq!(round.quote(100), 3);
    let transition = round.advance(100).unwrap();
    assert_eq!(transition, Transition::RolledOver { fill: 3 });
    assert_eq!(transition.fill(), 3);
    assert!(transition.rolled_over());
    assert_eq!(
        round,
        RoundState { round_index: 4, total_slot_number: 16, current_slot_number: 0 }
    );
    let mut exact = RoundState::create(3);
    exact.advance(5).unwrap();
    exact.advance(3).unwrap();
    assert_eq!(round, exact);
}

#[test]
fn a_full_round_that_can_roll_rolls_with_nothing_sold() {
    let mut round = RoundState { round_index: 2, total_slot_number: 4, current_slot_number: 4 };
    assert_eq!(round.advance(9), Ok(Transition::RolledOver { fill: 0 }));
    assert_eq!(
        round,
        RoundState { round_index: 3, total_slot_number: 8, current_slot_number: 0 }
    );
}

#[test]
fn the_last_round_closes_and_then_refuses() {
    let mut round = RoundState::create(MAX_ROUND_INDEX);
    let capacity = 1u64 << 63;
    assert_eq!(round.total_slot_number, capacity);
    assert_eq!(round.advance(capacity - 1), Ok(Transition::Filled { fill: capacity - 1 }));
    let transition = round.advance(10).unwrap();
    assert_eq!(transition, Transition::Filled { fill: 1 });
    assert!(!transition.rolled_over());
    assert_eq!(
        round,
        RoundState {
            round_index: MAX_ROUND_INDEX,
            total_slot_number: capacity,
            current_slot_number: capacity,
        }
    );
    let full = round;
    assert_eq!(round.quote(1), 0);
    assert_eq!(round.advance(1), Err(RoundError::OverMaxSlot));
    assert_eq!(round.advance(0), Err(RoundError::OverMaxSlot));
    assert_eq!(round, full);
}

#[test]
fn sold_never_exceeds_capacity_over_many_purchases() {
    let mut round = RoundState::create(1);
    let mut request: u64 = 1;
    for step in 0..200u64 {
        let before = round;
        let left = before.total_slot_number - before.current_slot_number;
        let transition = round.advance(request).unwrap();
        assert!(round.current_slot_number <= round.total_slot_number);
        assert_eq!(round.total_slot_number, 1u64 << round.round_index);
        assert!(transition.fill() <= request);
        if request < left {
            assert_eq!(transition, Transition::Filled { fill: request });
            assert_eq!(round.current_slot_number, before.current_slot_number + request);
        } else {
            assert_eq!(transition, Transition::RolledOver { fill: left });
            assert_eq!(round.round_index, before.round_index + 1);
            assert_eq!(round.total_slot_number, 2 * before.total_slot_number);
            assert_eq!(round.current_slot_number, 0);
        }
        request = (request * 7 + step) % 23;
    }
}

#[test]
fn split_of_an_even_value_loses_nothing() {
    assert_eq!(split(2, 100, 50), Split { vault_share: 190, fee_share: 10 });
    assert_eq!(split(0, 100, 50), Split { vault_share: 0, fee_share: 0 });
    assert_eq!(split(7, 1000, 0), Split { vault_share: 7000, fee_share: 0 });
    assert_eq!(split(7, 1000, 1000), Split { vault_share: 0, fee_share: 7000 });
}

#[test]
fn split_rounds_each_share_down() {
    assert_eq!(split(1, 1, 500), Split { vault_share: 0, fee_share: 0 });
    assert_eq!(split(1, 999, 1), Split { vault_share: 998, fee_share: 0 });
    assert_eq!(split(3, 333, 333), Split { vault_share: 666, fee_share: 332 });
}

#[test]
fn split_stays_within_the_gross_value_and_repeats() {
    for fill in [0u64, 1, 2, 3, 17, 999, 1001] {
        for price in [0u64, 1, 7, 100, 12345] {
            for fee in [0u64, 1, 50, 333, 500, 999, 1000] {
                let gross = fill * price;
                let shares = split(fill, price, fee);
                assert_eq!(shares.vault_share, gross * (1000 - fee) / 1000);
                assert_eq!(shares.fee_share, gross * fee / 1000);
                let paid = shares.vault_share + shares.fee_share;
                assert!(paid <= gross);
                let lost = if (gross * fee) % 1000 == 0 { 0 } else { 1 };
                assert_eq!(gross - paid, lost);
                assert_eq!(split(fill, price, fee), shares);
            }
        }
    }
}

#[test]
fn split_takes_the_largest_value() {
    let shares = split(u64::MAX, 1, 999);
    assert_eq!(shares.fee_share as u128, (u64::MAX as u128) * 999 / 1000);
    assert_eq!(shares.vault_share as u128, (u64::MAX as u128) / 1000);
}

#[test]
fn first_purchase_starts_the_ledger() {
    let mut user = UserInfo {
        total_slot_number: 9,
        last_slot_number: 4,
        last_round_index: 0,
        claimed_slot_number: 11,
    };
    user.record_purchase(2, 3);
    assert_eq!(
        user,
        UserInfo {
            total_slot_number: 0,
            last_slot_number: 3,
            last_round_index: 2,
            claimed_slot_number: 11,
        }
    );
}

#[test]
fn later_purchase_folds_pending_into_settled() {
    let mut user = UserInfo::default();
    user.record_purchase(1, 2);
    user.record_purchase(1, 5);
    assert_eq!(
        user,
        UserInfo {
            total_slot_number: 2,
            last_slot_number: 5,
            last_round_index: 1,
            claimed_slot_number: 0,
        }
    );
    user.record_purchase(3, 1);
    assert_eq!(
        user,
        UserInfo {
            total_slot_number: 7,
            last_slot_number: 1,
            last_round_index: 3,
            claimed_slot_number: 0,
        }
    );
}

#[test]
fn claim_before_the_round_is_superseded_pays_settled_only() {
    let mut user = UserInfo {
        total_slot_number: 3,
        last_slot_number: 5,
        last_round_index: 2,
        claimed_slot_number: 40,
    };
    let payout = user.claim(2, 100, 50);
    assert_eq!(payout, (PAYOUT_BASE - 50) * 3 * 100 / 1000);
    assert_eq!(payout, 585);
    assert_eq!(
        user,
        UserInfo {
            total_slot_number: 0,
            last_slot_number: 5,
            last_round_index: 2,
            claimed_slot_number: 625,
        }
    );
    assert_eq!(user.claim(1, 100, 50), 0);
    assert_eq!(user.last_slot_number, 5);
    assert_eq!(user.claimed_slot_number, 625);
}

#[test]
fn claim_after_the_round_is_superseded_pays_both_pools() {
    let mut user = UserInfo {
        total_slot_number: 3,
        last_slot_number: 5,
        last_round_index: 2,
        claimed_slot_number: 40,
    };
    let payout = user.claim(3, 100, 50);
    assert_eq!(payout, 1560);
    assert_eq!(
        user,
        UserInfo {
            total_slot_number: 0,
            last_slot_number: 0,
            last_round_index: 2,
            claimed_slot_number: 1600,
        }
    );
    assert_eq!(user.claim(9, 100, 50), 0);
    assert_eq!(user.claimed_slot_number, 1600);
}

#[test]
fn claim_rounds_the_payout_down_and_takes_any_fee_up_to_the_base() {
    let mut user = UserInfo {
        total_slot_number: 1,
        last_slot_number: 0,
        last_round_index: 1,
        claimed_slot_number: 0,
    };
    assert_eq!(user.claim(1, 7, 999), 7);
    user.total_slot_number = 1;
    assert_eq!(user.claim(1, 1, 1500), 0);
    user.total_slot_number = u64::MAX;
    user.last_slot_number = u64::MAX;
    assert_eq!(user.claim(5, u64::MAX, 2000), 0);
    assert_eq!(user.claimed_slot_number, 7);
}

#[test]
fn clamped_purchase_then_claim() {
    let (mut global, mut round) = sale_with_round(100, 50);
    assert_eq!(round.total_slot_number, 2);
    let mut user = UserInfo::default();
    let purchase = buy_slot(&global, &mut round, &mut user, &buyer(), 1, 3).unwrap();
    assert_eq!(purchase.fill, 2);
    assert!(purchase.rolled_over);
    assert_eq!(purchase.to_vault, Transfer { from: buyer(), to: vault(), amount: 190 });
    assert_eq!(purchase.to_owner, Transfer { from: buyer(), to: owner(), amount: 10 });
    assert_eq!(
        round,
        RoundState { round_index: 2, total_slot_number: 4, current_slot_number: 0 }
    );
    assert_eq!(
        user,
        UserInfo {
            total_slot_number: 0,
            last_slot_number: 2,
            last_round_index: 1,
            claimed_slot_number: 0,
        }
    );

    let mut early = user;
    let nothing = settle_claim(&global, &mut early, &buyer(), Some(254)).unwrap();
    assert_eq!(nothing.transfer.amount, 0);
    assert_eq!(early, user);

    assert_eq!(create_round(&mut global, &mut round, &owner(), 2), Ok(()));
    assert_eq!(global.total_round, 2);
    let paid = settle_claim(&global, &mut user, &buyer(), Some(254));
    assert_eq!(
        paid,
        Some(VaultTransfer {
            transfer: Transfer { from: vault(), to: buyer(), amount: 390 },
            bump: 254,
        })
    );
    assert_eq!(
        user,
        UserInfo {
            total_slot_number: 0,
            last_slot_number: 0,
            last_round_index: 1,
            claimed_slot_number: 390,
        }
    );
}

#[test]
fn purchases_in_one_round_fold_and_keep_the_round_open() {
    let (mut global, mut round) = sale_with_round(1000, 25);
    assert_eq!(create_round(&mut global, &mut round, &owner(), 2), Ok(()));
    let mut user = UserInfo::default();
    let first = buy_slot(&global, &mut round, &mut user, &buyer(), 2, 1).unwrap();
    assert_eq!(first.fill, 1);
    assert!(!first.rolled_over);
    assert_eq!(first.to_vault.amount, 975);
    assert_eq!(first.to_owner.amount, 25);
    let second = buy_slot(&global, &mut round, &mut user, &buyer(), 2, 2).unwrap();
    assert_eq!(second.fill, 2);
    assert!(!second.rolled_over);
    assert_eq!(second.to_vault.amount, 1950);
    assert_eq!(second.to_owner.amount, 50);
    assert_eq!(
        round,
        RoundState { round_index: 2, total_slot_number: 4, current_slot_number: 3 }
    );
    assert_eq!(
        user,
        UserInfo {
            total_slot_number: 1,
            last_slot_number: 2,
            last_round_index: 2,
            claimed_slot_number: 0,
        }
    );
}

#[test]
fn refused_purchase_changes_nothing() {
    let global = sale(100, 50);
    let capacity = 1u64 << 63;
    let mut round = RoundState {
        round_index: MAX_ROUND_INDEX,
        total_slot_number: capacity,
        current_slot_number: capacity,
    };
    let mut user = UserInfo {
        total_slot_number: 1,
        last_slot_number: 2,
        last_round_index: 3,
        claimed_slot_number: 4,
    };
    let (round_before, user_before) = (round, user);
    assert_eq!(
        buy_slot(&global, &mut round, &mut user, &buyer(), MAX_ROUND_INDEX, 1),
        Err(RoundError::OverMaxSlot)
    );
    assert_eq!(round, round_before);
    assert_eq!(user, user_before);
}

#[test]
fn claim_without_a_bump_pays_nothing_and_keeps_the_ledger() {
    let mut global = sale(100, 50);
    global.total_round = 5;
    let mut user = UserInfo {
        total_slot_number: 3,
        last_slot_number: 5,
        last_round_index: 2,
        claimed_slot_number: 40,
    };
    let before = user;
    assert_eq!(settle_claim(&global, &mut user, &buyer(), None), None);
    assert_eq!(user, before);
}

#[test]
fn claim_slot_signs_with_the_bump_of_the_vault_address() {
    let mut global = sale(100, 50);
    global.total_round = 5;
    let program = Identity::new([9u8; 32]);
    let seed: &[u8] = b"vault";
    let (_, bump) = Pubkey::find_program_address(&[seed], &Pubkey::new_from_array([9u8; 32]));
    let derived = Pubkey::create_program_address(
        &[seed, &[bump]],
        &Pubkey::new_from_array([9u8; 32]),
    );
    assert!(derived.is_ok());
    let mut user = UserInfo {
        total_slot_number: 3,
        last_slot_number: 5,
        last_round_index: 2,
        claimed_slot_number: 40,
    };
    let paid = claim_slot(&global, &mut user, &buyer(), seed, &program);
    assert_eq!(
        paid,
        Some(VaultTransfer {
            transfer: Transfer { from: vault(), to: buyer(), amount: 1560 },
            bump,
        })
    );
    assert_eq!(user.total_slot_number, 0);
    assert_eq!(user.last_slot_number, 0);
    assert_eq!(user.claimed_slot_number, 1600);
}

#[test]
fn claim_slot_with_an_overlong_seed_is_not_carried_out() {
    let mut global = sale(100, 50);
    global.total_round = 5;
    let program = Identity::new([9u8; 32]);
    let seed = [5u8; 33];
    let mut user = UserInfo {
        total_slot_number: 3,
        last_slot_number: 5,
        last_round_index: 2,
        claimed_slot_number: 40,
    };
    let before = user;
    assert_eq!(claim_slot(&global, &mut user, &buyer(), &seed, &program), None);
    assert_eq!(user, before);
}

#[test]
fn withdrawal_is_for_the_owner() {
    let global = sale(100, 50);
    assert_eq!(
        authorize_withdrawal(&global, &buyer(), 77, Some(3)),
        Err(RoundError::NotAllowedOwner)
    );
    assert_eq!(
        authorize_withdrawal(&global, &buyer(), 77, None),
        Err(RoundError::NotAllowedOwner)
    );
    assert_eq!(
        authorize_withdrawal(&global, &owner(), 77, Some(3)),
        Ok(Some(VaultTransfer {
            transfer: Transfer { from: vault(), to: owner(), amount: 77 },
            bump: 3,
        }))
    );
    assert_eq!(authorize_withdrawal(&global, &owner(), 77, None), Ok(None));
}

#[test]
fn withdraw_sol_signs_with_the_bump_of_the_vault_address() {
    let global = sale(100, 50);
    let program = Identity::new([9u8; 32]);
    let seed: &[u8] = b"vault";
    let (_, bump) = Pubkey::find_program_address(&[seed], &Pubkey::new_from_array([9u8; 32]));
    assert_eq!(
        withdraw_sol(&global, &owner(), u64::MAX, seed, &program),
        Ok(Some(VaultTransfer {
            transfer: Transfer { from: vault(), to: owner(), amount: u64::MAX },
            bump,
        }))
    );
    assert_eq!(
        withdraw_sol(&global, &buyer(), 1, seed, &program),
        Err(RoundError::NotAllowedOwner)
    );
    assert_eq!(withdraw_sol(&global, &owner(), 1, &[5u8; 33], &program), Ok(None));
}

#[test]
fn bumps_differ_with_the_seed() {
    let global = sale(100, 50);
    let program_bytes = [9u8; 32];
    let program = Identity::new(program_bytes);
    let mut seen_different = false;
    let mut first: Option<u8> = None;
    for tag in 0u8..40 {
        let seed = [tag, 1, 2, 3];
        let expected =
            Pubkey::find_program_address(&[&seed[..]], &Pubkey::new_from_array(program_bytes)).1;
        let got = withdraw_sol(&global, &owner(), 5, &seed, &program).unwrap().unwrap();
        assert_eq!(got.bump, expected);
        match first {
            None => first = Some(got.bump),
            Some(b) => {
                if b != got.bump {
                    seen_different = true;
                }
            }
        }
    }
    assert!(seen_different);
}
