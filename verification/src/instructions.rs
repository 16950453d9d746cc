use vstd::prelude::*;
use solana_program::pubkey::Pubkey;
use crate::errors::RoundError;
use crate::ledger::Transition;
use crate::settlement::payout_of;
use crate::splitter::fee_share_of;
use crate::splitter::gross_of;
use crate::splitter::split;
use crate::splitter::vault_share_of;
use crate::splitter::PERMILLE;
use crate::state::capacity_of;
use crate::state::GlobalState;
use crate::state::Identity;
use crate::state::RoundState;
use crate::state::UserInfo;
use crate::state::MAX_ROUND_INDEX;

verus! {

/// The fee at initialization must be below this, in parts per thousand.
pub const MAX_FEE: u64 = 1000;

/// A movement of value that the caller of the library is to carry out. If
/// it fails, the operation that asked for it has failed as a whole, and the
/// records it changed are to be dropped.
#[derive(Clone, Copy, Debug, PartialEq, Eq)]
pub struct Transfer {
    /// Who pays.
    pub from: Identity,
    /// Who is paid.
    pub to: Identity,
    /// How much, in the smallest unit of value.
    pub amount: u64,
}

/// A granted purchase: what was sold, and the two transfers that the buyer
/// owes for it.
#[derive(Clone, Copy, Debug, PartialEq, Eq)]
pub struct Purchase {
    /// The slots that were sold.
    pub fill: u64,
    /// Whether the purchase completed the round and brought the next one.
    pub rolled_over: bool,
    /// The buyer's payment to the vault.
    pub to_vault: Transfer,
    /// The buyer's payment of the fee to the owner.
    pub to_owner: Transfer,
}

/// A transfer out of the vault, with the bump seed under which the vault
/// signs it.
#[derive(Clone, Copy, Debug, PartialEq, Eq)]
pub struct VaultTransfer {
    /// What leaves the vault, and for whom.
    pub transfer: Transfer,
    /// The bump seed of the vault's address.
    pub bump: u8,
}

/// The bump seed that the address derivation finds for one seed under a
/// program, or `None` where it finds none.
pub uninterp spec fn derived_bump(seed: Seq<u8>, program: Seq<u8>) -> Option<u8>;

/// The longest seed that the address derivation takes, in bytes.
pub const MAX_SEED_LEN: usize = 32;

/// Calls `Pubkey::try_find_program_address` of `solana_program` with the one
/// seed and the program's key, and keeps the bump seed of what it returns.
/// Nothing is proved of it. The contract gives the result its name: the
/// derivation hashes its arguments and reads nothing else, so equal
/// arguments give equal results. It also states that a seed of more than 32
/// bytes finds nothing, which is the one case in which the derivation gives
/// up before it hashes. The call returns `None` where the panicking variant
/// would panic.
#[verifier::external_body]
fn find_bump(seed: &[u8], program: &Identity) -> (bump: Option<u8>)
    ensures
        bump == derived_bump(seed@, program@),
        seed@.len() > MAX_SEED_LEN ==> bump is None,
{
    Pubkey::try_find_program_address(&[seed], &Pubkey::new_from_array(program.bytes))
        .map(|found| found.1)
}

/// The transfer of an amount out of the vault to a party, where the vault
/// can sign.
pub open spec fn signed_transfer(
    global: GlobalState,
    to: Identity,
    amount: u64,
    bump: Option<u8>,
) -> Option<VaultTransfer> {
    match bump {
        Some(b) => Some(
            VaultTransfer { transfer: Transfer { from: global.vault, to, amount }, bump: b },
        ),
        None => None,
    }
}

/// What a claim pays: the payout of what is payable of the ledger, at the
/// price and the fee of the sale.
pub open spec fn claim_payout(global: GlobalState, user_info: UserInfo) -> nat {
    payout_of(
        user_info.payable(global.total_round),
        global.slot_token_price as nat,
        global.fee as nat,
    )
}

/// What a claim returns and leaves of the ledger, given the bump seed that
/// was found for the vault.
pub open spec fn claim_outcome(
    global: GlobalState,
    user_info: UserInfo,
    caller: Identity,
    bump: Option<u8>,
) -> (Option<VaultTransfer>, UserInfo) {
    let payout = claim_payout(global, user_info) as u64;
    match bump {
        Some(b) => (
            signed_transfer(global, caller, payout, bump),
            user_info.after_claim(global.total_round, payout),
        ),
        None => (None, user_info),
    }
}

/// What a withdrawal returns, given the bump seed that was found for the
/// vault.
pub open spec fn withdrawal_outcome(
    global: GlobalState,
    caller: Identity,
    amount: u64,
    bump: Option<u8>,
) -> Result<Option<VaultTransfer>, RoundError> {
    if caller@ == global.owner@ {
        Ok(signed_transfer(global, global.owner, amount, bump))
    } else {
        Err(RoundError::NotAllowedOwner)
    }
}

/// Sets the parameters of the sale: the owner, the vault, the price of a
/// slot and the fee. No round exists yet. A fee of 1000 per mille or more is
/// refused.
pub fn initialize(
    global: &mut GlobalState,
    owner: &Identity,
    vault: &Identity,
    slot_token_price: u64,
    fee: u64,
) -> (result: Result<(), RoundError>)
    ensures
        fee >= 1000 <==> result is Err,
        result is Err ==> result == Err::<(), RoundError>(RoundError::MaxFeeError)
            && *final(global) == *old(global),
        result is Ok ==> *final(global) == (GlobalState {
            owner: *owner,
            total_round: 0,
            slot_token_price,
            vault: *vault,
            fee,
        }),
{
    if fee >= MAX_FEE {
        return Err(RoundError::MaxFeeError);
    }
    global.owner = *owner;
    global.total_round = 0;
    global.slot_token_price = slot_token_price;
    global.vault = *vault;
    global.fee = fee;
    Ok(())
}

/// Changes the fee. Only the owner may; the new fee is taken as it is.
pub fn update_fee(global: &mut GlobalState, caller: &Identity, new_fee: u64) -> (result: Result<
    (),
    RoundError,
>)
    ensures
        caller@ != old(global).owner@ <==> result is Err,
        result is Err ==> result == Err::<(), RoundError>(RoundError::NotAllowedOwner)
            && *final(global) == *old(global),
        result is Ok ==> *final(global) == (GlobalState { fee: new_fee, ..*old(global) }),
{
    if !global.owner.same(caller) {
        return Err(RoundError::NotAllowedOwner);
    }
    global.fee = new_fee;
    Ok(())
}

/// Whether a call of `create_round` is in order: it comes from the owner
/// and names the index after the last round created.
pub open spec fn creates_round(global: GlobalState, caller: Identity, round_index: u32) -> bool {
    caller@ == global.owner@ && round_index == global.total_round + 1
}

/// Creates the round `round_index`, empty and with the capacity of its
/// index, and counts it. Only the owner may, and only with the index that
/// follows the rounds created so far.
pub fn create_round(
    global: &mut GlobalState,
    round: &mut RoundState,
    caller: &Identity,
    round_index: u32,
) -> (result: Result<(), RoundError>)
    requires
        creates_round(*old(global), *caller, round_index) ==> round_index <= MAX_ROUND_INDEX,
    ensures
        creates_round(*old(global), *caller, round_index) <==> result is Ok,
        caller@ != old(global).owner@ ==> result == Err::<(), RoundError>(
            RoundError::NotAllowedOwner,
        ),
        caller@ == old(global).owner@ && round_index != old(global).total_round + 1 ==> result
            == Err::<(), RoundError>(RoundError::InvalidRoundIndex),
        result is Err ==> *final(global) == *old(global) && *final(round) == *old(round),
        result is Ok ==> final(global).total_round == old(global).total_round + 1,
        result is Ok ==> *final(global) == (GlobalState {
            total_round: round_index,
            ..*old(global)
        }),
        result is Ok ==> final(round).wf() && *final(round) == (RoundState {
            round_index,
            total_slot_number: capacity_of(round_index as nat) as u64,
            current_slot_number: 0,
        }),
{
    if !global.owner.same(caller) {
        return Err(RoundError::NotAllowedOwner);
    }
    if global.total_round == u32::MAX || global.total_round + 1 != round_index {
        return Err(RoundError::InvalidRoundIndex);
    }
    *round = RoundState::create(round_index);
    global.total_round = round_index;
    Ok(())
}

/// Whether a purchase can be carried out without overflow: the fee is no
/// more than the whole, the value of what would be sold fits in a `u64`, and
/// the buyer's ledger can take it.
pub open spec fn can_buy(
    global: GlobalState,
    round: RoundState,
    user_info: UserInfo,
    amount: u64,
) -> bool {
    &&& global.fee <= 1000
    &&& gross_of(round.grant(amount as nat), global.slot_token_price as nat) <= u64::MAX
    &&& user_info.can_record()
}

/// Tests whether a purchase can be carried out without overflow.
pub fn purchase_fits(
    global: &GlobalState,
    round: &RoundState,
    user_info: &UserInfo,
    amount: u64,
) -> (fits: bool)
    requires
        round.wf(),
    ensures
        fits == can_buy(*global, *round, *user_info, amount),
{
    if global.fee > PERMILLE || !user_info.fits_purchase() {
        return false;
    }
    let fill: u64 = round.quote(amount);
    let price: u64 = global.slot_token_price;
    assert(fill * price <= u128::MAX) by (nonlinear_arith)
        requires
            fill <= u64::MAX,
            price <= u64::MAX,
    ;
    let gross: u128 = (fill as u128) * (price as u128);
    gross <= u64::MAX as u128
}

/// Buys up to `amount` slots of the current round for `buyer`, who names
/// the round by its index. The round grants the request, or cuts it down to
/// what is left and rolls over. The value of what was granted is split
/// between vault and owner, and the buyer's ledger records the granted slots
/// under the round they were bought in. The two payments are returned for
/// the caller to carry out: round and ledger are to be kept only if both go
/// through. A refused request changes nothing.
pub fn buy_slot(
    global: &GlobalState,
    round: &mut RoundState,
    user_info: &mut UserInfo,
    buyer: &Identity,
    round_index: u32,
    amount: u64,
) -> (result: Result<Purchase, RoundError>)
    requires
        old(round).wf(),
        round_index == old(round).round_index,
        can_buy(*global, *old(round), *old(user_info), amount),
    ensures
        final(round).wf(),
        old(round).refuses() <==> result is Err,
        result is Err ==> result == Err::<Purchase, RoundError>(RoundError::OverMaxSlot)
            && *final(round) == *old(round) && *final(user_info) == *old(user_info),
        result is Ok ==> *final(round) == old(round).after(amount as nat),
        result is Ok ==> result->Ok_0.fill == old(round).grant(amount as nat),
        result is Ok ==> result->Ok_0.rolled_over == old(round).rolls_on(amount as nat),
        result is Ok ==> result->Ok_0.to_vault == (Transfer {
            from: *buyer,
            to: global.vault,
            amount: vault_share_of(
                gross_of(old(round).grant(amount as nat), global.slot_token_price as nat),
                global.fee as nat,
            ) as u64,
        }),
        result is Ok ==> result->Ok_0.to_owner == (Transfer {
            from: *buyer,
            to: global.owner,
            amount: fee_share_of(
                gross_of(old(round).grant(amount as nat), global.slot_token_price as nat),
                global.fee as nat,
            ) as u64,
        }),
        result is Ok ==> result->Ok_0.to_vault.amount + result->Ok_0.to_owner.amount <= gross_of(
            old(round).grant(amount as nat),
            global.slot_token_price as nat,
        ),
        result is Ok ==> *final(user_info) == old(user_info).after_purchase(
            round_index,
            result->Ok_0.fill,
        ),
{
    let transition: Transition = match round.advance(amount) {
        Ok(transition) => transition,
        Err(e) => {
            return Err(e);
        },
    };
    let fill: u64 = transition.fill();
    let shares = split(fill, global.slot_token_price, global.fee);
    user_info.record_purchase(round_index, fill);
    Ok(
        Purchase {
            fill,
            rolled_over: transition.rolled_over(),
            to_vault: Transfer { from: *buyer, to: global.vault, amount: shares.vault_share },
            to_owner: Transfer { from: *buyer, to: global.owner, amount: shares.fee_share },
        },
    )
}

/// A claim that the vault can sign pays by the state of the round that the
/// ledger is pending on. While that round is the latest one created, the
/// settled pool alone is paid and the pending pool stays as it is. Once a
/// later round exists, both pools are paid and both are left empty. Either
/// way the settled pool is empty afterwards, and the audit counter has
/// grown by exactly what was paid.
pub proof fn lemma_claim_pays_by_supersession(
    global: GlobalState,
    user_info: UserInfo,
    caller: Identity,
    bump: u8,
)
    requires
        user_info.can_claim(global.total_round, global.slot_token_price, global.fee),
    ensures
        ({
            let (transfer, after) = claim_outcome(global, user_info, caller, Some(bump));
            let paid = transfer->Some_0.transfer;
            &&& transfer is Some
            &&& paid.from == global.vault && paid.to == caller
            &&& after.total_slot_number == 0
            &&& after.last_round_index == user_info.last_round_index
            &&& after.claimed_slot_number == user_info.claimed_slot_number + paid.amount
            &&& global.total_round <= user_info.last_round_index ==> {
                &&& paid.amount == payout_of(
                    user_info.total_slot_number as nat,
                    global.slot_token_price as nat,
                    global.fee as nat,
                )
                &&& after.last_slot_number == user_info.last_slot_number
            }
            &&& global.total_round > user_info.last_round_index ==> {
                &&& paid.amount == payout_of(
                    (user_info.total_slot_number + user_info.last_slot_number) as nat,
                    global.slot_token_price as nat,
                    global.fee as nat,
                )
                &&& after.last_slot_number == 0
            }
        }),
{
}

/// Pays a claim, given the bump seed that was found for the vault. Without
/// one the vault cannot sign: nothing is paid and the ledger stays as it
/// is. With one, the ledger pays out what is payable.
pub fn settle_claim(
    global: &GlobalState,
    user_info: &mut UserInfo,
    caller: &Identity,
    bump: Option<u8>,
) -> (transfer: Option<VaultTransfer>)
    requires
        old(user_info).can_claim(global.total_round, global.slot_token_price, global.fee),
    ensures
        (transfer, *final(user_info)) == claim_outcome(*global, *old(user_info), *caller, bump),
        transfer is Some <==> bump is Some,
        transfer is Some ==> transfer->Some_0.transfer.amount == claim_payout(
            *global,
            *old(user_info),
        ),
{
    match bump {
        Some(b) => {
            let payout: u64 = user_info.claim(
                global.total_round,
                global.slot_token_price,
                global.fee,
            );
            Some(
                VaultTransfer {
                    transfer: Transfer { from: global.vault, to: *caller, amount: payout },
                    bump: b,
                },
            )
        },
        None => None,
    }
}

/// Claims what the caller's ledger holds as payable and returns the transfer
/// from the vault to the caller, which the caller of the library is to carry
/// out: the ledger is to be kept only if it goes through. The vault signs under the address derived
/// from `vault_seed` and `program`; where no such address is found the
/// claim is not carried out.
pub fn claim_slot(
    global: &GlobalState,
    user_info: &mut UserInfo,
    caller: &Identity,
    vault_seed: &[u8],
    program: &Identity,
) -> (transfer: Option<VaultTransfer>)
    requires
        old(user_info).can_claim(global.total_round, global.slot_token_price, global.fee),
    ensures
        (transfer, *final(user_info)) == claim_outcome(
            *global,
            *old(user_info),
            *caller,
            derived_bump(vault_seed@, program@),
        ),
        vault_seed@.len() > MAX_SEED_LEN ==> transfer is None
            && *final(user_info) == *old(user_info),
{
    let bump = find_bump(vault_seed, program);
    settle_claim(global, user_info, caller, bump)
}

/// Decides a withdrawal, given the bump seed that was found for the vault.
/// Only the owner may withdraw. The amount is not held against what the
/// vault owes to buyers.
pub fn authorize_withdrawal(
    global: &GlobalState,
    caller: &Identity,
    amount: u64,
    bump: Option<u8>,
) -> (result: Result<Option<VaultTransfer>, RoundError>)
    ensures
        result == withdrawal_outcome(*global, *caller, amount, bump),
        caller@ != global.owner@ <==> result is Err,
{
    if !global.owner.same(caller) {
        return Err(RoundError::NotAllowedOwner);
    }
    match bump {
        Some(b) => Ok(
            Some(
                VaultTransfer {
                    transfer: Transfer { from: global.vault, to: global.owner, amount },
                    bump: b,
                },
            ),
        ),
        None => Ok(None),
    }
}

/// Withdraws `amount` from the vault to the owner and returns the transfer.
/// Only the owner may. The vault signs under the address derived from
/// `vault_seed` and `program`; where no such address is found there is no
/// transfer.
pub fn withdraw_sol(
    global: &GlobalState,
    caller: &Identity,
    amount: u64,
    vault_seed: &[u8],
    program: &Identity,
) -> (result: Result<Option<VaultTransfer>, RoundError>)
    ensures
        result == withdrawal_outcome(*global, *caller, amount, derived_bump(vault_seed@, program@)),
        caller@ != global.owner@ <==> result is Err,
        caller@ == global.owner@ && vault_seed@.len() > MAX_SEED_LEN ==> result == Ok::<
            Option<VaultTransfer>,
            RoundError,
        >(None),
{
    if !global.owner.same(caller) {
        return Err(RoundError::NotAllowedOwner);
    }
    let bump = find_bump(vault_seed, program);
    authorize_withdrawal(global, caller, amount, bump)
}

} // verus!
