use vstd::prelude::*;

verus! {

/// One thousand: the whole, in parts per thousand.
pub const PERMILLE: u64 = 1000;

/// What a sale is worth before the fee: slots times price.
pub open spec fn gross_of(fill: nat, price: nat) -> nat {
    fill * price
}

/// The part of a gross value that goes to the vault, rounded down.
pub open spec fn vault_share_of(gross: nat, fee_permille: nat) -> nat
    recommends
        fee_permille <= 1000,
{
    (gross * (1000 - fee_permille) / 1000) as nat
}

/// The part of a gross value that is the protocol's fee, rounded down.
pub open spec fn fee_share_of(gross: nat, fee_permille: nat) -> nat {
    gross * fee_permille / 1000
}

/// What the two roundings leave unpaid of a gross value.
pub open spec fn shortfall_of(gross: nat, fee_permille: nat) -> int {
    gross - vault_share_of(gross, fee_permille) - fee_share_of(gross, fee_permille)
}

/// The two shares of a sale.
#[derive(Clone, Copy, Debug, PartialEq, Eq, Structural)]
pub struct Split {
    /// What goes to the vault.
    pub vault_share: u64,
    /// What goes to the owner as the fee.
    pub fee_share: u64,
}

/// The two shares never exceed the gross value. What they leave unpaid is
/// decided by the gross value and the fee alone: nothing where the fee
/// divides evenly, else exactly one unit.
pub proof fn lemma_shares_within_gross(gross: nat, fee_permille: nat)
    requires
        fee_permille <= 1000,
    ensures
        vault_share_of(gross, fee_permille) + fee_share_of(gross, fee_permille) <= gross,
        vault_share_of(gross, fee_permille) <= gross,
        fee_share_of(gross, fee_permille) <= gross,
        shortfall_of(gross, fee_permille) == if (gross * fee_permille) % 1000 == 0 {
            0int
        } else {
            1int
        },
{
    let a: int = gross * (1000 - fee_permille);
    let b: int = (gross * fee_permille) as int;
    assert(a + b == 1000 * gross) by (nonlinear_arith)
        requires
            a == gross * (1000 - fee_permille),
            b == gross * fee_permille,
    ;
    assert(0 <= a && 0 <= b) by (nonlinear_arith)
        requires
            a == gross * (1000 - fee_permille),
            b == gross * fee_permille,
            fee_permille <= 1000,
    ;
    assert(a == 1000 * (a / 1000) + a % 1000 && 0 <= a % 1000 < 1000);
    assert(b == 1000 * (b / 1000) + b % 1000 && 0 <= b % 1000 < 1000);
}

/// Splits the value of `fill` slots at `price` into the vault's share and
/// the fee. Each share is rounded down on its own.
pub fn split(fill: u64, price: u64, fee_permille: u64) -> (shares: Split)
    requires
        fee_permille <= 1000,
        gross_of(fill as nat, price as nat) <= u64::MAX,
    ensures
        shares.vault_share == vault_share_of(gross_of(fill as nat, price as nat), fee_permille as nat),
        shares.fee_share == fee_share_of(gross_of(fill as nat, price as nat), fee_permille as nat),
        shares.vault_share + shares.fee_share <= gross_of(fill as nat, price as nat),
{
    proof {
        lemma_shares_within_gross(gross_of(fill as nat, price as nat), fee_permille as nat);
    }
    let gross: u128 = (fill as u128) * (price as u128);
    let keep: u128 = (PERMILLE - fee_permille) as u128;
    let fee: u128 = fee_permille as u128;
    assert(gross * keep <= u128::MAX && gross * fee <= u128::MAX) by (nonlinear_arith)
        requires
            gross <= u64::MAX,
            keep <= 1000,
            fee <= 1000,
    ;
    let vault_share: u128 = gross * keep / (PERMILLE as u128);
    let fee_share: u128 = gross * fee / (PERMILLE as u128);
    Split { vault_share: vault_share as u64, fee_share: fee_share as u64 }
}

} // verus!
