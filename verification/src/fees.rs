//! Basis-point shares of an amount, in exact integer arithmetic.

use crate::error::NineLivesError;
use vstd::prelude::*;

verus! {

/// How many basis points make the whole.
pub const BPS_DENOMINATOR: u64 = 10_000;

/// `bps` basis points of `amount`, rounded down.
pub open spec fn share_of(amount: int, bps: int) -> int {
    (amount * bps) / (BPS_DENOMINATOR as int)
}

/// Whether the product that a share is taken from fits in 64 bits.
pub open spec fn share_fits(amount: int, bps: int) -> bool {
    amount * bps <= u64::MAX
}

/// The share as it is computed: the product is formed in 64 bits, and
/// where it does not fit the share is refused rather than wrapped.
pub open spec fn checked_share(amount: u64, bps: u16) -> Result<u64, NineLivesError> {
    if share_fits(amount as int, bps as int) {
        Ok(share_of(amount as int, bps as int) as u64)
    } else {
        Err(NineLivesError::MathOverflow)
    }
}

/// `bps` basis points of `amount`, rounded down, or `MathOverflow` where
/// `amount * bps` does not fit in 64 bits.
pub fn mul_bps(amount: u64, bps: u16) -> (share: Result<u64, NineLivesError>)
    ensures
        share == checked_share(amount, bps),
{
    match amount.checked_mul(bps as u64) {
        Some(product) => Ok(product / BPS_DENOMINATOR),
        None => Err(NineLivesError::MathOverflow),
    }
}

/// Rounding each fee share down on its own can lose one unit against the
/// share of the total: for rates with `founder_bps + marketing_bps ==
/// tax_bps` the two fee shares together are the tax share or one less, and
/// they are the tax share exactly where the two remainders together stay
/// under the denominator.
pub proof fn lemma_fee_shares_against_tax_share(
    amount: int,
    tax_bps: int,
    founder_bps: int,
    marketing_bps: int,
)
    requires
        0 <= amount,
        0 <= founder_bps,
        0 <= marketing_bps,
        founder_bps + marketing_bps == tax_bps,
    ensures
        share_of(amount, founder_bps) + share_of(amount, marketing_bps) <= share_of(
            amount,
            tax_bps,
        ) <= share_of(amount, founder_bps) + share_of(amount, marketing_bps) + 1,
        share_of(amount, founder_bps) + share_of(amount, marketing_bps) == share_of(amount, tax_bps)
            <==> (amount * founder_bps) % 10_000 + (amount * marketing_bps) % 10_000 < 10_000,
{
    let founder_part = amount * founder_bps;
    let marketing_part = amount * marketing_bps;
    assert(amount * tax_bps == founder_part + marketing_part) by (nonlinear_arith)
        requires
            founder_bps + marketing_bps == tax_bps,
            founder_part == amount * founder_bps,
            marketing_part == amount * marketing_bps,
    ;
    assert(0 <= founder_part && 0 <= marketing_part) by (nonlinear_arith)
        requires
            0 <= amount,
            0 <= founder_bps,
            0 <= marketing_bps,
            founder_part == amount * founder_bps,
            marketing_part == amount * marketing_bps,
    ;
}

/// The three legs of a taxed transfer.
#[derive(Clone, Copy, Debug, PartialEq, Eq, Structural)]
pub struct TaxSplit {
    /// What reaches the destination.
    pub net: u64,
    /// What goes to the founder.
    pub founder_fee: u64,
    /// What goes to marketing.
    pub marketing_fee: u64,
}

/// How `amount` is split at the given rates. Each share is rounded down on
/// its own. The split is refused where a product does not fit in 64 bits,
/// where the two fee shares do not add up to the share of the total tax,
/// and where the tax leaves nothing for the net leg, in that order.
pub open spec fn tax_split(amount: u64, tax_bps: u16, founder_bps: u16, marketing_bps: u16) -> Result<
    TaxSplit,
    NineLivesError,
> {
    let tax_total = share_of(amount as int, tax_bps as int);
    let founder_fee = share_of(amount as int, founder_bps as int);
    let marketing_fee = share_of(amount as int, marketing_bps as int);
    if !share_fits(amount as int, tax_bps as int) || !share_fits(amount as int, founder_bps as int)
        || !share_fits(amount as int, marketing_bps as int) {
        Err(NineLivesError::MathOverflow)
    } else if founder_fee + marketing_fee != tax_total {
        Err(NineLivesError::TaxSplitMismatch)
    } else if amount <= tax_total {
        Err(NineLivesError::InsufficientNetAmount)
    } else {
        Ok(
            TaxSplit {
                net: (amount - tax_total) as u64,
                founder_fee: founder_fee as u64,
                marketing_fee: marketing_fee as u64,
            },
        )
    }
}

/// A split gives all of the amount away and nothing else: the three legs
/// add up to the amount, the net leg is not empty, and the two fees are the
/// tax.
pub proof fn lemma_tax_split_conserves(
    amount: u64,
    tax_bps: u16,
    founder_bps: u16,
    marketing_bps: u16,
)
    requires
        tax_split(amount, tax_bps, founder_bps, marketing_bps) is Ok,
    ensures
        ({
            let split = tax_split(amount, tax_bps, founder_bps, marketing_bps)->Ok_0;
            &&& split.net + split.founder_fee + split.marketing_fee == amount
            &&& split.net > 0
            &&& split.founder_fee + split.marketing_fee == share_of(amount as int, tax_bps as int)
            &&& split.founder_fee == share_of(amount as int, founder_bps as int)
            &&& split.marketing_fee == share_of(amount as int, marketing_bps as int)
        }),
{
}

/// At the rates 300, 200 and 100, which every record is created with, the
/// split of an amount whose products fit in 64 bits depends on two
/// remainders alone. Where they reach the denominator together, the
/// founder's and the marketing share fall one short of the tax share and
/// the split is refused as a mismatch. Else the split succeeds, unless the
/// amount is zero.
pub proof fn lemma_default_split(amount: u64)
    requires
        amount * 300 <= u64::MAX,
    ensures
        (amount * 200) % 10_000 + (amount * 100) % 10_000 >= 10_000 ==> tax_split(
            amount,
            300,
            200,
            100,
        ) == Err::<TaxSplit, NineLivesError>(NineLivesError::TaxSplitMismatch),
        (amount * 200) % 10_000 + (amount * 100) % 10_000 < 10_000 && amount > 0 ==> tax_split(
            amount,
            300,
            200,
            100,
        ) == Ok::<TaxSplit, NineLivesError>(
            TaxSplit {
                net: (amount - amount * 300 / 10_000) as u64,
                founder_fee: (amount * 200 / 10_000) as u64,
                marketing_fee: (amount * 100 / 10_000) as u64,
            },
        ),
        amount % 100 == 0 ==> (amount * 200) % 10_000 + (amount * 100) % 10_000 < 10_000,
{
    lemma_fee_shares_against_tax_share(amount as int, 300, 200, 100);
}

/// Splits `amount` into the net leg and the two fee legs at the given
/// rates.
pub fn split_tax(amount: u64, tax_bps: u16, founder_bps: u16, marketing_bps: u16) -> (split: Result<
    TaxSplit,
    NineLivesError,
>)
    ensures
        split == tax_split(amount, tax_bps, founder_bps, marketing_bps),
{
    let tax_total = match mul_bps(amount, tax_bps) {
        Ok(share) => share,
        Err(e) => {
            return Err(e);
        },
    };
    let founder_fee = match mul_bps(amount, founder_bps) {
        Ok(share) => share,
        Err(e) => {
            return Err(e);
        },
    };
    let marketing_fee = match mul_bps(amount, marketing_bps) {
        Ok(share) => share,
        Err(e) => {
            return Err(e);
        },
    };
    if founder_fee + marketing_fee != tax_total {
        return Err(NineLivesError::TaxSplitMismatch);
    }
    if amount <= tax_total {
        return Err(NineLivesError::InsufficientNetAmount);
    }
    Ok(TaxSplit { net: amount - tax_total, founder_fee, marketing_fee })
}

} // verus!
