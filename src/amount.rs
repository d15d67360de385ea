use vstd::prelude::*;

verus! {

/// Why a fee deduction was refused: the fees would take more than the
/// amount (or, for a pull that pays two fees, all of it).
#[derive(Clone, Copy, Debug, PartialEq, Eq)]
pub struct FeeExceedsAmount {
    pub amount: u128,
    pub fee: u128,
    pub later_fee: u128,
}

/// What is left of `amount` once a transfer on one ledger has paid `fee` out
/// of it; refused where that would be negative.
pub fn net_after_fee(amount: u128, fee: u128) -> (r: Result<u128, FeeExceedsAmount>)
    ensures
        amount >= fee ==> r == Ok::<u128, FeeExceedsAmount>((amount - fee) as u128),
        amount < fee ==> r == Err::<u128, FeeExceedsAmount>(
            FeeExceedsAmount { amount, fee, later_fee: 0 },
        ),
{
    if amount >= fee {
        Ok(amount - fee)
    } else {
        Err(FeeExceedsAmount { amount, fee, later_fee: 0 })
    }
}

/// What a pull may take out of `amount` when this transfer pays `fee_a` and
/// the later transfer on the other ledger pays `fee_b`; refused unless
/// something is left after both.
pub fn net_after_two_leg_fees(amount: u128, fee_a: u128, fee_b: u128) -> (r: Result<
    u128,
    FeeExceedsAmount,
>)
    ensures
        amount > fee_a + fee_b ==> r == Ok::<u128, FeeExceedsAmount>(
            (amount - fee_a - fee_b) as u128,
        ),
        amount <= fee_a + fee_b ==> r == Err::<u128, FeeExceedsAmount>(
            FeeExceedsAmount { amount, fee: fee_a, later_fee: fee_b },
        ),
{
    if fee_a >= amount {
        return Err(FeeExceedsAmount { amount, fee: fee_a, later_fee: fee_b });
    }
    let rest: u128 = amount - fee_a;
    if fee_b >= rest {
        return Err(FeeExceedsAmount { amount, fee: fee_a, later_fee: fee_b });
    }
    Ok(rest - fee_b)
}

/// A pull that passes the two-fee check always leaves a positive amount, and
/// the fees plus what is left give back the amount.
pub proof fn lemma_two_leg_net_positive(amount: u128, fee_a: u128, fee_b: u128)
    requires
        amount > fee_a + fee_b,
    ensures
        amount - fee_a - fee_b > 0,
        (amount - fee_a - fee_b) + fee_a + fee_b == amount,
{
}

} // verus!
