use vstd::prelude::*;

use crate::error::RwaHubError;

verus! {

/// Fees are counted in thousandths of the amount they are taken from.
pub const FEE_DENOMINATOR: u64 = 1000;

/// The largest fee rate: the whole amount.
pub const MAX_FEE_BPS: u16 = 1000;

/// The platform's rate on purchases unless an asset sets another (3.5%).
pub const DEFAULT_PLATFORM_FEE_BPS: u16 = 35;

/// The fee on `total` at `fee_bps` thousandths, rounded down.
pub open spec fn fee_of(total: int, fee_bps: int) -> int {
    total * fee_bps / FEE_DENOMINATOR as int
}

/// An amount split between the platform's fee and what the payee receives.
#[derive(Clone, Copy, Debug, PartialEq, Eq, Structural)]
pub struct FeeSplit {
    pub total: u64,
    pub fee: u64,
    pub net: u64,
}

pub open spec fn spec_split_fee(total: u64, fee_bps: u16) -> Result<FeeSplit, RwaHubError> {
    if fee_bps > MAX_FEE_BPS {
        Err(RwaHubError::InvalidFeeAmount)
    } else if total * fee_bps > u64::MAX {
        Err(RwaHubError::ArithmeticOverflow)
    } else {
        Ok(
            FeeSplit {
                total,
                fee: fee_of(total as int, fee_bps as int) as u64,
                net: (total - fee_of(total as int, fee_bps as int)) as u64,
            },
        )
    }
}

pub proof fn lemma_fee_at_most_total(total: u64, fee_bps: u16)
    requires
        fee_bps <= MAX_FEE_BPS,
    ensures
        0 <= fee_of(total as int, fee_bps as int) <= total,
{
    let t = total as int;
    let b = fee_bps as int;
    assert(0 <= t * b <= t * 1000) by (nonlinear_arith)
        requires
            0 <= t,
            0 <= b <= 1000,
    ;
    assert(0 <= (t * b) / 1000 <= t) by (nonlinear_arith)
        requires
            0 <= t * b <= t * 1000,
    ;
}

/// Splits `total` into the fee at `fee_bps` thousandths (rounded down) and
/// the rest. Fails on a rate above the whole amount, and where `total *
/// fee_bps` does not fit in 64 bits.
pub fn split_fee(total: u64, fee_bps: u16) -> (r: Result<FeeSplit, RwaHubError>)
    ensures
        r == spec_split_fee(total, fee_bps),
        r is Ok ==> r->Ok_0.fee + r->Ok_0.net == total,
{
    if fee_bps > MAX_FEE_BPS {
        return Err(RwaHubError::InvalidFeeAmount);
    }
    let scaled = match total.checked_mul(fee_bps as u64) {
        Some(v) => v,
        None => {
            return Err(RwaHubError::ArithmeticOverflow);
        },
    };
    let fee = scaled / FEE_DENOMINATOR;
    proof {
        lemma_fee_at_most_total(total, fee_bps);
    }
    Ok(FeeSplit { total, fee, net: total - fee })
}

pub open spec fn spec_purchase_quote(amount: u64, price: u64, fee_bps: u16) -> Result<
    FeeSplit,
    RwaHubError,
> {
    if amount * price > u64::MAX {
        Err(RwaHubError::ArithmeticOverflow)
    } else {
        spec_split_fee((amount * price) as u64, fee_bps)
    }
}

/// What a buyer pays for `amount` units at `price` each, and how it splits
/// between the platform's fee and the seller's proceeds.
pub fn purchase_quote(amount: u64, price: u64, fee_bps: u16) -> (r: Result<FeeSplit, RwaHubError>)
    ensures
        r == spec_purchase_quote(amount, price, fee_bps),
        r is Ok ==> r->Ok_0.total == amount * price && r->Ok_0.fee + r->Ok_0.net == amount * price,
{
    match amount.checked_mul(price) {
        Some(total) => split_fee(total, fee_bps),
        None => Err(RwaHubError::ArithmeticOverflow),
    }
}

} // verus!
