use vstd::prelude::*;
use crate::escrow::MilestoneEscrow;
use crate::types::{
    DataKey, Effects, Error, Event, RatioSplit, SplitRefundAllocation, SplitRefundCalculatedEvent,
    BPS_SCALE,
};

verus! {

/// `total * numerator / denominator`, rounded to the nearest integer with
/// halves rounded up.
pub open spec fn round_nearest(total: int, numerator: int, denominator: int) -> int {
    (total * numerator + denominator / 2) / denominator
}

/// What `split_round_nearest` gives back for these arguments.
pub open spec fn split_round_nearest_result(total: i128, numerator: i128, denominator: i128) -> Result<
    RatioSplit,
    Error,
> {
    if total < 0 || numerator < 0 || denominator <= 0 || numerator > denominator {
        Err(Error::InvalidRatio)
    } else if total * numerator > i128::MAX {
        Err(Error::InvalidAmount)
    } else if total * numerator + denominator / 2 > i128::MAX {
        Err(Error::InvalidAmount)
    } else {
        let first = round_nearest(total as int, numerator as int, denominator as int);
        Ok(RatioSplit { first: first as i128, second: (total - first) as i128 })
    }
}

/// What `multisig_split_refund` gives back for these arguments.
pub open spec fn split_refund_result(total: i128, client_bps: u32, freelancer_bps: u32) -> Result<
    SplitRefundAllocation,
    Error,
> {
    if client_bps + freelancer_bps != BPS_SCALE {
        Err(Error::InvalidRatio)
    } else if total <= 0 {
        Err(Error::InvalidAmount)
    } else {
        match split_round_nearest_result(total, client_bps as i128, BPS_SCALE as i128) {
            Err(e) => Err(e),
            Ok(split) => Ok(
                SplitRefundAllocation {
                    client_refund: split.first,
                    freelancer_payout: split.second,
                    client_refund_bps: client_bps,
                    freelancer_payout_bps: freelancer_bps,
                },
            ),
        }
    }
}

/// With `0 <= numerator <= denominator`, rounding to the nearest stays
/// within `0..=total`.
pub proof fn lemma_round_nearest_bounds(total: int, numerator: int, denominator: int)
    requires
        total >= 0,
        0 <= numerator <= denominator,
        denominator > 0,
    ensures
        0 <= total * numerator <= total * denominator,
        0 <= round_nearest(total, numerator, denominator) <= total,
{
    assert(0 <= total * numerator <= total * denominator) by (nonlinear_arith)
        requires
            total >= 0,
            0 <= numerator <= denominator,
    ;
    let x = total * numerator + denominator / 2;
    assert(0 <= x < (total + 1) * denominator) by (nonlinear_arith)
        requires
            x == total * numerator + denominator / 2,
            0 <= total * numerator <= total * denominator,
            denominator > 0,
    ;
    assert(0 <= x / denominator <= total) by (nonlinear_arith)
        requires
            0 <= x < (total + 1) * denominator,
            denominator > 0,
    ;
}

impl MilestoneEscrow {
    /// Adds a positive milestone amount to a running total.
    /// Fails with `InvalidAmount` when `amount` is not positive or the sum
    /// does not fit in an `i128`.
    pub fn checked_add_amount(total: i128, amount: i128) -> (r: Result<i128, Error>)
        ensures
            r == (if amount <= 0 || total + amount > i128::MAX {
                Err(Error::InvalidAmount)
            } else {
                Ok::<i128, Error>((total + amount) as i128)
            }),
    {
        if amount <= 0 {
            return Err(Error::InvalidAmount);
        }
        match total.checked_add(amount) {
            Some(v) => Ok(v),
            None => Err(Error::InvalidAmount),
        }
    }

    /// Accepts a fee allocation exactly when its three shares add up to
    /// `BPS_SCALE`; fails with `InvalidRatio` otherwise.
    pub fn validate_fee_allocation(client_bps: u32, freelancer_bps: u32, treasury_bps: u32) -> (r:
        Result<(), Error>)
        ensures
            r == (if client_bps + freelancer_bps + treasury_bps == BPS_SCALE {
                Ok::<(), Error>(())
            } else {
                Err(Error::InvalidRatio)
            }),
    {
        let partial = match client_bps.checked_add(freelancer_bps) {
            Some(v) => v,
            None => return Err(Error::InvalidRatio),
        };
        let total = match partial.checked_add(treasury_bps) {
            Some(v) => v,
            None => return Err(Error::InvalidRatio),
        };
        if total != BPS_SCALE {
            return Err(Error::InvalidRatio);
        }
        Ok(())
    }

    /// Splits `total` in the ratio `numerator / denominator`, the first part
    /// rounded to the nearest integer (halves up) and the second part the rest.
    pub fn split_round_nearest(total: i128, numerator: i128, denominator: i128) -> (r: Result<
        RatioSplit,
        Error,
    >)
        ensures
            r == split_round_nearest_result(total, numerator, denominator),
    {
        if total < 0 || numerator < 0 || denominator <= 0 || numerator > denominator {
            return Err(Error::InvalidRatio);
        }
        proof {
            lemma_round_nearest_bounds(total as int, numerator as int, denominator as int);
        }
        let scaled = match total.checked_mul(numerator) {
            Some(v) => v,
            None => return Err(Error::InvalidAmount),
        };
        let half = denominator / 2;
        let shifted = match scaled.checked_add(half) {
            Some(v) => v,
            None => return Err(Error::InvalidAmount),
        };
        let rounded = shifted / denominator;
        if rounded > total {
            return Err(Error::InvalidAmount);
        }
        let second = match total.checked_sub(rounded) {
            Some(v) => v,
            None => return Err(Error::InvalidAmount),
        };
        Ok(RatioSplit { first: rounded, second })
    }

    /// Splits a stream payment: the first part is `total * numerator /
    /// denominator` rounded to the nearest, the second part the rest.
    pub fn payment_streaming_milestones(total_amount: i128, numerator: i128, denominator: i128) -> (r:
        Result<RatioSplit, Error>)
        ensures
            r == split_round_nearest_result(total_amount, numerator, denominator),
    {
        Self::split_round_nearest(total_amount, numerator, denominator)
    }

    /// Splits a refund of `total_amount` between client and freelancer by
    /// basis points that must add up to `BPS_SCALE`; the client's part is
    /// rounded to the nearest (halves up) and the freelancer gets the rest.
    /// On success the split is also published as an event.
    pub fn multisig_split_refund(total_amount: i128, client_bps: u32, freelancer_bps: u32) -> (r:
        Result<(SplitRefundAllocation, Effects), Error>)
        ensures
            match split_refund_result(total_amount, client_bps, freelancer_bps) {
                Err(e) => r == Err::<(SplitRefundAllocation, Effects), Error>(e),
                Ok(a) => {
                    &&& r is Ok
                    &&& r->Ok_0.0 == a
                    &&& r->Ok_0.1.transfer is None
                    &&& r->Ok_0.1.writes@.len() == 0
                    &&& r->Ok_0.1.event == Some(
                        Event::SplitRefundCalculated(
                            SplitRefundCalculatedEvent {
                                client_refund: a.client_refund,
                                freelancer_payout: a.freelancer_payout,
                                client_refund_bps: a.client_refund_bps,
                                freelancer_payout_bps: a.freelancer_payout_bps,
                            },
                        ),
                    )
                },
            },
    {
        let bps_total = match client_bps.checked_add(freelancer_bps) {
            Some(v) => v,
            None => return Err(Error::InvalidRatio),
        };
        if bps_total != BPS_SCALE {
            return Err(Error::InvalidRatio);
        }
        if total_amount <= 0 {
            return Err(Error::InvalidAmount);
        }
        let split = Self::split_round_nearest(total_amount, client_bps as i128, BPS_SCALE as i128)?;
        let allocation = SplitRefundAllocation {
            client_refund: split.first,
            freelancer_payout: split.second,
            client_refund_bps: client_bps,
            freelancer_payout_bps: freelancer_bps,
        };
        let event = Event::SplitRefundCalculated(
            SplitRefundCalculatedEvent {
                client_refund: allocation.client_refund,
                freelancer_payout: allocation.freelancer_payout,
                client_refund_bps: client_bps,
                freelancer_payout_bps: freelancer_bps,
            },
        );
        let writes: Vec<DataKey> = Vec::new();
        Ok((allocation, Effects { transfer: None, writes, event: Some(event) }))
    }
}

} // verus!
