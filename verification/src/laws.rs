use vstd::prelude::*;
use crate::address::Address;
use crate::allocation::{ints, sum, ratio_split_error, lemma_sum_take_step, lemma_sum_update};
use crate::arith::{split_round_nearest_result, split_refund_result, lemma_round_nearest_bounds};
use crate::escrow::{MilestoneEscrow, held, held_slot};
use crate::types::{Error, Ledger, Milestone, MilestoneStatus};
use crate::workflow::{
    all_positive, pending, delivered, partially_approved, disputed, refunded, resolved,
    released_in_full,
};
use crate::escrow::{milestone_wf, releasable};
use crate::allocation::{
    all_nonneg, bases, remainders, shortfall, largest_remainder, before_pred, rank,
    lemma_count_ext,
};

verus! {

/// A nearest-rounded split adds up to the total, both parts are
/// non-negative, and the first part is `total * numerator / denominator`
/// rounded to the nearest integer (halves up).
pub proof fn law_split_round_nearest(total: i128, numerator: i128, denominator: i128)
    requires
        split_round_nearest_result(total, numerator, denominator) is Ok,
    ensures
        ({
            let s = split_round_nearest_result(total, numerator, denominator)->Ok_0;
            &&& s.first + s.second == total
            &&& 0 <= s.first <= total
            &&& 0 <= s.second
            &&& s.first * denominator <= total * numerator + denominator / 2 < (s.first + 1)
                * denominator
        }),
{
    let t = total as int;
    let n = numerator as int;
    let d = denominator as int;
    lemma_round_nearest_bounds(t, n, d);
    let x = t * n + d / 2;
    let q = x / d;
    assert(q * d <= x < (q + 1) * d) by (nonlinear_arith)
        requires
            d > 0,
            q == x / d,
            x >= 0,
    ;
}

/// A refund split gives the client and the freelancer non-negative parts
/// that add up to the refunded total.
pub proof fn law_split_refund_preserves_total(total: i128, client_bps: u32, freelancer_bps: u32)
    requires
        split_refund_result(total, client_bps, freelancer_bps) is Ok,
    ensures
        ({
            let a = split_refund_result(total, client_bps, freelancer_bps)->Ok_0;
            &&& a.client_refund + a.freelancer_payout == total
            &&& a.client_refund >= 0
            &&& a.freelancer_payout >= 0
        }),
{
    law_split_round_nearest(total, client_bps as i128, 10000);
}

/// While the emergency pause is on, every operation on the job's milestones
/// is refused with `Paused`.
pub proof fn law_pause_blocks_milestone_operations(
    s: MilestoneEscrow,
    ledger: Ledger,
    caller: Address,
    milestone_index: u32,
    amount: i128,
)
    requires
        s.emergency_paused,
    ensures
        s.fund_error(ledger, caller) == Some(Error::Paused),
        s.mark_delivered_error(caller, milestone_index) == Some(Error::Paused),
        s.claim_auto_release_error(ledger, caller, milestone_index) == Some(Error::Paused),
        s.approve_partial_error(caller, milestone_index, amount) == Some(Error::Paused),
        s.approve_milestone_error(caller, milestone_index) == Some(Error::Paused),
        s.raise_dispute_error(caller, milestone_index) == Some(Error::Paused),
        s.resolve_dispute_error(caller, milestone_index) == Some(Error::Paused),
{
}

/// A released or refunded milestone is settled for good: no party, not even
/// the administrator, can change it any more.
pub proof fn law_settled_milestone_is_final(
    s: MilestoneEscrow,
    ledger: Ledger,
    caller: Address,
    milestone_index: u32,
    amount: i128,
)
    requires
        s.slot(milestone_index) is Some,
        s.milestone(milestone_index).status == MilestoneStatus::Released || s.milestone(
            milestone_index,
        ).status == MilestoneStatus::Refunded,
    ensures
        s.mark_delivered_error(caller, milestone_index) is Some,
        s.claim_auto_release_error(ledger, caller, milestone_index) is Some,
        s.approve_partial_error(caller, milestone_index, amount) is Some,
        s.approve_milestone_error(caller, milestone_index) is Some,
        s.raise_dispute_error(caller, milestone_index) is Some,
        s.resolve_dispute_error(caller, milestone_index) is Some,
        s.override_error(caller, milestone_index) is Some,
{
}

/// A funded job cannot be funded again.
pub proof fn law_fund_at_most_once(s: MilestoneEscrow, ledger: Ledger, client: Address)
    requires
        s.job is Some,
        s.meta().funded,
    ensures
        s.fund_error(ledger, client) is Some,
{
}

/// A job cannot be set up twice.
pub proof fn law_initialize_at_most_once(s: MilestoneEscrow, milestone_amounts: Seq<i128>)
    requires
        s.job is Some,
    ensures
        s.initialize_error(milestone_amounts) == Some(Error::AlreadyInitialized),
{
}

/// Only the job's client may approve payouts, only its freelancer may mark
/// delivery or claim an auto-release, only its client or freelancer may
/// raise a dispute, and only its arbiter may resolve one.
pub proof fn law_only_parties_act(
    s: MilestoneEscrow,
    ledger: Ledger,
    caller: Address,
    milestone_index: u32,
    amount: i128,
)
    requires
        !s.emergency_paused,
        s.job is Some,
        caller@ != crate::address::zero_account_strkey(),
        caller@ != crate::address::zero_contract_strkey(),
    ensures
        caller@ != s.meta().client@ ==> s.approve_partial_error(caller, milestone_index, amount)
            == Some(Error::Unauthorized),
        caller@ != s.meta().client@ ==> s.approve_milestone_error(caller, milestone_index) == Some(
            Error::Unauthorized,
        ),
        caller@ != s.meta().freelancer@ ==> s.mark_delivered_error(caller, milestone_index)
            == Some(Error::Unauthorized),
        caller@ != s.meta().freelancer@ ==> s.claim_auto_release_error(
            ledger,
            caller,
            milestone_index,
        ) == Some(Error::Unauthorized),
        caller@ != s.meta().client@ && caller@ != s.meta().freelancer@ ==> s.raise_dispute_error(
            caller,
            milestone_index,
        ) == Some(Error::Unauthorized),
        caller@ != s.meta().arbiter@ ==> s.resolve_dispute_error(caller, milestone_index) == Some(
            Error::Unauthorized,
        ),
{
}

/// A locked fee allocation refuses ordinary changes.
pub proof fn law_locked_fee_refuses_changes(
    s: MilestoneEscrow,
    admin: Address,
    client_bps: u32,
    freelancer_bps: u32,
    treasury_bps: u32,
)
    requires
        s.fee_allocation is Some,
        s.fee_allocation->Some_0.locked,
    ensures
        s.set_fee_error(admin, client_bps, freelancer_bps, treasury_bps) is Some,
{
}

/// When the stored milestones are those that `initialize` writes, the running
/// total over them is the sum of the amounts.
pub proof fn lemma_initial_total(s: MilestoneEscrow, amounts: Seq<i128>, n: nat)
    requires
        n <= amounts.len(),
        amounts.len() <= u32::MAX,
        all_positive(ints(amounts)),
        sum(ints(amounts)) <= i128::MAX,
        s.milestones@.len() >= amounts.len(),
        forall|i: int| 0 <= i < amounts.len() ==> #[trigger] s.milestones@[i] == Some(
            pending(amounts[i]),
        ),
    ensures
        s.checked_total(n) == Ok::<int, Error>(sum(ints(amounts).take(n as int))),
    decreases n,
{
    if n > 0 {
        lemma_initial_total(s, amounts, (n - 1) as nat);
        lemma_sum_take_step(ints(amounts), n - 1);
        crate::workflow::lemma_positive_prefix_le(ints(amounts), n as int);
        assert(s.slot((n - 1) as u32) == Some(pending(amounts[n - 1])));
    }
}

/// A freshly set-up job can be funded by its client, and funding collects
/// exactly the sum of the milestone amounts.
pub proof fn law_new_job_can_be_funded(
    s: MilestoneEscrow,
    ledger: Ledger,
    amounts: Seq<i128>,
    client: Address,
)
    requires
        !s.emergency_paused,
        client@ != ledger.contract_address@,
        amounts.len() <= u32::MAX,
        all_positive(ints(amounts)),
        sum(ints(amounts)) <= i128::MAX,
        s.milestones@.len() >= amounts.len(),
        forall|i: int| 0 <= i < amounts.len() ==> #[trigger] s.milestones@[i] == Some(
            pending(amounts[i]),
        ),
        s.job is Some,
        s.meta().client@ == client@,
        !s.meta().funded,
        s.meta().milestone_count == amounts.len(),
        s.meta().total_amount == sum(ints(amounts)),
    ensures
        s.fund_error(ledger, client) is None,
        s.job_total_result(s.meta()) == Ok::<i128, Error>(sum(ints(amounts)) as i128),
{
    lemma_initial_total(s, amounts, amounts.len());
    assert(ints(amounts).take(amounts.len() as int) =~= ints(amounts));
}

/// When one milestone changes, what the escrow holds changes by exactly what
/// that milestone's holding changed by. With the per-milestone accounting of
/// every entry point (the holding drops by what is transferred out), the
/// escrow's holdings drop by exactly what it pays out.
pub proof fn law_holdings_track_payouts(
    pre: MilestoneEscrow,
    post: MilestoneEscrow,
    index: u32,
    m: Milestone,
)
    requires
        index < pre.milestones@.len(),
        post.replaced_milestone(pre, index, m),
    ensures
        post.holdings() == pre.holdings() - held_slot(pre.milestones@[index as int]) + held(m),
{
    let a = Seq::new(pre.milestones@.len(), |i: int| held_slot(pre.milestones@[i]));
    let b = Seq::new(post.milestones@.len(), |i: int| held_slot(post.milestones@[i]));
    assert(b =~= a.update(index as int, held(m)));
    lemma_sum_update(a, index as int, held(m));
}

/// Right after a job is set up on an empty escrow, the escrow accounts for
/// exactly the sum of the milestone amounts, which is what funding collects.
pub proof fn law_initial_holdings(s: MilestoneEscrow, amounts: Seq<i128>)
    requires
        s.milestones@.len() == amounts.len(),
        forall|i: int| 0 <= i < amounts.len() ==> #[trigger] s.milestones@[i] == Some(
            pending(amounts[i]),
        ),
    ensures
        s.holdings() == sum(ints(amounts)),
{
    let a = Seq::new(s.milestones@.len(), |i: int| held_slot(s.milestones@[i]));
    assert(a =~= ints(amounts));
}

/// A delivered milestone cannot be auto-released before its deadline
/// (delivery time plus the auto-release delay).
pub proof fn law_no_auto_release_before_deadline(
    s: MilestoneEscrow,
    ledger: Ledger,
    freelancer: Address,
    milestone_index: u32,
)
    requires
        s.claim_reaches_deadline(freelancer, milestone_index),
        ledger.timestamp < s.deadline(milestone_index),
    ensures
        s.claim_auto_release_error(ledger, freelancer, milestone_index) == Some(
            Error::DeadlineNotPassed,
        ),
{
}

/// Every change an entry point makes to a milestone keeps the milestone
/// invariant (a positive amount, payouts within it and consistent with the
/// status, not paid in full while disputed or once refunded) and never
/// changes the amount. Together with `lemma_replaced_keeps_wf`, this is why
/// each entry point's `old(self).wf() ==> final(self).wf()` holds.
pub proof fn law_milestone_transitions_keep_invariant(
    m: Milestone,
    at: u64,
    amount: i128,
    release_to_freelancer: bool,
)
    requires
        milestone_wf(m),
    ensures
        m.status == MilestoneStatus::Pending ==> milestone_wf(delivered(m, at)) && delivered(
            m,
            at,
        ).amount == m.amount,
        releasable(m.status) && 0 < amount <= m.amount - m.released_amount ==> milestone_wf(
            partially_approved(m, amount),
        ) && partially_approved(m, amount).amount == m.amount,
        m.status != MilestoneStatus::Refunded ==> milestone_wf(released_in_full(m))
            && released_in_full(m).amount == m.amount,
        (m.status == MilestoneStatus::Pending || m.status == MilestoneStatus::Delivered || m.status
            == MilestoneStatus::PartiallyReleased) ==> milestone_wf(disputed(m)) && disputed(
            m,
        ).amount == m.amount,
        m.status == MilestoneStatus::Disputed ==> milestone_wf(
            resolved(m, release_to_freelancer),
        ) && resolved(m, release_to_freelancer).amount == m.amount,
        m.status != MilestoneStatus::Released ==> milestone_wf(refunded(m)) && refunded(m).amount
            == m.amount,
{
}

/// Every ratio multiplied by `k`.
pub open spec fn scaled(rs: Seq<int>, k: int) -> Seq<int> {
    Seq::new(rs.len(), |i: int| rs[i] * k)
}

proof fn lemma_sum_scaled(rs: Seq<int>, k: int)
    ensures
        sum(scaled(rs, k)) == sum(rs) * k,
    decreases rs.len(),
{
    if rs.len() > 0 {
        assert(scaled(rs, k).drop_last() =~= scaled(rs.drop_last(), k));
        lemma_sum_scaled(rs.drop_last(), k);
        assert((sum(rs.drop_last()) + rs.last()) * k == sum(rs.drop_last()) * k + rs.last() * k)
            by (nonlinear_arith);
    }
}

/// Scaling dividend and divisor by the same positive factor keeps the
/// quotient and scales the remainder.
proof fn lemma_div_mod_scaled(a: int, b: int, k: int)
    requires
        a >= 0,
        b > 0,
        k > 0,
    ensures
        (a * k) / (b * k) == a / b,
        (a * k) % (b * k) == (a % b) * k,
{
    let q = a / b;
    let r = a % b;
    assert(a == q * b + r && 0 <= r < b) by (nonlinear_arith)
        requires
            b > 0,
            q == a / b,
            r == a % b,
    ;
    assert(a * k == q * (b * k) + r * k && 0 <= r * k < b * k && b * k != 0) by (nonlinear_arith)
        requires
            a == q * b + r,
            0 <= r < b,
            k > 0,
    ;
    vstd::arithmetic::div_mod::lemma_fundamental_div_mod_converse(a * k, b * k, q, r * k);
}

/// Multiplying every ratio by the same positive factor leaves the
/// largest-remainder split unchanged.
pub proof fn law_allocation_ignores_ratio_scale(total: int, rs: Seq<int>, k: int)
    requires
        total >= 0,
        k > 0,
        all_nonneg(rs),
        sum(rs) > 0,
    ensures
        largest_remainder(total, scaled(rs, k)) == largest_remainder(total, rs),
{
    let srs = scaled(rs, k);
    lemma_sum_scaled(rs, k);
    let n = rs.len() as int;
    assert forall|i: int| 0 <= i < n implies bases(total, srs)[i] == bases(total, rs)[i]
        && remainders(total, srs)[i] == remainders(total, rs)[i] * k by {
        assert(total * rs[i] >= 0) by (nonlinear_arith)
            requires
                total >= 0,
                rs[i] >= 0,
        ;
        assert(total * (rs[i] * k) == (total * rs[i]) * k) by (nonlinear_arith);
        lemma_div_mod_scaled(total * rs[i], sum(rs), k);
    }
    assert(bases(total, srs) =~= bases(total, rs));
    assert(shortfall(total, srs) == shortfall(total, rs));
    let r1 = remainders(total, rs);
    let r2 = remainders(total, srs);
    assert forall|i: int| 0 <= i < n implies rank(r2, i) == rank(r1, i) by {
        assert forall|j: int| 0 <= j < n implies (#[trigger] before_pred(r2, i)(j) <==> before_pred(
            r1,
            i,
        )(j)) by {
            assert(r2[j] == r1[j] * k && r2[i] == r1[i] * k);
            assert((r1[j] * k > r1[i] * k) == (r1[j] > r1[i])) by (nonlinear_arith)
                requires
                    k > 0,
            ;
            assert((r1[j] * k == r1[i] * k) == (r1[j] == r1[i])) by (nonlinear_arith)
                requires
                    k > 0,
            ;
        }
        lemma_count_ext(before_pred(r2, i), before_pred(r1, i), n);
    }
    assert(largest_remainder(total, srs) =~= largest_remainder(total, rs));
}

/// The largest-remainder split accepts every total and ratio list that fits:
/// a non-negative total, a non-empty list of non-negative ratios with a
/// positive sum that fits in an `i128`, and no `total * ratio` overflow.
/// Each share is then its rounded-down part or one more.
pub proof fn law_ratio_split_accepts_fitting_inputs(total: i128, ratios: Seq<i128>)
    requires
        total >= 0,
        ratios.len() > 0,
        forall|i: int| 0 <= i < ratios.len() ==> ratios[i] >= 0,
        0 < sum(ints(ratios)) <= i128::MAX,
        forall|i: int| 0 <= i < ratios.len() ==> total * ratios[i] <= i128::MAX,
    ensures
        ratio_split_error(total, ratios) is None,
        forall|i: int|
            0 <= i < ratios.len() ==> (total * ratios[i]) / sum(ints(ratios))
                <= #[trigger] largest_remainder(total as int, ints(ratios))[i] <= (total
                * ratios[i]) / sum(ints(ratios)) + 1,
{
}

/// On an unpaused, funded job, the client may pay out any positive amount up
/// to the unpaid rest of a delivered or partly released milestone; paying
/// exactly the unpaid rest releases the milestone.
pub proof fn law_partial_approval_accepts_up_to_unpaid(
    s: MilestoneEscrow,
    client: Address,
    milestone_index: u32,
    amount: i128,
)
    requires
        !s.emergency_paused,
        s.job is Some,
        s.meta().client@ == client@,
        s.meta().funded,
        milestone_index < s.meta().milestone_count,
        s.slot(milestone_index) is Some,
        s.milestone(milestone_index).status == MilestoneStatus::Delivered || s.milestone(
            milestone_index,
        ).status == MilestoneStatus::PartiallyReleased,
        0 < amount <= s.milestone(milestone_index).amount - s.milestone(
            milestone_index,
        ).released_amount <= i128::MAX,
    ensures
        s.approve_partial_error(client, milestone_index, amount) is None,
        ({
            let m = s.milestone(milestone_index);
            let m2 = partially_approved(m, amount);
            &&& m2.released_amount == m.released_amount + amount
            &&& m2.amount == m.amount
            &&& (amount == m.amount - m.released_amount) == (m2.status == MilestoneStatus::Released)
            &&& amount < m.amount - m.released_amount ==> m2.status
                == MilestoneStatus::PartiallyReleased
        }),
{
}

/// The arbiter's decision settles a disputed milestone: a refund marks it
/// refunded and leaves what was paid out as it was; a release marks it
/// released with all of it paid out.
pub proof fn law_resolution_outcomes(m: Milestone)
    requires
        m.status == MilestoneStatus::Disputed,
    ensures
        resolved(m, false).status == MilestoneStatus::Refunded,
        resolved(m, false).released_amount == m.released_amount,
        resolved(m, false).amount == m.amount,
        resolved(m, true).status == MilestoneStatus::Released,
        resolved(m, true).amount == m.amount,
        m.amount - m.released_amount > 0 ==> resolved(m, true).released_amount == m.amount,
{
}

/// Once the auto-release delay has passed since delivery, the freelancer can
/// claim a delivered milestone with something still unpaid, at any later
/// time.
pub proof fn law_auto_release_open_after_deadline(
    s: MilestoneEscrow,
    ledger: Ledger,
    freelancer: Address,
    milestone_index: u32,
)
    requires
        !s.emergency_paused,
        s.job is Some,
        s.meta().freelancer@ == freelancer@,
        milestone_index < s.meta().milestone_count,
        s.slot(milestone_index) is Some,
        s.milestone(milestone_index).status == MilestoneStatus::Delivered,
        s.meta().auto_release_seconds != 0,
        ledger.timestamp >= s.milestone(milestone_index).delivered_at
            + s.meta().auto_release_seconds,
        s.milestone(milestone_index).amount - s.milestone(milestone_index).released_amount > 0,
    ensures
        s.claim_auto_release_error(ledger, freelancer, milestone_index) is None,
{
}

/// On an unpaused job, the client or the freelancer can put any stored
/// milestone that is pending, delivered or partly released in dispute.
pub proof fn law_dispute_open_to_parties(s: MilestoneEscrow, caller: Address, milestone_index: u32)
    requires
        !s.emergency_paused,
        s.job is Some,
        s.meta().client@ == caller@ || s.meta().freelancer@ == caller@,
        s.slot(milestone_index) is Some,
        s.milestone(milestone_index).status == MilestoneStatus::Pending || s.milestone(
            milestone_index,
        ).status == MilestoneStatus::Delivered || s.milestone(milestone_index).status
            == MilestoneStatus::PartiallyReleased,
    ensures
        s.raise_dispute_error(caller, milestone_index) is None,
        disputed(s.milestone(milestone_index)).status == MilestoneStatus::Disputed,
{
}

/// Whether a dispute may be raised does not depend on the dispute flags
/// already set.
pub proof fn law_dispute_ignores_flags(
    s: MilestoneEscrow,
    t: MilestoneEscrow,
    caller: Address,
    milestone_index: u32,
)
    requires
        s.same_settings(t),
        s.milestones == t.milestones,
    ensures
        s.raise_dispute_error(caller, milestone_index) == t.raise_dispute_error(
            caller,
            milestone_index,
        ),
{
}

} // verus!
