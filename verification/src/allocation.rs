use vstd::prelude::*;
use crate::escrow::MilestoneEscrow;
use crate::types::Error;

verus! {

/// The values of a sequence of `i128` as mathematical integers.
pub open spec fn ints(s: Seq<i128>) -> Seq<int> {
    Seq::new(s.len(), |i: int| s[i] as int)
}

/// The sum of a sequence of integers.
pub open spec fn sum(s: Seq<int>) -> int
    decreases s.len(),
{
    if s.len() == 0 {
        0
    } else {
        sum(s.drop_last()) + s.last()
    }
}

/// No element is negative.
pub open spec fn all_nonneg(s: Seq<int>) -> bool {
    forall|i: int| 0 <= i < s.len() ==> s[i] >= 0
}

/// How many of `0..n` satisfy `p`.
pub open spec fn count(p: spec_fn(int) -> bool, n: int) -> nat
    decreases n,
{
    if n <= 0 {
        0
    } else {
        count(p, n - 1) + if p(n - 1) {
            1nat
        } else {
            0nat
        }
    }
}

/// Index `j` comes before index `i` when its remainder is larger, or equal
/// with a smaller index.
pub open spec fn before(rems: Seq<int>, j: int, i: int) -> bool {
    rems[j] > rems[i] || (rems[j] == rems[i] && j < i)
}

/// The indices that come before `i`.
pub open spec fn before_pred(rems: Seq<int>, i: int) -> spec_fn(int) -> bool {
    |j: int| before(rems, j, i)
}

/// The position of index `i` when the indices are ordered by remainder,
/// largest first, ties by index.
pub open spec fn rank(rems: Seq<int>, i: int) -> nat {
    count(before_pred(rems, i), rems.len() as int)
}

/// The indices whose rank is below `t`.
pub open spec fn rank_below(rems: Seq<int>, t: int) -> spec_fn(int) -> bool {
    |j: int| rank(rems, j) < t
}

/// Each share's weight `total * ratio`.
pub open spec fn weights(total: int, rs: Seq<int>) -> Seq<int> {
    Seq::new(rs.len(), |i: int| total * rs[i])
}

/// Each share rounded down: `total * ratio / sum(ratios)`.
pub open spec fn bases(total: int, rs: Seq<int>) -> Seq<int> {
    Seq::new(rs.len(), |i: int| (total * rs[i]) / sum(rs))
}

/// What rounding down left of each share: `total * ratio % sum(ratios)`.
pub open spec fn remainders(total: int, rs: Seq<int>) -> Seq<int> {
    Seq::new(rs.len(), |i: int| (total * rs[i]) % sum(rs))
}

/// How many units the rounded-down shares fall short of `total`.
pub open spec fn shortfall(total: int, rs: Seq<int>) -> int {
    total - sum(bases(total, rs))
}

/// The largest-remainder split of `total` by `rs`: every share rounded down,
/// then one more unit to each of the `shortfall` shares with the largest
/// remainders (ties to the lower index).
pub open spec fn largest_remainder(total: int, rs: Seq<int>) -> Seq<int> {
    Seq::new(
        rs.len(),
        |i: int|
            bases(total, rs)[i] + if rank(remainders(total, rs), i) < shortfall(total, rs) {
                1int
            } else {
                0int
            },
    )
}

/// The error `multisig_transfer_admin` gives for these arguments, if any.
pub open spec fn ratio_split_error(total: i128, ratios: Seq<i128>) -> Option<Error> {
    let rs = ints(ratios);
    if total < 0 || ratios.len() == 0 || !all_nonneg(rs) || sum(rs) > i128::MAX || sum(rs) <= 0 {
        Some(Error::InvalidRatio)
    } else if exists|i: int| 0 <= i < ratios.len() && total * ratios[i] > i128::MAX {
        Some(Error::InvalidAmount)
    } else {
        None
    }
}

pub proof fn lemma_sum_take_step(s: Seq<int>, i: int)
    requires
        0 <= i < s.len(),
    ensures
        sum(s.take(i + 1)) == sum(s.take(i)) + s[i],
{
    assert(s.take(i + 1).drop_last() =~= s.take(i));
}

pub proof fn lemma_sum_push(s: Seq<int>, x: int)
    ensures
        sum(s.push(x)) == sum(s) + x,
{
    assert(s.push(x).drop_last() =~= s);
}

pub proof fn lemma_sum_take_le(s: Seq<int>, i: int)
    requires
        all_nonneg(s),
        0 <= i <= s.len(),
    ensures
        sum(s.take(i)) <= sum(s),
    decreases s.len() - i,
{
    if i < s.len() {
        lemma_sum_take_step(s, i);
        lemma_sum_take_le(s, i + 1);
    } else {
        assert(s.take(i) =~= s);
    }
}

pub proof fn lemma_sum_nonneg(s: Seq<int>)
    requires
        all_nonneg(s),
    ensures
        sum(s) >= 0,
    decreases s.len(),
{
    if s.len() > 0 {
        lemma_sum_nonneg(s.drop_last());
    }
}

pub proof fn lemma_elem_le_sum(s: Seq<int>, i: int)
    requires
        all_nonneg(s),
        0 <= i < s.len(),
    ensures
        s[i] <= sum(s),
    decreases s.len(),
{
    if i < s.len() - 1 {
        lemma_elem_le_sum(s.drop_last(), i);
    } else {
        lemma_sum_nonneg(s.drop_last());
    }
}

pub proof fn lemma_sum_update(s: Seq<int>, i: int, v: int)
    requires
        0 <= i < s.len(),
    ensures
        sum(s.update(i, v)) == sum(s) - s[i] + v,
    decreases s.len(),
{
    if i < s.len() - 1 {
        assert(s.update(i, v).drop_last() =~= s.drop_last().update(i, v));
        lemma_sum_update(s.drop_last(), i, v);
    } else {
        assert(s.update(i, v).drop_last() =~= s.drop_last());
    }
}

pub proof fn lemma_count_mono(p: spec_fn(int) -> bool, q: spec_fn(int) -> bool, n: int)
    requires
        forall|x: int| 0 <= x < n && #[trigger] p(x) ==> q(x),
    ensures
        count(p, n) <= count(q, n),
    decreases n,
{
    if n > 0 {
        lemma_count_mono(p, q, n - 1);
    }
}

pub proof fn lemma_count_strict(p: spec_fn(int) -> bool, q: spec_fn(int) -> bool, n: int, w: int)
    requires
        forall|x: int| 0 <= x < n && #[trigger] p(x) ==> q(x),
        0 <= w < n,
        q(w),
        !p(w),
    ensures
        count(p, n) < count(q, n),
    decreases n,
{
    if w == n - 1 {
        lemma_count_mono(p, q, n - 1);
    } else {
        lemma_count_strict(p, q, n - 1, w);
    }
}

pub proof fn lemma_count_ext(p: spec_fn(int) -> bool, q: spec_fn(int) -> bool, n: int)
    requires
        forall|x: int| 0 <= x < n ==> (#[trigger] p(x) <==> q(x)),
    ensures
        count(p, n) == count(q, n),
{
    lemma_count_mono(p, q, n);
    lemma_count_mono(q, p, n);
}

pub proof fn lemma_count_add_one(p: spec_fn(int) -> bool, q: spec_fn(int) -> bool, n: int, w: int)
    requires
        forall|x: int| 0 <= x < n ==> (#[trigger] q(x) <==> (p(x) || x == w)),
        0 <= w < n,
        !p(w),
    ensures
        count(q, n) == count(p, n) + 1,
    decreases n,
{
    if w == n - 1 {
        lemma_count_ext(p, q, n - 1);
    } else {
        lemma_count_add_one(p, q, n - 1, w);
    }
}

pub proof fn lemma_count_below_exists(p: spec_fn(int) -> bool, n: int)
    requires
        0 <= n,
        count(p, n) < n,
    ensures
        exists|x: int| 0 <= x < n && !#[trigger] p(x),
    decreases n,
{
    if n > 0 {
        if p(n - 1) {
            lemma_count_below_exists(p, n - 1);
            let x = choose|x: int| 0 <= x < n - 1 && !#[trigger] p(x);
            assert(0 <= x < n && !p(x));
        } else {
            assert(0 <= n - 1 < n && !p(n - 1));
        }
    }
}

pub proof fn lemma_count_none(p: spec_fn(int) -> bool, n: int)
    requires
        forall|x: int| 0 <= x < n ==> !#[trigger] p(x),
    ensures
        count(p, n) == 0,
    decreases n,
{
    if n > 0 {
        lemma_count_none(p, n - 1);
    }
}

/// An index that comes before another has a smaller rank.
pub proof fn lemma_rank_lt(rems: Seq<int>, j: int, c: int)
    requires
        0 <= j < rems.len(),
        0 <= c < rems.len(),
        before(rems, j, c),
    ensures
        rank(rems, j) < rank(rems, c),
{
    let p = before_pred(rems, j);
    let q = before_pred(rems, c);
    assert forall|x: int| 0 <= x < rems.len() && #[trigger] p(x) implies q(x) by {}
    lemma_count_strict(p, q, rems.len() as int, j);
}

/// The index chosen by a step of the allocation loop has rank `t`, when the
/// indices of rank below `t` are exactly those already chosen, `c` is not
/// one of them, and no index left unchosen comes before `c`.
proof fn lemma_chosen_rank(rems: Seq<int>, t: int, c: int)
    requires
        0 <= c < rems.len(),
        rank(rems, c) >= t,
        count(rank_below(rems, t), rems.len() as int) == t,
        forall|j: int| 0 <= j < rems.len() && rank(rems, j) >= t ==> !before(rems, j, c),
    ensures
        rank(rems, c) == t,
{
    let n = rems.len() as int;
    let p = before_pred(rems, c);
    let q = rank_below(rems, t);
    assert forall|j: int| 0 <= j < n implies (#[trigger] p(j) <==> q(j)) by {
        if p(j) {
            assert(rank(rems, j) < t);
        }
        if q(j) && !p(j) {
            assert(j != c);
            assert(before(rems, c, j));
            lemma_rank_lt(rems, c, j);
        }
    }
    lemma_count_ext(p, q, n);
}

impl MilestoneEscrow {
    /// Splits `total_amount` in proportion to `ratios` by the largest-remainder
    /// method: each share is rounded down, and the units left over go one each
    /// to the shares with the largest remainders (ties to the lower index).
    /// The shares always add up to `total_amount`.
    pub fn multisig_transfer_admin(total_amount: i128, ratios: Vec<i128>) -> (r: Result<
        Vec<i128>,
        Error,
    >)
        ensures
            match ratio_split_error(total_amount, ratios@) {
                Some(e) => r == Err::<Vec<i128>, Error>(e),
                None => r is Ok && ints(r->Ok_0@) == largest_remainder(
                    total_amount as int,
                    ints(ratios@),
                ) && sum(ints(r->Ok_0@)) == total_amount,
            },
            total_amount >= 0 && ratios@.len() > 0 && (forall|i: int|
                0 <= i < ratios@.len() ==> ratios@[i] >= 0) && 0 < sum(ints(ratios@)) <= i128::MAX
                && (forall|i: int| 0 <= i < ratios@.len() ==> total_amount * ratios@[i] <= i128::MAX)
                ==> r is Ok,
            r is Ok ==> r->Ok_0@.len() == ratios@.len() && sum(ints(r->Ok_0@)) == total_amount && (
            forall|i: int|
                0 <= i < ratios@.len() ==> (total_amount * ratios@[i]) / sum(ints(ratios@))
                    <= #[trigger] r->Ok_0@[i] <= (total_amount * ratios@[i]) / sum(ints(ratios@))
                    + 1),
    {
        let ghost rs = ints(ratios@);
        let n = ratios.len();
        if total_amount < 0 || n == 0 {
            return Err(Error::InvalidRatio);
        }
        let mut ratio_sum: i128 = 0;
        let mut i: usize = 0;
        while i < n
            invariant
                n == ratios@.len(),
                rs == ints(ratios@),
                0 <= i <= n,
                forall|j: int| 0 <= j < i ==> rs[j] >= 0,
                ratio_sum == sum(rs.take(i as int)),
            decreases n - i,
        {
            let ratio = ratios[i];
            proof {
                lemma_sum_take_step(rs, i as int);
            }
            if ratio < 0 {
                assert(!all_nonneg(rs));
                return Err(Error::InvalidRatio);
            }
            ratio_sum = match ratio_sum.checked_add(ratio) {
                Some(v) => v,
                None => {
                    proof {
                        if all_nonneg(rs) {
                            lemma_sum_take_le(rs, i + 1);
                        }
                    }
                    return Err(Error::InvalidRatio);
                },
            };
            i = i + 1;
        }
        assert(rs.take(n as int) =~= rs);
        assert(all_nonneg(rs));
        if ratio_sum <= 0 {
            return Err(Error::InvalidRatio);
        }
        let ghost s = ratio_sum as int;
        let mut allocations: Vec<i128> = Vec::new();
        let mut rems: Vec<i128> = Vec::new();
        let mut allocated_total: i128 = 0;
        let ghost mut rem_sum: int = 0;
        let mut i: usize = 0;
        while i < n
            invariant
                n == ratios@.len(),
                rs == ints(ratios@),
                all_nonneg(rs),
                s == sum(rs),
                s == ratio_sum,
                0 < s <= i128::MAX,
                0 <= total_amount,
                0 <= i <= n,
                forall|j: int| 0 <= j < n ==> total_amount * ratios@[j] <= i128::MAX || j >= i,
                allocations@.len() == i,
                rems@.len() == i,
                ints(allocations@) =~= bases(total_amount as int, rs).take(i as int),
                ints(rems@) =~= remainders(total_amount as int, rs).take(i as int),
                allocated_total == sum(ints(allocations@)),
                rem_sum == sum(ints(rems@)),
                s * allocated_total + rem_sum == total_amount * sum(rs.take(i as int)),
                0 <= allocated_total,
                0 <= rem_sum,
                rem_sum + i <= i * s,
            decreases n - i,
        {
            let ratio = ratios[i];
            assert(rs[i as int] == ratio as int);
            let weighted = match total_amount.checked_mul(ratio) {
                Some(v) => v,
                None => {
                    assert(0 <= i < ratios@.len() && total_amount * ratios@[i as int] > i128::MAX);
                    return Err(Error::InvalidAmount);
                },
            };
            assert(weighted >= 0) by (nonlinear_arith)
                requires
                    weighted == total_amount * ratio,
                    total_amount >= 0,
                    ratio >= 0,
            ;
            let base = weighted / ratio_sum;
            let rem = weighted % ratio_sum;
            let ghost prefix = sum(rs.take(i as int));
            proof {
                lemma_sum_take_step(rs, i as int);
                lemma_sum_take_le(rs, i as int + 1);
                assert(weighted == s * base + rem && 0 <= rem < s && base >= 0) by (nonlinear_arith)
                    requires
                        weighted >= 0,
                        s > 0,
                        base as int == (weighted as int) / s,
                        rem as int == (weighted as int) % s,
                ;
                assert(total_amount * (prefix + ratio) == total_amount * prefix + weighted)
                    by (nonlinear_arith)
                    requires
                        weighted == total_amount * ratio,
                ;
                assert(total_amount * (prefix + ratio) <= total_amount * s) by (nonlinear_arith)
                    requires
                        prefix + ratio <= s,
                        total_amount >= 0,
                ;
                assert(allocated_total + base <= total_amount) by (nonlinear_arith)
                    requires
                        s * allocated_total + rem_sum + s * base + rem <= total_amount * s,
                        rem_sum >= 0,
                        rem >= 0,
                        s > 0,
                ;
                assert((i + 1) * s == i * s + s) by (nonlinear_arith);
            }
            let ghost prev_alloc = ints(allocations@);
            let ghost prev_rems = ints(rems@);
            allocations.push(base);
            rems.push(rem);
            proof {
                assert(ints(allocations@) =~= prev_alloc.push(base as int));
                lemma_sum_push(prev_alloc, base as int);
                lemma_sum_push(prev_rems, rem as int);
                assert(ints(rems@) =~= prev_rems.push(rem as int));
                assert(bases(total_amount as int, rs).take(i + 1) =~= bases(
                    total_amount as int,
                    rs,
                ).take(i as int).push(base as int));
                assert(remainders(total_amount as int, rs).take(i + 1) =~= remainders(
                    total_amount as int,
                    rs,
                ).take(i as int).push(rem as int));
                rem_sum = rem_sum + rem;
            }
            let ghost prev_total = allocated_total as int;
            allocated_total = match allocated_total.checked_add(base) {
                Some(v) => v,
                None => return Err(Error::InvalidAmount),
            };
            assert(s * allocated_total == s * prev_total + s * base) by (nonlinear_arith)
                requires
                    allocated_total == prev_total + base,
            ;
            i = i + 1;
        }
        assert(forall|j: int|
            0 <= j < ratios@.len() ==> total_amount * ratios@[j] <= i128::MAX);
        assert(ratio_split_error(total_amount, ratios@) is None);
        let ghost basev = bases(total_amount as int, rs);
        let ghost remv = remainders(total_amount as int, rs);
        assert(basev.take(n as int) =~= basev);
        assert(remv.take(n as int) =~= remv);
        assert(rs.take(n as int) =~= rs);
        let remaining = match total_amount.checked_sub(allocated_total) {
            Some(v) => v,
            None => return Err(Error::InvalidAmount),
        };
        let ghost k = remaining as int;
        proof {
            assert(k == shortfall(total_amount as int, rs));
            assert(s * k == rem_sum) by (nonlinear_arith)
                requires
                    s * allocated_total + rem_sum == total_amount * s,
                    k == total_amount - allocated_total,
            ;
            assert(0 <= k < n) by (nonlinear_arith)
                requires
                    s * k == rem_sum,
                    0 <= rem_sum,
                    rem_sum + n <= n * s,
                    s > 0,
                    n > 0,
            ;
        }
        let mut t: i128 = 0;
        proof {
            lemma_count_none(rank_below(remv, 0), n as int);
        }
        while t < remaining
            invariant
                n == ratios@.len(),
                n > 0,
                rs == ints(ratios@),
                basev == bases(total_amount as int, rs),
                remv == remainders(total_amount as int, rs),
                k == remaining,
                k == shortfall(total_amount as int, rs),
                0 <= k < n,
                0 <= t <= k,
                allocations@.len() == n,
                rems@.len() == n,
                forall|j: int| 0 <= j < n ==> 0 <= #[trigger] remv[j],
                forall|j: int| 0 <= j < n ==> 0 <= #[trigger] basev[j],
                forall|j: int|
                    0 <= j < n ==> #[trigger] rems@[j] as int == if rank(remv, j) < t {
                        i128::MIN as int
                    } else {
                        remv[j]
                    },
                forall|j: int|
                    0 <= j < n ==> #[trigger] allocations@[j] as int == basev[j] + if rank(
                        remv,
                        j,
                    ) < t {
                        1int
                    } else {
                        0int
                    },
                count(rank_below(remv, t as int), n as int) == t,
                sum(ints(allocations@)) == sum(basev) + t,
                sum(basev) + k == total_amount,
                total_amount <= i128::MAX,
            decreases remaining - t,
        {
            proof {
                lemma_count_below_exists(rank_below(remv, t as int), n as int);
            }
            let mut best_index: usize = 0;
            let mut best_remainder: i128 = i128::MIN;
            let mut idx: usize = 0;
            while idx < n
                invariant
                    n == rems@.len(),
                    0 <= idx <= n,
                    best_index < n,
                    forall|j: int| 0 <= j < idx ==> rems@[j] <= best_remainder,
                    best_remainder > i128::MIN ==> (best_index < idx && rems@[best_index as int]
                        == best_remainder && forall|j: int|
                        0 <= j < best_index ==> rems@[j] < best_remainder),
                decreases n - idx,
            {
                if rems[idx] > best_remainder {
                    best_remainder = rems[idx];
                    best_index = idx;
                }
                idx = idx + 1;
            }
            let ghost c = best_index as int;
            proof {
                let w = choose|x: int| 0 <= x < n && !#[trigger] rank_below(remv, t as int)(x);
                assert(rems@[w] as int == remv[w]);
                assert(best_remainder > i128::MIN);
                assert(rank(remv, c) >= t);
                assert forall|j: int| 0 <= j < n && rank(remv, j) >= t implies !before(
                    remv,
                    j,
                    c,
                ) by {
                    assert(rems@[j] as int == remv[j]);
                }
                lemma_chosen_rank(remv, t as int, c);
                lemma_elem_le_sum(ints(allocations@), c);
                assert(forall|j: int|
                    0 <= j < n ==> 0 <= #[trigger] ints(allocations@)[j]);
            }
            let current = allocations[best_index];
            let next = match current.checked_add(1) {
                Some(v) => v,
                None => return Err(Error::InvalidAmount),
            };
            let ghost old_alloc = ints(allocations@);
            allocations.set(best_index, next);
            rems.set(best_index, i128::MIN);
            proof {
                assert(ints(allocations@) =~= old_alloc.update(c, old_alloc[c] + 1));
                lemma_sum_update(old_alloc, c, old_alloc[c] + 1);
                let p = rank_below(remv, t as int);
                let q = rank_below(remv, t as int + 1);
                assert forall|x: int| 0 <= x < n implies (#[trigger] q(x) <==> (p(x) || x == c)) by {
                    if x != c && rank(remv, x) == t {
                        if before(remv, x, c) {
                            lemma_rank_lt(remv, x, c);
                        } else {
                            lemma_rank_lt(remv, c, x);
                        }
                    }
                }
                lemma_count_add_one(p, q, n as int, c);
                assert forall|j: int| 0 <= j < n implies #[trigger] rems@[j] as int == if rank(
                    remv,
                    j,
                ) < t + 1 {
                    i128::MIN as int
                } else {
                    remv[j]
                } by {
                    if j != c && rank(remv, j) == t {
                        if before(remv, j, c) {
                            lemma_rank_lt(remv, j, c);
                        } else {
                            lemma_rank_lt(remv, c, j);
                        }
                    }
                }
                assert forall|j: int| 0 <= j < n implies #[trigger] allocations@[j] as int
                    == basev[j] + if rank(remv, j) < t + 1 {
                    1int
                } else {
                    0int
                } by {
                    if j != c && rank(remv, j) == t {
                        if before(remv, j, c) {
                            lemma_rank_lt(remv, j, c);
                        } else {
                            lemma_rank_lt(remv, c, j);
                        }
                    }
                }
            }
            t = t + 1;
        }
        assert(ints(allocations@) =~= largest_remainder(total_amount as int, rs));
        Ok(allocations)
    }
}

} // verus!
