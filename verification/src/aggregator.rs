//! Aggregation of reported values: the lower median.

use crate::request::{data_of, models_of, Confirmation};
use vstd::prelude::*;

verus! {

/// How many of `values` lie strictly below `bound`.
pub open spec fn count_less(values: Seq<u128>, bound: int) -> nat
    decreases values.len(),
{
    if values.len() == 0 {
        0
    } else {
        count_less(values.drop_last(), bound) + if values.last() < bound {
            1nat
        } else {
            0nat
        }
    }
}

/// Whether `m` has rank `k` among `values`: it is one of them, at most `k`
/// of them lie below it, and more than `k` of them are at most `m`. This is
/// the value that stands at index `k` once the values are put in ascending
/// order.
pub open spec fn has_rank(values: Seq<u128>, k: int, m: u128) -> bool {
    &&& values.contains(m)
    &&& count_less(values, m as int) <= k < count_less(values, m + 1)
}

/// Whether `m` is the lower median of `values`: the middle value in
/// ascending order, and the lower of the two middle values where their
/// number is even.
pub open spec fn is_lower_median(values: Seq<u128>, m: u128) -> bool {
    values.len() > 0 && has_rank(values, (values.len() - 1) / 2, m)
}

/// The lower median of `values`, which exists where there is a value at all
/// and is the only one (`lemma_rank_exists`, `lemma_rank_unique`).
pub open spec fn lower_median(values: Seq<u128>) -> u128 {
    choose|m: u128| is_lower_median(values, m)
}

/// A count never exceeds the number of values.
pub proof fn lemma_count_less_bounded(values: Seq<u128>, bound: int)
    ensures
        count_less(values, bound) <= values.len(),
    decreases values.len(),
{
    if values.len() > 0 {
        lemma_count_less_bounded(values.drop_last(), bound);
    }
}

/// Raising the bound never lowers the count.
pub proof fn lemma_count_less_monotone(values: Seq<u128>, a: int, b: int)
    requires
        a <= b,
    ensures
        count_less(values, a) <= count_less(values, b),
    decreases values.len(),
{
    if values.len() > 0 {
        lemma_count_less_monotone(values.drop_last(), a, b);
    }
}

/// Where every value lies below the bound, the count is their number.
proof fn lemma_count_less_all(values: Seq<u128>, bound: int)
    requires
        forall|i: int| 0 <= i < values.len() ==> values[i] < bound,
    ensures
        count_less(values, bound) == values.len(),
    decreases values.len(),
{
    if values.len() > 0 {
        lemma_count_less_all(values.drop_last(), bound);
    }
}

/// Taking one value out lowers the count by one if that value lay below the
/// bound, and leaves it as it was otherwise.
proof fn lemma_count_less_remove(values: Seq<u128>, j: int, bound: int)
    requires
        0 <= j < values.len(),
    ensures
        count_less(values, bound) == count_less(values.remove(j), bound) + if values[j] < bound {
            1nat
        } else {
            0nat
        },
    decreases values.len(),
{
    if j == values.len() - 1 {
        assert(values.remove(j) =~= values.drop_last());
    } else {
        lemma_count_less_remove(values.drop_last(), j, bound);
        assert(values.remove(j).drop_last() =~= values.drop_last().remove(j));
        assert(values.remove(j).last() == values.last());
    }
}

/// An index at which a greatest value stands.
spec fn index_of_greatest(values: Seq<u128>) -> int
    decreases values.len(),
{
    if values.len() <= 1 {
        0
    } else {
        let i = index_of_greatest(values.drop_last());
        if values[i] >= values.last() {
            i
        } else {
            values.len() - 1
        }
    }
}

proof fn lemma_index_of_greatest(values: Seq<u128>)
    requires
        values.len() > 0,
    ensures
        0 <= index_of_greatest(values) < values.len(),
        forall|i: int|
            0 <= i < values.len() ==> #[trigger] values[i] <= values[index_of_greatest(values)],
    decreases values.len(),
{
    if values.len() > 1 {
        lemma_index_of_greatest(values.drop_last());
        let g = index_of_greatest(values.drop_last());
        assert forall|i: int| 0 <= i < values.len() implies #[trigger] values[i]
            <= values[index_of_greatest(values)] by {
            if i < values.len() - 1 {
                assert(values.drop_last()[i] == values[i]);
                assert(values.drop_last()[g] == values[g]);
            }
        }
    }
}

/// Every rank below the number of values is held by one of them. Returns an
/// index at which such a value stands.
pub proof fn lemma_rank_exists(values: Seq<u128>, k: int) -> (i: int)
    requires
        0 <= k < values.len(),
    ensures
        0 <= i < values.len(),
        has_rank(values, k, values[i]),
    decreases values.len(),
{
    lemma_index_of_greatest(values);
    let g = index_of_greatest(values);
    let top = values[g];
    assert(count_less(values, top + 1) == values.len()) by {
        assert forall|i: int| 0 <= i < values.len() implies values[i] < top + 1 by {
            assert(values[i] <= top);
        }
        lemma_count_less_all(values, top + 1);
    }
    if count_less(values, top as int) <= k {
        assert(values.contains(top));
        g
    } else {
        let rest = values.remove(g);
        lemma_count_less_remove(values, g, top as int);
        lemma_count_less_bounded(rest, top as int);
        let r = lemma_rank_exists(rest, k);
        let v = rest[r];
        let i = if r < g {
            r
        } else {
            r + 1
        };
        assert(values[i] == v);
        assert(v < top) by {
            if v == top {
                assert(count_less(rest, v as int) > k);
            }
        }
        lemma_count_less_remove(values, g, v as int);
        lemma_count_less_remove(values, g, v + 1);
        assert(values.contains(v));
        i
    }
}

/// A rank is held by one value only.
pub proof fn lemma_rank_unique(values: Seq<u128>, k: int, a: u128, b: u128)
    requires
        has_rank(values, k, a),
        has_rank(values, k, b),
    ensures
        a == b,
{
    if a < b {
        lemma_count_less_monotone(values, a + 1, b as int);
    } else if b < a {
        lemma_count_less_monotone(values, b + 1, a as int);
    }
}

/// Where there is a value at all, `lower_median` is the lower median, and
/// nothing else is.
pub proof fn lemma_lower_median(values: Seq<u128>)
    requires
        values.len() > 0,
    ensures
        is_lower_median(values, lower_median(values)),
        forall|m: u128| is_lower_median(values, m) ==> m == lower_median(values),
{
    let k = (values.len() - 1) / 2;
    let i = lemma_rank_exists(values, k);
    assert(is_lower_median(values, values[i]));
    assert forall|m: u128| is_lower_median(values, m) implies m == lower_median(values) by {
        lemma_rank_unique(values, k, m, lower_median(values));
    }
}

/// Counts the values below `bound`, or at most `bound` where `inclusive`.
fn rank_of(values: &Vec<u128>, bound: u128, inclusive: bool) -> (count: usize)
    ensures
        count == count_less(
            values@,
            if inclusive {
                bound + 1
            } else {
                bound as int
            },
        ),
{
    let ghost limit: int = if inclusive {
        bound + 1
    } else {
        bound as int
    };
    let mut count: usize = 0;
    let mut i: usize = 0;
    while i < values.len()
        invariant
            i <= values.len(),
            count <= i,
            limit == bound + if inclusive {
                1int
            } else {
                0int
            },
            count == count_less(values@.take(i as int), limit),
        decreases values.len() - i,
    {
        proof {
            assert(values@.take(i + 1).drop_last() =~= values@.take(i as int));
            assert(values@.take(i + 1).last() == values@[i as int]);
        }
        let v = values[i];
        if v < bound || (inclusive && v == bound) {
            count += 1;
        }
        i += 1;
    }
    proof {
        assert(values@.take(i as int) =~= values@);
    }
    count
}

/// The lower median of `values`, or `None` where there is no value.
pub fn median_of(values: &Vec<u128>) -> (median: Option<u128>)
    ensures
        median is None <==> values@.len() == 0,
        median matches Some(m) ==> is_lower_median(values@, m) && m == lower_median(values@),
{
    let n = values.len();
    if n == 0 {
        return None;
    }
    let k = (n - 1) / 2;
    let mut i: usize = 0;
    while i < n
        invariant
            n == values.len(),
            n > 0,
            k == (n - 1) / 2,
            i <= n,
            forall|j: int| 0 <= j < i ==> !has_rank(values@, k as int, #[trigger] values@[j]),
        decreases n - i,
    {
        let v = values[i];
        let below = rank_of(values, v, false);
        let up_to = rank_of(values, v, true);
        if below <= k && k < up_to {
            proof {
                assert(values@.contains(v));
                lemma_lower_median(values@);
            }
            return Some(v);
        }
        i += 1;
    }
    proof {
        let w = lemma_rank_exists(values@, k as int);
        assert(!has_rank(values@, k as int, values@[w]));
    }
    None
}

/// Whether the quorum is made: there are at least `quorum` confirmations.
pub fn quorum_reached(confirmations: &Vec<Confirmation>, quorum: u64) -> (reached: bool)
    ensures
        reached == (confirmations@.len() >= quorum),
{
    confirmations.len() as u64 >= quorum
}

/// The value that the confirmations settle on: the lower median of the
/// values they report, or `None` where there is no confirmation.
pub fn aggregate(confirmations: &Vec<Confirmation>) -> (value: Option<u128>)
    ensures
        value is None <==> confirmations@.len() == 0,
        value matches Some(m) ==> is_lower_median(data_of(models_of(confirmations@)), m) && m
            == lower_median(data_of(models_of(confirmations@))),
{
    let ghost reported = data_of(models_of(confirmations@));
    let mut values: Vec<u128> = Vec::new();
    let mut i: usize = 0;
    while i < confirmations.len()
        invariant
            i <= confirmations@.len(),
            reported == data_of(models_of(confirmations@)),
            values@ == reported.take(i as int),
        decreases confirmations@.len() - i,
    {
        values.push(confirmations[i].data());
        i += 1;
        assert(values@ =~= reported.take(i as int));
    }
    assert(values@ =~= reported);
    median_of(&values)
}

} // verus!
