//! How far a stage has come, in whole percent, and when that is reported: a
//! percentage goes out only when it is above the last one that went out.

use vstd::prelude::*;

verus! {

/// The share of `done` in `total`, in whole percent, rounded down and never
/// above 100. Without a total there is no share to speak of, and the result
/// is zero.
pub open spec fn percentage(done: nat, total: nat) -> nat {
    if total == 0 {
        0
    } else if done >= total {
        100
    } else {
        (100 * done) / total
    }
}

/// A percentage is never above 100.
pub proof fn lemma_percentage_bound(done: nat, total: nat)
    ensures
        percentage(done, total) <= 100,
{
    if total != 0 && done < total {
        assert((100 * done) / total <= 100) by (nonlinear_arith)
            requires
                done < total,
                total > 0,
        ;
    }
}

/// More work done never gives a smaller percentage.
pub proof fn lemma_percentage_monotonic(less: nat, more: nat, total: nat)
    requires
        less <= more,
    ensures
        percentage(less, total) <= percentage(more, total),
{
    lemma_percentage_bound(less, total);
    if total != 0 && more < total {
        assert((100 * less) / total <= (100 * more) / total) by (nonlinear_arith)
            requires
                less <= more,
                total > 0,
        ;
    }
}

/// The percentages that go out while `upto` of `total` items are worked off
/// one by one: after each item, its percentage if that is above the one
/// after the item before.
pub open spec fn percent_steps(total: nat, upto: nat) -> Seq<u8>
    decreases upto,
{
    if upto == 0 {
        seq![]
    } else {
        let before = percent_steps(total, (upto - 1) as nat);
        if percentage(upto, total) > percentage((upto - 1) as nat, total) {
            before.push(percentage(upto, total) as u8)
        } else {
            before
        }
    }
}

/// The percentages of `percent_steps` rise strictly, lie above zero, and do
/// not go beyond the percentage of the last item.
pub proof fn lemma_percent_steps_increase(total: nat, upto: nat)
    ensures
        forall|i: int, j: int|
            0 <= i < j < percent_steps(total, upto).len() ==> percent_steps(total, upto)[i]
                < percent_steps(total, upto)[j],
        forall|i: int|
            0 <= i < percent_steps(total, upto).len() ==> 0 < #[trigger] percent_steps(
                total,
                upto,
            )[i] <= percentage(upto, total),
    decreases upto,
{
    lemma_percentage_bound(upto, total);
    if upto > 0 {
        let before = (upto - 1) as nat;
        lemma_percent_steps_increase(total, before);
        lemma_percentage_monotonic(before, upto, total);
        let earlier = percent_steps(total, before);
        let all = percent_steps(total, upto);
        let now = percentage(upto, total);
        if now > percentage(before, total) {
            assert(all == earlier.push(now as u8));
            assert forall|i: int| 0 <= i < all.len() implies 0 < #[trigger] all[i] <= now by {
                if i < earlier.len() {
                    assert(all[i] == earlier[i]);
                }
            }
            assert forall|i: int, j: int| 0 <= i < j < all.len() implies all[i] < all[j] by {
                assert(all[i] == earlier[i]);
                if j < earlier.len() {
                    assert(all[j] == earlier[j]);
                }
            }
        } else {
            assert(all == earlier);
        }
    }
}

/// The percentage of `done` in `total`.
pub fn percent_of(done: u64, total: u64) -> (percent: u8)
    ensures
        percent == percentage(done as nat, total as nat),
        percent <= 100,
{
    proof {
        lemma_percentage_bound(done as nat, total as nat);
    }
    if total == 0 {
        0
    } else if done >= total {
        100
    } else {
        let scaled: u128 = 100 * (done as u128);
        let share: u128 = scaled / (total as u128);
        share as u8
    }
}

} // verus!
