use vstd::prelude::*;
use crate::deviation::max_abs_diff;
use crate::runners::{all_completed, as_ints, completed_values, deviations};

verus! {

/// The strategies agree: when every unit of a concurrent run computes the
/// deviation of its own sample (as `unit_deviation` does) and hands it back,
/// the collected result holds exactly the values of the sequential run, in
/// the same order, and so the same values as a multiset.
pub proof fn lemma_strategies_agree(data: Seq<u64>, outcomes: Seq<Option<u64>>)
    requires
        outcomes.len() == data.len(),
        forall|i: int|
            0 <= i < data.len() ==> (#[trigger] outcomes[i]) is Some && outcomes[i]->0 as int
                == max_abs_diff(data[i] as int, data),
    ensures
        all_completed(outcomes),
        as_ints(completed_values(outcomes)) == deviations(data),
        as_ints(completed_values(outcomes)).to_multiset() == deviations(data).to_multiset(),
{
    assert(as_ints(completed_values(outcomes)) =~= deviations(data));
}

/// The sequential run is deterministic: two runs on the same samples give the
/// same values in the same order.
pub proof fn lemma_sequential_deterministic(data: Seq<u64>, first: Seq<u64>, second: Seq<u64>)
    requires
        as_ints(first) == deviations(data),
        as_ints(second) == deviations(data),
    ensures
        first == second,
{
    assert(first.len() == as_ints(first).len());
    assert(second.len() == as_ints(second).len());
    assert forall|i: int| 0 <= i < first.len() implies first[i] == second[i] by {
        assert(as_ints(first)[i] == first[i] as int);
        assert(as_ints(second)[i] == second[i] as int);
    }
    assert(first =~= second);
}

/// An empty array has no deviations, and the single sample of a one-sample
/// array deviates from the array by zero.
pub proof fn lemma_short_arrays(value: u64)
    ensures
        deviations(Seq::<u64>::empty()) == Seq::<int>::empty(),
        deviations(seq![value]) == seq![0int],
{
    assert(deviations(Seq::<u64>::empty()) =~= Seq::<int>::empty());
    let one = seq![value];
    assert(one.drop_last() =~= Seq::<u64>::empty());
    assert(one.last() == value);
    assert(max_abs_diff(value as int, one.drop_last()) == 0);
    assert(max_abs_diff(value as int, one) == 0);
    assert(deviations(one) =~= seq![0int]);
}

} // verus!
