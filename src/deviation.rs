use vstd::prelude::*;

verus! {

/// `|a - b|`.
pub open spec fn abs_diff(a: int, b: int) -> int {
    if a >= b {
        a - b
    } else {
        b - a
    }
}

/// The largest `|value - x|` over the elements `x` of `others`; zero when
/// `others` is empty.
pub open spec fn max_abs_diff(value: int, others: Seq<u64>) -> int
    decreases others.len(),
{
    if others.len() == 0 {
        0
    } else {
        let rest = max_abs_diff(value, others.drop_last());
        let last = abs_diff(value, others.last() as int);
        if last > rest {
            last
        } else {
            rest
        }
    }
}

/// The deviation of `value` from `others` is the largest absolute difference
/// between `value` and an element of `others`: no element is farther away,
/// one element is exactly that far away, and the deviation is never negative.
pub proof fn lemma_max_abs_diff_is_maximum(value: int, others: Seq<u64>)
    requires
        others.len() > 0,
    ensures
        max_abs_diff(value, others) >= 0,
        forall|i: int|
            0 <= i < others.len() ==> abs_diff(value, #[trigger] others[i] as int)
                <= max_abs_diff(value, others),
        exists|i: int|
            0 <= i < others.len() && abs_diff(value, #[trigger] others[i] as int)
                == max_abs_diff(value, others),
    decreases others.len(),
{
    let last = others.len() - 1;
    if others.len() == 1 {
        assert(max_abs_diff(value, others.drop_last()) == 0);
        assert(abs_diff(value, others[last] as int) == max_abs_diff(value, others));
    } else {
        let front = others.drop_last();
        lemma_max_abs_diff_is_maximum(value, front);
        assert forall|i: int| 0 <= i < others.len() implies abs_diff(
            value,
            #[trigger] others[i] as int,
        ) <= max_abs_diff(value, others) by {
            if i < last {
                assert(others[i] == front[i]);
            }
        }
        if abs_diff(value, others[last] as int) > max_abs_diff(value, front) {
            assert(abs_diff(value, others[last] as int) == max_abs_diff(value, others));
        } else {
            let j = choose|j: int|
                0 <= j < front.len() && abs_diff(value, #[trigger] front[j] as int)
                    == max_abs_diff(value, front);
            assert(others[j] == front[j]);
            assert(abs_diff(value, others[j] as int) == max_abs_diff(value, others));
        }
    }
}

/// The largest absolute difference between `value` and an element of
/// `others`, or `None` when `others` is empty: an empty comparison set has
/// no deviation.
pub fn max_deviation(value: u64, others: &[u64]) -> (r: Option<u64>)
    ensures
        others@.len() == 0 ==> r is None,
        others@.len() > 0 ==> r is Some && r->0 as int == max_abs_diff(value as int, others@),
{
    if others.len() == 0 {
        return None;
    }
    let mut max: u64 = 0;
    let mut i: usize = 0;
    while i < others.len()
        invariant
            0 <= i <= others@.len(),
            max as int == max_abs_diff(value as int, others@.subrange(0, i as int)),
        decreases others@.len() - i,
    {
        let other = others[i];
        let diff: u64 = if value >= other {
            value - other
        } else {
            other - value
        };
        if diff > max {
            max = diff;
        }
        assert(others@.subrange(0, i + 1).drop_last() == others@.subrange(0, i as int));
        i = i + 1;
    }
    assert(others@.subrange(0, others@.len() as int) == others@);
    Some(max)
}

/// The deviation of the element at `index` from the whole of `data`, the
/// work of one unit of a run.
pub fn unit_deviation(data: &[u64], index: usize) -> (r: u64)
    requires
        index < data@.len(),
    ensures
        r as int == max_abs_diff(data@[index as int] as int, data@),
{
    match max_deviation(data[index], data) {
        Some(m) => m,
        None => 0,
    }
}

} // verus!
