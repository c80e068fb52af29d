use vstd::prelude::*;
use crate::deviation::{max_abs_diff, unit_deviation};

verus! {

/// The deviation of every element of `data` from the whole of `data`, in the
/// order of `data`.
pub open spec fn deviations(data: Seq<u64>) -> Seq<int> {
    Seq::new(data.len(), |i: int| max_abs_diff(data[i] as int, data))
}

/// The elements of `s` as mathematical integers.
pub open spec fn as_ints(s: Seq<u64>) -> Seq<int> {
    s.map_values(|x: u64| x as int)
}

/// Why a run that handed its work out to separate units produced no result.
#[derive(Debug, Clone, Copy, PartialEq, Eq, Structural)]
pub enum RunError {
    /// The unit at this position did not complete normally.
    UnitFailed { index: usize },
    /// Every unit completed, but their number is not the number of samples.
    Incomplete { expected: usize, produced: usize },
}

/// Every unit completed.
pub open spec fn all_completed(outcomes: Seq<Option<u64>>) -> bool {
    forall|i: int| 0 <= i < outcomes.len() ==> (#[trigger] outcomes[i]) is Some
}

/// The values that the units produced, in the order of the units.
pub open spec fn completed_values(outcomes: Seq<Option<u64>>) -> Seq<u64> {
    outcomes.map_values(
        |o: Option<u64>|
            match o {
                Some(v) => v,
                None => 0,
            },
    )
}

/// Runs the deviation of every sample against the whole array, one sample
/// after the other in a single control flow, and collects the results in the
/// order of the samples.
pub fn sequential_deviations(data: &[u64]) -> (r: Vec<u64>)
    ensures
        r@.len() == data@.len(),
        as_ints(r@) == deviations(data@),
{
    let mut results: Vec<u64> = Vec::new();
    let mut i: usize = 0;
    while i < data.len()
        invariant
            0 <= i <= data@.len(),
            results@.len() == i,
            forall|j: int|
                0 <= j < i ==> results@[j] as int == max_abs_diff(data@[j] as int, data@),
        decreases data@.len() - i,
    {
        let d = unit_deviation(data, i);
        results.push(d);
        i = i + 1;
    }
    assert(as_ints(results@) =~= deviations(data@));
    results
}

/// Collects what the units of a concurrent run handed back, one outcome per
/// unit in the order in which the units were started; `None` stands for a
/// unit that did not complete normally. A failed unit is reported, never
/// dropped; then the number of results is checked against the number of
/// samples.
pub fn complete_run(outcomes: Vec<Option<u64>>, expected: usize) -> (r: Result<Vec<u64>, RunError>)
    ensures
        r is Ok <==> all_completed(outcomes@) && outcomes@.len() == expected,
        r is Ok ==> r->Ok_0@ == completed_values(outcomes@) && r->Ok_0@.len() == expected,
        match r {
            Ok(_) => true,
            Err(RunError::UnitFailed { index }) => {
                &&& index < outcomes@.len()
                &&& outcomes@[index as int] is None
                &&& forall|j: int| 0 <= j < index ==> (#[trigger] outcomes@[j]) is Some
            },
            Err(RunError::Incomplete { expected: e, produced }) => {
                &&& all_completed(outcomes@)
                &&& e == expected
                &&& produced == outcomes@.len()
                &&& produced != expected
            },
        },
{
    let mut values: Vec<u64> = Vec::new();
    let mut i: usize = 0;
    while i < outcomes.len()
        invariant
            0 <= i <= outcomes@.len(),
            values@.len() == i,
            forall|j: int| 0 <= j < i ==> (#[trigger] outcomes@[j]) is Some,
            forall|j: int| 0 <= j < i ==> values@[j] == completed_values(outcomes@)[j],
        decreases outcomes@.len() - i,
    {
        match outcomes[i] {
            Some(v) => values.push(v),
            None => {
                return Err(RunError::UnitFailed { index: i });
            },
        }
        i = i + 1;
    }
    if values.len() != expected {
        return Err(RunError::Incomplete { expected, produced: values.len() });
    }
    assert(values@ =~= completed_values(outcomes@));
    Ok(values)
}

} // verus!
