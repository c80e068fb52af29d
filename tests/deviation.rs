use cpu_bound::{complete_run, max_deviation, sequential_deviations, unit_deviation};
use cpu_bound::{generate_samples, sample_from_word, RunError, SAMPLE_STEPS};

fn unit_outcomes(data: &[u64]) -> Vec<Option<u64>> {
    let mut outcomes = Vec::new();
    for i in 0..data.len() {
        outcomes.push(Some(unit_deviation(data, i)));
    }
    outcomes
}

fn sorted(mut v: Vec<u64>) -> Vec<u64> {
    v.sort();
    v
}

#[test]
fn max_deviation_is_largest_difference() {
    assert_eq!(max_deviation(1, &[1, 5, 2]), Some(4));
    assert_eq!(max_deviation(5, &[1, 5, 2]), Some(4));
    assert_eq!(max_deviation(2, &[1, 5, 2]), Some(3));
    assert_eq!(max_deviation(10, &[3]), Some(7));
    assert_eq!(max_deviation(0, &[u64::MAX, 0]), Some(u64::MAX));
}

#[test]
fn max_deviation_of_empty_set_is_none() {
    assert_eq!(max_deviation(7, &[]), None);
}

#[test]
fn max_deviation_against_itself_is_zero() {
    assert_eq!(max_deviation(42, &[42, 42]), Some(0));
}

#[test]
fn three_samples_all_strategies() {
    let data = vec![1u64, 5, 2];
    let sequential = sequential_deviations(&data);
    assert_eq!(sequential, vec![4, 4, 3]);
    let collected = complete_run(unit_outcomes(&data), data.len()).unwrap();
    assert_eq!(sorted(collected), vec![3, 4, 4]);
}

#[test]
fn single_sample_deviates_by_zero() {
    let data = vec![123_456u64];
    assert_eq!(sequential_deviations(&data), vec![0]);
    assert_eq!(unit_deviation(&data, 0), 0);
    assert_eq!(complete_run(unit_outcomes(&data), 1), Ok(vec![0]));
}

#[test]
fn empty_array_runs_without_results() {
    let data: Vec<u64> = Vec::new();
    assert_eq!(sequential_deviations(&data), Vec::<u64>::new());
    assert_eq!(complete_run(Vec::new(), 0), Ok(Vec::new()));
}

#[test]
fn zero_samples_report_zero_calculations() {
    let data = generate_samples(0);
    assert!(data.is_empty());
    assert_eq!(sequential_deviations(&data).len(), 0);
    assert_eq!(complete_run(unit_outcomes(&data), data.len()).unwrap().len(), 0);
}

#[test]
fn result_count_matches_sample_count() {
    for n in [1usize, 2, 17, 100] {
        let data = generate_samples(n);
        assert_eq!(data.len(), n);
        assert_eq!(sequential_deviations(&data).len(), n);
        assert_eq!(complete_run(unit_outcomes(&data), n).unwrap().len(), n);
    }
}

#[test]
fn strategies_agree_on_random_samples() {
    let data = generate_samples(60);
    let sequential = sequential_deviations(&data);
    let collected = complete_run(unit_outcomes(&data), data.len()).unwrap();
    assert_eq!(collected, sequential);
    let mut reversed = unit_outcomes(&data);
    reversed.reverse();
    let collected = complete_run(reversed, data.len()).unwrap();
    assert_eq!(sorted(collected), sorted(sequential));
}

#[test]
fn sequential_run_is_deterministic() {
    let data = generate_samples(40);
    assert_eq!(sequential_deviations(&data), sequential_deviations(&data));
    let fixed = vec![9u64, 0, 4, 4];
    assert_eq!(sequential_deviations(&fixed), vec![9, 9, 5, 5]);
    assert_eq!(sequential_deviations(&fixed), sequential_deviations(&fixed));
}

#[test]
fn failed_unit_is_reported() {
    let outcomes = vec![Some(3), None, Some(1), None];
    assert_eq!(complete_run(outcomes, 4), Err(RunError::UnitFailed { index: 1 }));
    assert_eq!(complete_run(vec![None], 1), Err(RunError::UnitFailed { index: 0 }));
}

#[test]
fn missing_results_are_reported() {
    assert_eq!(
        complete_run(vec![Some(3), Some(1)], 3),
        Err(RunError::Incomplete { expected: 3, produced: 2 })
    );
    assert_eq!(
        complete_run(vec![Some(3)], 0),
        Err(RunError::Incomplete { expected: 0, produced: 1 })
    );
}

#[test]
fn samples_lie_in_unit_interval() {
    let data = generate_samples(500);
    assert_eq!(data.len(), 500);
    assert!(data.iter().all(|&k| k < SAMPLE_STEPS));
    assert!(data.iter().any(|&k| k != data[0]));
}

#[test]
fn sample_takes_top_bits_of_word() {
    assert_eq!(SAMPLE_STEPS, 1u64 << 53);
    assert_eq!(sample_from_word(0), 0);
    assert_eq!(sample_from_word(2047), 0);
    assert_eq!(sample_from_word(2048), 1);
    assert_eq!(sample_from_word(u64::MAX), SAMPLE_STEPS - 1);
}

#[test]
fn step_counts_match_floating_point_values() {
    let scale = SAMPLE_STEPS as f64;
    let data = generate_samples(50);
    let values: Vec<f64> = data.iter().map(|&k| k as f64 / scale).collect();
    let deviations = sequential_deviations(&data);
    for (i, v) in values.iter().enumerate() {
        let mut max = f64::MIN;
        for o in values.iter() {
            let diff = (v - o).abs();
            if diff > max {
                max = diff;
            }
        }
        assert_eq!(max, deviations[i] as f64 / scale);
    }
}
