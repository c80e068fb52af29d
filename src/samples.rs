use vstd::prelude::*;

verus! {

/// The number of steps in the unit interval: a sample `k` stands for
/// `k / SAMPLE_STEPS`, and every sample is below it.
pub const SAMPLE_STEPS: u64 = 0x20_0000_0000_0000;

/// The number of low bits of a random word that a sample does not use.
pub const DISCARDED_BITS: u64 = 11;

/// Relies on `rand::random::<u64>`: a word drawn from the thread-local
/// generator. Nothing is known of its value.
#[verifier::external_body]
fn random_word() -> (r: u64) {
    rand::random::<u64>()
}

/// The sample made of the most significant 53 bits of a random word, as
/// `rand` makes a `f64` in `[0, 1)` of one.
pub fn sample_from_word(word: u64) -> (r: u64)
    ensures
        r as int == word as int / 2048,
        r < SAMPLE_STEPS,
{
    let r = word >> DISCARDED_BITS;
    assert(word >> 11u64 == word / 2048) by (bit_vector);
    assert(word >> 11u64 < 0x20_0000_0000_0000u64) by (bit_vector);
    r
}

/// `count` samples drawn independently and uniformly from the unit
/// interval.
pub fn generate_samples(count: usize) -> (r: Vec<u64>)
    ensures
        r@.len() == count,
        forall|i: int| 0 <= i < count ==> r@[i] < SAMPLE_STEPS,
{
    let mut samples: Vec<u64> = Vec::new();
    let mut i: usize = 0;
    while i < count
        invariant
            0 <= i <= count,
            samples@.len() == i,
            forall|j: int| 0 <= j < i ==> samples@[j] < SAMPLE_STEPS,
        decreases count - i,
    {
        let word = random_word();
        samples.push(sample_from_word(word));
        i = i + 1;
    }
    samples
}

} // verus!
