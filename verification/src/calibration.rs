//! Gyroscope zero-rate bias: the per-axis mean of readings taken at rest.

use crate::sample::I16x3;
use vstd::prelude::*;

verus! {

/// Number of samples that calibration takes in the reference configuration.
pub const NSAMPLES: usize = 256;

/// Per-axis totals of a run of samples.
pub open spec fn sample_sum(samples: Seq<I16x3>) -> (int, int, int)
    decreases samples.len(),
{
    if samples.len() == 0 {
        (0, 0, 0)
    } else {
        let before = sample_sum(samples.drop_last());
        let last = samples.last();
        (before.0 + last.x, before.1 + last.y, before.2 + last.z)
    }
}

/// `total / count` rounded toward zero.
pub open spec fn truncated_quotient(total: int, count: int) -> int
    recommends
        count > 0,
{
    if total >= 0 {
        total / count
    } else {
        -((-total) / count)
    }
}

/// The bias that a run of samples yields: on each axis the total divided by
/// the number of samples, rounded toward zero.
pub open spec fn mean_bias(samples: Seq<I16x3>) -> (int, int, int)
    recommends
        samples.len() > 0,
{
    let total = sample_sum(samples);
    let count = samples.len() as int;
    (
        truncated_quotient(total.0, count),
        truncated_quotient(total.1, count),
        truncated_quotient(total.2, count),
    )
}

/// Every axis total of `n` samples lies between `n` times the least and `n`
/// times the greatest 16-bit count.
pub proof fn lemma_sample_sum_bounds(samples: Seq<I16x3>)
    ensures
        -32768 * samples.len() <= sample_sum(samples).0 <= 32767 * samples.len(),
        -32768 * samples.len() <= sample_sum(samples).1 <= 32767 * samples.len(),
        -32768 * samples.len() <= sample_sum(samples).2 <= 32767 * samples.len(),
    decreases samples.len(),
{
    if samples.len() > 0 {
        lemma_sample_sum_bounds(samples.drop_last());
    }
}

/// A total within `count` times the 16-bit range has a quotient within the
/// 16-bit range.
pub proof fn lemma_truncated_quotient_fits(total: int, count: int)
    requires
        count > 0,
        -32768 * count <= total <= 32767 * count,
    ensures
        -32768 <= truncated_quotient(total, count) <= 32767,
{
    if total >= 0 {
        assert(total / count <= 32767) by (nonlinear_arith)
            requires
                count > 0,
                0 <= total <= 32767 * count,
        ;
        assert(total / count >= 0) by (nonlinear_arith)
            requires
                count > 0,
                0 <= total,
        ;
    } else {
        let positive = -total;
        assert(0 <= positive / count <= 32768) by (nonlinear_arith)
            requires
                count > 0,
                0 <= positive <= 32768 * count,
        ;
    }
}

/// Rounding toward zero: the quotient times the count is the multiple of the
/// count nearest to the total on the side of zero.
pub proof fn lemma_truncated_quotient_rounds_toward_zero(total: int, count: int)
    requires
        count > 0,
    ensures
        total >= 0 ==> truncated_quotient(total, count) * count <= total < truncated_quotient(
            total,
            count,
        ) * count + count,
        total < 0 ==> truncated_quotient(total, count) * count - count < total
            <= truncated_quotient(total, count) * count,
{
    if total >= 0 {
        let q = total / count;
        assert(q * count <= total < q * count + count) by (nonlinear_arith)
            requires
                count > 0,
                q == total / count,
        ;
    } else {
        let positive = -total;
        let q = positive / count;
        assert(q * count <= positive < q * count + count) by (nonlinear_arith)
            requires
                count > 0,
                q == positive / count,
        ;
        assert((-q) * count == -(q * count)) by (nonlinear_arith);
    }
}

/// The mean of samples that are all the same reading is that reading.
pub proof fn lemma_constant_samples(samples: Seq<I16x3>, reading: I16x3)
    requires
        samples.len() > 0,
        forall|i: int| 0 <= i < samples.len() ==> samples[i] == reading,
    ensures
        mean_bias(samples) == (reading.x as int, reading.y as int, reading.z as int),
{
    lemma_constant_sum(samples, reading);
    let count = samples.len() as int;
    lemma_quotient_of_multiple(reading.x as int, count);
    lemma_quotient_of_multiple(reading.y as int, count);
    lemma_quotient_of_multiple(reading.z as int, count);
}

proof fn lemma_constant_sum(samples: Seq<I16x3>, reading: I16x3)
    requires
        forall|i: int| 0 <= i < samples.len() ==> samples[i] == reading,
    ensures
        sample_sum(samples) == (
            samples.len() * reading.x,
            samples.len() * reading.y,
            samples.len() * reading.z,
        ),
    decreases samples.len(),
{
    if samples.len() > 0 {
        let before = samples.drop_last();
        lemma_constant_sum(before, reading);
        let n = before.len() as int;
        assert((n + 1) * reading.x == n * reading.x + reading.x) by (nonlinear_arith);
        assert((n + 1) * reading.y == n * reading.y + reading.y) by (nonlinear_arith);
        assert((n + 1) * reading.z == n * reading.z + reading.z) by (nonlinear_arith);
    }
}

proof fn lemma_quotient_of_multiple(value: int, count: int)
    requires
        count > 0,
    ensures
        truncated_quotient(count * value, count) == value,
{
    if value >= 0 {
        assert(count * value >= 0 && (count * value) / count == value) by (nonlinear_arith)
            requires
                count > 0,
                value >= 0,
        ;
    } else {
        let positive = -value;
        assert(count * value < 0 && -(count * value) == count * positive && (count * positive)
            / count == positive) by (nonlinear_arith)
            requires
                count > 0,
                positive > 0,
                value == -positive,
        ;
    }
}

/// Estimates the gyroscope's zero-rate bias from readings taken while the
/// sensor is at rest: on each axis the readings are summed and the sum is
/// divided by their number, rounding toward zero.
pub fn calibrate_gyroscope(samples: &[I16x3]) -> (bias: (i16, i16, i16))
    requires
        samples@.len() > 0,
    ensures
        (bias.0 as int, bias.1 as int, bias.2 as int) == mean_bias(samples@),
{
    let count: usize = samples.len();
    let mut sum_x: i128 = 0;
    let mut sum_y: i128 = 0;
    let mut sum_z: i128 = 0;
    let mut taken: usize = 0;
    while taken < count
        invariant
            count == samples@.len(),
            taken <= count,
            (sum_x as int, sum_y as int, sum_z as int) == sample_sum(samples@.take(taken as int)),
        decreases count - taken,
    {
        let sample = samples[taken];
        proof {
            let seen = samples@.take(taken as int);
            let next = samples@.take(taken + 1);
            assert(next.drop_last() == seen);
            assert(next.last() == sample);
            lemma_sample_sum_bounds(seen);
        }
        sum_x = sum_x + sample.x as i128;
        sum_y = sum_y + sample.y as i128;
        sum_z = sum_z + sample.z as i128;
        taken = taken + 1;
    }
    let divisor: i128 = count as i128;
    proof {
        assert(samples@.take(count as int) == samples@);
        lemma_sample_sum_bounds(samples@);
        lemma_truncated_quotient_fits(sum_x as int, divisor as int);
        lemma_truncated_quotient_fits(sum_y as int, divisor as int);
        lemma_truncated_quotient_fits(sum_z as int, divisor as int);
    }
    ((sum_x / divisor) as i16, (sum_y / divisor) as i16, (sum_z / divisor) as i16)
}

} // verus!
