use marg_pipeline::calibration::calibrate_gyroscope;
use marg_pipeline::sample::I16x3;

fn reading(x: i16, y: i16, z: i16) -> I16x3 {
    I16x3 { x, y, z }
}

#[test]
fn constant_samples_give_that_reading() {
    let samples = vec![reading(100, -50, 200); 256];
    assert_eq!(calibrate_gyroscope(&samples), (100, -50, 200));
}

#[test]
fn constant_samples_of_any_count_give_that_reading() {
    for count in [1usize, 2, 3, 7, 255, 256, 257, 1000] {
        let samples = vec![reading(-3, 17, -32768); count];
        assert_eq!(calibrate_gyroscope(&samples), (-3, 17, -32768));
    }
}

#[test]
fn single_sample_is_its_own_bias() {
    assert_eq!(calibrate_gyroscope(&[reading(12, -34, 56)]), (12, -34, 56));
}

#[test]
fn positive_remainder_is_dropped() {
    // totals 7, 9, 1 over two samples
    let samples = [reading(3, 4, 0), reading(4, 5, 1)];
    assert_eq!(calibrate_gyroscope(&samples), (3, 4, 0));
}

#[test]
fn negative_quotient_rounds_toward_zero() {
    // totals -7, -9, -1 over two samples: -3, -4, 0, not the floors -4, -5, -1
    let samples = [reading(-3, -4, 0), reading(-4, -5, -1)];
    assert_eq!(calibrate_gyroscope(&samples), (-3, -4, 0));
}

#[test]
fn mean_of_mixed_samples() {
    // totals -5, 7, 10 over three samples
    let samples = [reading(1, 2, 3), reading(4, 5, 6), reading(-10, 0, 1)];
    assert_eq!(calibrate_gyroscope(&samples), (-1, 2, 3));
}

#[test]
fn axes_are_averaged_apart() {
    let samples = [reading(10, 0, 0), reading(0, 20, 0), reading(0, 0, 30), reading(2, 0, 2)];
    assert_eq!(calibrate_gyroscope(&samples), (3, 5, 8));
}

#[test]
fn extreme_counts_do_not_overflow() {
    let high = vec![reading(i16::MAX, i16::MAX, i16::MAX); 100_000];
    assert_eq!(calibrate_gyroscope(&high), (i16::MAX, i16::MAX, i16::MAX));
    let low = vec![reading(i16::MIN, i16::MIN, i16::MIN); 100_000];
    assert_eq!(calibrate_gyroscope(&low), (i16::MIN, i16::MIN, i16::MIN));
}

#[test]
fn opposite_extremes_cancel() {
    let samples = [reading(i16::MAX, i16::MIN, 1), reading(i16::MIN, i16::MAX, -1)];
    // totals -1, -1, 0
    assert_eq!(calibrate_gyroscope(&samples), (0, 0, 0));
}
