//! The integer front end of the Madgwick filter: what the filter was built
//! with, and the conversion of one cycle's raw readings into the counts it is
//! fed, bias removed and all three sensors in the gyroscope's frame.

use crate::sample::{I16x3, I32x3};
use vstd::prelude::*;

verus! {

/// Output data rate of the slowest sensor, the magnetometer, in hertz.
pub const SAMPLE_FREQ: u32 = 220;

/// By how much the cycle timer's clock is divided to give one cycle.
pub const PERIOD_DIVISOR: u32 = 32;

/// A gyroscope reading with the zero-rate bias taken off each axis. The
/// gyroscope defines the common frame, so no axis moves.
pub open spec fn bias_removed(raw: I16x3, bias: (i16, i16, i16)) -> I32x3 {
    I32x3 {
        x: (raw.x - bias.0) as i32,
        y: (raw.y - bias.1) as i32,
        z: (raw.z - bias.2) as i32,
    }
}

/// A reading of the accelerometer and magnetometer package expressed in the
/// gyroscope's frame: the package's y axis is the frame's x, the package's x
/// points against the frame's y, and z is shared.
pub open spec fn in_gyro_frame(raw: I16x3) -> I32x3 {
    I32x3 { x: raw.y as i32, y: (-raw.x) as i32, z: raw.z as i32 }
}

/// The rate, in hertz, at which the filter is stepped: the sensor rate times
/// the timer clock, over the period divisor, rounded down.
pub open spec fn effective_rate(pclk1_hz: u32) -> int {
    (SAMPLE_FREQ * pclk1_hz) / (PERIOD_DIVISOR as int)
}

/// Removes the zero-rate bias from a raw gyroscope reading.
pub fn remove_bias(raw: I16x3, bias: (i16, i16, i16)) -> (centered: I32x3)
    ensures
        centered == bias_removed(raw, bias),
        centered.x == raw.x - bias.0,
        centered.y == raw.y - bias.1,
        centered.z == raw.z - bias.2,
{
    I32x3 {
        x: raw.x as i32 - bias.0 as i32,
        y: raw.y as i32 - bias.1 as i32,
        z: raw.z as i32 - bias.2 as i32,
    }
}

/// Turns a raw accelerometer or magnetometer reading into the gyroscope's
/// frame.
pub fn to_gyro_frame(raw: I16x3) -> (aligned: I32x3)
    ensures
        aligned == in_gyro_frame(raw),
        aligned.x == raw.y,
        aligned.y == -raw.x,
        aligned.z == raw.z,
{
    I32x3 { x: raw.y as i32, y: -(raw.x as i32), z: raw.z as i32 }
}

/// One cycle's readings as the fusion step takes them: in counts, in the
/// gyroscope's frame, the gyroscope's with its bias removed.
#[derive(Clone, Copy, Debug, PartialEq, Eq, Structural)]
pub struct MargInput {
    /// Magnetometer.
    pub m: I32x3,
    /// Gyroscope (angular rate).
    pub ar: I32x3,
    /// Accelerometer (gravity).
    pub g: I32x3,
}

/// What the filter keeps between cycles besides its orientation estimate.
#[derive(Clone, Copy, Debug)]
pub struct MadgwickFilter {
    /// Steps per second; the integration step is its reciprocal.
    pub sample_rate_hz: u64,
    /// Zero-rate bias of the gyroscope, in counts.
    pub ar_bias: (i16, i16, i16),
}

impl MadgwickFilter {
    /// A filter stepped at the rate that the sensor rate, the timer clock
    /// `pclk1_hz` and the period divisor give, with the gyroscope bias found
    /// by calibration.
    pub fn new(pclk1_hz: u32, ar_bias: (i16, i16, i16)) -> (filter: Self)
        ensures
            filter.sample_rate_hz == effective_rate(pclk1_hz),
            filter.ar_bias == ar_bias,
    {
        let clock: u64 = pclk1_hz as u64;
        let product: u64 = SAMPLE_FREQ as u64 * clock;
        MadgwickFilter { sample_rate_hz: product / PERIOD_DIVISOR as u64, ar_bias }
    }

    /// Prepares one cycle's raw magnetometer, gyroscope and accelerometer
    /// readings for the fusion step.
    pub fn run_filter(&self, m: I16x3, ar: I16x3, g: I16x3) -> (input: MargInput)
        ensures
            input.m == in_gyro_frame(m),
            input.ar == bias_removed(ar, self.ar_bias),
            input.g == in_gyro_frame(g),
    {
        MargInput { m: to_gyro_frame(m), ar: remove_bias(ar, self.ar_bias), g: to_gyro_frame(g) }
    }
}

} // verus!
