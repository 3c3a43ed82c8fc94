//! Integer core of a MARG attitude-estimation loop: gyroscope calibration,
//! frame alignment of raw sensor counts, telemetry framing and the cycle scheduler.

pub mod calibration;
pub mod framing;
pub mod madgwick_filter;
pub mod sample;
pub mod scheduler;
pub mod telemetry;
