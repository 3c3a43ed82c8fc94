[package]
name = "marg_pipeline"
version = "0.1.0"
edition = "2021"
publish = false

[dependencies]
aligned = "0.3"
byteorder = { version = "1", default-features = false }
cast = { version = "0.2", default-features = false }
cobs = "0.1"
cortex-m = "0.6"
cortex-m-rt = "0.6"
embedded-hal = "0.2"
f3 = "0.6"
madgwick = "0.1"
nb = "0.1"
panic-semihosting = "0.5"
