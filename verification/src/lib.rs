//! A verified core for driving an OpenCL device.
//!
//! The crate decides; it never calls the driver. Every operation is split
//! into the call to make and what to do with the driver's reply, so that the
//! order of calls, the sizes handed to the driver and the fate of every
//! handle are proved, and only the calls themselves are left to the caller.
//!
//! - [`runtime`]: the error kinds, the session and its setup, build and
//!   teardown.
//! - [`data`]: device buffers and their transfers.
//! - [`kernel`]: kernel creation, argument binding and dispatch.
//! - [`driver`]: the calls and replies exchanged with the driver.
pub mod data;
pub mod driver;
pub mod kernel;
pub mod runtime;
