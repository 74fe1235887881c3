//! Monotonic time source and deadline-based wake scheduler for a cooperative
//! task runtime that runs directly on firmware boot services.
//!
//! The crate has three parts: a clock that derives monotonic nanoseconds from
//! a hardware cycle counter after a one-time calibration, a fixed-capacity
//! pool of reusable wake-context records, and a scheduler that turns an
//! absolute deadline into the relative trigger a firmware one-shot timer
//! understands. The surrounding program performs the hardware reads and the
//! firmware calls and hands their plain results to this crate.

pub mod clock;
pub mod driver;
pub mod errors;
pub mod handle;
pub mod pool;
