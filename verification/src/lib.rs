//! Greenhouse controller core: calendar time-keeping, user preference
//! models, the cooperative polling scheduler, screen navigation, the
//! field-edit state machines, and the smoke-alarm latch.
//!
//! Peripheral access (sensor, display, buttons, actuators) lives outside
//! this crate; the functions here decide, on plain values, what the
//! control loop should do next.

pub mod alarm;
pub mod clock;
pub mod edit;
pub mod format;
pub mod preferences;
pub mod scheduler;
pub mod screen;
pub mod timer;
