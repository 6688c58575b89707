//! Per-device protocol logic: what notifications do to the device state,
//! and what is written for each request.

pub mod venty;
pub mod volcano;
pub mod crafty;
pub mod control;
