//! Protocol logic for Storz & Bickel vaporizers (Volcano Hybrid, Venty,
//! Veazy, Crafty+) spoken over Bluetooth Low Energy: the device models,
//! the state that notifications update, the byte layouts of commands and
//! readings, and the choice of what to write for each request.

pub mod device;
pub mod error;
pub mod codec;
pub mod uuids;
pub mod discovery;
pub mod protocol;

pub use device::{DeviceModel, DeviceState, HeaterMode};
pub use error::StorzError;
