//! Register-level driver for the LM75 family of I2C temperature sensors and
//! thermal watchdogs: bus address selection, the fixed-point temperature
//! codec, the configuration register bitfield and the driver façade.

use vstd::prelude::*;

pub mod address;
pub mod codec;
pub mod config;
pub mod device;

pub use address::{Address, PinState};
pub use codec::Resolution;
pub use config::{Config, FaultQueue, OsMode, OsPolarity, SampleRate};
pub use device::{Error, I2cBus, Lm75};
