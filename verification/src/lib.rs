//! Host telemetry parsing and derivation.

pub mod counters;
pub mod cpu;
pub mod error;
pub mod fmt;
pub mod gpu;
pub mod memory;
pub mod number;
pub mod os_release;
pub mod source;
pub mod system;
pub mod text;
