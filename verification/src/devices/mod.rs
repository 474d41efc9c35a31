//! Emulated device state.
pub mod apic;
pub mod random;
pub mod serial;
