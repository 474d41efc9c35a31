//! VM exit handling: exit reasons and qualifications, and the exit handlers.
pub mod cr;
pub mod emulation;
pub mod ept;
pub mod handle;
pub mod helpers;
pub mod interrupts;
pub mod qualifications;
pub mod reasons;
pub mod time;
pub mod vmcall;
