//! Register abstractions for x86-64 virtualization.
pub mod cr;
pub mod descriptor;
pub mod dr;
pub mod gpr;
pub mod guest;
pub mod msr;
pub mod msr_defs;
pub mod segment;
pub mod syscall;
pub mod xcr0;
