//! VMs that own their guest memory.
pub mod root;
pub mod traits;
