//! State of a VM shared by its exit handlers.
pub mod log_buffer;
pub mod msr_bitmap;
pub mod serial_output;
pub mod stats;
pub mod vm;
pub mod xsave;
