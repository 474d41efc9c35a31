//! Hardware and platform abstractions.
pub mod capabilities;
pub mod controls;
pub mod instruction_counter;
pub mod registers;
pub mod tlb;
pub mod vmx_context;
pub mod vpid;
