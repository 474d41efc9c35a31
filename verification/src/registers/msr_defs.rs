//! MSR access errors and the trait through which the host reads and writes MSRs.
use vstd::prelude::*;

verus! {

/// Error returned by MSR read/write operations (RDMSR/WRMSR #GP(0)).
#[derive(Debug, Clone, Copy, PartialEq, Eq, Structural)]
pub enum MsrError {
    /// The MSR address is reserved or unimplemented.
    InvalidAddress,
}

/// Reading and writing model-specific registers (RDMSR/WRMSR, CPL 0).
///
/// Implemented by the platform (real hardware access) and by test doubles.
pub trait MsrAccess {
    /// Read the 64-bit value of the MSR at `address`.
    fn read_msr(&self, address: u32) -> Result<u64, MsrError>;

    /// Write `value` to the MSR at `address`.
    fn write_msr(&self, address: u32, value: u64) -> Result<(), MsrError>;
}

} // verus!
