//! XCR0 bits for XSAVE feature control (Intel SDM Vol 3A, Section 2.6).
use vstd::prelude::*;

verus! {

/// x87 FPU/MMX state (must always be 1).
pub const X87: u64 = 0x1;

/// SSE state (MXCSR and XMM0-XMM15).
pub const SSE: u64 = 0x2;

/// AVX state (upper halves of YMM0-YMM15).
pub const AVX: u64 = 0x4;

/// Standard XCR0 value for SSE + AVX support.
pub const SSE_AVX: u64 = X87 | SSE | AVX;

} // verus!
