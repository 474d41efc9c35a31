//! Guest and host register save area used across VM entry and exit.
use vstd::prelude::*;

verus! {

/// Guest and host general-purpose registers saved around VM entry/exit, the
/// launch state and the XSAVE configuration. RSP is not included: the guest
/// RSP lives in the VMCS and the host RSP points to this structure.
pub struct VmxContext {
    pub guest_rax: u64,
    pub guest_rbx: u64,
    pub guest_rcx: u64,
    pub guest_rdx: u64,
    pub guest_rsi: u64,
    pub guest_rdi: u64,
    pub guest_rbp: u64,
    pub guest_r8: u64,
    pub guest_r9: u64,
    pub guest_r10: u64,
    pub guest_r11: u64,
    pub guest_r12: u64,
    pub guest_r13: u64,
    pub guest_r14: u64,
    pub guest_r15: u64,
    pub host_rax: u64,
    pub host_rbx: u64,
    pub host_rcx: u64,
    pub host_rdx: u64,
    pub host_rsi: u64,
    pub host_rdi: u64,
    pub host_rbp: u64,
    pub host_r8: u64,
    pub host_r9: u64,
    pub host_r10: u64,
    pub host_r11: u64,
    pub host_r12: u64,
    pub host_r13: u64,
    pub host_r14: u64,
    pub host_r15: u64,
    /// 0: the next entry uses VMLAUNCH; 1: VMRESUME.
    pub launched: u32,
    pub _pad: u32,
    /// Guest XSAVE area address (0 skips XSAVE).
    pub guest_xsave_ptr: u64,
    /// Host XSAVE area address (0 skips XSAVE).
    pub host_xsave_ptr: u64,
    /// XCR0 mask for XSAVE/XRSTOR, also the guest's XCR0.
    pub xcr0_mask: u64,
    /// Host XCR0, restored on VM exit.
    pub host_xcr0: u64,
    /// Guest CR2 (not part of the VMCS).
    pub guest_cr2: u64,
}

impl VmxContext {
    /// Everything zero.
    pub open spec fn spec_zeroed() -> Self {
        VmxContext {
            guest_rax: 0,
            guest_rbx: 0,
            guest_rcx: 0,
            guest_rdx: 0,
            guest_rsi: 0,
            guest_rdi: 0,
            guest_rbp: 0,
            guest_r8: 0,
            guest_r9: 0,
            guest_r10: 0,
            guest_r11: 0,
            guest_r12: 0,
            guest_r13: 0,
            guest_r14: 0,
            guest_r15: 0,
            host_rax: 0,
            host_rbx: 0,
            host_rcx: 0,
            host_rdx: 0,
            host_rsi: 0,
            host_rdi: 0,
            host_rbp: 0,
            host_r8: 0,
            host_r9: 0,
            host_r10: 0,
            host_r11: 0,
            host_r12: 0,
            host_r13: 0,
            host_r14: 0,
            host_r15: 0,
            launched: 0,
            _pad: 0,
            guest_xsave_ptr: 0,
            host_xsave_ptr: 0,
            xcr0_mask: 0,
            host_xcr0: 0,
            guest_cr2: 0,
        }
    }

    /// A context with all registers zeroed.
    pub fn new() -> (r: Self)
        ensures
            r == Self::spec_zeroed(),
    {
        VmxContext {
            guest_rax: 0,
            guest_rbx: 0,
            guest_rcx: 0,
            guest_rdx: 0,
            guest_rsi: 0,
            guest_rdi: 0,
            guest_rbp: 0,
            guest_r8: 0,
            guest_r9: 0,
            guest_r10: 0,
            guest_r11: 0,
            guest_r12: 0,
            guest_r13: 0,
            guest_r14: 0,
            guest_r15: 0,
            host_rax: 0,
            host_rbx: 0,
            host_rcx: 0,
            host_rdx: 0,
            host_rsi: 0,
            host_rdi: 0,
            host_rbp: 0,
            host_r8: 0,
            host_r9: 0,
            host_r10: 0,
            host_r11: 0,
            host_r12: 0,
            host_r13: 0,
            host_r14: 0,
            host_r15: 0,
            launched: 0,
            _pad: 0,
            guest_xsave_ptr: 0,
            host_xsave_ptr: 0,
            xcr0_mask: 0,
            host_xcr0: 0,
            guest_cr2: 0,
        }
    }
}

} // verus!
