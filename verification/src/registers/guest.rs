//! Aggregate guest register state.
use vstd::prelude::*;
use super::cr::ControlRegisters;
use super::descriptor::DescriptorTableRegisters;
use super::dr::DebugRegisters;
use super::gpr::GeneralPurposeRegisters;
use super::segment::SegmentRegisters;
use super::syscall::ExtendedControlRegisters;

verus! {

/// Complete guest register state.
#[derive(Clone, Copy)]
pub struct GuestRegisters {
    /// General-purpose registers.
    pub gprs: GeneralPurposeRegisters,
    /// Control registers (CR0, CR2, CR3, CR4, CR8).
    pub control_regs: ControlRegisters,
    /// Debug registers (DR0-DR3, DR6, DR7).
    pub debug_regs: DebugRegisters,
    /// Segment registers (CS, DS, ES, FS, GS, SS, TR, LDTR).
    pub segment_regs: SegmentRegisters,
    /// Descriptor table registers (GDTR, IDTR).
    pub descriptor_tables: DescriptorTableRegisters,
    /// Extended control registers (EFER).
    pub extended_control_regs: ExtendedControlRegisters,
    /// Instruction pointer.
    pub rip: u64,
    /// Flags register.
    pub rflags: u64,
}

} // verus!
