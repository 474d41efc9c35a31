//! VM exit reasons: the basic exit reasons of Intel SDM Vol 3D, Appendix C,
//! and the synthetic reasons this hypervisor reports to userspace.
use vstd::prelude::*;

verus! {

/// Reason of a VM exit, or of a return to userspace.
#[derive(Debug, Clone, Copy, PartialEq, Eq, Structural)]
pub enum ExitReason {
    /// Exception or NMI.
    ExceptionNmi,
    /// External interrupt.
    ExternalInterrupt,
    /// Triple fault.
    TripleFault,
    /// INIT signal.
    Init,
    /// Start-up IPI.
    Sipi,
    /// Interrupt window opened.
    InterruptWindow,
    /// NMI window opened.
    NmiWindow,
    /// CPUID.
    Cpuid,
    /// HLT.
    Hlt,
    /// RDPMC.
    Rdpmc,
    /// RDTSC.
    Rdtsc,
    /// VMCALL.
    Vmcall,
    /// VMCLEAR.
    Vmclear,
    /// VMLAUNCH.
    Vmlaunch,
    /// VMPTRLD.
    Vmptrld,
    /// VMPTRST.
    Vmptrst,
    /// VMREAD.
    Vmread,
    /// VMRESUME.
    Vmresume,
    /// VMWRITE.
    Vmwrite,
    /// VMXOFF.
    Vmxoff,
    /// VMXON.
    Vmxon,
    /// Control-register access.
    CrAccess,
    /// I/O instruction.
    IoInstruction,
    /// RDMSR.
    MsrRead,
    /// WRMSR.
    MsrWrite,
    /// VM entry failed: invalid guest state.
    InvalidGuestState,
    /// MWAIT.
    Mwait,
    /// Monitor trap flag.
    MonitorTrapFlag,
    /// MONITOR.
    Monitor,
    /// TPR below threshold.
    TprBelowThreshold,
    /// APIC access.
    ApicAccess,
    /// EPT violation.
    EptViolation,
    /// RDTSCP.
    Rdtscp,
    /// VMX-preemption timer expired.
    VmxPreemptionTimer,
    /// XSETBV.
    Xsetbv,
    /// APIC write.
    ApicWrite,
    /// RDRAND.
    Rdrand,
    /// RDSEED.
    Rdseed,
    /// Synthetic: the guest requested shutdown by hypercall.
    VmcallShutdown,
    /// Synthetic: the guest requested a snapshot by hypercall.
    VmcallSnapshot,
    /// Synthetic: the guest registered a feedback buffer.
    VmcallFeedbackBuffer,
    /// Synthetic: the copy-on-write page pool is exhausted.
    PoolExhausted,
    /// Synthetic: the emulated TSC reached the stop threshold.
    StopTscReached,
    /// Synthetic: the exit log buffer is full.
    LogBufferFull,
    /// Any other basic exit reason, by number.
    Other(u32),
}

impl ExitReason {
    /// Numeric code: the basic exit reason, or a synthetic code from 0x10000.
    pub open spec fn spec_code(self) -> u32 {
        match self {
            ExitReason::ExceptionNmi => 0x0,
            ExitReason::ExternalInterrupt => 0x1,
            ExitReason::TripleFault => 0x2,
            ExitReason::Init => 0x3,
            ExitReason::Sipi => 0x4,
            ExitReason::InterruptWindow => 0x7,
            ExitReason::NmiWindow => 0x8,
            ExitReason::Cpuid => 0xa,
            ExitReason::Hlt => 0xc,
            ExitReason::Rdpmc => 0xf,
            ExitReason::Rdtsc => 0x10,
            ExitReason::Vmcall => 0x12,
            ExitReason::Vmclear => 0x13,
            ExitReason::Vmlaunch => 0x14,
            ExitReason::Vmptrld => 0x15,
            ExitReason::Vmptrst => 0x16,
            ExitReason::Vmread => 0x17,
            ExitReason::Vmresume => 0x18,
            ExitReason::Vmwrite => 0x19,
            ExitReason::Vmxoff => 0x1a,
            ExitReason::Vmxon => 0x1b,
            ExitReason::CrAccess => 0x1c,
            ExitReason::IoInstruction => 0x1e,
            ExitReason::MsrRead => 0x1f,
            ExitReason::MsrWrite => 0x20,
            ExitReason::InvalidGuestState => 0x21,
            ExitReason::Mwait => 0x24,
            ExitReason::MonitorTrapFlag => 0x25,
            ExitReason::Monitor => 0x27,
            ExitReason::TprBelowThreshold => 0x2b,
            ExitReason::ApicAccess => 0x2c,
            ExitReason::EptViolation => 0x30,
            ExitReason::Rdtscp => 0x33,
            ExitReason::VmxPreemptionTimer => 0x34,
            ExitReason::Xsetbv => 0x37,
            ExitReason::ApicWrite => 0x38,
            ExitReason::Rdrand => 0x39,
            ExitReason::Rdseed => 0x3d,
            ExitReason::VmcallShutdown => 0x10000,
            ExitReason::VmcallSnapshot => 0x10001,
            ExitReason::VmcallFeedbackBuffer => 0x10002,
            ExitReason::PoolExhausted => 0x10003,
            ExitReason::StopTscReached => 0x10004,
            ExitReason::LogBufferFull => 0x10005,
            ExitReason::Other(c) => c,
        }
    }

    /// Numeric code: the basic exit reason, or a synthetic code from 0x10000.
    pub fn code(&self) -> (r: u32)
        ensures
            r == self.spec_code(),
    {
        match self {
            ExitReason::ExceptionNmi => 0x0,
            ExitReason::ExternalInterrupt => 0x1,
            ExitReason::TripleFault => 0x2,
            ExitReason::Init => 0x3,
            ExitReason::Sipi => 0x4,
            ExitReason::InterruptWindow => 0x7,
            ExitReason::NmiWindow => 0x8,
            ExitReason::Cpuid => 0xa,
            ExitReason::Hlt => 0xc,
            ExitReason::Rdpmc => 0xf,
            ExitReason::Rdtsc => 0x10,
            ExitReason::Vmcall => 0x12,
            ExitReason::Vmclear => 0x13,
            ExitReason::Vmlaunch => 0x14,
            ExitReason::Vmptrld => 0x15,
            ExitReason::Vmptrst => 0x16,
            ExitReason::Vmread => 0x17,
            ExitReason::Vmresume => 0x18,
            ExitReason::Vmwrite => 0x19,
            ExitReason::Vmxoff => 0x1a,
            ExitReason::Vmxon => 0x1b,
            ExitReason::CrAccess => 0x1c,
            ExitReason::IoInstruction => 0x1e,
            ExitReason::MsrRead => 0x1f,
            ExitReason::MsrWrite => 0x20,
            ExitReason::InvalidGuestState => 0x21,
            ExitReason::Mwait => 0x24,
            ExitReason::MonitorTrapFlag => 0x25,
            ExitReason::Monitor => 0x27,
            ExitReason::TprBelowThreshold => 0x2b,
            ExitReason::ApicAccess => 0x2c,
            ExitReason::EptViolation => 0x30,
            ExitReason::Rdtscp => 0x33,
            ExitReason::VmxPreemptionTimer => 0x34,
            ExitReason::Xsetbv => 0x37,
            ExitReason::ApicWrite => 0x38,
            ExitReason::Rdrand => 0x39,
            ExitReason::Rdseed => 0x3d,
            ExitReason::VmcallShutdown => 0x10000,
            ExitReason::VmcallSnapshot => 0x10001,
            ExitReason::VmcallFeedbackBuffer => 0x10002,
            ExitReason::PoolExhausted => 0x10003,
            ExitReason::StopTscReached => 0x10004,
            ExitReason::LogBufferFull => 0x10005,
            ExitReason::Other(c) => *c,
        }
    }

    /// The exit reason held in bits 15:0 of the VM-exit reason field.
    pub open spec fn spec_from_basic(basic: u16) -> ExitReason {
        if basic == 0 {
            ExitReason::ExceptionNmi
        } else if basic == 1 {
            ExitReason::ExternalInterrupt
        } else if basic == 2 {
            ExitReason::TripleFault
        } else if basic == 3 {
            ExitReason::Init
        } else if basic == 4 {
            ExitReason::Sipi
        } else if basic == 7 {
            ExitReason::InterruptWindow
        } else if basic == 8 {
            ExitReason::NmiWindow
        } else if basic == 10 {
            ExitReason::Cpuid
        } else if basic == 12 {
            ExitReason::Hlt
        } else if basic == 15 {
            ExitReason::Rdpmc
        } else if basic == 16 {
            ExitReason::Rdtsc
        } else if basic == 18 {
            ExitReason::Vmcall
        } else if basic == 19 {
            ExitReason::Vmclear
        } else if basic == 20 {
            ExitReason::Vmlaunch
        } else if basic == 21 {
            ExitReason::Vmptrld
        } else if basic == 22 {
            ExitReason::Vmptrst
        } else if basic == 23 {
            ExitReason::Vmread
        } else if basic == 24 {
            ExitReason::Vmresume
        } else if basic == 25 {
            ExitReason::Vmwrite
        } else if basic == 26 {
            ExitReason::Vmxoff
        } else if basic == 27 {
            ExitReason::Vmxon
        } else if basic == 28 {
            ExitReason::CrAccess
        } else if basic == 30 {
            ExitReason::IoInstruction
        } else if basic == 31 {
            ExitReason::MsrRead
        } else if basic == 32 {
            ExitReason::MsrWrite
        } else if basic == 33 {
            ExitReason::InvalidGuestState
        } else if basic == 36 {
            ExitReason::Mwait
        } else if basic == 37 {
            ExitReason::MonitorTrapFlag
        } else if basic == 39 {
            ExitReason::Monitor
        } else if basic == 43 {
            ExitReason::TprBelowThreshold
        } else if basic == 44 {
            ExitReason::ApicAccess
        } else if basic == 48 {
            ExitReason::EptViolation
        } else if basic == 51 {
            ExitReason::Rdtscp
        } else if basic == 52 {
            ExitReason::VmxPreemptionTimer
        } else if basic == 55 {
            ExitReason::Xsetbv
        } else if basic == 56 {
            ExitReason::ApicWrite
        } else if basic == 57 {
            ExitReason::Rdrand
        } else if basic == 61 {
            ExitReason::Rdseed
        } else {
            ExitReason::Other(basic as u32)
        }
    }

    /// The exit reason held in bits 15:0 of the VM-exit reason field.
    pub fn from_basic(basic: u16) -> (r: ExitReason)
        ensures
            r == Self::spec_from_basic(basic),
    {
        if basic == 0 {
            ExitReason::ExceptionNmi
        } else if basic == 1 {
            ExitReason::ExternalInterrupt
        } else if basic == 2 {
            ExitReason::TripleFault
        } else if basic == 3 {
            ExitReason::Init
        } else if basic == 4 {
            ExitReason::Sipi
        } else if basic == 7 {
            ExitReason::InterruptWindow
        } else if basic == 8 {
            ExitReason::NmiWindow
        } else if basic == 10 {
            ExitReason::Cpuid
        } else if basic == 12 {
            ExitReason::Hlt
        } else if basic == 15 {
            ExitReason::Rdpmc
        } else if basic == 16 {
            ExitReason::Rdtsc
        } else if basic == 18 {
            ExitReason::Vmcall
        } else if basic == 19 {
            ExitReason::Vmclear
        } else if basic == 20 {
            ExitReason::Vmlaunch
        } else if basic == 21 {
            ExitReason::Vmptrld
        } else if basic == 22 {
            ExitReason::Vmptrst
        } else if basic == 23 {
            ExitReason::Vmread
        } else if basic == 24 {
            ExitReason::Vmresume
        } else if basic == 25 {
            ExitReason::Vmwrite
        } else if basic == 26 {
            ExitReason::Vmxoff
        } else if basic == 27 {
            ExitReason::Vmxon
        } else if basic == 28 {
            ExitReason::CrAccess
        } else if basic == 30 {
            ExitReason::IoInstruction
        } else if basic == 31 {
            ExitReason::MsrRead
        } else if basic == 32 {
            ExitReason::MsrWrite
        } else if basic == 33 {
            ExitReason::InvalidGuestState
        } else if basic == 36 {
            ExitReason::Mwait
        } else if basic == 37 {
            ExitReason::MonitorTrapFlag
        } else if basic == 39 {
            ExitReason::Monitor
        } else if basic == 43 {
            ExitReason::TprBelowThreshold
        } else if basic == 44 {
            ExitReason::ApicAccess
        } else if basic == 48 {
            ExitReason::EptViolation
        } else if basic == 51 {
            ExitReason::Rdtscp
        } else if basic == 52 {
            ExitReason::VmxPreemptionTimer
        } else if basic == 55 {
            ExitReason::Xsetbv
        } else if basic == 56 {
            ExitReason::ApicWrite
        } else if basic == 57 {
            ExitReason::Rdrand
        } else if basic == 61 {
            ExitReason::Rdseed
        } else {
            ExitReason::Other(basic as u32)
        }
    }
}

} // verus!
