//! VMCS field encodings organized by width (Intel SDM Vol 3A, Appendix B).
//!
//! Encoding bits: 14:13 width (0=16-bit, 1=64-bit, 2=32-bit, 3=natural),
//! 11:10 type (control, exit information, guest state, host state), 9:1 index,
//! 0 access type (full/high for 64-bit fields).
use vstd::prelude::*;

verus! {

/// 16-bit VMCS fields (encoding pattern: 0000_xxxx_xxxx_xxx0).
#[derive(Debug, Clone, Copy, PartialEq, Eq, Structural)]
pub enum VmcsField16 {
    /// Virtual-processor identifier (VPID).
    VirtualProcessorId,
    /// Page-modification log index.
    PmlIndex,
    /// Guest ES selector.
    GuestEsSelector,
    /// Guest CS selector.
    GuestCsSelector,
    /// Guest SS selector.
    GuestSsSelector,
    /// Guest DS selector.
    GuestDsSelector,
    /// Guest FS selector.
    GuestFsSelector,
    /// Guest GS selector.
    GuestGsSelector,
    /// Guest LDTR selector.
    GuestLdtrSelector,
    /// Guest TR selector.
    GuestTrSelector,
    /// Host ES selector.
    HostEsSelector,
    /// Host CS selector.
    HostCsSelector,
    /// Host SS selector.
    HostSsSelector,
    /// Host DS selector.
    HostDsSelector,
    /// Host FS selector.
    HostFsSelector,
    /// Host GS selector.
    HostGsSelector,
    /// Host TR selector.
    HostTrSelector,
}

impl VmcsField16 {
    /// The field encoding used by VMREAD/VMWRITE.
    pub open spec fn spec_encoding(self) -> u32 {
        match self {
            VmcsField16::VirtualProcessorId => 0x0000,
            VmcsField16::PmlIndex => 0x0812,
            VmcsField16::GuestEsSelector => 0x0800,
            VmcsField16::GuestCsSelector => 0x0802,
            VmcsField16::GuestSsSelector => 0x0804,
            VmcsField16::GuestDsSelector => 0x0806,
            VmcsField16::GuestFsSelector => 0x0808,
            VmcsField16::GuestGsSelector => 0x080A,
            VmcsField16::GuestLdtrSelector => 0x080C,
            VmcsField16::GuestTrSelector => 0x080E,
            VmcsField16::HostEsSelector => 0x0C00,
            VmcsField16::HostCsSelector => 0x0C02,
            VmcsField16::HostSsSelector => 0x0C04,
            VmcsField16::HostDsSelector => 0x0C06,
            VmcsField16::HostFsSelector => 0x0C08,
            VmcsField16::HostGsSelector => 0x0C0A,
            VmcsField16::HostTrSelector => 0x0C0C,
        }
    }

    /// The field encoding used by VMREAD/VMWRITE.
    pub fn encoding(&self) -> (r: u32)
        ensures
            r == self.spec_encoding(),
    {
        match self {
            VmcsField16::VirtualProcessorId => 0x0000,
            VmcsField16::PmlIndex => 0x0812,
            VmcsField16::GuestEsSelector => 0x0800,
            VmcsField16::GuestCsSelector => 0x0802,
            VmcsField16::GuestSsSelector => 0x0804,
            VmcsField16::GuestDsSelector => 0x0806,
            VmcsField16::GuestFsSelector => 0x0808,
            VmcsField16::GuestGsSelector => 0x080A,
            VmcsField16::GuestLdtrSelector => 0x080C,
            VmcsField16::GuestTrSelector => 0x080E,
            VmcsField16::HostEsSelector => 0x0C00,
            VmcsField16::HostCsSelector => 0x0C02,
            VmcsField16::HostSsSelector => 0x0C04,
            VmcsField16::HostDsSelector => 0x0C06,
            VmcsField16::HostFsSelector => 0x0C08,
            VmcsField16::HostGsSelector => 0x0C0A,
            VmcsField16::HostTrSelector => 0x0C0C,
        }
    }
}

/// 64-bit VMCS fields (encoding pattern: 0010_xxxx_xxxx_xxxA).
///
/// Note: For 64-bit fields, bit 0 indicates full (0) or high (1) access.
/// These encodings are for full access. Add 1 for high 32-bits only.
#[derive(Debug, Clone, Copy, PartialEq, Eq, Structural)]
pub enum VmcsField64 {
    /// Address of MSR bitmaps.
    MsrBitmapAddr,
    /// VM-exit MSR-store list address (MSRs saved into memory on VM exit).
    VmExitMsrStoreAddr,
    /// VM-entry MSR-load list address (MSRs loaded from memory on VM entry).
    VmEntryMsrLoadAddr,
    /// Page-modification log address.
    PmlAddress,
    /// EPT pointer (EPTP).
    EptPointer,
    /// Guest-physical address.
    GuestPhysicalAddr,
    /// VMCS link pointer.
    VmcsLinkPointer,
    /// Guest IA32_DEBUGCTL.
    GuestIa32Debugctl,
    /// Guest IA32_PAT.
    GuestIa32Pat,
    /// Guest IA32_EFER.
    GuestIa32Efer,
    /// Guest IA32_PERF_GLOBAL_CTRL (for hardware perf counter switching).
    GuestIa32PerfGlobalCtrl,
    /// Host IA32_PAT.
    HostIa32Pat,
    /// Host IA32_EFER.
    HostIa32Efer,
    /// Host IA32_PERF_GLOBAL_CTRL (for hardware perf counter switching).
    HostIa32PerfGlobalCtrl,
}

impl VmcsField64 {
    /// The field encoding used by VMREAD/VMWRITE.
    pub open spec fn spec_encoding(self) -> u32 {
        match self {
            VmcsField64::MsrBitmapAddr => 0x2004,
            VmcsField64::VmExitMsrStoreAddr => 0x2006,
            VmcsField64::VmEntryMsrLoadAddr => 0x200A,
            VmcsField64::PmlAddress => 0x200E,
            VmcsField64::EptPointer => 0x201A,
            VmcsField64::GuestPhysicalAddr => 0x2400,
            VmcsField64::VmcsLinkPointer => 0x2800,
            VmcsField64::GuestIa32Debugctl => 0x2802,
            VmcsField64::GuestIa32Pat => 0x2804,
            VmcsField64::GuestIa32Efer => 0x2806,
            VmcsField64::GuestIa32PerfGlobalCtrl => 0x2808,
            VmcsField64::HostIa32Pat => 0x2C00,
            VmcsField64::HostIa32Efer => 0x2C02,
            VmcsField64::HostIa32PerfGlobalCtrl => 0x2C04,
        }
    }

    /// The field encoding used by VMREAD/VMWRITE.
    pub fn encoding(&self) -> (r: u32)
        ensures
            r == self.spec_encoding(),
    {
        match self {
            VmcsField64::MsrBitmapAddr => 0x2004,
            VmcsField64::VmExitMsrStoreAddr => 0x2006,
            VmcsField64::VmEntryMsrLoadAddr => 0x200A,
            VmcsField64::PmlAddress => 0x200E,
            VmcsField64::EptPointer => 0x201A,
            VmcsField64::GuestPhysicalAddr => 0x2400,
            VmcsField64::VmcsLinkPointer => 0x2800,
            VmcsField64::GuestIa32Debugctl => 0x2802,
            VmcsField64::GuestIa32Pat => 0x2804,
            VmcsField64::GuestIa32Efer => 0x2806,
            VmcsField64::GuestIa32PerfGlobalCtrl => 0x2808,
            VmcsField64::HostIa32Pat => 0x2C00,
            VmcsField64::HostIa32Efer => 0x2C02,
            VmcsField64::HostIa32PerfGlobalCtrl => 0x2C04,
        }
    }
}

/// 32-bit VMCS fields (encoding pattern: 0100_xxxx_xxxx_xxx0).
#[derive(Debug, Clone, Copy, PartialEq, Eq, Structural)]
pub enum VmcsField32 {
    /// Pin-based VM-execution controls.
    PinBasedVmExecControls,
    /// Primary processor-based VM-execution controls.
    PrimaryProcBasedVmExecControls,
    /// Exception bitmap.
    ExceptionBitmap,
    /// Page-fault error-code mask.
    PageFaultErrorCodeMask,
    /// Page-fault error-code match.
    PageFaultErrorCodeMatch,
    /// CR3-target count.
    Cr3TargetCount,
    /// Primary VM-exit controls.
    PrimaryVmExitControls,
    /// VM-exit MSR-store list count.
    VmExitMsrStoreCount,
    /// VM-entry controls.
    VmEntryControls,
    /// VM-entry MSR-load list count.
    VmEntryMsrLoadCount,
    /// VM-entry interruption-information field.
    VmEntryInterruptionInfo,
    /// VM-entry exception error code.
    VmEntryExceptionErrorCode,
    /// Secondary processor-based VM-execution controls.
    SecondaryProcBasedVmExecControls,
    /// VM-instruction error.
    VmInstructionError,
    /// Exit reason.
    VmExitReason,
    /// VM-exit interruption information.
    VmExitInterruptionInfo,
    /// VM-exit interruption error code.
    VmExitInterruptionErrorCode,
    /// IDT-vectoring information field.
    IdtVectoringInfo,
    /// IDT-vectoring error code.
    IdtVectoringErrorCode,
    /// VM-exit instruction length.
    VmExitInstructionLen,
    /// VM-exit instruction information (for certain instructions like RDRAND).
    VmExitInstructionInfo,
    /// Guest ES limit.
    GuestEsLimit,
    /// Guest CS limit.
    GuestCsLimit,
    /// Guest SS limit.
    GuestSsLimit,
    /// Guest DS limit.
    GuestDsLimit,
    /// Guest FS limit.
    GuestFsLimit,
    /// Guest GS limit.
    GuestGsLimit,
    /// Guest LDTR limit.
    GuestLdtrLimit,
    /// Guest TR limit.
    GuestTrLimit,
    /// Guest GDTR limit.
    GuestGdtrLimit,
    /// Guest IDTR limit.
    GuestIdtrLimit,
    /// Guest ES access rights.
    GuestEsAccessRights,
    /// Guest CS access rights.
    GuestCsAccessRights,
    /// Guest SS access rights.
    GuestSsAccessRights,
    /// Guest DS access rights.
    GuestDsAccessRights,
    /// Guest FS access rights.
    GuestFsAccessRights,
    /// Guest GS access rights.
    GuestGsAccessRights,
    /// Guest LDTR access rights.
    GuestLdtrAccessRights,
    /// Guest TR access rights.
    GuestTrAccessRights,
    /// Guest interruptibility state.
    GuestInterruptibilityState,
    /// Guest activity state.
    GuestActivityState,
    /// Guest IA32_SYSENTER_CS.
    GuestIa32SysenterCs,
    /// VMX-preemption timer value.
    VmxPreemptionTimerValue,
    /// Host IA32_SYSENTER_CS.
    HostIa32SysenterCs,
}

impl VmcsField32 {
    /// The field encoding used by VMREAD/VMWRITE.
    pub open spec fn spec_encoding(self) -> u32 {
        match self {
            VmcsField32::PinBasedVmExecControls => 0x4000,
            VmcsField32::PrimaryProcBasedVmExecControls => 0x4002,
            VmcsField32::ExceptionBitmap => 0x4004,
            VmcsField32::PageFaultErrorCodeMask => 0x4006,
            VmcsField32::PageFaultErrorCodeMatch => 0x4008,
            VmcsField32::Cr3TargetCount => 0x400A,
            VmcsField32::PrimaryVmExitControls => 0x400C,
            VmcsField32::VmExitMsrStoreCount => 0x400E,
            VmcsField32::VmEntryControls => 0x4012,
            VmcsField32::VmEntryMsrLoadCount => 0x4014,
            VmcsField32::VmEntryInterruptionInfo => 0x4016,
            VmcsField32::VmEntryExceptionErrorCode => 0x4018,
            VmcsField32::SecondaryProcBasedVmExecControls => 0x401E,
            VmcsField32::VmInstructionError => 0x4400,
            VmcsField32::VmExitReason => 0x4402,
            VmcsField32::VmExitInterruptionInfo => 0x4404,
            VmcsField32::VmExitInterruptionErrorCode => 0x4406,
            VmcsField32::IdtVectoringInfo => 0x4408,
            VmcsField32::IdtVectoringErrorCode => 0x440A,
            VmcsField32::VmExitInstructionLen => 0x440C,
            VmcsField32::VmExitInstructionInfo => 0x440E,
            VmcsField32::GuestEsLimit => 0x4800,
            VmcsField32::GuestCsLimit => 0x4802,
            VmcsField32::GuestSsLimit => 0x4804,
            VmcsField32::GuestDsLimit => 0x4806,
            VmcsField32::GuestFsLimit => 0x4808,
            VmcsField32::GuestGsLimit => 0x480A,
            VmcsField32::GuestLdtrLimit => 0x480C,
            VmcsField32::GuestTrLimit => 0x480E,
            VmcsField32::GuestGdtrLimit => 0x4810,
            VmcsField32::GuestIdtrLimit => 0x4812,
            VmcsField32::GuestEsAccessRights => 0x4814,
            VmcsField32::GuestCsAccessRights => 0x4816,
            VmcsField32::GuestSsAccessRights => 0x4818,
            VmcsField32::GuestDsAccessRights => 0x481A,
            VmcsField32::GuestFsAccessRights => 0x481C,
            VmcsField32::GuestGsAccessRights => 0x481E,
            VmcsField32::GuestLdtrAccessRights => 0x4820,
            VmcsField32::GuestTrAccessRights => 0x4822,
            VmcsField32::GuestInterruptibilityState => 0x4824,
            VmcsField32::GuestActivityState => 0x4826,
            VmcsField32::GuestIa32SysenterCs => 0x482A,
            VmcsField32::VmxPreemptionTimerValue => 0x482E,
            VmcsField32::HostIa32SysenterCs => 0x4C00,
        }
    }

    /// The field encoding used by VMREAD/VMWRITE.
    pub fn encoding(&self) -> (r: u32)
        ensures
            r == self.spec_encoding(),
    {
        match self {
            VmcsField32::PinBasedVmExecControls => 0x4000,
            VmcsField32::PrimaryProcBasedVmExecControls => 0x4002,
            VmcsField32::ExceptionBitmap => 0x4004,
            VmcsField32::PageFaultErrorCodeMask => 0x4006,
            VmcsField32::PageFaultErrorCodeMatch => 0x4008,
            VmcsField32::Cr3TargetCount => 0x400A,
            VmcsField32::PrimaryVmExitControls => 0x400C,
            VmcsField32::VmExitMsrStoreCount => 0x400E,
            VmcsField32::VmEntryControls => 0x4012,
            VmcsField32::VmEntryMsrLoadCount => 0x4014,
            VmcsField32::VmEntryInterruptionInfo => 0x4016,
            VmcsField32::VmEntryExceptionErrorCode => 0x4018,
            VmcsField32::SecondaryProcBasedVmExecControls => 0x401E,
            VmcsField32::VmInstructionError => 0x4400,
            VmcsField32::VmExitReason => 0x4402,
            VmcsField32::VmExitInterruptionInfo => 0x4404,
            VmcsField32::VmExitInterruptionErrorCode => 0x4406,
            VmcsField32::IdtVectoringInfo => 0x4408,
            VmcsField32::IdtVectoringErrorCode => 0x440A,
            VmcsField32::VmExitInstructionLen => 0x440C,
            VmcsField32::VmExitInstructionInfo => 0x440E,
            VmcsField32::GuestEsLimit => 0x4800,
            VmcsField32::GuestCsLimit => 0x4802,
            VmcsField32::GuestSsLimit => 0x4804,
            VmcsField32::GuestDsLimit => 0x4806,
            VmcsField32::GuestFsLimit => 0x4808,
            VmcsField32::GuestGsLimit => 0x480A,
            VmcsField32::GuestLdtrLimit => 0x480C,
            VmcsField32::GuestTrLimit => 0x480E,
            VmcsField32::GuestGdtrLimit => 0x4810,
            VmcsField32::GuestIdtrLimit => 0x4812,
            VmcsField32::GuestEsAccessRights => 0x4814,
            VmcsField32::GuestCsAccessRights => 0x4816,
            VmcsField32::GuestSsAccessRights => 0x4818,
            VmcsField32::GuestDsAccessRights => 0x481A,
            VmcsField32::GuestFsAccessRights => 0x481C,
            VmcsField32::GuestGsAccessRights => 0x481E,
            VmcsField32::GuestLdtrAccessRights => 0x4820,
            VmcsField32::GuestTrAccessRights => 0x4822,
            VmcsField32::GuestInterruptibilityState => 0x4824,
            VmcsField32::GuestActivityState => 0x4826,
            VmcsField32::GuestIa32SysenterCs => 0x482A,
            VmcsField32::VmxPreemptionTimerValue => 0x482E,
            VmcsField32::HostIa32SysenterCs => 0x4C00,
        }
    }
}

/// Natural-width VMCS fields (encoding pattern: 0110_xxxx_xxxx_xxx0).
///
/// Natural-width fields are 64-bit on processors that support Intel 64
/// architecture and 32-bit on processors that do not.
#[derive(Debug, Clone, Copy, PartialEq, Eq, Structural)]
pub enum VmcsFieldNatural {
    /// CR0 guest/host mask.
    Cr0GuestHostMask,
    /// CR4 guest/host mask.
    Cr4GuestHostMask,
    /// CR0 read shadow.
    Cr0ReadShadow,
    /// CR4 read shadow.
    Cr4ReadShadow,
    /// Exit qualification.
    ExitQualification,
    /// Guest-linear address.
    GuestLinearAddr,
    /// Guest CR0.
    GuestCr0,
    /// Guest CR3.
    GuestCr3,
    /// Guest CR4.
    GuestCr4,
    /// Guest ES base.
    GuestEsBase,
    /// Guest CS base.
    GuestCsBase,
    /// Guest SS base.
    GuestSsBase,
    /// Guest DS base.
    GuestDsBase,
    /// Guest FS base.
    GuestFsBase,
    /// Guest GS base.
    GuestGsBase,
    /// Guest LDTR base.
    GuestLdtrBase,
    /// Guest TR base.
    GuestTrBase,
    /// Guest GDTR base.
    GuestGdtrBase,
    /// Guest IDTR base.
    GuestIdtrBase,
    /// Guest DR7.
    GuestDr7,
    /// Guest RSP.
    GuestRsp,
    /// Guest RIP.
    GuestRip,
    /// Guest RFLAGS.
    GuestRflags,
    /// Guest pending debug exceptions.
    GuestPendingDebugExceptions,
    /// Guest IA32_SYSENTER_ESP.
    GuestIa32SysenterEsp,
    /// Guest IA32_SYSENTER_EIP.
    GuestIa32SysenterEip,
    /// Host CR0.
    HostCr0,
    /// Host CR3.
    HostCr3,
    /// Host CR4.
    HostCr4,
    /// Host FS base.
    HostFsBase,
    /// Host GS base.
    HostGsBase,
    /// Host TR base.
    HostTrBase,
    /// Host GDTR base.
    HostGdtrBase,
    /// Host IDTR base.
    HostIdtrBase,
    /// Host IA32_SYSENTER_ESP.
    HostIa32SysenterEsp,
    /// Host IA32_SYSENTER_EIP.
    HostIa32SysenterEip,
    /// Host RSP.
    HostRsp,
    /// Host RIP.
    HostRip,
}

impl VmcsFieldNatural {
    /// The field encoding used by VMREAD/VMWRITE.
    pub open spec fn spec_encoding(self) -> u32 {
        match self {
            VmcsFieldNatural::Cr0GuestHostMask => 0x6000,
            VmcsFieldNatural::Cr4GuestHostMask => 0x6002,
            VmcsFieldNatural::Cr0ReadShadow => 0x6004,
            VmcsFieldNatural::Cr4ReadShadow => 0x6006,
            VmcsFieldNatural::ExitQualification => 0x6400,
            VmcsFieldNatural::GuestLinearAddr => 0x640A,
            VmcsFieldNatural::GuestCr0 => 0x6800,
            VmcsFieldNatural::GuestCr3 => 0x6802,
            VmcsFieldNatural::GuestCr4 => 0x6804,
            VmcsFieldNatural::GuestEsBase => 0x6806,
            VmcsFieldNatural::GuestCsBase => 0x6808,
            VmcsFieldNatural::GuestSsBase => 0x680A,
            VmcsFieldNatural::GuestDsBase => 0x680C,
            VmcsFieldNatural::GuestFsBase => 0x680E,
            VmcsFieldNatural::GuestGsBase => 0x6810,
            VmcsFieldNatural::GuestLdtrBase => 0x6812,
            VmcsFieldNatural::GuestTrBase => 0x6814,
            VmcsFieldNatural::GuestGdtrBase => 0x6816,
            VmcsFieldNatural::GuestIdtrBase => 0x6818,
            VmcsFieldNatural::GuestDr7 => 0x681A,
            VmcsFieldNatural::GuestRsp => 0x681C,
            VmcsFieldNatural::GuestRip => 0x681E,
            VmcsFieldNatural::GuestRflags => 0x6820,
            VmcsFieldNatural::GuestPendingDebugExceptions => 0x6822,
            VmcsFieldNatural::GuestIa32SysenterEsp => 0x6824,
            VmcsFieldNatural::GuestIa32SysenterEip => 0x6826,
            VmcsFieldNatural::HostCr0 => 0x6C00,
            VmcsFieldNatural::HostCr3 => 0x6C02,
            VmcsFieldNatural::HostCr4 => 0x6C04,
            VmcsFieldNatural::HostFsBase => 0x6C06,
            VmcsFieldNatural::HostGsBase => 0x6C08,
            VmcsFieldNatural::HostTrBase => 0x6C0A,
            VmcsFieldNatural::HostGdtrBase => 0x6C0C,
            VmcsFieldNatural::HostIdtrBase => 0x6C0E,
            VmcsFieldNatural::HostIa32SysenterEsp => 0x6C10,
            VmcsFieldNatural::HostIa32SysenterEip => 0x6C12,
            VmcsFieldNatural::HostRsp => 0x6C14,
            VmcsFieldNatural::HostRip => 0x6C16,
        }
    }

    /// The field encoding used by VMREAD/VMWRITE.
    pub fn encoding(&self) -> (r: u32)
        ensures
            r == self.spec_encoding(),
    {
        match self {
            VmcsFieldNatural::Cr0GuestHostMask => 0x6000,
            VmcsFieldNatural::Cr4GuestHostMask => 0x6002,
            VmcsFieldNatural::Cr0ReadShadow => 0x6004,
            VmcsFieldNatural::Cr4ReadShadow => 0x6006,
            VmcsFieldNatural::ExitQualification => 0x6400,
            VmcsFieldNatural::GuestLinearAddr => 0x640A,
            VmcsFieldNatural::GuestCr0 => 0x6800,
            VmcsFieldNatural::GuestCr3 => 0x6802,
            VmcsFieldNatural::GuestCr4 => 0x6804,
            VmcsFieldNatural::GuestEsBase => 0x6806,
            VmcsFieldNatural::GuestCsBase => 0x6808,
            VmcsFieldNatural::GuestSsBase => 0x680A,
            VmcsFieldNatural::GuestDsBase => 0x680C,
            VmcsFieldNatural::GuestFsBase => 0x680E,
            VmcsFieldNatural::GuestGsBase => 0x6810,
            VmcsFieldNatural::GuestLdtrBase => 0x6812,
            VmcsFieldNatural::GuestTrBase => 0x6814,
            VmcsFieldNatural::GuestGdtrBase => 0x6816,
            VmcsFieldNatural::GuestIdtrBase => 0x6818,
            VmcsFieldNatural::GuestDr7 => 0x681A,
            VmcsFieldNatural::GuestRsp => 0x681C,
            VmcsFieldNatural::GuestRip => 0x681E,
            VmcsFieldNatural::GuestRflags => 0x6820,
            VmcsFieldNatural::GuestPendingDebugExceptions => 0x6822,
            VmcsFieldNatural::GuestIa32SysenterEsp => 0x6824,
            VmcsFieldNatural::GuestIa32SysenterEip => 0x6826,
            VmcsFieldNatural::HostCr0 => 0x6C00,
            VmcsFieldNatural::HostCr3 => 0x6C02,
            VmcsFieldNatural::HostCr4 => 0x6C04,
            VmcsFieldNatural::HostFsBase => 0x6C06,
            VmcsFieldNatural::HostGsBase => 0x6C08,
            VmcsFieldNatural::HostTrBase => 0x6C0A,
            VmcsFieldNatural::HostGdtrBase => 0x6C0C,
            VmcsFieldNatural::HostIdtrBase => 0x6C0E,
            VmcsFieldNatural::HostIa32SysenterEsp => 0x6C10,
            VmcsFieldNatural::HostIa32SysenterEip => 0x6C12,
            VmcsFieldNatural::HostRsp => 0x6C14,
            VmcsFieldNatural::HostRip => 0x6C16,
        }
    }
}

} // verus!
