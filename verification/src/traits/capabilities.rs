//! VMX capabilities: the control settings and fixed CR bits the processor
//! allows, and how they are derived from the VMX capability MSRs.
use vstd::prelude::*;
use crate::registers::cr::{Cr0, Cr4};
use crate::registers::msr;
use crate::registers::msr_defs::{MsrAccess, MsrError};
use crate::traits::controls::{cpu_based, pin_based, secondary_exec, vm_entry, vm_exit};

verus! {

/// VMX capabilities read from the processor (Intel SDM Vol 3C, Appendix A),
/// with each control field already adjusted to what the processor allows.
#[derive(Debug, Clone, Copy)]
pub struct VmxCapabilities {
    /// Pin-based VM-execution controls (adjusted).
    pub pin_based_exec_ctrl: u32,
    /// Primary processor-based VM-execution controls (adjusted).
    pub cpu_based_exec_ctrl: u32,
    /// Secondary processor-based VM-execution controls (adjusted).
    pub cpu_based_exec_ctrl2: u32,
    /// VM-exit controls (adjusted).
    pub vmexit_ctrl: u32,
    /// VM-entry controls (adjusted).
    pub vmentry_ctrl: u32,
    /// CR0 bits that must be 1 in VMX operation.
    pub cr0_fixed0: u64,
    /// CR0 bits that may be 1 in VMX operation.
    pub cr0_fixed1: u64,
    /// CR4 bits that must be 1 in VMX operation.
    pub cr4_fixed0: u64,
    /// CR4 bits that may be 1 in VMX operation.
    pub cr4_fixed1: u64,
    /// EPT is available.
    pub has_ept: bool,
    /// VPID is available.
    pub has_vpid: bool,
    /// IA32_PERF_CAPABILITIES.PEBS_FMT (bits 11:8).
    pub pebs_format: u8,
    /// IA32_PERF_CAPABILITIES.PEBS_BASELINE (bit 14).
    pub pebs_baseline: bool,
    /// IA32_PERF_CAPABILITIES.PEBS_TRAP (bit 6).
    pub pebs_trap: bool,
}

impl VmxCapabilities {
    /// Every field zero or false.
    pub fn zero() -> (r: Self)
        ensures
            r == Self::spec_zero(),
    {
        VmxCapabilities {
            pin_based_exec_ctrl: 0,
            cpu_based_exec_ctrl: 0,
            cpu_based_exec_ctrl2: 0,
            vmexit_ctrl: 0,
            vmentry_ctrl: 0,
            cr0_fixed0: 0,
            cr0_fixed1: 0,
            cr4_fixed0: 0,
            cr4_fixed1: 0,
            has_ept: false,
            has_vpid: false,
            pebs_format: 0,
            pebs_baseline: false,
            pebs_trap: false,
        }
    }

    /// Every field zero or false.
    pub open spec fn spec_zero() -> Self {
        VmxCapabilities {
            pin_based_exec_ctrl: 0,
            cpu_based_exec_ctrl: 0,
            cpu_based_exec_ctrl2: 0,
            vmexit_ctrl: 0,
            vmentry_ctrl: 0,
            cr0_fixed0: 0,
            cr0_fixed1: 0,
            cr4_fixed0: 0,
            cr4_fixed1: 0,
            has_ept: false,
            has_vpid: false,
            pebs_format: 0,
            pebs_baseline: false,
            pebs_trap: false,
        }
    }

    /// Whether the processor has what precise VM exits through EPT-friendly
    /// PEBS need: PEBS_BASELINE and a PEBS record format of at least 4.
    pub fn supports_precise_pebs_exits(&self) -> (r: bool)
        ensures
            r == (self.pebs_baseline && self.pebs_format >= 4),
    {
        self.pebs_baseline && self.pebs_format >= 4
    }
}

/// Basic VMX information (IA32_VMX_BASIC).
#[derive(Debug, Clone, Copy, PartialEq, Eq, Structural)]
pub struct VmxBasic {
    /// VMCS revision identifier (bits 30:0).
    pub vmcs_revision_id: u32,
    /// VMCS region size in bytes (bits 44:32).
    pub vmcs_size: u16,
    /// VMCS memory type is write-back (bit 50).
    pub mem_type_wb: bool,
    /// VM exits due to INS/OUTS report instruction information (bit 54).
    pub io_exit_info: bool,
    /// The "true" control MSRs are available (bit 55).
    pub vmx_flex_controls: bool,
}

/// The fields of IA32_VMX_BASIC.
pub open spec fn spec_decode_vmx_basic(v: u64) -> VmxBasic {
    VmxBasic {
        vmcs_revision_id: (v & 0x7fff_ffff) as u32,
        vmcs_size: ((v >> 32u64) & 0x1fff) as u16,
        mem_type_wb: ((v >> 50u64) & 1) != 0,
        io_exit_info: ((v >> 54u64) & 1) != 0,
        vmx_flex_controls: ((v >> 55u64) & 1) != 0,
    }
}

/// Decode IA32_VMX_BASIC.
pub fn decode_vmx_basic(v: u64) -> (r: VmxBasic)
    ensures
        r == spec_decode_vmx_basic(v),
{
    VmxBasic {
        vmcs_revision_id: (v & 0x7fff_ffff) as u32,
        vmcs_size: ((v >> 32) & 0x1fff) as u16,
        mem_type_wb: ((v >> 50) & 1) != 0,
        io_exit_info: ((v >> 54) & 1) != 0,
        vmx_flex_controls: ((v >> 55) & 1) != 0,
    }
}

/// Read and decode IA32_VMX_BASIC; a failed read is passed on.
pub fn vmx_load_basic_info<M: MsrAccess>(msr_access: &M) -> (r: Result<VmxBasic, MsrError>)
    ensures
        r is Ok ==> exists|v: u64| r == Ok::<VmxBasic, MsrError>(spec_decode_vmx_basic(v)),
{
    match msr_access.read_msr(msr::IA32_VMX_BASIC) {
        Ok(v) => Ok(decode_vmx_basic(v)),
        Err(e) => Err(e),
    }
}

/// A requested control setting adjusted to a capability MSR: bits that must
/// be 1 (low half) are set, bits that may not be 1 (clear in the high half)
/// are cleared.
pub open spec fn spec_adjust_controls(msr_value: u64, requested: u32) -> u32 {
    (requested | (msr_value as u32)) & ((msr_value >> 32u64) as u32)
}

/// Adjust a requested control setting to a capability MSR.
pub fn adjust_controls(msr_value: u64, requested: u32) -> (r: u32)
    ensures
        r == spec_adjust_controls(msr_value, requested),
{
    let allowed0 = msr_value as u32;
    let allowed1 = (msr_value >> 32) as u32;
    let mut adjusted = requested | allowed0;
    adjusted = adjusted & allowed1;
    adjusted
}

/// CR0 with the bits VMX operation fixes: `(cr0 | fixed0) & fixed1`.
pub fn fix_cr0(cr0: &Cr0, caps: &VmxCapabilities) -> (r: Cr0)
    ensures
        r@ == (cr0@ | caps.cr0_fixed0) & caps.cr0_fixed1,
{
    Cr0::new((cr0.bits() | caps.cr0_fixed0) & caps.cr0_fixed1)
}

/// CR4 with the bits VMX operation fixes: `(cr4 | fixed0) & fixed1`.
pub fn fix_cr4(cr4: &Cr4, caps: &VmxCapabilities) -> (r: Cr4)
    ensures
        r@ == (cr4@ | caps.cr4_fixed0) & caps.cr4_fixed1,
{
    Cr4::new((cr4.bits() | caps.cr4_fixed0) & caps.cr4_fixed1)
}

/// Pin-based controls the hypervisor asks for.
pub const REQUESTED_PIN_BASED: u32 = pin_based::EXT_INTR_EXITING | pin_based::NMI_EXITING
    | pin_based::PREEMPTION_TIMER;

/// Primary processor-based controls the hypervisor asks for.
pub const REQUESTED_CPU_BASED: u32 = cpu_based::HLT_EXITING | cpu_based::MWAIT_EXITING
    | cpu_based::MONITOR_EXITING | cpu_based::RDPMC_EXITING | cpu_based::RDTSC_EXITING
    | cpu_based::USE_MSR_BITMAPS | cpu_based::ACTIVATE_SECONDARY_CONTROLS
    | cpu_based::UNCOND_IO_EXITING | cpu_based::CR3_LOAD_EXITING | cpu_based::CR3_STORE_EXITING
    | cpu_based::CR8_LOAD_EXITING | cpu_based::CR8_STORE_EXITING;

/// Secondary processor-based controls the hypervisor asks for.
pub const REQUESTED_SECONDARY: u32 = secondary_exec::ENABLE_EPT | secondary_exec::ENABLE_VPID
    | secondary_exec::UNRESTRICTED_GUEST | secondary_exec::ENABLE_RDTSCP
    | secondary_exec::ENABLE_INVPCID | secondary_exec::RDRAND_EXITING
    | secondary_exec::RDSEED_EXITING;

/// VM-exit controls the hypervisor asks for.
pub const REQUESTED_VM_EXIT: u32 = vm_exit::HOST_ADDR_SPACE_SIZE | vm_exit::SAVE_IA32_EFER
    | vm_exit::LOAD_IA32_EFER;

/// VM-entry controls the hypervisor asks for.
pub const REQUESTED_VM_ENTRY: u32 = vm_entry::IA32E_MODE | vm_entry::LOAD_IA32_EFER;

/// The values read from the VMX capability MSRs (`None`: the read failed or,
/// for the secondary controls, was not made).
#[derive(Debug, Clone, Copy)]
pub struct CapabilityMsrs {
    pub pinbased: Option<u64>,
    pub procbased: Option<u64>,
    pub procbased2: Option<u64>,
    pub exit: Option<u64>,
    pub entry: Option<u64>,
    pub cr0_fixed0: Option<u64>,
    pub cr0_fixed1: Option<u64>,
    pub cr4_fixed0: Option<u64>,
    pub cr4_fixed1: Option<u64>,
}

/// A control setting adjusted to an MSR value that was read, 0 otherwise.
pub open spec fn spec_adjust_or_zero(v: Option<u64>, requested: u32) -> u32 {
    match v {
        Some(m) => spec_adjust_controls(m, requested),
        None => 0,
    }
}

/// The capabilities derived from the capability MSRs: each control adjusted
/// from its request (0 where the MSR could not be read), the secondary
/// controls only when the primary ones activate them, EPT and VPID as the
/// secondary controls allow, the fixed CR bits as read (0 otherwise), PEBS
/// fields 0.
pub open spec fn spec_capabilities(m: CapabilityMsrs) -> VmxCapabilities {
    let cpu = spec_adjust_or_zero(m.procbased, REQUESTED_CPU_BASED);
    let cpu2 = if cpu & cpu_based::ACTIVATE_SECONDARY_CONTROLS != 0 {
        spec_adjust_or_zero(m.procbased2, REQUESTED_SECONDARY)
    } else {
        0
    };
    VmxCapabilities {
        pin_based_exec_ctrl: spec_adjust_or_zero(m.pinbased, REQUESTED_PIN_BASED),
        cpu_based_exec_ctrl: cpu,
        cpu_based_exec_ctrl2: cpu2,
        vmexit_ctrl: spec_adjust_or_zero(m.exit, REQUESTED_VM_EXIT),
        vmentry_ctrl: spec_adjust_or_zero(m.entry, REQUESTED_VM_ENTRY),
        cr0_fixed0: spec_or_zero_u64(m.cr0_fixed0),
        cr0_fixed1: spec_or_zero_u64(m.cr0_fixed1),
        cr4_fixed0: spec_or_zero_u64(m.cr4_fixed0),
        cr4_fixed1: spec_or_zero_u64(m.cr4_fixed1),
        has_ept: cpu2 & secondary_exec::ENABLE_EPT != 0,
        has_vpid: cpu2 & secondary_exec::ENABLE_VPID != 0,
        pebs_format: 0,
        pebs_baseline: false,
        pebs_trap: false,
    }
}

/// The value read, 0 when the read failed.
pub open spec fn spec_or_zero_u64(v: Option<u64>) -> u64 {
    match v {
        Some(x) => x,
        None => 0,
    }
}

/// Derive the capabilities from the capability MSR values.
pub fn capabilities_from_msrs(m: &CapabilityMsrs) -> (r: VmxCapabilities)
    ensures
        r == spec_capabilities(*m),
{
    let pin = match m.pinbased {
        Some(v) => adjust_controls(v, REQUESTED_PIN_BASED),
        None => 0,
    };
    let cpu = match m.procbased {
        Some(v) => adjust_controls(v, REQUESTED_CPU_BASED),
        None => 0,
    };
    let cpu2 = if cpu & cpu_based::ACTIVATE_SECONDARY_CONTROLS != 0 {
        match m.procbased2 {
            Some(v) => adjust_controls(v, REQUESTED_SECONDARY),
            None => 0,
        }
    } else {
        0
    };
    let exit = match m.exit {
        Some(v) => adjust_controls(v, REQUESTED_VM_EXIT),
        None => 0,
    };
    let entry = match m.entry {
        Some(v) => adjust_controls(v, REQUESTED_VM_ENTRY),
        None => 0,
    };
    VmxCapabilities {
        pin_based_exec_ctrl: pin,
        cpu_based_exec_ctrl: cpu,
        cpu_based_exec_ctrl2: cpu2,
        vmexit_ctrl: exit,
        vmentry_ctrl: entry,
        cr0_fixed0: value_or_zero(m.cr0_fixed0),
        cr0_fixed1: value_or_zero(m.cr0_fixed1),
        cr4_fixed0: value_or_zero(m.cr4_fixed0),
        cr4_fixed1: value_or_zero(m.cr4_fixed1),
        has_ept: cpu2 & secondary_exec::ENABLE_EPT != 0,
        has_vpid: cpu2 & secondary_exec::ENABLE_VPID != 0,
        pebs_format: 0,
        pebs_baseline: false,
        pebs_trap: false,
    }
}

/// The value read, 0 when the read failed.
fn value_or_zero(v: Option<u64>) -> (r: u64)
    ensures
        r == spec_or_zero_u64(v),
{
    match v {
        Some(x) => x,
        None => 0,
    }
}

/// The value of an MSR read, `None` when it failed.
fn read_msr_opt<M: MsrAccess>(msr_access: &M, address: u32) -> (r: Option<u64>) {
    match msr_access.read_msr(address) {
        Ok(v) => Some(v),
        Err(_) => None,
    }
}

/// Read the capability MSRs (the secondary controls only when the primary
/// ones can activate them) and derive the capabilities from them.
pub fn read_capabilities<M: MsrAccess>(msr_access: &M) -> (r: VmxCapabilities)
    ensures
        exists|m: CapabilityMsrs| r == spec_capabilities(m),
{
    let pinbased = read_msr_opt(msr_access, msr::IA32_VMX_PINBASED_CTLS);
    let procbased = read_msr_opt(msr_access, msr::IA32_VMX_PROCBASED_CTLS);
    let cpu = match procbased {
        Some(v) => adjust_controls(v, REQUESTED_CPU_BASED),
        None => 0,
    };
    let procbased2 = if cpu & cpu_based::ACTIVATE_SECONDARY_CONTROLS != 0 {
        read_msr_opt(msr_access, msr::IA32_VMX_PROCBASED_CTLS2)
    } else {
        None
    };
    let m = CapabilityMsrs {
        pinbased,
        procbased,
        procbased2,
        exit: read_msr_opt(msr_access, msr::IA32_VMX_EXIT_CTLS),
        entry: read_msr_opt(msr_access, msr::IA32_VMX_ENTRY_CTLS),
        cr0_fixed0: read_msr_opt(msr_access, msr::IA32_VMX_CR0_FIXED0),
        cr0_fixed1: read_msr_opt(msr_access, msr::IA32_VMX_CR0_FIXED1),
        cr4_fixed0: read_msr_opt(msr_access, msr::IA32_VMX_CR4_FIXED0),
        cr4_fixed1: read_msr_opt(msr_access, msr::IA32_VMX_CR4_FIXED1),
    };
    capabilities_from_msrs(&m)
}

/// IA32_FEATURE_CONTROL lock bit.
pub const FEAT_CTL_LOCKED: u64 = 1 << 0;

/// IA32_FEATURE_CONTROL "VMX outside SMX" enable bit.
pub const FEAT_CTL_VMX_ENABLED_OUTSIDE_SMX: u64 = 1 << 2;

/// Errors while enabling VMX in IA32_FEATURE_CONTROL.
#[derive(Debug, Clone, Copy)]
pub enum VmxConfigureFeatureControlError {
    /// Reading the MSR failed.
    MsrReadFailed(MsrError),
    /// The MSR is locked with VMX outside SMX disabled.
    Locked,
    /// Writing the MSR failed.
    MsrWriteFailed(MsrError),
}

/// What to do with IA32_FEATURE_CONTROL holding `value`: nothing
/// (`Ok(None)`) when it is locked with VMX enabled, `Locked` when it is
/// locked otherwise, else write it back with both bits set.
pub fn feature_control_update(value: u64) -> (r: Result<Option<u64>, VmxConfigureFeatureControlError>)
    ensures
        (value & FEAT_CTL_LOCKED != 0 && value & FEAT_CTL_VMX_ENABLED_OUTSIDE_SMX != 0) ==> r
            == Ok::<Option<u64>, VmxConfigureFeatureControlError>(None),
        (value & FEAT_CTL_LOCKED != 0 && value & FEAT_CTL_VMX_ENABLED_OUTSIDE_SMX == 0) ==> r
            matches Err(VmxConfigureFeatureControlError::Locked),
        value & FEAT_CTL_LOCKED == 0 ==> r == Ok::<Option<u64>, VmxConfigureFeatureControlError>(
            Some(value | FEAT_CTL_VMX_ENABLED_OUTSIDE_SMX | FEAT_CTL_LOCKED),
        ),
{
    if (value & FEAT_CTL_LOCKED) != 0 && (value & FEAT_CTL_VMX_ENABLED_OUTSIDE_SMX) != 0 {
        return Ok(None);
    }
    if (value & FEAT_CTL_LOCKED) != 0 {
        return Err(VmxConfigureFeatureControlError::Locked);
    }
    Ok(Some(value | FEAT_CTL_VMX_ENABLED_OUTSIDE_SMX | FEAT_CTL_LOCKED))
}

/// Make sure IA32_FEATURE_CONTROL allows VMXON outside SMX, setting and
/// locking it when it is not locked yet.
pub fn configure_feature_control<M: MsrAccess>(msr_access: &M) -> (r: Result<(), VmxConfigureFeatureControlError>) {
    let value = match msr_access.read_msr(msr::IA32_FEATURE_CONTROL) {
        Ok(v) => v,
        Err(e) => return Err(VmxConfigureFeatureControlError::MsrReadFailed(e)),
    };
    match feature_control_update(value) {
        Ok(None) => Ok(()),
        Ok(Some(new_value)) => match msr_access.write_msr(msr::IA32_FEATURE_CONTROL, new_value) {
            Ok(()) => Ok(()),
            Err(e) => Err(VmxConfigureFeatureControlError::MsrWriteFailed(e)),
        },
        Err(e) => Err(e),
    }
}

} // verus!
