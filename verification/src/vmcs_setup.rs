//! Initial VMCS contents: the host-state area and the execution controls.
use vstd::prelude::*;
use crate::fields::{VmcsField16, VmcsField32, VmcsField64, VmcsFieldNatural};
use crate::host::HostState;
use crate::traits::capabilities::VmxCapabilities;
use crate::traits::controls::{cpu_based, pin_based, secondary_exec};
use crate::traits::vpid::{allocate_vpid, spec_vpid_allocated, spec_vpid_available, VpidAllocator};
use crate::vmcs::{MockVmcs, VmcsView, VmcsWriteError};
use crate::exits::cr::spec_tlb_after;
use crate::traits::tlb::TlbControl;

verus! {

/// Error of VMCS setup.
#[derive(Debug, Clone, Copy)]
pub enum VmcsSetupError {
    /// Writing the host-state area failed.
    HostState(VmcsWriteError),
    /// Writing the execution controls failed.
    Controls(VmcsWriteError),
    /// Writing the EPT pointer failed.
    EptPointer(VmcsWriteError),
}

/// Exception bitmap installed at setup: only machine checks (#MC) exit.
pub const SETUP_EXCEPTION_BITMAP: u32 = 1 << 18;

/// VMX-preemption timer value installed at setup (about 10 ms).
pub const SETUP_PREEMPTION_TIMER: u32 = 0x100000;

/// The VMCS contents after `setup_host_state`.
pub open spec fn spec_host_state(v: VmcsView, host: HostState) -> VmcsView {
    v.set_natural(VmcsFieldNatural::HostCr0, host.cr0).set_natural(
        VmcsFieldNatural::HostCr3,
        host.cr3,
    ).set_natural(VmcsFieldNatural::HostCr4, host.cr4).set16(
        VmcsField16::HostCsSelector,
        host.cs_selector,
    ).set16(VmcsField16::HostSsSelector, host.ss_selector).set16(
        VmcsField16::HostDsSelector,
        host.ds_selector,
    ).set16(VmcsField16::HostEsSelector, host.es_selector).set16(
        VmcsField16::HostFsSelector,
        host.fs_selector,
    ).set16(VmcsField16::HostGsSelector, host.gs_selector).set16(
        VmcsField16::HostTrSelector,
        host.tr_selector,
    ).set_natural(VmcsFieldNatural::HostFsBase, host.fs_base).set_natural(
        VmcsFieldNatural::HostGsBase,
        host.gs_base,
    ).set_natural(VmcsFieldNatural::HostTrBase, host.tr_base).set_natural(
        VmcsFieldNatural::HostGdtrBase,
        host.gdtr_base,
    ).set_natural(VmcsFieldNatural::HostIdtrBase, host.idtr_base).set32(
        VmcsField32::HostIa32SysenterCs,
        host.sysenter_cs,
    ).set_natural(VmcsFieldNatural::HostIa32SysenterEsp, host.sysenter_esp).set_natural(
        VmcsFieldNatural::HostIa32SysenterEip,
        host.sysenter_eip,
    ).set64(VmcsField64::HostIa32Efer, host.efer).set64(VmcsField64::HostIa32Pat, host.pat).set_natural(
        VmcsFieldNatural::HostRsp,
        host.rsp,
    ).set_natural(VmcsFieldNatural::HostRip, host.rip).set64(
        VmcsField64::VmcsLinkPointer,
        u64::MAX,
    )
}

/// Write the host-state area: control registers, selectors, bases,
/// SYSENTER MSRs, EFER, PAT, the exit handler's RSP and RIP, and a VMCS link
/// pointer of all ones.
pub fn setup_host_state(vmcs: &mut MockVmcs, host: &HostState) -> (r: Result<(), VmcsWriteError>)
    ensures
        r is Ok,
        final(vmcs)@ == spec_host_state(old(vmcs)@, *host),
{
    vmcs.write_natural(VmcsFieldNatural::HostCr0, host.cr0)?;
    vmcs.write_natural(VmcsFieldNatural::HostCr3, host.cr3)?;
    vmcs.write_natural(VmcsFieldNatural::HostCr4, host.cr4)?;
    vmcs.write16(VmcsField16::HostCsSelector, host.cs_selector)?;
    vmcs.write16(VmcsField16::HostSsSelector, host.ss_selector)?;
    vmcs.write16(VmcsField16::HostDsSelector, host.ds_selector)?;
    vmcs.write16(VmcsField16::HostEsSelector, host.es_selector)?;
    vmcs.write16(VmcsField16::HostFsSelector, host.fs_selector)?;
    vmcs.write16(VmcsField16::HostGsSelector, host.gs_selector)?;
    vmcs.write16(VmcsField16::HostTrSelector, host.tr_selector)?;
    vmcs.write_natural(VmcsFieldNatural::HostFsBase, host.fs_base)?;
    vmcs.write_natural(VmcsFieldNatural::HostGsBase, host.gs_base)?;
    vmcs.write_natural(VmcsFieldNatural::HostTrBase, host.tr_base)?;
    vmcs.write_natural(VmcsFieldNatural::HostGdtrBase, host.gdtr_base)?;
    vmcs.write_natural(VmcsFieldNatural::HostIdtrBase, host.idtr_base)?;
    vmcs.write32(VmcsField32::HostIa32SysenterCs, host.sysenter_cs)?;
    vmcs.write_natural(VmcsFieldNatural::HostIa32SysenterEsp, host.sysenter_esp)?;
    vmcs.write_natural(VmcsFieldNatural::HostIa32SysenterEip, host.sysenter_eip)?;
    vmcs.write64(VmcsField64::HostIa32Efer, host.efer)?;
    vmcs.write64(VmcsField64::HostIa32Pat, host.pat)?;
    vmcs.write_natural(VmcsFieldNatural::HostRsp, host.rsp)?;
    vmcs.write_natural(VmcsFieldNatural::HostRip, host.rip)?;
    vmcs.write64(VmcsField64::VmcsLinkPointer, u64::MAX)?;
    Ok(())
}

/// Bits of CR0/CR4 owned by the host (guest writes exit): those fixed to
/// 1 or to 0 in both fixed MSRs.
pub open spec fn spec_guest_host_mask(fixed0: u64, fixed1: u64) -> u64 {
    (fixed0 & fixed1) | (!fixed0 & !fixed1)
}

/// Whether setup allocates a VPID: secondary controls active with VPID on.
pub open spec fn spec_setup_uses_vpid(caps: VmxCapabilities) -> bool {
    caps.cpu_based_exec_ctrl & cpu_based::ACTIVATE_SECONDARY_CONTROLS != 0
        && caps.cpu_based_exec_ctrl2 & secondary_exec::ENABLE_VPID != 0
}

/// The VMCS contents after `setup_controls` (with `vpid` the VPID it
/// allocated, when it allocates one).
pub open spec fn spec_controls(
    v: VmcsView,
    msr_bitmap_addr: Option<u64>,
    caps: VmxCapabilities,
    vpid: u16,
) -> VmcsView {
    let v1 = match msr_bitmap_addr {
        Some(a) => if caps.cpu_based_exec_ctrl & cpu_based::USE_MSR_BITMAPS != 0 {
            v.set64(VmcsField64::MsrBitmapAddr, a)
        } else {
            v
        },
        None => v,
    };
    let v2 = v1.set32(VmcsField32::PinBasedVmExecControls, caps.pin_based_exec_ctrl);
    let v3 = if caps.pin_based_exec_ctrl & pin_based::PREEMPTION_TIMER != 0 {
        v2.set32(VmcsField32::VmxPreemptionTimerValue, SETUP_PREEMPTION_TIMER)
    } else {
        v2
    };
    let v4 = v3.set32(VmcsField32::PrimaryProcBasedVmExecControls, caps.cpu_based_exec_ctrl);
    let v5 = if caps.cpu_based_exec_ctrl & cpu_based::ACTIVATE_SECONDARY_CONTROLS != 0 {
        let w = v4.set32(VmcsField32::SecondaryProcBasedVmExecControls, caps.cpu_based_exec_ctrl2);
        if caps.cpu_based_exec_ctrl2 & secondary_exec::ENABLE_VPID != 0 {
            w.set16(VmcsField16::VirtualProcessorId, vpid)
        } else {
            w
        }
    } else {
        v4
    };
    v5.set32(VmcsField32::PrimaryVmExitControls, caps.vmexit_ctrl).set32(
        VmcsField32::VmEntryControls,
        caps.vmentry_ctrl,
    ).set32(VmcsField32::ExceptionBitmap, SETUP_EXCEPTION_BITMAP).set_natural(
        VmcsFieldNatural::Cr0GuestHostMask,
        spec_guest_host_mask(caps.cr0_fixed0, caps.cr0_fixed1),
    ).set_natural(
        VmcsFieldNatural::Cr4GuestHostMask,
        spec_guest_host_mask(caps.cr4_fixed0, caps.cr4_fixed1),
    ).set_natural(VmcsFieldNatural::Cr0ReadShadow, 0).set_natural(
        VmcsFieldNatural::Cr4ReadShadow,
        0,
    ).set32(VmcsField32::PageFaultErrorCodeMask, 0).set32(VmcsField32::PageFaultErrorCodeMatch, 0).set32(
        VmcsField32::Cr3TargetCount,
        0,
    ).set32(VmcsField32::VmEntryInterruptionInfo, 0)
}

fn controls_write32(vmcs: &mut MockVmcs, field: VmcsField32, value: u32) -> (r: Result<(), VmcsSetupError>)
    ensures
        r == Ok::<(), VmcsSetupError>(()),
        final(vmcs)@ == old(vmcs)@.set32(field, value),
{
    match vmcs.write32(field, value) {
        Ok(()) => Ok(()),
        Err(e) => Err(VmcsSetupError::Controls(e)),
    }
}

fn controls_write_natural(vmcs: &mut MockVmcs, field: VmcsFieldNatural, value: u64) -> (r: Result<(), VmcsSetupError>)
    ensures
        r == Ok::<(), VmcsSetupError>(()),
        final(vmcs)@ == old(vmcs)@.set_natural(field, value),
{
    match vmcs.write_natural(field, value) {
        Ok(()) => Ok(()),
        Err(e) => Err(VmcsSetupError::Controls(e)),
    }
}

/// Write the execution controls from the capabilities: the MSR bitmap
/// address (when bitmaps are used), pin-based controls and the preemption
/// timer, primary and secondary controls with a freshly allocated VPID when
/// VPID is on, exit and entry controls, the exception bitmap (#MC only),
/// the CR0/CR4 guest/host masks (fixed bits) with zero read shadows, the #PF
/// filters, CR3 target count and no pending injection. Returns the VPID
/// allocated, if any.
pub fn setup_controls<T: TlbControl>(
    vmcs: &mut MockVmcs,
    msr_bitmap_addr: Option<u64>,
    caps: &VmxCapabilities,
    vpids: &mut VpidAllocator,
    tlb: &mut T,
) -> (r: Result<Option<u16>, VmcsSetupError>)
    requires
        spec_setup_uses_vpid(*caps) ==> spec_vpid_available(*old(vpids)),
    ensures
        spec_tlb_after(
            *old(tlb),
            match r {
                Ok(o) => o,
                Err(_) => None::<u16>,
            },
            *final(tlb),
        ),
        match r {
            Ok(Some(vpid)) => spec_setup_uses_vpid(*caps) && spec_vpid_allocated(
                *old(vpids),
                *final(vpids),
                vpid,
            ) && final(vmcs)@ == spec_controls(old(vmcs)@, msr_bitmap_addr, *caps, vpid),
            Ok(None) => !spec_setup_uses_vpid(*caps) && *final(vpids) == *old(vpids)
                && final(vmcs)@ == spec_controls(old(vmcs)@, msr_bitmap_addr, *caps, 0),
            Err(_) => false,
        },
{
    if caps.cpu_based_exec_ctrl & cpu_based::USE_MSR_BITMAPS != 0 {
        if let Some(addr) = msr_bitmap_addr {
            match vmcs.write64(VmcsField64::MsrBitmapAddr, addr) {
                Ok(()) => {},
                Err(e) => return Err(VmcsSetupError::Controls(e)),
            }
        }
    }
    controls_write32(vmcs, VmcsField32::PinBasedVmExecControls, caps.pin_based_exec_ctrl)?;
    if caps.pin_based_exec_ctrl & pin_based::PREEMPTION_TIMER != 0 {
        controls_write32(vmcs, VmcsField32::VmxPreemptionTimerValue, SETUP_PREEMPTION_TIMER)?;
    }
    controls_write32(vmcs, VmcsField32::PrimaryProcBasedVmExecControls, caps.cpu_based_exec_ctrl)?;
    let mut allocated: Option<u16> = None;
    if caps.cpu_based_exec_ctrl & cpu_based::ACTIVATE_SECONDARY_CONTROLS != 0 {
        controls_write32(
            vmcs,
            VmcsField32::SecondaryProcBasedVmExecControls,
            caps.cpu_based_exec_ctrl2,
        )?;
        if caps.cpu_based_exec_ctrl2 & secondary_exec::ENABLE_VPID != 0 {
            let vpid = allocate_vpid(vpids);
            match vmcs.write16(VmcsField16::VirtualProcessorId, vpid) {
                Ok(()) => {},
                Err(e) => return Err(VmcsSetupError::Controls(e)),
            }
            tlb.invvpid_single_context(vpid);
            allocated = Some(vpid);
        }
    }
    controls_write32(vmcs, VmcsField32::PrimaryVmExitControls, caps.vmexit_ctrl)?;
    controls_write32(vmcs, VmcsField32::VmEntryControls, caps.vmentry_ctrl)?;
    controls_write32(vmcs, VmcsField32::ExceptionBitmap, SETUP_EXCEPTION_BITMAP)?;
    let cr0_ones_mask = caps.cr0_fixed0 & caps.cr0_fixed1;
    let cr0_zeros_mask = !caps.cr0_fixed0 & !caps.cr0_fixed1;
    let cr0_mask = cr0_ones_mask | cr0_zeros_mask;
    let cr4_ones_mask = caps.cr4_fixed0 & caps.cr4_fixed1;
    let cr4_zeros_mask = !caps.cr4_fixed0 & !caps.cr4_fixed1;
    let cr4_mask = cr4_ones_mask | cr4_zeros_mask;
    controls_write_natural(vmcs, VmcsFieldNatural::Cr0GuestHostMask, cr0_mask)?;
    controls_write_natural(vmcs, VmcsFieldNatural::Cr4GuestHostMask, cr4_mask)?;
    controls_write_natural(vmcs, VmcsFieldNatural::Cr0ReadShadow, 0)?;
    controls_write_natural(vmcs, VmcsFieldNatural::Cr4ReadShadow, 0)?;
    controls_write32(vmcs, VmcsField32::PageFaultErrorCodeMask, 0)?;
    controls_write32(vmcs, VmcsField32::PageFaultErrorCodeMatch, 0)?;
    controls_write32(vmcs, VmcsField32::Cr3TargetCount, 0)?;
    controls_write32(vmcs, VmcsField32::VmEntryInterruptionInfo, 0)?;
    Ok(allocated)
}

/// Set up a VMCS: host state, execution controls, then the EPT pointer.
/// Returns the VPID allocated, if any.
pub fn setup<T: TlbControl>(
    vmcs: &mut MockVmcs,
    ept_pointer: u64,
    msr_bitmap_addr: Option<u64>,
    host: &HostState,
    caps: &VmxCapabilities,
    vpids: &mut VpidAllocator,
    tlb: &mut T,
) -> (r: Result<Option<u16>, VmcsSetupError>)
    requires
        spec_setup_uses_vpid(*caps) ==> spec_vpid_available(*old(vpids)),
    ensures
        spec_tlb_after(
            *old(tlb),
            match r {
                Ok(o) => o,
                Err(_) => None::<u16>,
            },
            *final(tlb),
        ),
        match r {
            Ok(Some(vpid)) => spec_setup_uses_vpid(*caps) && spec_vpid_allocated(
                *old(vpids),
                *final(vpids),
                vpid,
            ) && final(vmcs)@ == spec_controls(
                spec_host_state(old(vmcs)@, *host),
                msr_bitmap_addr,
                *caps,
                vpid,
            ).set64(VmcsField64::EptPointer, ept_pointer),
            Ok(None) => !spec_setup_uses_vpid(*caps) && *final(vpids) == *old(vpids)
                && final(vmcs)@ == spec_controls(
                spec_host_state(old(vmcs)@, *host),
                msr_bitmap_addr,
                *caps,
                0,
            ).set64(VmcsField64::EptPointer, ept_pointer),
            Err(_) => false,
        },
{
    match setup_host_state(vmcs, host) {
        Ok(()) => {},
        Err(e) => return Err(VmcsSetupError::HostState(e)),
    }
    let vpid = setup_controls(vmcs, msr_bitmap_addr, caps, vpids, tlb)?;
    match vmcs.write64(VmcsField64::EptPointer, ept_pointer) {
        Ok(()) => {},
        Err(e) => return Err(VmcsSetupError::EptPointer(e)),
    }
    Ok(vpid)
}

/// The VMCS of a VM forked from one with VMCS `parent`: the parent's fields
/// with the child's EPT pointer and MSR bitmap address, the preemption timer
/// reloaded, and, when the secondary controls enable VPIDs, a VPID of its
/// own (`vpid`; 0 otherwise).
pub open spec fn spec_fork_vmcs(parent: VmcsView, ept_pointer: u64, msr_bitmap_addr: u64, vpid: u16) -> VmcsView {
    let v = parent.set64(VmcsField64::EptPointer, ept_pointer).set64(
        VmcsField64::MsrBitmapAddr,
        msr_bitmap_addr,
    ).set32(VmcsField32::VmxPreemptionTimerValue, SETUP_PREEMPTION_TIMER);
    if spec_fork_uses_vpid(parent) {
        v.set16(VmcsField16::VirtualProcessorId, vpid)
    } else {
        v
    }
}

/// Whether the secondary controls of `vmcs` (0 when absent) enable VPIDs.
pub open spec fn spec_fork_uses_vpid(vmcs: VmcsView) -> bool {
    match vmcs.read32(VmcsField32::SecondaryProcBasedVmExecControls) {
        Ok(c) => c & secondary_exec::ENABLE_VPID != 0,
        Err(_) => false,
    }
}

/// Make the VMCS of a forked VM from its parent's (see `spec_fork_vmcs`),
/// allocating the child's VPID so that parent and child never share TLB
/// entries. Returns the VMCS and the VPID (0 when VPIDs are off).
pub fn fork_vmcs<T: TlbControl>(
    parent: &MockVmcs,
    ept_pointer: u64,
    msr_bitmap_addr: u64,
    vpids: &mut VpidAllocator,
    tlb: &mut T,
) -> (r: (MockVmcs, u16))
    requires
        spec_fork_uses_vpid(parent@) ==> spec_vpid_available(*old(vpids)),
    ensures
        spec_tlb_after(
            *old(tlb),
            if spec_fork_uses_vpid(parent@) {
                Some(r.1)
            } else {
                None
            },
            *final(tlb),
        ),
        r.0@ == spec_fork_vmcs(parent@, ept_pointer, msr_bitmap_addr, r.1),
        spec_fork_uses_vpid(parent@) ==> spec_vpid_allocated(*old(vpids), *final(vpids), r.1),
        !spec_fork_uses_vpid(parent@) ==> r.1 == 0 && *final(vpids) == *old(vpids),
{
    let exec2 = match parent.read32(VmcsField32::SecondaryProcBasedVmExecControls) {
        Ok(c) => c,
        Err(_) => 0,
    };
    assert(forall|m: u32| #[trigger] (0u32 & m) == 0) by (bit_vector);
    assert(spec_fork_uses_vpid(parent@) == (exec2 & secondary_exec::ENABLE_VPID != 0));
    let mut vmcs = parent.duplicate();
    let _ = vmcs.write64(VmcsField64::EptPointer, ept_pointer);
    let _ = vmcs.write64(VmcsField64::MsrBitmapAddr, msr_bitmap_addr);
    let _ = vmcs.write32(VmcsField32::VmxPreemptionTimerValue, SETUP_PREEMPTION_TIMER);
    let mut vpid: u16 = 0;
    if exec2 & secondary_exec::ENABLE_VPID != 0 {
        vpid = allocate_vpid(vpids);
        let _ = vmcs.write16(VmcsField16::VirtualProcessorId, vpid);
        tlb.invvpid_single_context(vpid);
    }
    (vmcs, vpid)
}

} // verus!
