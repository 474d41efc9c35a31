//! Moving the guest register state between `GuestRegisters` and the VMCS
//! (general-purpose registers live in the VM state).
use vstd::prelude::*;
use crate::fields::{VmcsField16, VmcsField32, VmcsField64, VmcsFieldNatural};
use crate::registers::cr::{ControlRegisters, Cr0, Cr2, Cr3, Cr4, Cr8};
use crate::registers::descriptor::{DescriptorTableRegisters, Gdtr, Idtr};
use crate::registers::dr::DebugRegisters;
use crate::registers::guest::GuestRegisters;
use crate::registers::segment::{SegmentRegister, SegmentRegisters};
use crate::registers::syscall::{Efer, ExtendedControlRegisters};
use crate::traits::capabilities::{fix_cr0, fix_cr4, VmxCapabilities};
use crate::traits::instruction_counter::InstructionCounter;
use crate::vm_state::vm::{VmState, PAT_DEFAULT};
use crate::vmcs::{MockVmcs, VmcsReadError, VmcsView, VmcsWriteError};

verus! {

/// Error of `set_registers`.
#[derive(Debug, Clone, Copy)]
pub enum VmSetRegistersError {
    /// A VMCS write failed.
    VmcsWrite(VmcsWriteError),
}

/// Error of `get_registers`.
#[derive(Debug, Clone, Copy)]
pub enum VmGetRegistersError {
    /// A VMCS read failed.
    VmcsRead(VmcsReadError),
}

/// The VMCS contents after `set_registers`: RSP, RIP and RFLAGS; CR0 and CR4
/// with the bits VMX operation fixes; CR3; DR7; the segment registers; GDTR
/// and IDTR; EFER; and the fields VM entry needs initialised (SYSENTER MSRs
/// 0, DEBUGCTL 0, PAT at its reset value, interruptibility and activity
/// state 0, no pending debug exceptions).
pub open spec fn spec_set_registers(v: VmcsView, regs: GuestRegisters, caps: VmxCapabilities) -> VmcsView {
    let sr = regs.segment_regs;
    let v1 = v.set_natural(VmcsFieldNatural::GuestRsp, regs.gprs.rsp).set_natural(
        VmcsFieldNatural::GuestRip,
        regs.rip,
    ).set_natural(VmcsFieldNatural::GuestRflags, regs.rflags).set_natural(
        VmcsFieldNatural::GuestCr0,
        (regs.control_regs.cr0@ | caps.cr0_fixed0) & caps.cr0_fixed1,
    ).set_natural(
        VmcsFieldNatural::GuestCr4,
        (regs.control_regs.cr4@ | caps.cr4_fixed0) & caps.cr4_fixed1,
    ).set_natural(VmcsFieldNatural::GuestCr3, regs.control_regs.cr3@).set_natural(
        VmcsFieldNatural::GuestDr7,
        regs.debug_regs.dr7,
    );
    let v2 = v1.set16(VmcsField16::GuestCsSelector, sr.cs.selector@).set16(
        VmcsField16::GuestDsSelector,
        sr.ds.selector@,
    ).set16(VmcsField16::GuestEsSelector, sr.es.selector@).set16(
        VmcsField16::GuestFsSelector,
        sr.fs.selector@,
    ).set16(VmcsField16::GuestGsSelector, sr.gs.selector@).set16(
        VmcsField16::GuestSsSelector,
        sr.ss.selector@,
    ).set16(VmcsField16::GuestLdtrSelector, sr.ldtr.selector@).set16(
        VmcsField16::GuestTrSelector,
        sr.tr.selector@,
    );
    let v3 = v2.set_natural(VmcsFieldNatural::GuestCsBase, sr.cs.base).set_natural(
        VmcsFieldNatural::GuestDsBase,
        sr.ds.base,
    ).set_natural(VmcsFieldNatural::GuestEsBase, sr.es.base).set_natural(
        VmcsFieldNatural::GuestFsBase,
        sr.fs.base,
    ).set_natural(VmcsFieldNatural::GuestGsBase, sr.gs.base).set_natural(
        VmcsFieldNatural::GuestSsBase,
        sr.ss.base,
    ).set_natural(VmcsFieldNatural::GuestLdtrBase, sr.ldtr.base).set_natural(
        VmcsFieldNatural::GuestTrBase,
        sr.tr.base,
    );
    let v4 = v3.set32(VmcsField32::GuestCsLimit, sr.cs.limit).set32(
        VmcsField32::GuestDsLimit,
        sr.ds.limit,
    ).set32(VmcsField32::GuestEsLimit, sr.es.limit).set32(
        VmcsField32::GuestFsLimit,
        sr.fs.limit,
    ).set32(VmcsField32::GuestGsLimit, sr.gs.limit).set32(
        VmcsField32::GuestSsLimit,
        sr.ss.limit,
    ).set32(VmcsField32::GuestLdtrLimit, sr.ldtr.limit).set32(
        VmcsField32::GuestTrLimit,
        sr.tr.limit,
    );
    let v5 = v4.set32(VmcsField32::GuestCsAccessRights, sr.cs.access_rights@).set32(
        VmcsField32::GuestDsAccessRights,
        sr.ds.access_rights@,
    ).set32(VmcsField32::GuestEsAccessRights, sr.es.access_rights@).set32(
        VmcsField32::GuestFsAccessRights,
        sr.fs.access_rights@,
    ).set32(VmcsField32::GuestGsAccessRights, sr.gs.access_rights@).set32(
        VmcsField32::GuestSsAccessRights,
        sr.ss.access_rights@,
    ).set32(VmcsField32::GuestLdtrAccessRights, sr.ldtr.access_rights@).set32(
        VmcsField32::GuestTrAccessRights,
        sr.tr.access_rights@,
    );
    v5.set_natural(VmcsFieldNatural::GuestGdtrBase, regs.descriptor_tables.gdtr.base).set_natural(
        VmcsFieldNatural::GuestIdtrBase,
        regs.descriptor_tables.idtr.base,
    ).set32(VmcsField32::GuestGdtrLimit, regs.descriptor_tables.gdtr.limit as u32).set32(
        VmcsField32::GuestIdtrLimit,
        regs.descriptor_tables.idtr.limit as u32,
    ).set64(VmcsField64::GuestIa32Efer, regs.extended_control_regs.efer@).set32(
        VmcsField32::GuestIa32SysenterCs,
        0,
    ).set_natural(VmcsFieldNatural::GuestIa32SysenterEsp, 0).set_natural(
        VmcsFieldNatural::GuestIa32SysenterEip,
        0,
    ).set64(VmcsField64::GuestIa32Debugctl, 0).set64(VmcsField64::GuestIa32Pat, PAT_DEFAULT).set32(
        VmcsField32::GuestInterruptibilityState,
        0,
    ).set32(VmcsField32::GuestActivityState, 0).set_natural(
        VmcsFieldNatural::GuestPendingDebugExceptions,
        0,
    )
}

fn write16(vmcs: &mut MockVmcs, field: VmcsField16, value: u16) -> (r: Result<(), VmSetRegistersError>)
    ensures
        r == Ok::<(), VmSetRegistersError>(()),
        final(vmcs)@ == old(vmcs)@.set16(field, value),
{
    match vmcs.write16(field, value) {
        Ok(()) => Ok(()),
        Err(e) => Err(VmSetRegistersError::VmcsWrite(e)),
    }
}

fn write32(vmcs: &mut MockVmcs, field: VmcsField32, value: u32) -> (r: Result<(), VmSetRegistersError>)
    ensures
        r == Ok::<(), VmSetRegistersError>(()),
        final(vmcs)@ == old(vmcs)@.set32(field, value),
{
    match vmcs.write32(field, value) {
        Ok(()) => Ok(()),
        Err(e) => Err(VmSetRegistersError::VmcsWrite(e)),
    }
}

fn write64(vmcs: &mut MockVmcs, field: VmcsField64, value: u64) -> (r: Result<(), VmSetRegistersError>)
    ensures
        r == Ok::<(), VmSetRegistersError>(()),
        final(vmcs)@ == old(vmcs)@.set64(field, value),
{
    match vmcs.write64(field, value) {
        Ok(()) => Ok(()),
        Err(e) => Err(VmSetRegistersError::VmcsWrite(e)),
    }
}

fn write_natural(vmcs: &mut MockVmcs, field: VmcsFieldNatural, value: u64) -> (r: Result<(), VmSetRegistersError>)
    ensures
        r == Ok::<(), VmSetRegistersError>(()),
        final(vmcs)@ == old(vmcs)@.set_natural(field, value),
{
    match vmcs.write_natural(field, value) {
        Ok(()) => Ok(()),
        Err(e) => Err(VmSetRegistersError::VmcsWrite(e)),
    }
}

/// Load the guest registers: the general-purpose registers into the VM
/// state, everything else into the VMCS (see `spec_set_registers`).
pub fn set_registers<I: InstructionCounter>(
    state: &mut VmState<I>,
    regs: &GuestRegisters,
    caps: &VmxCapabilities,
) -> (r: Result<(), VmSetRegistersError>)
    ensures
        r == Ok::<(), VmSetRegistersError>(()),
        final(state).gprs == regs.gprs,
        final(state).vmcs@ == spec_set_registers(old(state).vmcs@, *regs, *caps),
        *final(state) == (VmState { vmcs: final(state).vmcs, gprs: regs.gprs, ..*old(state) }),
{
    state.gprs = regs.gprs;
    let vmcs = &mut state.vmcs;
    write_natural(vmcs, VmcsFieldNatural::GuestRsp, regs.gprs.rsp)?;
    write_natural(vmcs, VmcsFieldNatural::GuestRip, regs.rip)?;
    write_natural(vmcs, VmcsFieldNatural::GuestRflags, regs.rflags)?;
    let fixed_cr0 = fix_cr0(&regs.control_regs.cr0, caps);
    let fixed_cr4 = fix_cr4(&regs.control_regs.cr4, caps);
    write_natural(vmcs, VmcsFieldNatural::GuestCr0, fixed_cr0.bits())?;
    write_natural(vmcs, VmcsFieldNatural::GuestCr4, fixed_cr4.bits())?;
    write_natural(vmcs, VmcsFieldNatural::GuestCr3, regs.control_regs.cr3.bits())?;
    write_natural(vmcs, VmcsFieldNatural::GuestDr7, regs.debug_regs.dr7)?;
    let sr = &regs.segment_regs;
    write16(vmcs, VmcsField16::GuestCsSelector, sr.cs.selector.bits())?;
    write16(vmcs, VmcsField16::GuestDsSelector, sr.ds.selector.bits())?;
    write16(vmcs, VmcsField16::GuestEsSelector, sr.es.selector.bits())?;
    write16(vmcs, VmcsField16::GuestFsSelector, sr.fs.selector.bits())?;
    write16(vmcs, VmcsField16::GuestGsSelector, sr.gs.selector.bits())?;
    write16(vmcs, VmcsField16::GuestSsSelector, sr.ss.selector.bits())?;
    write16(vmcs, VmcsField16::GuestLdtrSelector, sr.ldtr.selector.bits())?;
    write16(vmcs, VmcsField16::GuestTrSelector, sr.tr.selector.bits())?;
    write_natural(vmcs, VmcsFieldNatural::GuestCsBase, sr.cs.base)?;
    write_natural(vmcs, VmcsFieldNatural::GuestDsBase, sr.ds.base)?;
    write_natural(vmcs, VmcsFieldNatural::GuestEsBase, sr.es.base)?;
    write_natural(vmcs, VmcsFieldNatural::GuestFsBase, sr.fs.base)?;
    write_natural(vmcs, VmcsFieldNatural::GuestGsBase, sr.gs.base)?;
    write_natural(vmcs, VmcsFieldNatural::GuestSsBase, sr.ss.base)?;
    write_natural(vmcs, VmcsFieldNatural::GuestLdtrBase, sr.ldtr.base)?;
    write_natural(vmcs, VmcsFieldNatural::GuestTrBase, sr.tr.base)?;
    write32(vmcs, VmcsField32::GuestCsLimit, sr.cs.limit)?;
    write32(vmcs, VmcsField32::GuestDsLimit, sr.ds.limit)?;
    write32(vmcs, VmcsField32::GuestEsLimit, sr.es.limit)?;
    write32(vmcs, VmcsField32::GuestFsLimit, sr.fs.limit)?;
    write32(vmcs, VmcsField32::GuestGsLimit, sr.gs.limit)?;
    write32(vmcs, VmcsField32::GuestSsLimit, sr.ss.limit)?;
    write32(vmcs, VmcsField32::GuestLdtrLimit, sr.ldtr.limit)?;
    write32(vmcs, VmcsField32::GuestTrLimit, sr.tr.limit)?;
    write32(vmcs, VmcsField32::GuestCsAccessRights, sr.cs.access_rights.bits())?;
    write32(vmcs, VmcsField32::GuestDsAccessRights, sr.ds.access_rights.bits())?;
    write32(vmcs, VmcsField32::GuestEsAccessRights, sr.es.access_rights.bits())?;
    write32(vmcs, VmcsField32::GuestFsAccessRights, sr.fs.access_rights.bits())?;
    write32(vmcs, VmcsField32::GuestGsAccessRights, sr.gs.access_rights.bits())?;
    write32(vmcs, VmcsField32::GuestSsAccessRights, sr.ss.access_rights.bits())?;
    write32(vmcs, VmcsField32::GuestLdtrAccessRights, sr.ldtr.access_rights.bits())?;
    write32(vmcs, VmcsField32::GuestTrAccessRights, sr.tr.access_rights.bits())?;
    let dt = &regs.descriptor_tables;
    write_natural(vmcs, VmcsFieldNatural::GuestGdtrBase, dt.gdtr.base)?;
    write_natural(vmcs, VmcsFieldNatural::GuestIdtrBase, dt.idtr.base)?;
    write32(vmcs, VmcsField32::GuestGdtrLimit, dt.gdtr.limit as u32)?;
    write32(vmcs, VmcsField32::GuestIdtrLimit, dt.idtr.limit as u32)?;
    write64(vmcs, VmcsField64::GuestIa32Efer, regs.extended_control_regs.efer.bits())?;
    write32(vmcs, VmcsField32::GuestIa32SysenterCs, 0)?;
    write_natural(vmcs, VmcsFieldNatural::GuestIa32SysenterEsp, 0)?;
    write_natural(vmcs, VmcsFieldNatural::GuestIa32SysenterEip, 0)?;
    write64(vmcs, VmcsField64::GuestIa32Debugctl, 0)?;
    write64(vmcs, VmcsField64::GuestIa32Pat, PAT_DEFAULT)?;
    write32(vmcs, VmcsField32::GuestInterruptibilityState, 0)?;
    write32(vmcs, VmcsField32::GuestActivityState, 0)?;
    write_natural(vmcs, VmcsFieldNatural::GuestPendingDebugExceptions, 0)?;
    Ok(())
}

/// A natural-width field's value (0 when absent).
pub open spec fn spec_nat(v: VmcsView, f: VmcsFieldNatural) -> u64 {
    match v.read_natural(f) {
        Ok(x) => x,
        Err(_) => 0,
    }
}

/// A 16-bit field's value (0 when absent).
pub open spec fn spec_w16(v: VmcsView, f: VmcsField16) -> u16 {
    match v.read16(f) {
        Ok(x) => x,
        Err(_) => 0,
    }
}

/// A 32-bit field's value (0 when absent).
pub open spec fn spec_w32(v: VmcsView, f: VmcsField32) -> u32 {
    match v.read32(f) {
        Ok(x) => x,
        Err(_) => 0,
    }
}

/// A 64-bit field's value (0 when absent).
pub open spec fn spec_w64(v: VmcsView, f: VmcsField64) -> u64 {
    match v.read64(f) {
        Ok(x) => x,
        Err(_) => 0,
    }
}

/// Whether one segment register's four fields are present.
pub open spec fn spec_segment_readable(
    v: VmcsView,
    sel: VmcsField16,
    base: VmcsFieldNatural,
    limit: VmcsField32,
    ar: VmcsField32,
) -> bool {
    v.read16(sel) is Ok && v.read_natural(base) is Ok && v.read32(limit) is Ok && v.read32(
        ar,
    ) is Ok
}

/// Whether `seg` holds what the VMCS has for one segment register.
pub open spec fn spec_segment_read(
    seg: SegmentRegister,
    v: VmcsView,
    sel: VmcsField16,
    base: VmcsFieldNatural,
    limit: VmcsField32,
    ar: VmcsField32,
) -> bool {
    &&& seg.selector@ == spec_w16(v, sel)
    &&& seg.base == spec_nat(v, base)
    &&& seg.limit == spec_w32(v, limit)
    &&& seg.access_rights@ == spec_w32(v, ar)
    &&& seg._pad == 0
}

/// Whether every field `get_registers` reads is present.
pub open spec fn spec_registers_readable(v: VmcsView) -> bool {
    &&& v.read_natural(VmcsFieldNatural::GuestCr0) is Ok
    &&& v.read_natural(VmcsFieldNatural::GuestCr3) is Ok
    &&& v.read_natural(VmcsFieldNatural::GuestCr4) is Ok
    &&& v.read_natural(VmcsFieldNatural::GuestDr7) is Ok
    &&& spec_segment_readable(v, VmcsField16::GuestCsSelector, VmcsFieldNatural::GuestCsBase, VmcsField32::GuestCsLimit, VmcsField32::GuestCsAccessRights)
    &&& spec_segment_readable(v, VmcsField16::GuestDsSelector, VmcsFieldNatural::GuestDsBase, VmcsField32::GuestDsLimit, VmcsField32::GuestDsAccessRights)
    &&& spec_segment_readable(v, VmcsField16::GuestEsSelector, VmcsFieldNatural::GuestEsBase, VmcsField32::GuestEsLimit, VmcsField32::GuestEsAccessRights)
    &&& spec_segment_readable(v, VmcsField16::GuestFsSelector, VmcsFieldNatural::GuestFsBase, VmcsField32::GuestFsLimit, VmcsField32::GuestFsAccessRights)
    &&& spec_segment_readable(v, VmcsField16::GuestGsSelector, VmcsFieldNatural::GuestGsBase, VmcsField32::GuestGsLimit, VmcsField32::GuestGsAccessRights)
    &&& spec_segment_readable(v, VmcsField16::GuestSsSelector, VmcsFieldNatural::GuestSsBase, VmcsField32::GuestSsLimit, VmcsField32::GuestSsAccessRights)
    &&& spec_segment_readable(v, VmcsField16::GuestTrSelector, VmcsFieldNatural::GuestTrBase, VmcsField32::GuestTrLimit, VmcsField32::GuestTrAccessRights)
    &&& spec_segment_readable(v, VmcsField16::GuestLdtrSelector, VmcsFieldNatural::GuestLdtrBase, VmcsField32::GuestLdtrLimit, VmcsField32::GuestLdtrAccessRights)
    &&& v.read_natural(VmcsFieldNatural::GuestGdtrBase) is Ok
    &&& v.read32(VmcsField32::GuestGdtrLimit) is Ok
    &&& v.read_natural(VmcsFieldNatural::GuestIdtrBase) is Ok
    &&& v.read32(VmcsField32::GuestIdtrLimit) is Ok
    &&& v.read64(VmcsField64::GuestIa32Efer) is Ok
    &&& v.read_natural(VmcsFieldNatural::GuestRip) is Ok
    &&& v.read_natural(VmcsFieldNatural::GuestRflags) is Ok
}

/// Whether `g` is what `get_registers` reads from `s`: the general-purpose
/// registers from the state; CR0, CR3, CR4, DR7, the segment registers,
/// GDTR/IDTR (limits truncated to 16 bits), EFER, RIP and RFLAGS from the
/// VMCS; CR2, CR8 and DR0-DR6 as 0.
pub open spec fn spec_registers_read<I: InstructionCounter>(g: GuestRegisters, s: VmState<I>) -> bool {
    let v = s.vmcs@;
    let sr = g.segment_regs;
    &&& g.gprs == s.gprs
    &&& g.control_regs.cr0@ == spec_nat(v, VmcsFieldNatural::GuestCr0)
    &&& g.control_regs.cr2.0 == 0
    &&& g.control_regs.cr3@ == spec_nat(v, VmcsFieldNatural::GuestCr3)
    &&& g.control_regs.cr4@ == spec_nat(v, VmcsFieldNatural::GuestCr4)
    &&& g.control_regs.cr8@ == 0
    &&& g.debug_regs == (DebugRegisters {
        dr0: 0,
        dr1: 0,
        dr2: 0,
        dr3: 0,
        dr6: 0,
        dr7: spec_nat(v, VmcsFieldNatural::GuestDr7),
    })
    &&& spec_segment_read(sr.cs, v, VmcsField16::GuestCsSelector, VmcsFieldNatural::GuestCsBase, VmcsField32::GuestCsLimit, VmcsField32::GuestCsAccessRights)
    &&& spec_segment_read(sr.ds, v, VmcsField16::GuestDsSelector, VmcsFieldNatural::GuestDsBase, VmcsField32::GuestDsLimit, VmcsField32::GuestDsAccessRights)
    &&& spec_segment_read(sr.es, v, VmcsField16::GuestEsSelector, VmcsFieldNatural::GuestEsBase, VmcsField32::GuestEsLimit, VmcsField32::GuestEsAccessRights)
    &&& spec_segment_read(sr.fs, v, VmcsField16::GuestFsSelector, VmcsFieldNatural::GuestFsBase, VmcsField32::GuestFsLimit, VmcsField32::GuestFsAccessRights)
    &&& spec_segment_read(sr.gs, v, VmcsField16::GuestGsSelector, VmcsFieldNatural::GuestGsBase, VmcsField32::GuestGsLimit, VmcsField32::GuestGsAccessRights)
    &&& spec_segment_read(sr.ss, v, VmcsField16::GuestSsSelector, VmcsFieldNatural::GuestSsBase, VmcsField32::GuestSsLimit, VmcsField32::GuestSsAccessRights)
    &&& spec_segment_read(sr.tr, v, VmcsField16::GuestTrSelector, VmcsFieldNatural::GuestTrBase, VmcsField32::GuestTrLimit, VmcsField32::GuestTrAccessRights)
    &&& spec_segment_read(sr.ldtr, v, VmcsField16::GuestLdtrSelector, VmcsFieldNatural::GuestLdtrBase, VmcsField32::GuestLdtrLimit, VmcsField32::GuestLdtrAccessRights)
    &&& g.descriptor_tables.gdtr.base == spec_nat(v, VmcsFieldNatural::GuestGdtrBase)
    &&& g.descriptor_tables.gdtr.limit == spec_w32(v, VmcsField32::GuestGdtrLimit) as u16
    &&& g.descriptor_tables.idtr.base == spec_nat(v, VmcsFieldNatural::GuestIdtrBase)
    &&& g.descriptor_tables.idtr.limit == spec_w32(v, VmcsField32::GuestIdtrLimit) as u16
    &&& g.extended_control_regs.efer@ == spec_w64(v, VmcsField64::GuestIa32Efer)
    &&& g.rip == spec_nat(v, VmcsFieldNatural::GuestRip)
    &&& g.rflags == spec_nat(v, VmcsFieldNatural::GuestRflags)
}

fn read16(vmcs: &MockVmcs, field: VmcsField16) -> (r: Result<u16, VmGetRegistersError>)
    ensures
        match vmcs@.read16(field) {
            Ok(x) => r == Ok::<u16, VmGetRegistersError>(x),
            Err(e) => r == Err::<u16, VmGetRegistersError>(VmGetRegistersError::VmcsRead(e)),
        },
{
    match vmcs.read16(field) {
        Ok(x) => Ok(x),
        Err(e) => Err(VmGetRegistersError::VmcsRead(e)),
    }
}

fn read32(vmcs: &MockVmcs, field: VmcsField32) -> (r: Result<u32, VmGetRegistersError>)
    ensures
        match vmcs@.read32(field) {
            Ok(x) => r == Ok::<u32, VmGetRegistersError>(x),
            Err(e) => r == Err::<u32, VmGetRegistersError>(VmGetRegistersError::VmcsRead(e)),
        },
{
    match vmcs.read32(field) {
        Ok(x) => Ok(x),
        Err(e) => Err(VmGetRegistersError::VmcsRead(e)),
    }
}

fn read64(vmcs: &MockVmcs, field: VmcsField64) -> (r: Result<u64, VmGetRegistersError>)
    ensures
        match vmcs@.read64(field) {
            Ok(x) => r == Ok::<u64, VmGetRegistersError>(x),
            Err(e) => r == Err::<u64, VmGetRegistersError>(VmGetRegistersError::VmcsRead(e)),
        },
{
    match vmcs.read64(field) {
        Ok(x) => Ok(x),
        Err(e) => Err(VmGetRegistersError::VmcsRead(e)),
    }
}

fn read_natural(vmcs: &MockVmcs, field: VmcsFieldNatural) -> (r: Result<u64, VmGetRegistersError>)
    ensures
        match vmcs@.read_natural(field) {
            Ok(x) => r == Ok::<u64, VmGetRegistersError>(x),
            Err(e) => r == Err::<u64, VmGetRegistersError>(VmGetRegistersError::VmcsRead(e)),
        },
{
    match vmcs.read_natural(field) {
        Ok(x) => Ok(x),
        Err(e) => Err(VmGetRegistersError::VmcsRead(e)),
    }
}

/// Read one segment register from the VMCS.
fn read_segment(
    vmcs: &MockVmcs,
    sel_field: VmcsField16,
    base_field: VmcsFieldNatural,
    limit_field: VmcsField32,
    ar_field: VmcsField32,
) -> (r: Result<SegmentRegister, VmGetRegistersError>)
    ensures
        match r {
            Ok(seg) => spec_segment_readable(vmcs@, sel_field, base_field, limit_field, ar_field)
                && spec_segment_read(seg, vmcs@, sel_field, base_field, limit_field, ar_field),
            Err(e) => !spec_segment_readable(vmcs@, sel_field, base_field, limit_field, ar_field)
                && e == VmGetRegistersError::VmcsRead(VmcsReadError::InvalidField),
        },
{
    let selector = read16(vmcs, sel_field)?;
    let base = read_natural(vmcs, base_field)?;
    let limit = read32(vmcs, limit_field)?;
    let ar = read32(vmcs, ar_field)?;
    Ok(SegmentRegister::new(selector, ar, limit, base))
}

/// Read the guest registers: the general-purpose registers from the VM
/// state, the rest from the VMCS (see `spec_registers_read`); fails when a
/// field is absent.
pub fn get_registers<I: InstructionCounter>(state: &VmState<I>) -> (r: Result<GuestRegisters, VmGetRegistersError>)
    ensures
        match r {
            Ok(g) => spec_registers_readable(state.vmcs@) && spec_registers_read(g, *state),
            Err(e) => !spec_registers_readable(state.vmcs@) && e == VmGetRegistersError::VmcsRead(
                VmcsReadError::InvalidField,
            ),
        },
{
    let gprs = state.gprs;
    let vmcs = &state.vmcs;
    let cr0 = read_natural(vmcs, VmcsFieldNatural::GuestCr0)?;
    let cr3 = read_natural(vmcs, VmcsFieldNatural::GuestCr3)?;
    let cr4 = read_natural(vmcs, VmcsFieldNatural::GuestCr4)?;
    assert(0u64 & crate::registers::cr::CR8_TPR_MASK == 0) by (bit_vector);
    let control_regs = ControlRegisters {
        cr0: Cr0::new(cr0),
        cr2: Cr2::new(0),
        cr3: Cr3::new(cr3),
        cr4: Cr4::new(cr4),
        cr8: Cr8::new(0),
    };
    let dr7 = read_natural(vmcs, VmcsFieldNatural::GuestDr7)?;
    let debug_regs = DebugRegisters { dr0: 0, dr1: 0, dr2: 0, dr3: 0, dr6: 0, dr7 };
    let cs = read_segment(vmcs, VmcsField16::GuestCsSelector, VmcsFieldNatural::GuestCsBase, VmcsField32::GuestCsLimit, VmcsField32::GuestCsAccessRights)?;
    let ds = read_segment(vmcs, VmcsField16::GuestDsSelector, VmcsFieldNatural::GuestDsBase, VmcsField32::GuestDsLimit, VmcsField32::GuestDsAccessRights)?;
    let es = read_segment(vmcs, VmcsField16::GuestEsSelector, VmcsFieldNatural::GuestEsBase, VmcsField32::GuestEsLimit, VmcsField32::GuestEsAccessRights)?;
    let fs = read_segment(vmcs, VmcsField16::GuestFsSelector, VmcsFieldNatural::GuestFsBase, VmcsField32::GuestFsLimit, VmcsField32::GuestFsAccessRights)?;
    let gs = read_segment(vmcs, VmcsField16::GuestGsSelector, VmcsFieldNatural::GuestGsBase, VmcsField32::GuestGsLimit, VmcsField32::GuestGsAccessRights)?;
    let ss = read_segment(vmcs, VmcsField16::GuestSsSelector, VmcsFieldNatural::GuestSsBase, VmcsField32::GuestSsLimit, VmcsField32::GuestSsAccessRights)?;
    let tr = read_segment(vmcs, VmcsField16::GuestTrSelector, VmcsFieldNatural::GuestTrBase, VmcsField32::GuestTrLimit, VmcsField32::GuestTrAccessRights)?;
    let ldtr = read_segment(vmcs, VmcsField16::GuestLdtrSelector, VmcsFieldNatural::GuestLdtrBase, VmcsField32::GuestLdtrLimit, VmcsField32::GuestLdtrAccessRights)?;
    let segment_regs = SegmentRegisters { cs, ds, es, fs, gs, ss, tr, ldtr };
    let gdtr_base = read_natural(vmcs, VmcsFieldNatural::GuestGdtrBase)?;
    let gdtr_limit = read32(vmcs, VmcsField32::GuestGdtrLimit)?;
    let idtr_base = read_natural(vmcs, VmcsFieldNatural::GuestIdtrBase)?;
    let idtr_limit = read32(vmcs, VmcsField32::GuestIdtrLimit)?;
    let descriptor_tables = DescriptorTableRegisters {
        gdtr: Gdtr::new(gdtr_base, gdtr_limit as u16),
        idtr: Idtr::new(idtr_base, idtr_limit as u16),
    };
    let efer = read64(vmcs, VmcsField64::GuestIa32Efer)?;
    let extended_control_regs = ExtendedControlRegisters { efer: Efer::new(efer) };
    let rip = read_natural(vmcs, VmcsFieldNatural::GuestRip)?;
    let rflags = read_natural(vmcs, VmcsFieldNatural::GuestRflags)?;
    Ok(
        GuestRegisters {
            gprs,
            control_regs,
            debug_regs,
            segment_regs,
            descriptor_tables,
            extended_control_regs,
            rip,
            rflags,
        },
    )
}

/// Whether `g`'s segment register matches `seg` in all that the VMCS holds
/// of it.
pub open spec fn spec_same_segment(g: SegmentRegister, seg: SegmentRegister) -> bool {
    g.selector@ == seg.selector@ && g.base == seg.base && g.limit == seg.limit
        && g.access_rights@ == seg.access_rights@
}

/// Reading the registers back after `set_registers` succeeds and gives what
/// was written: the general-purpose registers, RIP, RFLAGS, CR3, DR7, the
/// segment registers, GDTR, IDTR and EFER unchanged, CR0 and CR4 with the
/// bits VMX operation fixes.
#[verifier::rlimit(100)]
pub proof fn lemma_registers_round_trip<I: InstructionCounter>(
    before: VmState<I>,
    after: VmState<I>,
    regs: GuestRegisters,
    caps: VmxCapabilities,
    g: GuestRegisters,
)
    requires
        after.vmcs@ == spec_set_registers(before.vmcs@, regs, caps),
        after.gprs == regs.gprs,
    ensures
        spec_registers_readable(after.vmcs@),
        spec_registers_read(g, after) ==> {
            &&& g.gprs == regs.gprs
            &&& g.rip == regs.rip
            &&& g.rflags == regs.rflags
            &&& g.control_regs.cr0@ == (regs.control_regs.cr0@ | caps.cr0_fixed0) & caps.cr0_fixed1
            &&& g.control_regs.cr3@ == regs.control_regs.cr3@
            &&& g.control_regs.cr4@ == (regs.control_regs.cr4@ | caps.cr4_fixed0) & caps.cr4_fixed1
            &&& g.debug_regs.dr7 == regs.debug_regs.dr7
            &&& spec_same_segment(g.segment_regs.cs, regs.segment_regs.cs)
            &&& spec_same_segment(g.segment_regs.ds, regs.segment_regs.ds)
            &&& spec_same_segment(g.segment_regs.es, regs.segment_regs.es)
            &&& spec_same_segment(g.segment_regs.fs, regs.segment_regs.fs)
            &&& spec_same_segment(g.segment_regs.gs, regs.segment_regs.gs)
            &&& spec_same_segment(g.segment_regs.ss, regs.segment_regs.ss)
            &&& spec_same_segment(g.segment_regs.tr, regs.segment_regs.tr)
            &&& spec_same_segment(g.segment_regs.ldtr, regs.segment_regs.ldtr)
            &&& g.descriptor_tables.gdtr.base == regs.descriptor_tables.gdtr.base
            &&& g.descriptor_tables.gdtr.limit == regs.descriptor_tables.gdtr.limit
            &&& g.descriptor_tables.idtr.base == regs.descriptor_tables.idtr.base
            &&& g.descriptor_tables.idtr.limit == regs.descriptor_tables.idtr.limit
            &&& g.extended_control_regs.efer@ == regs.extended_control_regs.efer@
        },
{
}

} // verus!
