//! Host state loaded on every VM exit (VMCS host-state area, Intel SDM Vol 3C,
//! Section 26.5), and the SYSCALL MSRs.
use vstd::prelude::*;
use crate::registers::cr::{Cr0, Cr3, Cr4, CrAccess, CrError};
use crate::registers::descriptor::{DescriptorTableAccess, Gdtr, Idtr};
use crate::registers::segment::SegmentSelector;
use crate::registers::msr;
use crate::registers::msr_defs::{MsrAccess, MsrError};
use crate::registers::syscall::{Cstar, Fmask, Lstar, Star};

verus! {

/// SYSCALL/SYSRET MSR values.
#[derive(Clone, Copy, Debug, Default)]
pub struct SyscallMsrs {
    /// IA32_STAR - SYSCALL segment selectors.
    pub star: Star,
    /// IA32_LSTAR - 64-bit SYSCALL entry point.
    pub lstar: Lstar,
    /// IA32_CSTAR - compatibility-mode SYSCALL entry point.
    pub cstar: Cstar,
    /// IA32_FMASK - SYSCALL RFLAGS mask.
    pub fmask: Fmask,
}

impl SyscallMsrs {
    /// All four MSRs zero.
    pub fn zero() -> (r: Self)
        ensures
            r.star@ == 0 && r.lstar@ == 0 && r.cstar@ == 0 && r.fmask@ == 0,
    {
        SyscallMsrs { star: Star::new(0), lstar: Lstar::new(0), cstar: Cstar::new(0), fmask: Fmask::new(0) }
    }

    /// The SYSCALL MSRs from the values their reads returned; a failed
    /// read counts as 0.
    pub fn from_reads(
        star: Result<u64, MsrError>,
        lstar: Result<u64, MsrError>,
        cstar: Result<u64, MsrError>,
        fmask: Result<u64, MsrError>,
    ) -> (r: Self)
        ensures
            r.star@ == spec_value_or_zero(star),
            r.lstar@ == spec_value_or_zero(lstar),
            r.cstar@ == spec_value_or_zero(cstar),
            r.fmask@ == spec_value_or_zero(fmask),
    {
        Self {
            star: Star::new(value_or_zero(star)),
            lstar: Lstar::new(value_or_zero(lstar)),
            cstar: Cstar::new(value_or_zero(cstar)),
            fmask: Fmask::new(value_or_zero(fmask)),
        }
    }

    /// Read the SYSCALL MSRs of the current CPU; an MSR that cannot be read
    /// counts as 0.
    pub fn capture<M: MsrAccess>(msr_access: &M) -> (r: Self)
    {
        let star = msr_access.read_msr(msr::IA32_STAR);
        let lstar = msr_access.read_msr(msr::IA32_LSTAR);
        let cstar = msr_access.read_msr(msr::IA32_CSTAR);
        let fmask = msr_access.read_msr(msr::IA32_FMASK);
        Self::from_reads(star, lstar, cstar, fmask)
    }

    /// Write the four MSRs to the current CPU (write errors are ignored).
    pub fn load<M: MsrAccess>(&self, msr_access: &M) {
        let _ = msr_access.write_msr(msr::IA32_STAR, self.star.bits());
        let _ = msr_access.write_msr(msr::IA32_LSTAR, self.lstar.bits());
        let _ = msr_access.write_msr(msr::IA32_CSTAR, self.cstar.bits());
        let _ = msr_access.write_msr(msr::IA32_FMASK, self.fmask.bits());
    }
}

/// Host CPU state written to the VMCS host-state area.
#[derive(Debug, Clone, Copy, Default)]
pub struct HostState {
    /// Host CR0.
    pub cr0: u64,
    /// Host CR3.
    pub cr3: u64,
    /// Host CR4.
    pub cr4: u64,
    /// Host CS selector.
    pub cs_selector: u16,
    /// Host SS selector.
    pub ss_selector: u16,
    /// Host DS selector.
    pub ds_selector: u16,
    /// Host ES selector.
    pub es_selector: u16,
    /// Host FS selector.
    pub fs_selector: u16,
    /// Host GS selector.
    pub gs_selector: u16,
    /// Host TR selector.
    pub tr_selector: u16,
    /// Host FS base.
    pub fs_base: u64,
    /// Host GS base.
    pub gs_base: u64,
    /// Host TR base (a valid TSS).
    pub tr_base: u64,
    /// Host GDTR base.
    pub gdtr_base: u64,
    /// Host IDTR base.
    pub idtr_base: u64,
    /// IA32_SYSENTER_CS.
    pub sysenter_cs: u32,
    /// IA32_SYSENTER_ESP.
    pub sysenter_esp: u64,
    /// IA32_SYSENTER_EIP.
    pub sysenter_eip: u64,
    /// IA32_EFER.
    pub efer: u64,
    /// IA32_PAT.
    pub pat: u64,
    /// IA32_MISC_ENABLE (for guest emulation).
    pub misc_enable: u64,
    /// IA32_PLATFORM_INFO (for guest emulation).
    pub platform_info: u64,
    /// SYSCALL/SYSRET MSRs.
    pub syscall_msrs: SyscallMsrs,
    /// RSP of the VM exit handler.
    pub rsp: u64,
    /// RIP of the VM exit handler.
    pub rip: u64,
}

/// The value of a read, or 0 when it failed.
pub open spec fn spec_value_or_zero<E>(r: Result<u64, E>) -> u64 {
    match r {
        Ok(x) => x,
        Err(_) => 0,
    }
}

/// The value of a read, or 0 when it failed.
fn value_or_zero<E>(r: Result<u64, E>) -> (v: u64)
    ensures
        v == spec_value_or_zero(r),
{
    match r {
        Ok(x) => x,
        Err(_) => 0,
    }
}

impl HostState {
    /// All fields zero.
    pub fn zero() -> (r: Self)
        ensures
            r.rip == 0 && r.rsp == 0 && r.cr0 == 0 && r.cr3 == 0 && r.cr4 == 0,
            r.cs_selector == 0 && r.ss_selector == 0 && r.ds_selector == 0 && r.es_selector == 0,
            r.fs_selector == 0 && r.gs_selector == 0 && r.tr_selector == 0,
            r.fs_base == 0 && r.gs_base == 0 && r.tr_base == 0 && r.gdtr_base == 0
                && r.idtr_base == 0,
            r.sysenter_cs == 0 && r.sysenter_esp == 0 && r.sysenter_eip == 0,
            r.efer == 0 && r.pat == 0 && r.misc_enable == 0 && r.platform_info == 0,
            r.syscall_msrs.star@ == 0 && r.syscall_msrs.lstar@ == 0 && r.syscall_msrs.cstar@ == 0
                && r.syscall_msrs.fmask@ == 0,
    {
        HostState {
            cr0: 0,
            cr3: 0,
            cr4: 0,
            cs_selector: 0,
            ss_selector: 0,
            ds_selector: 0,
            es_selector: 0,
            fs_selector: 0,
            gs_selector: 0,
            tr_selector: 0,
            fs_base: 0,
            gs_base: 0,
            tr_base: 0,
            gdtr_base: 0,
            idtr_base: 0,
            sysenter_cs: 0,
            sysenter_esp: 0,
            sysenter_eip: 0,
            efer: 0,
            pat: 0,
            misc_enable: 0,
            platform_info: 0,
            syscall_msrs: SyscallMsrs::zero(),
            rsp: 0,
            rip: 0,
        }
    }

    /// The host state from the values its reads returned (see
    /// `spec_from_reads`).
    pub fn from_reads(reads: &HostReads, rip: u64, rsp: u64) -> (r: Self)
        ensures
            spec_from_reads(r, *reads, rip, rsp),
    {
        let cr0 = match reads.cr0 {
            Ok(c) => c.bits(),
            Err(_) => 0,
        };
        let cr3 = match reads.cr3 {
            Ok(c) => c.bits(),
            Err(_) => 0,
        };
        let cr4 = match reads.cr4 {
            Ok(c) => c.bits(),
            Err(_) => 0,
        };
        HostState {
            cr0,
            cr3,
            cr4,
            cs_selector: reads.cs.bits(),
            ss_selector: reads.ss.bits(),
            ds_selector: reads.ds.bits(),
            es_selector: reads.es.bits(),
            fs_selector: reads.fs.bits(),
            gs_selector: reads.gs.bits(),
            tr_selector: reads.tr.bits(),
            fs_base: value_or_zero(reads.fs_base),
            gs_base: value_or_zero(reads.gs_base),
            tr_base: reads.tr_base,
            gdtr_base: reads.gdtr.base,
            idtr_base: reads.idtr.base,
            sysenter_cs: value_or_zero(reads.sysenter_cs) as u32,
            sysenter_esp: value_or_zero(reads.sysenter_esp),
            sysenter_eip: value_or_zero(reads.sysenter_eip),
            efer: value_or_zero(reads.efer),
            pat: value_or_zero(reads.pat),
            misc_enable: value_or_zero(reads.misc_enable),
            platform_info: value_or_zero(reads.platform_info),
            syscall_msrs: SyscallMsrs::from_reads(
                reads.star,
                reads.lstar,
                reads.cstar,
                reads.fmask,
            ),
            rsp,
            rip,
        }
    }

    /// Capture the host state of the current CPU: control registers,
    /// segment selectors, descriptor table bases and MSRs. A value that
    /// cannot be read counts as 0; SYSENTER_CS keeps its low 32 bits.
    /// `rip` and `rsp` are those of the VM exit handler.
    pub fn capture<C: CrAccess, M: MsrAccess, D: DescriptorTableAccess>(
        cr: &C,
        msr_access: &M,
        dt: &D,
        rip: u64,
        rsp: u64,
    ) -> (r: Self)
        ensures
            r.rip == rip,
            r.rsp == rsp,
    {
        let reads = HostReads {
            cr0: cr.read_cr0(),
            cr3: cr.read_cr3(),
            cr4: cr.read_cr4(),
            cs: dt.read_cs(),
            ss: dt.read_ss(),
            ds: dt.read_ds(),
            es: dt.read_es(),
            fs: dt.read_fs(),
            gs: dt.read_gs(),
            tr: dt.read_tr(),
            gdtr: dt.read_gdtr(),
            idtr: dt.read_idtr(),
            tr_base: dt.read_tr_base(),
            fs_base: msr_access.read_msr(msr::IA32_FS_BASE),
            gs_base: msr_access.read_msr(msr::IA32_GS_BASE),
            sysenter_cs: msr_access.read_msr(msr::IA32_SYSENTER_CS),
            sysenter_esp: msr_access.read_msr(msr::IA32_SYSENTER_ESP),
            sysenter_eip: msr_access.read_msr(msr::IA32_SYSENTER_EIP),
            efer: msr_access.read_msr(msr::IA32_EFER),
            pat: msr_access.read_msr(msr::IA32_PAT),
            misc_enable: msr_access.read_msr(msr::IA32_MISC_ENABLE),
            platform_info: msr_access.read_msr(msr::IA32_PLATFORM_INFO),
            star: msr_access.read_msr(msr::IA32_STAR),
            lstar: msr_access.read_msr(msr::IA32_LSTAR),
            cstar: msr_access.read_msr(msr::IA32_CSTAR),
            fmask: msr_access.read_msr(msr::IA32_FMASK),
        };
        Self::from_reads(&reads, rip, rsp)
    }
}

/// What capturing the host state reads from the CPU, as the reads
/// returned it.
#[derive(Clone, Copy)]
pub struct HostReads {
    pub cr0: Result<Cr0, CrError>,
    pub cr3: Result<Cr3, CrError>,
    pub cr4: Result<Cr4, CrError>,
    pub cs: SegmentSelector,
    pub ss: SegmentSelector,
    pub ds: SegmentSelector,
    pub es: SegmentSelector,
    pub fs: SegmentSelector,
    pub gs: SegmentSelector,
    pub tr: SegmentSelector,
    pub gdtr: Gdtr,
    pub idtr: Idtr,
    pub tr_base: u64,
    pub fs_base: Result<u64, MsrError>,
    pub gs_base: Result<u64, MsrError>,
    pub sysenter_cs: Result<u64, MsrError>,
    pub sysenter_esp: Result<u64, MsrError>,
    pub sysenter_eip: Result<u64, MsrError>,
    pub efer: Result<u64, MsrError>,
    pub pat: Result<u64, MsrError>,
    pub misc_enable: Result<u64, MsrError>,
    pub platform_info: Result<u64, MsrError>,
    pub star: Result<u64, MsrError>,
    pub lstar: Result<u64, MsrError>,
    pub cstar: Result<u64, MsrError>,
    pub fmask: Result<u64, MsrError>,
}

/// A control register read as a value, 0 when it failed.
pub open spec fn spec_cr_or_zero<T: View<V = u64>>(r: Result<T, CrError>) -> u64 {
    match r {
        Ok(c) => c@,
        Err(_) => 0,
    }
}

/// Whether `h` is the host state made of `reads`: each failed read 0,
/// SYSENTER_CS cut to its low 32 bits, `rip` and `rsp` as given.
pub open spec fn spec_from_reads(h: HostState, reads: HostReads, rip: u64, rsp: u64) -> bool {
    &&& h.cr0 == spec_cr_or_zero(reads.cr0)
    &&& h.cr3 == spec_cr_or_zero(reads.cr3)
    &&& h.cr4 == spec_cr_or_zero(reads.cr4)
    &&& h.cs_selector == reads.cs@
    &&& h.ss_selector == reads.ss@
    &&& h.ds_selector == reads.ds@
    &&& h.es_selector == reads.es@
    &&& h.fs_selector == reads.fs@
    &&& h.gs_selector == reads.gs@
    &&& h.tr_selector == reads.tr@
    &&& h.fs_base == spec_value_or_zero(reads.fs_base)
    &&& h.gs_base == spec_value_or_zero(reads.gs_base)
    &&& h.tr_base == reads.tr_base
    &&& h.gdtr_base == reads.gdtr.base
    &&& h.idtr_base == reads.idtr.base
    &&& h.sysenter_cs == spec_value_or_zero(reads.sysenter_cs) as u32
    &&& h.sysenter_esp == spec_value_or_zero(reads.sysenter_esp)
    &&& h.sysenter_eip == spec_value_or_zero(reads.sysenter_eip)
    &&& h.efer == spec_value_or_zero(reads.efer)
    &&& h.pat == spec_value_or_zero(reads.pat)
    &&& h.misc_enable == spec_value_or_zero(reads.misc_enable)
    &&& h.platform_info == spec_value_or_zero(reads.platform_info)
    &&& h.syscall_msrs.star@ == spec_value_or_zero(reads.star)
    &&& h.syscall_msrs.lstar@ == spec_value_or_zero(reads.lstar)
    &&& h.syscall_msrs.cstar@ == spec_value_or_zero(reads.cstar)
    &&& h.syscall_msrs.fmask@ == spec_value_or_zero(reads.fmask)
    &&& h.rsp == rsp
    &&& h.rip == rip
}

} // verus!
