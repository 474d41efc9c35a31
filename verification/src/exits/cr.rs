//! Control register access exits (MOV to/from CR, CLTS, LMSW).
use vstd::prelude::*;
use crate::exits::helpers::{
    advance_rip, spec_result_after_advance, spec_vmcs_after_advance, ExitError, ExitHandlerResult,
};
use crate::exits::qualifications::{CrAccessQualification, CrAccessType};
use crate::fields::{VmcsField16, VmcsFieldNatural};
use crate::traits::tlb::TlbControl;
use crate::registers::gpr::GeneralPurposeRegisters;
use crate::traits::capabilities::VmxCapabilities;
use crate::traits::instruction_counter::InstructionCounter;
use crate::vm_state::vm::VmState;
use crate::vmcs::{VmcsReadError, VmcsView};

verus! {

/// Error of a MOV to an unsupported control register.
pub const UNSUPPORTED_CR_WRITE: &'static str = "Write to unsupported CR";

/// Error of a MOV from an unsupported control register.
pub const UNSUPPORTED_CR_READ: &'static str = "Read from unsupported CR";

/// The value of the general-purpose register with encoding `index`
/// (0 = RAX ... 15 = R15; 0 above 15).
pub fn get_gpr_value(gprs: &GeneralPurposeRegisters, index: u8) -> (r: u64)
    ensures
        r == gprs.spec_get(index),
{
    match index {
        0 => gprs.rax,
        1 => gprs.rcx,
        2 => gprs.rdx,
        3 => gprs.rbx,
        4 => gprs.rsp,
        5 => gprs.rbp,
        6 => gprs.rsi,
        7 => gprs.rdi,
        8 => gprs.r8,
        9 => gprs.r9,
        10 => gprs.r10,
        11 => gprs.r11,
        12 => gprs.r12,
        13 => gprs.r13,
        14 => gprs.r14,
        15 => gprs.r15,
        _ => 0,
    }
}

/// Set the general-purpose register with encoding `index` (nothing above 15).
pub fn set_gpr_value(gprs: &mut GeneralPurposeRegisters, index: u8, value: u64)
    ensures
        *final(gprs) == old(gprs).spec_set(index, value),
{
    match index {
        0 => gprs.rax = value,
        1 => gprs.rcx = value,
        2 => gprs.rdx = value,
        3 => gprs.rbx = value,
        4 => gprs.rsp = value,
        5 => gprs.rbp = value,
        6 => gprs.rsi = value,
        7 => gprs.rdi = value,
        8 => gprs.r8 = value,
        9 => gprs.r9 = value,
        10 => gprs.r10 = value,
        11 => gprs.r11 = value,
        12 => gprs.r12 = value,
        13 => gprs.r13 = value,
        14 => gprs.r14 = value,
        15 => gprs.r15 = value,
        _ => {},
    }
}

/// A CR0/CR4 value constrained to VMX operation: the bits fixed to 1 in both
/// fixed MSRs are set, those fixed to 0 in both are cleared.
pub open spec fn spec_constrain_cr(value: u64, fixed0: u64, fixed1: u64) -> u64 {
    (value | (fixed0 & fixed1)) & !(!fixed0 & !fixed1)
}

/// The VMCS contents and registers after a CR access exit's own work (before
/// the RIP step), or the error it ends with.
pub open spec fn spec_cr_access(
    vmcs: VmcsView,
    gprs: GeneralPurposeRegisters,
    qual: CrAccessQualification,
    caps: VmxCapabilities,
) -> Result<(VmcsView, GeneralPurposeRegisters), ExitError> {
    let v = gprs.spec_get(qual.register);
    match qual.access_type {
        CrAccessType::MovToCr => if qual.cr_number == 0 {
            Ok(
                (
                    vmcs.set_natural(
                        VmcsFieldNatural::GuestCr0,
                        spec_constrain_cr(v, caps.cr0_fixed0, caps.cr0_fixed1),
                    ).set_natural(VmcsFieldNatural::Cr0ReadShadow, v),
                    gprs,
                ),
            )
        } else if qual.cr_number == 3 {
            Ok((vmcs.set_natural(VmcsFieldNatural::GuestCr3, v & 0x7FFF_FFFF_FFFF_FFFF), gprs))
        } else if qual.cr_number == 4 {
            Ok(
                (
                    vmcs.set_natural(
                        VmcsFieldNatural::GuestCr4,
                        spec_constrain_cr(v, caps.cr4_fixed0, caps.cr4_fixed1),
                    ).set_natural(VmcsFieldNatural::Cr4ReadShadow, v),
                    gprs,
                ),
            )
        } else if qual.cr_number == 8 {
            Ok((vmcs, gprs))
        } else {
            Err(ExitError::Fatal(UNSUPPORTED_CR_WRITE))
        },
        CrAccessType::MovFromCr => {
            let field = if qual.cr_number == 0 {
                Some(VmcsFieldNatural::GuestCr0)
            } else if qual.cr_number == 3 {
                Some(VmcsFieldNatural::GuestCr3)
            } else if qual.cr_number == 4 {
                Some(VmcsFieldNatural::GuestCr4)
            } else {
                None
            };
            match field {
                Some(f) => match vmcs.read_natural(f) {
                    Ok(x) => Ok((vmcs, gprs.spec_set(qual.register, x))),
                    Err(e) => Err(ExitError::VmcsReadError(e)),
                },
                None => if qual.cr_number == 8 {
                    Ok((vmcs, gprs.spec_set(qual.register, 0)))
                } else {
                    Err(ExitError::Fatal(UNSUPPORTED_CR_READ))
                },
            }
        },
        CrAccessType::Clts => match vmcs.read_natural(VmcsFieldNatural::GuestCr0) {
            Ok(c) => {
                let cr0 = c & !8u64;
                Ok(
                    (
                        vmcs.set_natural(VmcsFieldNatural::GuestCr0, cr0).set_natural(
                            VmcsFieldNatural::Cr0ReadShadow,
                            cr0,
                        ),
                        gprs,
                    ),
                )
            },
            Err(e) => Err(ExitError::VmcsReadError(e)),
        },
        CrAccessType::Lmsw => match vmcs.read_natural(VmcsFieldNatural::GuestCr0) {
            Ok(c) => {
                let cr0 = (c & 0xFFFF_FFF0) | ((qual.lmsw_source_data as u64) & 0xF);
                Ok(
                    (
                        vmcs.set_natural(VmcsFieldNatural::GuestCr0, cr0).set_natural(
                            VmcsFieldNatural::Cr0ReadShadow,
                            cr0,
                        ),
                        gprs,
                    ),
                )
            },
            Err(e) => Err(ExitError::VmcsReadError(e)),
        },
    }
}

/// What `handle_cr_access` makes of `s` (as `after`) and returns.
pub open spec fn spec_cr_access_outcome<I: InstructionCounter>(
    s: VmState<I>,
    after: VmState<I>,
    qual: CrAccessQualification,
    caps: VmxCapabilities,
    r: ExitHandlerResult,
) -> bool {
    &&& after == (VmState { vmcs: after.vmcs, gprs: after.gprs, ..s })
    &&& match spec_cr_access(s.vmcs@, s.gprs, qual, caps) {
            Ok((v, g)) => {
                &&& after.vmcs@ == spec_vmcs_after_advance(v)
                &&& after.gprs == g
                &&& r == spec_result_after_advance(v, ExitHandlerResult::Continue)
            },
            Err(e) => {
                &&& after.vmcs@ == s.vmcs@
                &&& after.gprs == s.gprs
                &&& r == ExitHandlerResult::Error(e)
            }
    }
}

/// The VPID whose cached translations a CR access flushes: that of the VM
/// (when it can be read) for a MOV to CR3 with VPIDs in use, none otherwise.
pub open spec fn spec_cr_access_flush(vmcs: VmcsView, qual: CrAccessQualification, caps: VmxCapabilities) -> Option<u16> {
    if qual.access_type == CrAccessType::MovToCr && qual.cr_number == 3 && caps.has_vpid {
        match vmcs.read16(VmcsField16::VirtualProcessorId) {
            Ok(v) => Some(v),
            Err(_) => None,
        }
    } else {
        None
    }
}

/// `after` is `tlb` after flushing what `flush` names (nothing for `None`).
pub open spec fn spec_tlb_after<T: TlbControl>(tlb: T, flush: Option<u16>, after: T) -> bool {
    match flush {
        Some(v) => tlb.spec_flushed(v, after),
        None => after == tlb,
    }
}

/// Handle a control register access exit. A MOV to CR0 or CR4 writes the
/// value constrained to VMX operation into the guest register and the
/// requested value into the read shadow; a MOV to CR3 drops bit 63 and,
/// with VPIDs in use, flushes the translations cached for the VM's VPID so
/// the new page tables take effect; CR8 accesses are ignored (reads give
/// 0); CLTS clears CR0.TS; LMSW loads the low four bits of CR0. Then RIP
/// steps over the instruction.
pub fn handle_cr_access<I: InstructionCounter, T: TlbControl>(
    state: &mut VmState<I>,
    qual: CrAccessQualification,
    caps: &VmxCapabilities,
    tlb: &mut T,
) -> (r: ExitHandlerResult)
    ensures
        spec_cr_access_outcome(*old(state), *final(state), qual, *caps, r),
        spec_tlb_after(*old(tlb), spec_cr_access_flush(old(state).vmcs@, qual, *caps), *final(tlb)),
{
    let gpr_value = get_gpr_value(&state.gprs, qual.register);
    match qual.access_type {
        CrAccessType::MovToCr => {
            if qual.cr_number == 0 {
                let ones_mask = caps.cr0_fixed0 & caps.cr0_fixed1;
                let zeros_mask = !caps.cr0_fixed0 & !caps.cr0_fixed1;
                let cr0 = (gpr_value | ones_mask) & !zeros_mask;
                let _ = state.vmcs.write_natural(VmcsFieldNatural::GuestCr0, cr0);
                let _ = state.vmcs.write_natural(VmcsFieldNatural::Cr0ReadShadow, gpr_value);
            } else if qual.cr_number == 3 {
                let cr3 = gpr_value & !(1u64 << 63);
                assert(!(1u64 << 63) == 0x7FFF_FFFF_FFFF_FFFFu64) by (bit_vector);
                let _ = state.vmcs.write_natural(VmcsFieldNatural::GuestCr3, cr3);
                if caps.has_vpid {
                    if let Ok(vpid) = state.vmcs.read16(VmcsField16::VirtualProcessorId) {
                        tlb.invvpid_single_context(vpid);
                    }
                }
            } else if qual.cr_number == 4 {
                let ones_mask = caps.cr4_fixed0 & caps.cr4_fixed1;
                let zeros_mask = !caps.cr4_fixed0 & !caps.cr4_fixed1;
                let cr4 = (gpr_value | ones_mask) & !zeros_mask;
                let _ = state.vmcs.write_natural(VmcsFieldNatural::GuestCr4, cr4);
                let _ = state.vmcs.write_natural(VmcsFieldNatural::Cr4ReadShadow, gpr_value);
            } else if qual.cr_number == 8 {
            } else {
                return ExitHandlerResult::Error(ExitError::Fatal(UNSUPPORTED_CR_WRITE));
            }
        },
        CrAccessType::MovFromCr => {
            let value = if qual.cr_number == 0 {
                state.vmcs.read_natural(VmcsFieldNatural::GuestCr0)
            } else if qual.cr_number == 3 {
                state.vmcs.read_natural(VmcsFieldNatural::GuestCr3)
            } else if qual.cr_number == 4 {
                state.vmcs.read_natural(VmcsFieldNatural::GuestCr4)
            } else if qual.cr_number == 8 {
                Ok(0)
            } else {
                return ExitHandlerResult::Error(ExitError::Fatal(UNSUPPORTED_CR_READ));
            };
            match value {
                Ok(v) => set_gpr_value(&mut state.gprs, qual.register, v),
                Err(e) => return ExitHandlerResult::Error(ExitError::VmcsReadError(e)),
            }
        },
        CrAccessType::Clts => {
            let cr0 = match state.vmcs.read_natural(VmcsFieldNatural::GuestCr0) {
                Ok(v) => v & !(1u64 << 3),
                Err(e) => return ExitHandlerResult::Error(ExitError::VmcsReadError(e)),
            };
            assert(!(1u64 << 3) == !8u64) by (bit_vector);
            let _ = state.vmcs.write_natural(VmcsFieldNatural::GuestCr0, cr0);
            let _ = state.vmcs.write_natural(VmcsFieldNatural::Cr0ReadShadow, cr0);
        },
        CrAccessType::Lmsw => {
            let msw = qual.lmsw_source_data;
            let cr0 = match state.vmcs.read_natural(VmcsFieldNatural::GuestCr0) {
                Ok(v) => (v & 0xFFFF_FFF0) | ((msw as u64) & 0xF),
                Err(e) => return ExitHandlerResult::Error(ExitError::VmcsReadError(e)),
            };
            let _ = state.vmcs.write_natural(VmcsFieldNatural::GuestCr0, cr0);
            let _ = state.vmcs.write_natural(VmcsFieldNatural::Cr0ReadShadow, cr0);
        },
    }
    match advance_rip(&mut state.vmcs) {
        Ok(()) => ExitHandlerResult::Continue,
        Err(e) => ExitHandlerResult::Error(e),
    }
}


/// A CR0/CR4 value constrained to VMX operation has every bit fixed to 1 set
/// and every bit fixed to 0 clear, whatever the guest asked for; bits the
/// fixed MSRs leave free keep the guest's value.
pub proof fn lemma_constrained_cr_respects_fixed_bits(value: u64, fixed0: u64, fixed1: u64)
    ensures
        spec_constrain_cr(value, fixed0, fixed1) & (fixed0 & fixed1) == fixed0 & fixed1,
        spec_constrain_cr(value, fixed0, fixed1) & (!fixed0 & !fixed1) == 0,
        spec_constrain_cr(value, fixed0, fixed1) & (fixed0 ^ fixed1) == value & (fixed0 ^ fixed1),
{
    assert((((value | (fixed0 & fixed1)) & !(!fixed0 & !fixed1)) & (fixed0 & fixed1)) == fixed0
        & fixed1 && (((value | (fixed0 & fixed1)) & !(!fixed0 & !fixed1)) & (!fixed0 & !fixed1))
        == 0 && (((value | (fixed0 & fixed1)) & !(!fixed0 & !fixed1)) & (fixed0 ^ fixed1)) == value
        & (fixed0 ^ fixed1)) by (bit_vector);
}


/// After a MOV to CR0 or CR4, whatever the step over the instruction gave,
/// the guest register holds the source value under the VMX fixed bits: every
/// bit fixed to 1 (in both fixed MSRs) set, every bit fixed to 0 clear, the
/// bits the fixed MSRs leave free as in the source; the read shadow holds
/// the source value itself.
pub proof fn lemma_mov_to_cr_applies_fixed_bits<I: InstructionCounter>(
    s: VmState<I>,
    after: VmState<I>,
    qual: CrAccessQualification,
    caps: VmxCapabilities,
    r: ExitHandlerResult,
)
    requires
        spec_cr_access_outcome(s, after, qual, caps, r),
        qual.access_type == CrAccessType::MovToCr,
        qual.cr_number == 0 || qual.cr_number == 4,
    ensures
        ({
            let v = s.gprs.spec_get(qual.register);
            let (fixed0, fixed1, guest, shadow) = if qual.cr_number == 0 {
                (caps.cr0_fixed0, caps.cr0_fixed1, VmcsFieldNatural::GuestCr0, VmcsFieldNatural::Cr0ReadShadow)
            } else {
                (caps.cr4_fixed0, caps.cr4_fixed1, VmcsFieldNatural::GuestCr4, VmcsFieldNatural::Cr4ReadShadow)
            };
            &&& r != ExitHandlerResult::Error(ExitError::Fatal(UNSUPPORTED_CR_WRITE))
            &&& after.vmcs@.read_natural(shadow) == Ok::<u64, VmcsReadError>(v)
            &&& after.vmcs@.read_natural(guest) matches Ok(x) && x & (fixed0 & fixed1) == fixed0
                & fixed1 && x & (!fixed0 & !fixed1) == 0 && x & (fixed0 ^ fixed1) == v & (fixed0
                ^ fixed1)
        }),
{
    let v = s.gprs.spec_get(qual.register);
    if qual.cr_number == 0 {
        lemma_constrained_cr_respects_fixed_bits(v, caps.cr0_fixed0, caps.cr0_fixed1);
    } else {
        lemma_constrained_cr_respects_fixed_bits(v, caps.cr4_fixed0, caps.cr4_fixed1);
    }
}


/// The bits of a CR3 value with bit 63 dropped, of a CR0 value with TS
/// (bit 3) cleared, and of a CR0 value whose low four bits LMSW loads.
proof fn lemma_cr_value_bits(x: u64, c: u64, m: u64)
    by (bit_vector)
    ensures
        x & 0x7FFF_FFFF_FFFF_FFFF == x % 0x8000_0000_0000_0000,
        (c & !8u64) & 8 == 0,
        (c & !8u64) | 8 == c | 8,
        ((c & 0xFFFF_FFF0) | (m & 0xF)) & 0xF == m & 0xF,
        ((c & 0xFFFF_FFF0) | (m & 0xF)) & !0xFu64 == c & 0xFFFF_FFF0,
{
}

/// The other CR writes, whatever the step over the instruction gave: a MOV
/// to CR3 loads the source value less bit 63 (the no-flush hint); CLTS
/// clears CR0.TS (bit 3) and keeps every other CR0 bit, in the register and
/// its read shadow; LMSW replaces the low four bits of CR0 (PE, MP, EM, TS)
/// with those of its source, keeps bits 31:4 and clears bits 63:32, in the
/// register and its read shadow.
pub proof fn lemma_cr_writes<I: InstructionCounter>(
    s: VmState<I>,
    after: VmState<I>,
    qual: CrAccessQualification,
    caps: VmxCapabilities,
    r: ExitHandlerResult,
)
    requires
        spec_cr_access_outcome(s, after, qual, caps, r),
    ensures
        qual.access_type == CrAccessType::MovToCr && qual.cr_number == 3 ==> after.vmcs@.read_natural(
            VmcsFieldNatural::GuestCr3,
        ) == Ok::<u64, VmcsReadError>(
            (s.gprs.spec_get(qual.register) % 0x8000_0000_0000_0000) as u64,
        ),
        qual.access_type == CrAccessType::Clts ==> (s.vmcs@.read_natural(VmcsFieldNatural::GuestCr0) matches Ok(c) ==> (after.vmcs@.read_natural(
            VmcsFieldNatural::GuestCr0,
        ) matches Ok(x) && x & 8 == 0 && x | 8 == c | 8 && after.vmcs@.read_natural(
            VmcsFieldNatural::Cr0ReadShadow,
        ) == Ok::<u64, VmcsReadError>(x))),
        qual.access_type == CrAccessType::Lmsw ==> (s.vmcs@.read_natural(VmcsFieldNatural::GuestCr0) matches Ok(c) ==> (after.vmcs@.read_natural(
            VmcsFieldNatural::GuestCr0,
        ) matches Ok(x) && x & 0xF == (qual.lmsw_source_data as u64) & 0xF && x & !0xFu64 == c
            & 0xFFFF_FFF0 && after.vmcs@.read_natural(VmcsFieldNatural::Cr0ReadShadow) == Ok::<
            u64,
            VmcsReadError,
        >(x))),
{
    let c = match s.vmcs@.read_natural(VmcsFieldNatural::GuestCr0) {
        Ok(c) => c,
        Err(_) => 0,
    };
    lemma_cr_value_bits(s.gprs.spec_get(qual.register), c, qual.lmsw_source_data as u64);
}

} // verus!
