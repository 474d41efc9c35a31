//! Interrupt delivery: the emulated APIC timer, the highest pending vector,
//! interrupt-window exiting, re-injection of interrupted events and
//! injection of pending interrupts before VM entry, and I/O APIC routing.
use vstd::prelude::*;
use vstd::array::spec_array_update;
use crate::devices::apic::{ApicState, IOAPIC_NUM_PINS};
use crate::exits::helpers::ExitError;
use crate::exits::qualifications::InterruptionInfo;
use crate::fields::{VmcsField32, VmcsFieldNatural};
use crate::traits::controls::cpu_based;
use crate::traits::instruction_counter::InstructionCounter;
use crate::vm_state::stats::AllExitStats;
use crate::vm_state::vm::{DeviceStates, VmState};
use crate::vmcs::{MockVmcs, VmcsView};

verus! {

broadcast use vstd::array::group_array_axioms;

/// Whether bit `vector` is set in an IRR/ISR-style register array.
pub open spec fn spec_vector_bit(regs: [u32; 8], vector: int) -> bool {
    (regs@[vector / 32] >> ((vector % 32) as u32)) & 1 != 0
}

/// `regs` with bit `vector` set.
pub open spec fn spec_set_vector(regs: [u32; 8], vector: u8) -> [u32; 8] {
    let idx = (vector / 32) as int;
    spec_array_update(regs, idx, regs@[idx] | (1u32 << ((vector % 32) as u32)))
}

/// `regs` with bit `vector` cleared.
pub open spec fn spec_clear_vector(regs: [u32; 8], vector: u8) -> [u32; 8] {
    let idx = (vector / 32) as int;
    spec_array_update(regs, idx, regs@[idx] & !(1u32 << ((vector % 32) as u32)))
}

/// The APIC timer divisor selected by the divide configuration register
/// (bits 3, 1:0): 2, 4, 8, 16, 32, 64, 128, or 1 for encoding 0b111.
pub open spec fn spec_apic_timer_divisor(dcr: u32) -> u32 {
    let encoded = ((dcr >> 1u32) & 4) | (dcr & 3);
    if encoded == 0 {
        2
    } else if encoded == 1 {
        4
    } else if encoded == 2 {
        8
    } else if encoded == 3 {
        16
    } else if encoded == 4 {
        32
    } else if encoded == 5 {
        64
    } else if encoded == 6 {
        128
    } else {
        1
    }
}

/// The APIC timer divisor of a divide configuration register value.
pub fn apic_timer_divisor(dcr: u32) -> (r: u32)
    ensures
        r == spec_apic_timer_divisor(dcr),
        1 <= r <= 128,
{
    let encoded = ((dcr >> 1) & 0b100) | (dcr & 0b11);
    match encoded {
        0b000 => 2,
        0b001 => 4,
        0b010 => 8,
        0b011 => 16,
        0b100 => 32,
        0b101 => 64,
        0b110 => 128,
        _ => 1,
    }
}

/// Whether the APIC timer fires at emulated TSC `tsc`: armed, deadline
/// reached, APIC software-enabled and the timer LVT unmasked.
pub open spec fn spec_timer_fires(apic: ApicState, tsc: u64) -> bool {
    &&& apic.timer_deadline != 0
    &&& tsc >= apic.timer_deadline
    &&& apic.svr & 0x100 != 0
    &&& apic.lvt_timer & 0x10000 == 0
}

/// The APIC after its timer fires at `tsc`: the timer vector pending in the
/// IRR; a periodic timer re-armed one period (initial count times divisor)
/// after `tsc`, a one-shot timer disarmed.
pub open spec fn spec_fire_timer(apic: ApicState, tsc: u64) -> ApicState {
    let ticks = apic.timer_initial * spec_apic_timer_divisor(apic.timer_divide);
    ApicState {
        irr: spec_set_vector(apic.irr, (apic.lvt_timer & 0xFF) as u8),
        timer_deadline: if apic.lvt_timer & 0x20000 != 0 {
            ((tsc + ticks) % 0x1_0000_0000_0000_0000) as u64
        } else {
            0
        },
        ..apic
    }
}

/// The APIC and the late-timer count after checking the timer at `tsc`.
pub open spec fn spec_check_timer(apic: ApicState, tsc: u64, late: u64) -> (ApicState, u64) {
    if spec_timer_fires(apic, tsc) {
        (spec_fire_timer(apic, tsc), if tsc > apic.timer_deadline {
            (late + 1) as u64
        } else {
            late
        })
    } else {
        (apic, late)
    }
}

/// Whether the late-timer count cannot overflow at this check.
pub open spec fn spec_late_count_fits(apic: ApicState, tsc: u64, late: u64) -> bool {
    spec_timer_fires(apic, tsc) && tsc > apic.timer_deadline ==> late < u64::MAX
}

/// `state` with the APIC and the late-timer count replaced.
pub open spec fn spec_with_apic<I: InstructionCounter>(
    state: VmState<I>,
    apic: ApicState,
    late: u64,
) -> VmState<I> {
    VmState {
        devices: DeviceStates { apic, ..state.devices },
        exit_stats: AllExitStats { apic_timer_late_inject: late, ..state.exit_stats },
        ..state
    }
}

/// Fire the APIC timer if its deadline has been reached (by the emulated
/// TSC), counting deliveries that arrive past the deadline.
pub fn check_apic_timer<I: InstructionCounter>(state: &mut VmState<I>)
    requires
        spec_late_count_fits(
            old(state).devices.apic,
            old(state).emulated_tsc,
            old(state).exit_stats.apic_timer_late_inject,
        ),
    ensures
        ({
            let (apic, late) = spec_check_timer(
                old(state).devices.apic,
                old(state).emulated_tsc,
                old(state).exit_stats.apic_timer_late_inject,
            );
            *final(state) == spec_with_apic(*old(state), apic, late)
        }),
{
    let current_tsc = state.emulated_tsc;
    let timer_deadline = state.devices.apic.timer_deadline;
    let svr = state.devices.apic.svr;
    let lvt_timer = state.devices.apic.lvt_timer;
    if timer_deadline == 0 {
        return ;
    }
    if current_tsc < timer_deadline {
        return ;
    }
    if (svr & 0x100) == 0 {
        return ;
    }
    if (lvt_timer & 0x10000) != 0 {
        return ;
    }
    if current_tsc > timer_deadline {
        state.exit_stats.apic_timer_late_inject = state.exit_stats.apic_timer_late_inject + 1;
    }
    #[verifier::truncate]
    let vector = (lvt_timer & 0xFF) as u8;
    let irr_index = (vector / 32) as usize;
    let irr_bit = 1u32 << ((vector % 32) as u32);
    let cur = state.devices.apic.irr[irr_index];
    state.devices.apic.irr[irr_index] = cur | irr_bit;
    if (lvt_timer & 0x20000) != 0 {
        let divisor = apic_timer_divisor(state.devices.apic.timer_divide);
        let initial = state.devices.apic.timer_initial;
        assert((initial as u64) * (divisor as u64) <= 0xFFFF_FFFF * 128) by (nonlinear_arith)
            requires
                divisor <= 128,
        ;
        let ticks = (initial as u64) * (divisor as u64);
        state.devices.apic.timer_deadline = current_tsc.wrapping_add(ticks);
    } else {
        state.devices.apic.timer_deadline = 0;
    }
    assert(state.devices.apic.irr =~= spec_set_vector(
        old(state).devices.apic.irr,
        (old(state).devices.apic.lvt_timer & 0xFF) as u8,
    ));
}

/// The highest pending vector of an enabled APIC: the highest bit set in
/// the IRR; `None` when the APIC is software-disabled or nothing is pending.
#[verifier::opaque]
pub open spec fn spec_pending_vector(apic: ApicState) -> Option<u8> {
    if apic.svr & 0x100 == 0 {
        None
    } else if exists|v: int| 0 <= v < 256 && spec_vector_bit(apic.irr, v) {
        Some(
            (choose|v: int|
                0 <= v < 256 && spec_vector_bit(apic.irr, v) && forall|w: int|
                    v < w < 256 ==> !spec_vector_bit(apic.irr, w)) as u8,
        )
    } else {
        None
    }
}

/// A vector whose bit is set with none set above it is the highest pending one.
proof fn lemma_pending_vector(apic: ApicState, r: Option<u8>)
    requires
        apic.svr & 0x100 != 0,
        match r {
            Some(v) => spec_vector_bit(apic.irr, v as int) && forall|w: int|
                v < w < 256 ==> !spec_vector_bit(apic.irr, w),
            None => forall|w: int| 0 <= w < 256 ==> !spec_vector_bit(apic.irr, w),
        },
    ensures
        spec_pending_vector(apic) == r,
{
    reveal(spec_pending_vector);
    if let Some(v) = r {
        assert(0 <= v as int && v < 256 && spec_vector_bit(apic.irr, v as int));
        let c = choose|c: int|
            0 <= c < 256 && spec_vector_bit(apic.irr, c) && forall|w: int|
                c < w < 256 ==> !spec_vector_bit(apic.irr, w);
        assert(0 <= c < 256 && spec_vector_bit(apic.irr, c) && forall|w: int|
            c < w < 256 ==> !spec_vector_bit(apic.irr, w));
        assert(c == v as int);
    }
}

/// The highest pending vector of the APIC, if it is enabled.
fn apic_pending_vector(apic: &ApicState) -> (r: Option<u8>)
    ensures
        r == spec_pending_vector(*apic),
{
    if (apic.svr & 0x100) == 0 {
        proof {
            reveal(spec_pending_vector);
        }
        return None;
    }
    let mut i: usize = 8;
    while i > 0
        invariant
            i <= 8,
            apic.svr & 0x100 != 0,
            forall|w: int| i * 32 <= w < 256 ==> !spec_vector_bit(apic.irr, w),
        decreases i,
    {
        i = i - 1;
        let word = apic.irr[i];
        if word != 0 {
            let lz = word.leading_zeros();
            proof {
                vstd::std_specs::bits::axiom_u32_leading_zeros(word);
            }
            let bit = 31 - lz;
            proof {
                assert((word >> bit) & 1u32 != 0u32);
                assert forall|w: int| i * 32 + bit < w < 256 implies !spec_vector_bit(apic.irr, w) by {
                    if w < (i + 1) * 32 {
                        let j = (w - i * 32) as u32;
                        assert(w / 32 == i as int);
                        assert(w % 32 == j as int);
                        assert((word >> j) & 1u32 == 0u32);
                    }
                }
                lemma_pending_vector(*apic, Some((i * 32 + bit as usize) as u8));
            }
            return Some((i * 32 + bit as usize) as u8);
        }
        proof {
            assert forall|w: int| i * 32 <= w < (i + 1) * 32 implies !spec_vector_bit(apic.irr, w) by {
                let j = (w % 32) as u32;
                assert(w / 32 == i as int);
                assert((0u32 >> j) & 1u32 == 0u32) by (bit_vector);
            }
        }
    }
    proof {
        lemma_pending_vector(*apic, None);
    }
    None
}

/// The VMCS after `enable_interrupt_window_exiting`, or the failed read.
pub open spec fn spec_enable_window(vmcs: VmcsView) -> Result<VmcsView, ExitError> {
    match vmcs.read32(VmcsField32::PrimaryProcBasedVmExecControls) {
        Err(e) => Err(ExitError::VmcsReadError(e)),
        Ok(c) => Ok(
            if c & cpu_based::INTR_WINDOW_EXITING == 0 {
                vmcs.set32(
                    VmcsField32::PrimaryProcBasedVmExecControls,
                    c | cpu_based::INTR_WINDOW_EXITING,
                )
            } else {
                vmcs
            },
        ),
    }
}

/// The VMCS after `disable_interrupt_window_exiting`, or the failed read.
pub open spec fn spec_disable_window(vmcs: VmcsView) -> Result<VmcsView, ExitError> {
    match vmcs.read32(VmcsField32::PrimaryProcBasedVmExecControls) {
        Err(e) => Err(ExitError::VmcsReadError(e)),
        Ok(c) => Ok(
            if c & cpu_based::INTR_WINDOW_EXITING != 0 {
                vmcs.set32(
                    VmcsField32::PrimaryProcBasedVmExecControls,
                    c & !cpu_based::INTR_WINDOW_EXITING,
                )
            } else {
                vmcs
            },
        ),
    }
}

/// Ask for a VM exit as soon as the guest can take an interrupt.
pub fn enable_interrupt_window_exiting(vmcs: &mut MockVmcs) -> (r: Result<(), ExitError>)
    ensures
        match spec_enable_window(old(vmcs)@) {
            Ok(v) => r == Ok::<(), ExitError>(()) && final(vmcs)@ == v,
            Err(e) => r == Err::<(), ExitError>(e) && final(vmcs)@ == old(vmcs)@,
        },
{
    let controls = match vmcs.read32(VmcsField32::PrimaryProcBasedVmExecControls) {
        Ok(c) => c,
        Err(e) => return Err(ExitError::VmcsReadError(e)),
    };
    if controls & cpu_based::INTR_WINDOW_EXITING == 0 {
        match vmcs.write32(
            VmcsField32::PrimaryProcBasedVmExecControls,
            controls | cpu_based::INTR_WINDOW_EXITING,
        ) {
            Ok(()) => {},
            Err(e) => return Err(ExitError::VmcsWriteError(e)),
        }
    }
    Ok(())
}

/// Stop interrupt-window exiting.
pub fn disable_interrupt_window_exiting(vmcs: &mut MockVmcs) -> (r: Result<(), ExitError>)
    ensures
        match spec_disable_window(old(vmcs)@) {
            Ok(v) => r == Ok::<(), ExitError>(()) && final(vmcs)@ == v,
            Err(e) => r == Err::<(), ExitError>(e) && final(vmcs)@ == old(vmcs)@,
        },
{
    let controls = match vmcs.read32(VmcsField32::PrimaryProcBasedVmExecControls) {
        Ok(c) => c,
        Err(e) => return Err(ExitError::VmcsReadError(e)),
    };
    if controls & cpu_based::INTR_WINDOW_EXITING != 0 {
        match vmcs.write32(
            VmcsField32::PrimaryProcBasedVmExecControls,
            controls & !cpu_based::INTR_WINDOW_EXITING,
        ) {
            Ok(()) => {},
            Err(e) => return Err(ExitError::VmcsWriteError(e)),
        }
    }
    Ok(())
}

/// The VMCS after re-injecting an event whose delivery a VM exit
/// interrupted, and whether there was one (or the failed read): a valid
/// IDT-vectoring information is copied to the VM-entry interruption
/// information, with its error code when that is valid.
pub open spec fn spec_reinject(vmcs: VmcsView) -> (VmcsView, Result<bool, ExitError>) {
    match vmcs.read32(VmcsField32::IdtVectoringInfo) {
        Err(e) => (vmcs, Err(ExitError::VmcsReadError(e))),
        Ok(idt) => if idt & 0x8000_0000 == 0 {
            (vmcs, Ok(false))
        } else {
            let v1 = vmcs.set32(VmcsField32::VmEntryInterruptionInfo, idt);
            if idt & 0x800 != 0 {
                match v1.read32(VmcsField32::IdtVectoringErrorCode) {
                    Err(e) => (v1, Err(ExitError::VmcsReadError(e))),
                    Ok(ec) => (v1.set32(VmcsField32::VmEntryExceptionErrorCode, ec), Ok(true)),
                }
            } else {
                (v1, Ok(true))
            }
        },
    }
}

/// Re-inject an event whose delivery through the IDT was interrupted by the
/// VM exit (Intel SDM Vol 3C, 29.2.4). Returns whether there was one.
pub fn reinject_vectored_event(vmcs: &mut MockVmcs) -> (r: Result<bool, ExitError>)
    ensures
        (final(vmcs)@, r) == spec_reinject(old(vmcs)@),
{
    let idt_info = match vmcs.read32(VmcsField32::IdtVectoringInfo) {
        Ok(v) => v,
        Err(e) => return Err(ExitError::VmcsReadError(e)),
    };
    if idt_info & 0x8000_0000 == 0 {
        return Ok(false);
    }
    match vmcs.write32(VmcsField32::VmEntryInterruptionInfo, idt_info) {
        Ok(()) => {},
        Err(e) => return Err(ExitError::VmcsWriteError(e)),
    }
    if idt_info & 0x800 != 0 {
        let error_code = match vmcs.read32(VmcsField32::IdtVectoringErrorCode) {
            Ok(v) => v,
            Err(e) => return Err(ExitError::VmcsReadError(e)),
        };
        match vmcs.write32(VmcsField32::VmEntryExceptionErrorCode, error_code) {
            Ok(()) => {},
            Err(e) => return Err(ExitError::VmcsWriteError(e)),
        }
    }
    Ok(true)
}

/// The VMCS after queueing an event for injection at the next VM entry.
pub open spec fn spec_inject(vmcs: VmcsView, info: InterruptionInfo, error_code: Option<u32>) -> VmcsView {
    let v1 = vmcs.set32(VmcsField32::VmEntryInterruptionInfo, info.spec_encode());
    match error_code {
        Some(ec) => v1.set32(VmcsField32::VmEntryExceptionErrorCode, ec),
        None => v1,
    }
}

/// Queue an event (and its error code) for injection at the next VM entry.
pub fn inject_exception(vmcs: &mut MockVmcs, info: InterruptionInfo, error_code: Option<u32>) -> (r: Result<(), ExitError>)
    ensures
        r is Ok,
        final(vmcs)@ == spec_inject(old(vmcs)@, info, error_code),
{
    match vmcs.write32(VmcsField32::VmEntryInterruptionInfo, info.encode()) {
        Ok(()) => {},
        Err(e) => return Err(ExitError::VmcsWriteError(e)),
    }
    if let Some(ec) = error_code {
        match vmcs.write32(VmcsField32::VmEntryExceptionErrorCode, ec) {
            Ok(()) => {},
            Err(e) => return Err(ExitError::VmcsWriteError(e)),
        }
    }
    Ok(())
}

/// Outcome of `inject_pending_interrupt`: the VMCS, APIC and late-timer
/// count after it, and its result.
pub struct InjectOutcome {
    pub vmcs: VmcsView,
    pub apic: ApicState,
    pub late: u64,
    pub result: Result<(), ExitError>,
}

/// After the timer check: deliver the highest pending vector when the guest
/// can take it (IF set, no STI/MOV-SS blocking), moving it from IRR to ISR
/// and turning interrupt-window exiting off; otherwise ask for an
/// interrupt-window exit.
pub open spec fn spec_deliver(vmcs: VmcsView, apic: ApicState, late: u64) -> InjectOutcome {
    match spec_pending_vector(apic) {
        None => InjectOutcome { vmcs, apic, late, result: Ok(()) },
        Some(vector) => match vmcs.read_natural(VmcsFieldNatural::GuestRflags) {
            Err(e) => InjectOutcome { vmcs, apic, late, result: Err(ExitError::VmcsReadError(e)) },
            Ok(rflags) => if rflags & 0x200 == 0 {
                match spec_enable_window(vmcs) {
                    Ok(v) => InjectOutcome { vmcs: v, apic, late, result: Ok(()) },
                    Err(e) => InjectOutcome { vmcs, apic, late, result: Err(e) },
                }
            } else {
                match vmcs.read32(VmcsField32::GuestInterruptibilityState) {
                    Err(e) => InjectOutcome {
                        vmcs,
                        apic,
                        late,
                        result: Err(ExitError::VmcsReadError(e)),
                    },
                    Ok(blocking) => if blocking & 3 != 0 {
                        match spec_enable_window(vmcs) {
                            Ok(v) => InjectOutcome { vmcs: v, apic, late, result: Ok(()) },
                            Err(e) => InjectOutcome { vmcs, apic, late, result: Err(e) },
                        }
                    } else {
                        let v1 = spec_inject(
                            vmcs,
                            InterruptionInfo {
                                vector,
                                interruption_type:
                                    crate::exits::qualifications::InterruptionType::ExternalInterrupt,
                                error_code_valid: false,
                                nmi_unblocking: false,
                                valid: true,
                            },
                            None,
                        );
                        let apic2 = ApicState {
                            irr: spec_clear_vector(apic.irr, vector),
                            isr: spec_set_vector(apic.isr, vector),
                            ..apic
                        };
                        match spec_disable_window(v1) {
                            Ok(v2) => InjectOutcome { vmcs: v2, apic: apic2, late, result: Ok(()) },
                            Err(e) => InjectOutcome { vmcs: v1, apic: apic2, late, result: Err(e) },
                        }
                    },
                }
            },
        },
    }
}

/// What `inject_pending_interrupt` does: re-inject an interrupted event if
/// there is one; otherwise, after a deterministic exit and unless an event
/// is already queued, fire the APIC timer if due and deliver the highest
/// pending interrupt (see `spec_deliver`).
pub open spec fn spec_inject_pending(
    vmcs: VmcsView,
    apic: ApicState,
    tsc: u64,
    late: u64,
    deterministic: bool,
) -> InjectOutcome {
    let (v1, re) = spec_reinject(vmcs);
    match re {
        Err(e) => InjectOutcome { vmcs: v1, apic, late, result: Err(e) },
        Ok(true) => InjectOutcome { vmcs: v1, apic, late, result: Ok(()) },
        Ok(false) => if !deterministic {
            InjectOutcome { vmcs: v1, apic, late, result: Ok(()) }
        } else {
            let pending = match v1.read32(VmcsField32::VmEntryInterruptionInfo) {
                Ok(p) => p,
                Err(_) => 0,
            };
            if pending & 0x8000_0000 != 0 {
                InjectOutcome { vmcs: v1, apic, late, result: Ok(()) }
            } else {
                let (apic2, late2) = spec_check_timer(apic, tsc, late);
                spec_deliver(v1, apic2, late2)
            }
        },
    }
}

/// Inject any pending interrupt into the guest before VM entry.
pub fn inject_pending_interrupt<I: InstructionCounter>(state: &mut VmState<I>) -> (r: Result<(), ExitError>)
    requires
        spec_late_count_fits(
            old(state).devices.apic,
            old(state).emulated_tsc,
            old(state).exit_stats.apic_timer_late_inject,
        ),
    ensures
        ({
            let o = spec_inject_pending(
                old(state).vmcs@,
                old(state).devices.apic,
                old(state).emulated_tsc,
                old(state).exit_stats.apic_timer_late_inject,
                old(state).last_exit_deterministic,
            );
            &&& final(state).vmcs@ == o.vmcs
            &&& r == o.result
            &&& *final(state) == VmState { vmcs: final(state).vmcs, ..spec_with_apic(*old(state), o.apic, o.late) }
        }),
{
    match reinject_vectored_event(&mut state.vmcs) {
        Err(e) => return Err(e),
        Ok(true) => return Ok(()),
        Ok(false) => {},
    }
    if !state.last_exit_deterministic {
        return Ok(());
    }
    let pending = match state.vmcs.read32(VmcsField32::VmEntryInterruptionInfo) {
        Ok(p) => p,
        Err(_) => 0,
    };
    if pending & 0x8000_0000 != 0 {
        return Ok(());
    }
    check_apic_timer(state);
    deliver_pending_interrupt(state)
}

/// Deliver the highest pending interrupt if the guest can take it, else ask
/// for an interrupt-window exit (see `spec_deliver`).
fn deliver_pending_interrupt<I: InstructionCounter>(state: &mut VmState<I>) -> (r: Result<(), ExitError>)
    ensures
        ({
            let o = spec_deliver(
                old(state).vmcs@,
                old(state).devices.apic,
                old(state).exit_stats.apic_timer_late_inject,
            );
            &&& final(state).vmcs@ == o.vmcs
            &&& r == o.result
            &&& *final(state) == VmState { vmcs: final(state).vmcs, ..spec_with_apic(*old(state), o.apic, o.late) }
        }),
{
    let vector = match apic_pending_vector(&state.devices.apic) {
        Some(v) => v,
        None => return Ok(()),
    };
    let rflags = match state.vmcs.read_natural(VmcsFieldNatural::GuestRflags) {
        Ok(v) => v,
        Err(e) => return Err(ExitError::VmcsReadError(e)),
    };
    if (rflags & 0x200) == 0 {
        return enable_interrupt_window_exiting(&mut state.vmcs);
    }
    let interruptibility = match state.vmcs.read32(VmcsField32::GuestInterruptibilityState) {
        Ok(v) => v,
        Err(e) => return Err(ExitError::VmcsReadError(e)),
    };
    if (interruptibility & 0x3) != 0 {
        return enable_interrupt_window_exiting(&mut state.vmcs);
    }
    let info = InterruptionInfo::external_interrupt(vector);
    let _ = inject_exception(&mut state.vmcs, info, None);
    let ghost apic0 = state.devices.apic;
    let irr_index = (vector / 32) as usize;
    let bit = 1u32 << ((vector % 32) as u32);
    let irr = state.devices.apic.irr[irr_index];
    state.devices.apic.irr[irr_index] = irr & !bit;
    let isr = state.devices.apic.isr[irr_index];
    state.devices.apic.isr[irr_index] = isr | bit;
    assert(state.devices.apic.irr =~= spec_clear_vector(apic0.irr, vector));
    assert(state.devices.apic.isr =~= spec_set_vector(apic0.isr, vector));
    disable_interrupt_window_exiting(&mut state.vmcs)
}

/// The APIC after the I/O APIC routes `irq`: the pin's vector pending in the
/// IRR unless the pin does not exist, is masked, or has a reserved vector
/// (below 16).
pub open spec fn spec_ioapic_deliver(redtbl: [u64; 24], apic: ApicState, irq: u8) -> ApicState {
    if irq >= IOAPIC_NUM_PINS {
        apic
    } else {
        let entry = redtbl@[irq as int];
        if (entry >> 16u64) & 1 != 0 || (entry & 0xFF) < 16 {
            apic
        } else {
            ApicState { irr: spec_set_vector(apic.irr, (entry & 0xFF) as u8), ..apic }
        }
    }
}

/// Deliver an interrupt through the I/O APIC to the local APIC.
pub fn ioapic_deliver_irq<I: InstructionCounter>(state: &mut VmState<I>, irq: u8)
    ensures
        *final(state) == (VmState {
            devices: DeviceStates {
                apic: spec_ioapic_deliver(
                    old(state).devices.ioapic.redtbl,
                    old(state).devices.apic,
                    irq,
                ),
                ..old(state).devices
            },
            ..*old(state)
        }),
{
    if irq as usize >= IOAPIC_NUM_PINS {
        return ;
    }
    let entry = state.devices.ioapic.redtbl[irq as usize];
    if (entry >> 16) & 1 != 0 {
        return ;
    }
    assert(entry & 0xFF <= 0xFF) by (bit_vector);
    let vector = (entry & 0xFF) as u8;
    if vector < 16 {
        return ;
    }
    let irr_idx = (vector / 32) as usize;
    let irr_bit = 1u32 << ((vector % 32) as u32);
    if irr_idx < 8 {
        let cur = state.devices.apic.irr[irr_idx];
        state.devices.apic.irr[irr_idx] = cur | irr_bit;
    }
    assert(state.devices.apic.irr =~= spec_set_vector(old(state).devices.apic.irr, vector));
}


/// Bits of a word after clearing or setting bit `b`; the bits of the event
/// word that injects external interrupt `v`; the low byte of an entry.
proof fn lemma_vector_word_bits(x: u32, b: u32, c: u32, v: u32, e: u64)
    by (bit_vector)
    requires
        b < 32,
        c < 32,
        v < 256,
    ensures
        ((x & !(1u32 << b)) >> b) & 1 == 0,
        ((x | (1u32 << b)) >> b) & 1 == 1,
        c != b ==> ((x & !(1u32 << b)) >> c) & 1 == (x >> c) & 1,
        c != b ==> ((x | (1u32 << b)) >> c) & 1 == (x >> c) & 1,
        (v | (0u32 << 8u32) | 0u32 | 0u32 | 0x8000_0000u32) & 0xFF == v,
        ((v | (0u32 << 8u32) | 0u32 | 0u32 | 0x8000_0000u32) >> 8u32) & 7 == 0,
        (v | (0u32 << 8u32) | 0u32 | 0u32 | 0x8000_0000u32) & 0x8000_0000 != 0,
        e & 0xFF <= 0xFF,
{
}

/// Clearing vector `v` clears its bit and setting it sets it; every other
/// vector's bit stays as it was.
proof fn lemma_vector_update(regs: [u32; 8], v: u8)
    ensures
        !spec_vector_bit(spec_clear_vector(regs, v), v as int),
        spec_vector_bit(spec_set_vector(regs, v), v as int),
        forall|w: int|
            0 <= w < 256 && w != v ==> spec_vector_bit(#[trigger] spec_clear_vector(regs, v), w)
                == spec_vector_bit(regs, w) && spec_vector_bit(spec_set_vector(regs, v), w)
                == spec_vector_bit(regs, w),
{
    let idx = (v / 32) as int;
    let b = (v % 32) as u32;
    lemma_vector_word_bits(regs@[idx], b, 0, 0, 0);
    assert forall|w: int|
        0 <= w < 256 && w != v implies spec_vector_bit(#[trigger] spec_clear_vector(regs, v), w)
            == spec_vector_bit(regs, w) && spec_vector_bit(spec_set_vector(regs, v), w)
            == spec_vector_bit(regs, w) by {
        if w / 32 == idx {
            lemma_vector_word_bits(regs@[idx], b, (w % 32) as u32, 0, 0);
        }
    }
}

/// Among vectors below `n`, when one is pending there is a highest one.
proof fn lemma_highest_below(regs: [u32; 8], n: int)
    requires
        0 <= n <= 256,
        exists|v: int| 0 <= v < n && spec_vector_bit(regs, v),
    ensures
        exists|v: int|
            0 <= v < n && spec_vector_bit(regs, v) && forall|w: int|
                v < w < n ==> !spec_vector_bit(regs, w),
    decreases n,
{
    if spec_vector_bit(regs, n - 1) {
        assert(forall|w: int| n - 1 < w < n ==> !spec_vector_bit(regs, w));
    } else {
        let v0 = choose|v: int| 0 <= v < n && spec_vector_bit(regs, v);
        assert(v0 < n - 1);
        lemma_highest_below(regs, n - 1);
        let v = choose|v: int|
            0 <= v < n - 1 && spec_vector_bit(regs, v) && forall|w: int|
                v < w < n - 1 ==> !spec_vector_bit(regs, w);
        assert(forall|w: int| v < w < n ==> !spec_vector_bit(regs, w));
    }
}

/// The pending vector of an enabled APIC is the highest vector whose IRR bit
/// is set.
proof fn lemma_pending_is_highest(apic: ApicState)
    ensures
        spec_pending_vector(apic) matches Some(v) ==> spec_vector_bit(apic.irr, v as int) && forall|w: int|
            v < w < 256 ==> !spec_vector_bit(apic.irr, w),
{
    reveal(spec_pending_vector);
    if apic.svr & 0x100 != 0 && exists|v: int| 0 <= v < 256 && spec_vector_bit(apic.irr, v) {
        lemma_highest_below(apic.irr, 256);
    }
}

/// Delivery before VM entry either leaves the APIC as it is or moves the
/// highest pending vector `v` (the highest IRR bit) from the IRR to the ISR:
/// afterwards bit `v` of the IRR is clear and bit `v` of the ISR set, every
/// other vector's bits and the rest of the APIC are as they were, and the
/// VMCS carries `v` as a valid external interrupt to inject.
pub proof fn lemma_delivery_moves_highest_vector(vmcs: VmcsView, apic: ApicState, late: u64)
    ensures
        ({
            let o = spec_deliver(vmcs, apic, late);
            &&& o.late == late
            &&& o.apic != apic ==> (spec_pending_vector(apic) matches Some(v) && {
                &&& spec_vector_bit(apic.irr, v as int)
                &&& forall|w: int| v < w < 256 ==> !spec_vector_bit(apic.irr, w)
                &&& !spec_vector_bit(o.apic.irr, v as int)
                &&& spec_vector_bit(o.apic.isr, v as int)
                &&& forall|w: int|
                    0 <= w < 256 && w != v ==> spec_vector_bit(o.apic.irr, w) == spec_vector_bit(
                        apic.irr,
                        w,
                    ) && spec_vector_bit(o.apic.isr, w) == spec_vector_bit(apic.isr, w)
                &&& o.apic == ApicState { irr: o.apic.irr, isr: o.apic.isr, ..apic }
                &&& (o.vmcs.read32(VmcsField32::VmEntryInterruptionInfo) matches Ok(x) && x & 0xFF
                    == v as u32 && (x >> 8u32) & 7 == 0 && x & 0x8000_0000 != 0)
            })
        }),
{
    lemma_pending_is_highest(apic);
    if let Some(v) = spec_pending_vector(apic) {
        lemma_vector_update(apic.irr, v);
        lemma_vector_update(apic.isr, v);
        lemma_vector_word_bits(0, 0, 0, v as u32, 0);
    }
}

/// An I/O APIC pin reaches the local APIC only when it exists, is unmasked
/// (bit 16 of its redirection entry clear) and carries a vector of 16 or
/// more: then that vector's IRR bit is set and nothing else of the APIC
/// changes; otherwise the APIC is left as it is.
pub proof fn lemma_ioapic_routing(redtbl: [u64; 24], apic: ApicState, irq: u8)
    ensures
        ({
            let after = spec_ioapic_deliver(redtbl, apic, irq);
            let entry = redtbl@[irq as int];
            let vector = (entry & 0xFF) as int;
            &&& (irq >= 24 || (entry >> 16u64) & 1 != 0 || vector < 16) ==> after == apic
            &&& !(irq >= 24 || (entry >> 16u64) & 1 != 0 || vector < 16) ==> {
                &&& spec_vector_bit(after.irr, vector)
                &&& forall|w: int|
                    0 <= w < 256 && w != vector ==> spec_vector_bit(after.irr, w)
                        == spec_vector_bit(apic.irr, w)
                &&& after == ApicState { irr: after.irr, ..apic }
            }
        }),
{
    if irq < 24 {
        let entry = redtbl@[irq as int];
        lemma_vector_word_bits(0, 0, 0, 0, entry);
        lemma_vector_update(apic.irr, (entry & 0xFF) as u8);
    }
}

} // verus!
