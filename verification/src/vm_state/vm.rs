//! `VmState`: everything a VM's exit handlers read and change, apart from
//! guest memory.
use vstd::prelude::*;
use crate::devices::apic::{ApicState, IoapicState};
use crate::devices::random::{RandomState, RdrandMode, RANDOM_DEFAULT_SEED};
use crate::devices::serial::SerialState;
use crate::exits::reasons::ExitReason;
use crate::fields::{VmcsField16, VmcsField32, VmcsFieldNatural};
use crate::host::HostState;
use crate::logging::entry::{LogEntry, LOG_ENTRY_FLAG_DETERMINISTIC, MAX_LOG_ENTRIES};
use crate::logging::hash::StateHash;
use crate::registers::gpr::GeneralPurposeRegisters;
use crate::registers::msr;
use crate::registers::xcr0;
use crate::traits::instruction_counter::InstructionCounter;
use crate::traits::vmx_context::VmxContext;
use crate::vm_state::log_buffer::LogBuffer;
use crate::vm_state::msr_bitmap::{lemma_clear_intercept_effect, spec_msr_bitmap_slot, MsrBitmap, MSR_BITMAP_SIZE};
use crate::vm_state::serial_output::{
    spec_le_u16, spec_le_u64, spec_write_bytes, SerialOutput, SERIAL_BUFFER_SIZE,
    SERIAL_LINE_TSC_OFFSET, SERIAL_MAX_LINE_ENTRIES, SERIAL_METADATA_MAGIC,
};
use crate::vm_state::stats::AllExitStats;
use crate::vm_state::xsave::{spec_guest_initial_xsave, XsaveArea, XSAVE_AREA_SIZE};
use crate::vmcs::MockVmcs;

verus! {

/// Maximum number of pages of a feedback buffer (1 MB).
pub const FEEDBACK_BUFFER_MAX_PAGES: usize = 256;

/// Maximum number of feedback buffers per VM.
pub const MAX_FEEDBACK_BUFFERS: usize = 16;

/// Default IA32_PAT value after reset.
pub const PAT_DEFAULT: u64 = 0x0007_0406_0007_0406;

/// Default TSC frequency (2995.2 MHz) for deterministic time emulation.
pub const DEFAULT_TSC_FREQUENCY: u64 = 2_995_200_000;

/// Synthetic exit reason of checkpoint log entries.
pub const EXIT_REASON_CHECKPOINT: u32 = 0xFFFF_FFFF;

/// A feedback buffer registered by the guest (e.g. a coverage bitmap).
#[derive(Clone, Copy)]
pub struct FeedbackBufferInfo {
    /// Guest virtual address of the buffer.
    pub gva: u64,
    /// Size in bytes.
    pub size: u64,
    /// Number of pages.
    pub num_pages: usize,
    /// Page-aligned GPAs of the buffer's pages (`gpas[..num_pages]`).
    pub gpas: [u64; 256],
}

impl FeedbackBufferInfo {
    /// Everything zero.
    pub fn zero() -> (r: Self)
        ensures
            r.gva == 0 && r.size == 0 && r.num_pages == 0,
            forall|i: int| 0 <= i < 256 ==> r.gpas@[i] == 0,
    {
        FeedbackBufferInfo { gva: 0, size: 0, num_pages: 0, gpas: [0u64; 256] }
    }
}

/// When deterministic exits are logged.
#[derive(Clone, Copy, Debug, PartialEq, Eq, Structural)]
pub enum LogMode {
    /// No logging.
    Disabled,
    /// Every exit.
    AllExits,
    /// Once, at the first deterministic exit with TSC >= the target.
    AtTsc,
    /// Once, at the shutdown hypercall.
    AtShutdown,
    /// At deterministic exits that enter a new checkpoint interval.
    Checkpoints,
    /// Exits whose TSC lies within the single-step range.
    TscRange,
}

/// Emulated device states.
#[derive(Clone, Copy)]
pub struct DeviceStates {
    pub apic: ApicState,
    pub ioapic: IoapicState,
    pub serial: SerialState,
    pub random: RandomState,
}

impl DeviceStates {
    /// Reset device states: APIC and I/O APIC registers zero, the UART idle
    /// with no input, RDRAND from the default seed with no request pending.
    pub fn new() -> (r: Self)
        ensures
            r.apic.svr == 0 && r.apic.lvt_timer == 0 && r.apic.timer_initial == 0
                && r.apic.timer_divide == 0 && r.apic.timer_deadline == 0,
            forall|i: int| 0 <= i < 8 ==> r.apic.irr@[i] == 0 && r.apic.isr@[i] == 0,
            forall|i: int| 0 <= i < 24 ==> r.ioapic.redtbl@[i] == 0,
            r.serial.ier == 0 && r.serial.lcr == 0 && r.serial.mcr == 0 && r.serial.scr == 0
                && r.serial.dll == 0 && r.serial.dlh == 0,
            r.serial.input_pos == 0 && r.serial.input_len == 0,
            forall|i: int| 0 <= i < 256 ==> r.serial.input_buf@[i] == 0,
            r.random.mode == RdrandMode::SeededRng && r.random.seed == RANDOM_DEFAULT_SEED,
            r.random.request_cleared(),
            forall|i: int| 0 <= i < 256 ==> r.random.reply@[i] == 0,
    {
        DeviceStates {
            apic: ApicState::new(),
            ioapic: IoapicState::new(),
            serial: SerialState::new(),
            random: RandomState::new(),
        }
    }
}

/// Guest MSR values emulated in software.
#[derive(Clone, Copy)]
pub struct GuestMsrState {
    /// IA32_PAT.
    pub pat: u64,
    /// IA32_TSC_AUX (returned in ECX by RDTSCP).
    pub tsc_aux: u64,
}

impl GuestMsrState {
    /// Reset values: default PAT, TSC_AUX 0.
    pub fn new() -> (r: Self)
        ensures
            r.pat == PAT_DEFAULT,
            r.tsc_aux == 0,
    {
        GuestMsrState { pat: PAT_DEFAULT, tsc_aux: 0 }
    }
}

/// MSRs passed through to the guest without VM exits: those with VMCS
/// guest-state fields (FS/GS base, EFER, SYSENTER), KERNEL_GS_BASE and the
/// SYSCALL MSRs, which are switched around VM entry and exit.
pub open spec fn is_passthrough_msr(m: u32) -> bool {
    m == msr::IA32_FS_BASE || m == msr::IA32_GS_BASE || m == msr::IA32_KERNEL_GS_BASE || m
        == msr::IA32_EFER || m == msr::IA32_STAR || m == msr::IA32_LSTAR || m == msr::IA32_CSTAR
        || m == msr::IA32_FMASK || m == msr::IA32_SYSENTER_CS || m == msr::IA32_SYSENTER_ESP || m
        == msr::IA32_SYSENTER_EIP
}

/// State of one VM, apart from guest memory.
pub struct VmState<I: InstructionCounter> {
    /// The VMCS.
    pub vmcs: MockVmcs,
    /// Guest/host register save area for VM entry and exit.
    pub vmx_ctx: VmxContext,
    /// Guest general-purpose registers as seen by the exit handlers.
    pub gprs: GeneralPurposeRegisters,
    /// MSR bitmap.
    pub msr_bitmap: MsrBitmap,
    /// Guest console output and its line metadata.
    pub serial_output: SerialOutput,
    /// Guest XSAVE area (extended state saved at VM exit, restored at entry).
    pub guest_xsave: XsaveArea,
    /// Host XSAVE area (host extended state while the guest runs).
    pub host_xsave: XsaveArea,
    /// XCR0 mask for XSAVE/XRSTOR.
    pub xcr0_mask: u64,
    /// Last exit qualification.
    pub last_exit_qualification: u64,
    /// Last guest-physical address of an EPT violation.
    pub last_guest_physical_addr: u64,
    /// Emulated device states.
    pub devices: DeviceStates,
    /// Host state captured when the VM was created.
    pub host_state: HostState,
    /// Guest MSR values emulated in software.
    pub msr_state: GuestMsrState,
    /// IA32_KERNEL_GS_BASE.
    pub kernel_gs_base: u64,
    /// Guest instruction counter.
    pub instruction_counter: I,
    /// Instruction count read after the last VM exit.
    pub last_instruction_count: u64,
    /// Emulated TSC: `last_instruction_count + tsc_offset` at deterministic exits.
    pub emulated_tsc: u64,
    /// Amount by which time-advancing exits (HLT/MWAIT) moved the TSC ahead.
    pub tsc_offset: u64,
    /// TSC frequency in Hz.
    pub tsc_frequency: u64,
    /// Logging mode.
    pub log_mode: LogMode,
    /// `AtTsc`: target TSC; `Checkpoints`: checkpoint interval.
    pub log_target_tsc: u64,
    /// No logging before the emulated TSC reaches this value (0: no threshold).
    pub log_start_tsc: u64,
    /// Whether a single-point mode (AtTsc/AtShutdown) has logged.
    pub log_captured: bool,
    /// Number of entries written to the log buffer.
    pub log_entry_count: usize,
    /// The log buffer, once attached.
    pub log_buffer: Option<LogBuffer>,
    /// Index of the entry whose memory hash is still to be filled in.
    pub pending_log_idx: Option<usize>,
    /// Skip memory hashing in log entries.
    pub skip_memory_hash: bool,
    /// TSC range `[start, end)` for single-stepping.
    pub single_step_tsc_range: Option<(u64, u64)>,
    /// Whether the monitor trap flag is set in the VMCS.
    pub mtf_enabled: bool,
    /// Stop the VM when the emulated TSC reaches this value.
    pub stop_at_tsc: Option<u64>,
    /// Instruction count of the next forced exit (`u64::MAX`: none).
    pub next_periodic_exit_count: u64,
    /// PMU skid measured when entering the margin before a forced exit.
    pub pending_pmi_skid: u64,
    /// Exit statistics.
    pub exit_stats: AllExitStats,
    /// Last checkpoint interval logged (`Checkpoints` mode).
    pub last_checkpoint_idx: u64,
    /// Whether the last exit was deterministic (emulated TSC is current).
    pub last_exit_deterministic: bool,
    /// Feedback buffers registered by the guest, by index.
    pub feedback_buffers: [Option<FeedbackBufferInfo>; 16],
    /// VPID of this VM (0: none).
    pub vpid: u16,
    /// Whether guest #PF exceptions are intercepted.
    pub intercept_pf: bool,
}

/// The VMCS value of a field read, or 0 when the read failed.
pub open spec fn spec_or_zero<T, E>(r: Result<T, E>, zero: T) -> T {
    match r {
        Ok(v) => v,
        Err(_) => zero,
    }
}

impl<I: InstructionCounter> VmState<I> {
    /// The log entry that `write_log_entry` records for an exit, with the
    /// given padding (which it zeroes).
    pub open spec fn spec_log_entry(
        self,
        reason: ExitReason,
        qual: u64,
        flags: u32,
        padding: [u64; 26],
    ) -> LogEntry {
        LogEntry {
            tsc: self.emulated_tsc,
            exit_reason: reason.spec_code(),
            flags,
            exit_qualification: qual,
            rax: self.gprs.rax,
            rcx: self.gprs.rcx,
            rdx: self.gprs.rdx,
            rbx: self.gprs.rbx,
            rsp: self.gprs.rsp,
            rbp: self.gprs.rbp,
            rsi: self.gprs.rsi,
            rdi: self.gprs.rdi,
            r8: self.gprs.r8,
            r9: self.gprs.r9,
            r10: self.gprs.r10,
            r11: self.gprs.r11,
            r12: self.gprs.r12,
            r13: self.gprs.r13,
            r14: self.gprs.r14,
            r15: self.gprs.r15,
            rip: spec_or_zero(self.vmcs.spec_read_natural(VmcsFieldNatural::GuestRip), 0),
            rflags: spec_or_zero(self.vmcs.spec_read_natural(VmcsFieldNatural::GuestRflags), 0),
            apic_hash: 0,
            serial_hash: 0,
            ioapic_hash: 0,
            rtc_hash: 0,
            mtrr_hash: 0,
            rdrand_hash: 0,
            memory_hash: 0,
            fs_base: spec_or_zero(self.vmcs.spec_read_natural(VmcsFieldNatural::GuestFsBase), 0),
            gs_base: spec_or_zero(self.vmcs.spec_read_natural(VmcsFieldNatural::GuestGsBase), 0),
            kernel_gs_base: self.kernel_gs_base,
            cr3: spec_or_zero(self.vmcs.spec_read_natural(VmcsFieldNatural::GuestCr3), 0),
            cs_base: spec_or_zero(self.vmcs.spec_read_natural(VmcsFieldNatural::GuestCsBase), 0),
            ds_base: spec_or_zero(self.vmcs.spec_read_natural(VmcsFieldNatural::GuestDsBase), 0),
            es_base: spec_or_zero(self.vmcs.spec_read_natural(VmcsFieldNatural::GuestEsBase), 0),
            ss_base: spec_or_zero(self.vmcs.spec_read_natural(VmcsFieldNatural::GuestSsBase), 0),
            pending_dbg_exceptions: spec_or_zero(
                self.vmcs.spec_read_natural(VmcsFieldNatural::GuestPendingDebugExceptions),
                0,
            ),
            interruptibility_state: spec_or_zero(
                self.vmcs.spec_read32(VmcsField32::GuestInterruptibilityState),
                0,
            ),
            cow_page_count: 0,
            _padding: padding,
        }
    }

    /// Whether `e` is the entry logged for an exit: every field as
    /// `spec_log_entry` gives it, the padding zero.
    pub open spec fn spec_is_log_entry(self, e: LogEntry, reason: ExitReason, qual: u64, flags: u32) -> bool {
        &&& e == self.spec_log_entry(reason, qual, flags, e._padding)
        &&& e._padding@ == Seq::new(26, |i: int| 0u64)
    }

    /// `after` is `self` after `write_log_entry(reason, qual, flags)`: with a
    /// buffer attached and room left, the entry fills the next slot and is
    /// marked pending; otherwise nothing changes.
    pub open spec fn spec_wrote_log_entry(
        self,
        after: Self,
        reason: ExitReason,
        qual: u64,
        flags: u32,
    ) -> bool {
        match self.log_buffer {
            Some(buf) if self.log_entry_count < MAX_LOG_ENTRIES => {
                &&& after.log_buffer matches Some(nb) && nb.entries() == buf.entries().update(
                    self.log_entry_count as int,
                    nb.entries()[self.log_entry_count as int],
                ) && self.spec_is_log_entry(
                    nb.entries()[self.log_entry_count as int],
                    reason,
                    qual,
                    flags,
                )
                &&& after == VmState {
                    log_buffer: after.log_buffer,
                    pending_log_idx: Some(self.log_entry_count),
                    log_entry_count: (self.log_entry_count + 1) as usize,
                    ..self
                }
            },
            _ => after == self,
        }
    }

    /// `after` is `self` after `log_shutdown`: in `AtShutdown` mode, not yet
    /// captured and past the start TSC, the shutdown is logged and marked
    /// captured; otherwise nothing changes.
    pub open spec fn spec_logged_shutdown(self, after: Self) -> bool {
        if self.log_mode == LogMode::AtShutdown && !self.log_captured
            && !self.spec_before_log_start() {
            &&& self.spec_wrote_log_entry(
                VmState { log_captured: false, ..after },
                ExitReason::VmcallShutdown,
                0,
                LOG_ENTRY_FLAG_DETERMINISTIC,
            )
            &&& after.log_captured
        } else {
            after == self
        }
    }

    /// `after` is `self` after `log_snapshot`: with logging enabled, past the
    /// start TSC and room in the buffer, the snapshot is logged; otherwise
    /// nothing changes.
    pub open spec fn spec_logged_snapshot(self, after: Self) -> bool {
        if self.log_mode != LogMode::Disabled && !self.spec_before_log_start()
            && self.log_entry_count < MAX_LOG_ENTRIES {
            self.spec_wrote_log_entry(after, ExitReason::VmcallSnapshot, 0, LOG_ENTRY_FLAG_DETERMINISTIC)
        } else {
            after == self
        }
    }

    /// `after` is `self` after `log_exit(reason, qual, deterministic)`: when
    /// `spec_log_exit_plan` says so, the entry is written (after the
    /// checkpoint index moves on) and `AtTsc` mode is marked captured;
    /// otherwise nothing changes.
    pub open spec fn spec_logged_exit(self, after: Self, reason: ExitReason, qual: u64, deterministic: bool) -> bool {
        let (writes, idx) = self.spec_log_exit_plan(deterministic);
        let flags: u32 = if deterministic {
            LOG_ENTRY_FLAG_DETERMINISTIC
        } else {
            0
        };
        if writes {
            &&& (VmState { last_checkpoint_idx: idx, ..self }).spec_wrote_log_entry(
                VmState { log_captured: self.log_captured, ..after },
                reason,
                qual,
                flags,
            )
            &&& after.log_captured == (self.log_captured || self.log_mode == LogMode::AtTsc)
        } else {
            after == self
        }
    }

    /// Whether the start threshold holds logging back.
    pub open spec fn spec_before_log_start(self) -> bool {
        self.log_start_tsc > 0 && self.emulated_tsc < self.log_start_tsc
    }

    /// Whether `log_exit` writes an entry, and the checkpoint index after it.
    pub open spec fn spec_log_exit_plan(self, deterministic: bool) -> (bool, u64) {
        let idx = self.last_checkpoint_idx;
        let tsc = self.emulated_tsc;
        if self.spec_before_log_start() {
            (false, idx)
        } else {
            match self.log_mode {
                LogMode::Disabled => (false, idx),
                LogMode::AtShutdown => (false, idx),
                LogMode::Checkpoints => if !deterministic || self.log_target_tsc == 0 {
                    (false, idx)
                } else if tsc / self.log_target_tsc > idx {
                    (true, tsc / self.log_target_tsc)
                } else {
                    (false, idx)
                },
                LogMode::AtTsc => (deterministic && !self.log_captured && tsc
                    >= self.log_target_tsc, idx),
                LogMode::AllExits => (true, idx),
                LogMode::TscRange => match self.single_step_tsc_range {
                    Some((start, end)) => (start <= tsc && tsc < end, idx),
                    None => (false, idx),
                },
            }
        }
    }
}

/// Read a natural-width field, 0 when it cannot be read.
fn read_natural_or_zero(vmcs: &MockVmcs, field: VmcsFieldNatural) -> (r: u64)
    ensures
        r == spec_or_zero(vmcs.spec_read_natural(field), 0),
{
    match vmcs.read_natural(field) {
        Ok(v) => v,
        Err(_) => 0,
    }
}

/// Whether `bm` intercepts exactly the MSRs outside `passed`.
pub open spec fn spec_intercepts_all_but(bm: MsrBitmap, passed: Set<u32>) -> bool {
    &&& bm.view().len() == MSR_BITMAP_SIZE
    &&& forall|m: u32| #[trigger] bm.intercepts_read(m) == !passed.contains(m)
    &&& forall|m: u32| #[trigger] bm.intercepts_write(m) == !passed.contains(m)
}

/// Clear the intercepts of one more MSR that lies in a bitmap range.
fn pass_through(bm: &mut MsrBitmap, msr: u32, Ghost(passed): Ghost<Set<u32>>)
    requires
        spec_msr_bitmap_slot(msr) is Some,
        spec_intercepts_all_but(*old(bm), passed),
    ensures
        spec_intercepts_all_but(*final(bm), passed.insert(msr)),
{
    let ghost before = *bm;
    bm.clear_intercept(msr);
    proof {
        assert forall|m: u32| #[trigger] bm.intercepts_read(m) == !passed.insert(msr).contains(m) by {
            lemma_clear_intercept_effect(before, *bm, msr, m);
        }
        assert forall|m: u32| #[trigger] bm.intercepts_write(m) == !passed.insert(msr).contains(m) by {
            lemma_clear_intercept_effect(before, *bm, msr, m);
        }
    }
}

/// The MSR bitmap of a new VM: every access intercepted except those of the
/// passthrough MSRs.
fn passthrough_msr_bitmap() -> (r: MsrBitmap)
    ensures
        forall|m: u32| #[trigger] r.intercepts_read(m) == !is_passthrough_msr(m),
        forall|m: u32| #[trigger] r.intercepts_write(m) == !is_passthrough_msr(m),
{
    let mut bm = MsrBitmap::intercept_all();
    proof {
        assert forall|k: u8| k < 8 implies #[trigger] ((0xFFu8 >> k) & 1) == 1 by {
            assert((0xFFu8 >> k) & 1 == 1) by (bit_vector)
                requires
                    k < 8,
            ;
        }
        assert forall|m: u32| #[trigger] bm.intercepts_read(m) by {
            if let Some((rb, wb, i)) = spec_msr_bitmap_slot(m) {
                assert((0xFFu8 >> ((i % 8) as u8)) & 1 == 1);
            }
        }
        assert forall|m: u32| #[trigger] bm.intercepts_write(m) by {
            if let Some((rb, wb, i)) = spec_msr_bitmap_slot(m) {
                assert((0xFFu8 >> ((i % 8) as u8)) & 1 == 1);
            }
        }
        assert(spec_intercepts_all_but(bm, Set::empty()));
    }
    let ghost s0: Set<u32> = Set::empty();
    pass_through(&mut bm, msr::IA32_FS_BASE, Ghost(s0));
    let ghost s1 = s0.insert(msr::IA32_FS_BASE);
    pass_through(&mut bm, msr::IA32_GS_BASE, Ghost(s1));
    let ghost s2 = s1.insert(msr::IA32_GS_BASE);
    pass_through(&mut bm, msr::IA32_KERNEL_GS_BASE, Ghost(s2));
    let ghost s3 = s2.insert(msr::IA32_KERNEL_GS_BASE);
    pass_through(&mut bm, msr::IA32_EFER, Ghost(s3));
    let ghost s4 = s3.insert(msr::IA32_EFER);
    pass_through(&mut bm, msr::IA32_STAR, Ghost(s4));
    let ghost s5 = s4.insert(msr::IA32_STAR);
    pass_through(&mut bm, msr::IA32_LSTAR, Ghost(s5));
    let ghost s6 = s5.insert(msr::IA32_LSTAR);
    pass_through(&mut bm, msr::IA32_CSTAR, Ghost(s6));
    let ghost s7 = s6.insert(msr::IA32_CSTAR);
    pass_through(&mut bm, msr::IA32_FMASK, Ghost(s7));
    let ghost s8 = s7.insert(msr::IA32_FMASK);
    pass_through(&mut bm, msr::IA32_SYSENTER_CS, Ghost(s8));
    let ghost s9 = s8.insert(msr::IA32_SYSENTER_CS);
    pass_through(&mut bm, msr::IA32_SYSENTER_ESP, Ghost(s9));
    let ghost s10 = s9.insert(msr::IA32_SYSENTER_ESP);
    pass_through(&mut bm, msr::IA32_SYSENTER_EIP, Ghost(s10));
    let ghost s11 = s10.insert(msr::IA32_SYSENTER_EIP);
    proof {
        assert forall|m: u32| s11.contains(m) == is_passthrough_msr(m) by {}
    }
    bm
}

impl<I: InstructionCounter> VmState<I> {
    /// A VM state with the given VMCS, instruction counter and host state:
    /// zeroed registers, an MSR bitmap that intercepts every MSR except the
    /// passthrough ones, empty serial output, XSAVE for SSE+AVX, logging
    /// disabled, and the VPID read back from the VMCS (0 when absent).
    pub fn new(vmcs: MockVmcs, instruction_counter: I, host_state: HostState) -> (r: Self)
        ensures
            r.vmcs == vmcs,
            r.gprs == GeneralPurposeRegisters::spec_zeroed(),
            r.vmx_ctx == VmxContext::spec_zeroed(),
            forall|m: u32| #[trigger]
                r.msr_bitmap.intercepts_read(m) == !is_passthrough_msr(m),
            forall|m: u32| #[trigger]
                r.msr_bitmap.intercepts_write(m) == !is_passthrough_msr(m),
            r.serial_output.out_len() == 0,
            r.serial_output.lines() == 0,
            r.serial_output.at_line_start(),
            r.serial_output.pending_byte() is None,
            r.xcr0_mask == xcr0::SSE_AVX,
            r.guest_xsave.view() == spec_guest_initial_xsave(),
            r.host_xsave.view() == Seq::new(XSAVE_AREA_SIZE as nat, |i: int| 0u8),
            r.last_instruction_count == 0,
            r.emulated_tsc == 0,
            r.tsc_offset == 0,
            r.tsc_frequency == DEFAULT_TSC_FREQUENCY,
            r.log_mode == LogMode::Disabled,
            r.log_entry_count == 0,
            r.log_buffer is None,
            r.pending_log_idx is None,
            r.single_step_tsc_range is None,
            !r.mtf_enabled,
            r.stop_at_tsc is None,
            r.next_periodic_exit_count == u64::MAX,
            r.exit_stats == AllExitStats::spec_zero(),
            r.last_exit_deterministic,
            forall|i: int| 0 <= i < MAX_FEEDBACK_BUFFERS ==> r.feedback_buffers@[i] is None,
            r.vpid == spec_or_zero(vmcs.spec_read16(VmcsField16::VirtualProcessorId), 0),
            !r.intercept_pf,
            r.host_state == host_state,
            r.instruction_counter == instruction_counter,
            r.last_exit_qualification == 0 && r.last_guest_physical_addr == 0,
            r.devices.apic.timer_deadline == 0 && r.devices.apic.svr == 0,
            forall|i: int| 0 <= i < 8 ==> r.devices.apic.irr@[i] == 0 && r.devices.apic.isr@[i] == 0,
            r.devices.serial.input_len == 0,
            r.devices.random.seed == RANDOM_DEFAULT_SEED,
            r.msr_state.pat == PAT_DEFAULT && r.msr_state.tsc_aux == 0,
            r.kernel_gs_base == 0,
            r.log_target_tsc == 0 && r.log_start_tsc == 0 && !r.log_captured,
            !r.skip_memory_hash,
            r.pending_pmi_skid == 0,
            r.last_checkpoint_idx == 0,
    {
        let msr_bitmap = passthrough_msr_bitmap();
        let vpid = match vmcs.read16(VmcsField16::VirtualProcessorId) {
            Ok(v) => v,
            Err(_) => 0,
        };
        VmState {
            vmcs,
            vmx_ctx: VmxContext::new(),
            gprs: GeneralPurposeRegisters::zeroed(),
            msr_bitmap,
            guest_xsave: XsaveArea::guest_initial(),
            host_xsave: XsaveArea::zeroed(),
            serial_output: SerialOutput::new(),
            xcr0_mask: xcr0::SSE_AVX,
            last_exit_qualification: 0,
            last_guest_physical_addr: 0,
            devices: DeviceStates::new(),
            host_state,
            msr_state: GuestMsrState::new(),
            kernel_gs_base: 0,
            instruction_counter,
            last_instruction_count: 0,
            emulated_tsc: 0,
            tsc_offset: 0,
            tsc_frequency: DEFAULT_TSC_FREQUENCY,
            log_mode: LogMode::Disabled,
            log_target_tsc: 0,
            log_start_tsc: 0,
            log_captured: false,
            log_entry_count: 0,
            log_buffer: None,
            pending_log_idx: None,
            skip_memory_hash: false,
            single_step_tsc_range: None,
            mtf_enabled: false,
            stop_at_tsc: None,
            next_periodic_exit_count: u64::MAX,
            pending_pmi_skid: 0,
            exit_stats: AllExitStats::zero(),
            last_checkpoint_idx: 0,
            last_exit_deterministic: true,
            feedback_buffers: [None; 16],
            vpid,
            intercept_pf: false,
        }
    }
}

impl<I: InstructionCounter> VmState<I> {
    /// Write a byte of guest console output, recording the emulated TSC for
    /// a byte that starts a line. Returns `false` when the buffer is full.
    pub fn serial_write(&mut self, byte: u8) -> (r: bool)
        ensures
            r == (old(self).serial_output.out_len() < SERIAL_BUFFER_SIZE),
            *final(self) == (VmState { serial_output: final(self).serial_output, ..*old(self) }),
            !r ==> final(self).serial_output == old(self).serial_output,
            r ==> {
                let records = old(self).serial_output.at_line_start()
                    && old(self).serial_output.lines() < SERIAL_MAX_LINE_ENTRIES;
                &&& final(self).serial_output.buffer() == old(self).serial_output.buffer().update(
                    old(self).serial_output.out_len() as int,
                    byte,
                )
                &&& final(self).serial_output.out_len() == old(self).serial_output.out_len() + 1
                &&& final(self).serial_output.tsc_page() == if records {
                    spec_write_bytes(
                        old(self).serial_output.tsc_page(),
                        SERIAL_LINE_TSC_OFFSET + old(self).serial_output.lines() * 10,
                        spec_le_u16(old(self).serial_output.out_len() as u16) + spec_le_u64(
                            old(self).emulated_tsc,
                        ),
                    )
                } else {
                    old(self).serial_output.tsc_page()
                }
                &&& final(self).serial_output.lines() == old(self).serial_output.lines() + if records {
                    1int
                } else {
                    0
                }
                &&& final(self).serial_output.at_line_start() == (byte == 10 || (old(
                    self,
                ).serial_output.at_line_start() && !records))
                &&& final(self).serial_output.pending_byte() == old(self).serial_output.pending_byte()
            },
    {
        let tsc = self.emulated_tsc;
        self.serial_output.write(byte, tsc)
    }

    /// The guest console output written so far.
    pub fn serial_output(&self) -> (r: &[u8])
        ensures
            r@ == self.serial_output.contents(),
    {
        self.serial_output.output()
    }

    /// Clear the console output and its line tracking; a byte held back
    /// because the buffer was full is then written first, stamped with the
    /// emulated TSC.
    pub fn serial_clear(&mut self)
        ensures
            *final(self) == (VmState { serial_output: final(self).serial_output, ..*old(self) }),
            final(self).serial_output.pending_byte() is None,
            match old(self).serial_output.pending_byte() {
                None => {
                    &&& final(self).serial_output.out_len() == 0
                    &&& final(self).serial_output.lines() == 0
                    &&& final(self).serial_output.at_line_start()
                    &&& final(self).serial_output.buffer() == old(self).serial_output.buffer()
                    &&& final(self).serial_output.tsc_page() == old(self).serial_output.tsc_page()
                },
                Some(b) => {
                    &&& final(self).serial_output.out_len() == 1
                    &&& final(self).serial_output.lines() == 1
                    &&& final(self).serial_output.at_line_start() == (b == 10)
                    &&& final(self).serial_output.buffer() == old(self).serial_output.buffer().update(
                        0,
                        b,
                    )
                    &&& final(self).serial_output.tsc_page() == spec_write_bytes(
                        old(self).serial_output.tsc_page(),
                        SERIAL_LINE_TSC_OFFSET as int,
                        spec_le_u16(0) + spec_le_u64(old(self).emulated_tsc),
                    )
                },
            },
    {
        let tsc = self.emulated_tsc;
        self.serial_output.clear(tsc);
    }

    /// Write the line count and magic into the console metadata page.
    pub fn serial_finalize_metadata(&mut self)
        ensures
            *final(self) == (VmState { serial_output: final(self).serial_output, ..*old(self) }),
            final(self).serial_output.tsc_page() == spec_write_bytes(
                old(self).serial_output.tsc_page(),
                0,
                spec_le_u16(old(self).serial_output.lines() as u16) + spec_le_u16(
                    SERIAL_METADATA_MAGIC,
                ),
            ),
            final(self).serial_output.buffer() == old(self).serial_output.buffer(),
            final(self).serial_output.out_len() == old(self).serial_output.out_len(),
            final(self).serial_output.lines() == old(self).serial_output.lines(),
            final(self).serial_output.at_line_start() == old(self).serial_output.at_line_start(),
            final(self).serial_output.pending_byte() == old(self).serial_output.pending_byte(),
    {
        self.serial_output.finalize_metadata();
    }

    /// Whether logging is enabled (any mode but `Disabled`).
    pub fn log_enabled(&self) -> (r: bool)
        ensures
            r == (self.log_mode != LogMode::Disabled),
    {
        !matches!(self.log_mode, LogMode::Disabled)
    }

    /// Log every exit.
    pub fn enable_logging(&mut self)
        ensures
            *final(self) == (VmState { log_mode: LogMode::AllExits, log_captured: false, ..*old(self) }),
    {
        self.log_mode = LogMode::AllExits;
        self.log_captured = false;
    }

    /// Stop logging.
    pub fn disable_logging(&mut self)
        ensures
            *final(self) == (VmState { log_mode: LogMode::Disabled, log_captured: false, ..*old(self) }),
    {
        self.log_mode = LogMode::Disabled;
        self.log_captured = false;
    }

    /// Set the logging mode and its target TSC (`AtTsc`: the TSC to log at;
    /// `Checkpoints`: the checkpoint interval).
    pub fn set_log_mode(&mut self, mode: LogMode, target_tsc: u64)
        ensures
            *final(self) == (VmState {
                log_mode: mode,
                log_target_tsc: target_tsc,
                log_captured: false,
                ..*old(self)
            }),
    {
        self.log_mode = mode;
        self.log_target_tsc = target_tsc;
        self.log_captured = false;
    }

    /// The logging mode.
    pub fn log_mode(&self) -> (r: LogMode)
        ensures
            r == self.log_mode,
    {
        self.log_mode
    }

    /// No logging until the emulated TSC reaches `start_tsc` (0: from the start).
    pub fn set_log_start_tsc(&mut self, start_tsc: u64)
        ensures
            *final(self) == (VmState { log_start_tsc: start_tsc, ..*old(self) }),
    {
        self.log_start_tsc = start_tsc;
    }

    /// Record whether guest #PF exceptions are to be intercepted; the VMCS
    /// is updated by `apply_intercept_pf`.
    pub fn set_intercept_pf(&mut self, enable: bool)
        ensures
            *final(self) == (VmState { intercept_pf: enable, ..*old(self) }),
    {
        self.intercept_pf = enable;
    }

    /// Set or clear the #PF bit (bit 14) of the exception bitmap according
    /// to `intercept_pf`; an unreadable bitmap counts as 0.
    pub fn apply_intercept_pf(&mut self)
        ensures
            ({
                let bitmap = spec_or_zero(old(self).vmcs.spec_read32(VmcsField32::ExceptionBitmap), 0);
                let new_bitmap = if old(self).intercept_pf {
                    bitmap | 0x4000
                } else {
                    bitmap & !0x4000u32
                };
                final(self).vmcs@ == old(self).vmcs@.set32(VmcsField32::ExceptionBitmap, new_bitmap)
            }),
            *final(self) == (VmState { vmcs: final(self).vmcs, ..*old(self) }),
    {
        let bitmap = match self.vmcs.read32(VmcsField32::ExceptionBitmap) {
            Ok(v) => v,
            Err(_) => 0,
        };
        let new_bitmap = if self.intercept_pf {
            bitmap | 0x4000
        } else {
            bitmap & !0x4000u32
        };
        let _ = self.vmcs.write32(VmcsField32::ExceptionBitmap, new_bitmap);
    }

    /// Attach the log buffer shared with userspace.
    pub fn set_log_buffer(&mut self, buffer: LogBuffer)
        ensures
            *final(self) == (VmState { log_buffer: Some(buffer), ..*old(self) }),
    {
        self.log_buffer = Some(buffer);
    }

    /// Detach the log buffer and reset the entry count.
    pub fn clear_log_buffer_ptr(&mut self)
        ensures
            *final(self) == (VmState { log_buffer: None, log_entry_count: 0, ..*old(self) }),
    {
        self.log_buffer = None;
        self.log_entry_count = 0;
    }

    /// Number of log entries written.
    pub fn log_entry_count(&self) -> (r: usize)
        ensures
            r == self.log_entry_count,
    {
        self.log_entry_count
    }

    /// Whether the log buffer is full.
    pub fn log_buffer_full(&self) -> (r: bool)
        ensures
            r == (self.log_entry_count >= MAX_LOG_ENTRIES),
    {
        self.log_entry_count >= MAX_LOG_ENTRIES
    }

    /// Start the log over (entry count 0).
    pub fn log_clear(&mut self)
        ensures
            *final(self) == (VmState { log_entry_count: 0, ..*old(self) }),
    {
        self.log_entry_count = 0;
    }

    /// Log a VM exit as the logging mode asks (see `spec_log_exit_plan`):
    /// nothing before the start TSC; `AllExits` every exit; `AtTsc` the
    /// first deterministic exit at or past the target; `Checkpoints` each
    /// deterministic exit that enters a new interval; `TscRange` exits inside
    /// the single-step range; `Disabled` and `AtShutdown` nothing.
    pub fn log_exit(&mut self, exit_reason: ExitReason, exit_qualification: u64, deterministic: bool)
        ensures
            old(self).spec_logged_exit(*final(self), exit_reason, exit_qualification, deterministic),
    {
        if self.log_start_tsc > 0 && self.emulated_tsc < self.log_start_tsc {
            return;
        }
        match self.log_mode {
            LogMode::Disabled => return ,
            LogMode::AtShutdown => return ,
            LogMode::Checkpoints => {
                if !deterministic {
                    return ;
                }
                let interval = self.log_target_tsc;
                if interval == 0 {
                    return ;
                }
                let checkpoint_idx = self.emulated_tsc / interval;
                if checkpoint_idx > self.last_checkpoint_idx {
                    self.last_checkpoint_idx = checkpoint_idx;
                } else {
                    return ;
                }
            },
            LogMode::AtTsc => {
                if !deterministic {
                    return ;
                }
                if self.log_captured || self.emulated_tsc < self.log_target_tsc {
                    return ;
                }
            },
            LogMode::AllExits => {},
            LogMode::TscRange => {
                match self.single_step_tsc_range {
                    Some((start, end)) => {
                        if self.emulated_tsc < start || self.emulated_tsc >= end {
                            return ;
                        }
                    },
                    None => return ,
                }
            },
        }
        let flags: u32 = if deterministic {
            LOG_ENTRY_FLAG_DETERMINISTIC
        } else {
            0
        };
        self.write_log_entry(exit_reason, exit_qualification, flags);
        if matches!(self.log_mode, LogMode::AtTsc) {
            self.log_captured = true;
        }
    }

    /// Log the final state at the shutdown hypercall, once, in `AtShutdown`
    /// mode and past the start TSC.
    pub fn log_shutdown(&mut self)
        ensures
            old(self).spec_logged_shutdown(*final(self)),
    {
        if !matches!(self.log_mode, LogMode::AtShutdown) || self.log_captured {
            return ;
        }
        if self.log_start_tsc > 0 && self.emulated_tsc < self.log_start_tsc {
            return ;
        }
        self.write_log_entry(ExitReason::VmcallShutdown, 0, LOG_ENTRY_FLAG_DETERMINISTIC);
        self.log_captured = true;
    }

    /// Log the state at a snapshot hypercall, when logging is enabled, past
    /// the start TSC and with room in the buffer.
    pub fn log_snapshot(&mut self)
        ensures
            old(self).spec_logged_snapshot(*final(self)),
    {
        if self.log_start_tsc > 0 && self.emulated_tsc < self.log_start_tsc {
            return ;
        }
        if matches!(self.log_mode, LogMode::Disabled) {
            return ;
        }
        if self.log_entry_count >= MAX_LOG_ENTRIES {
            return ;
        }
        self.write_log_entry(ExitReason::VmcallSnapshot, 0, LOG_ENTRY_FLAG_DETERMINISTIC);
    }

    /// Record an exit in the next free slot of the log buffer and mark it as
    /// waiting for its memory hash; nothing without a buffer or room.
    fn write_log_entry(&mut self, exit_reason: ExitReason, exit_qualification: u64, flags: u32)
        ensures
            old(self).spec_wrote_log_entry(*final(self), exit_reason, exit_qualification, flags),
    {
        if self.log_buffer.is_none() {
            return ;
        }
        if self.log_entry_count >= MAX_LOG_ENTRIES {
            return ;
        }
        let rip = read_natural_or_zero(&self.vmcs, VmcsFieldNatural::GuestRip);
        let rflags = read_natural_or_zero(&self.vmcs, VmcsFieldNatural::GuestRflags);
        let fs_base = read_natural_or_zero(&self.vmcs, VmcsFieldNatural::GuestFsBase);
        let gs_base = read_natural_or_zero(&self.vmcs, VmcsFieldNatural::GuestGsBase);
        let cr3 = read_natural_or_zero(&self.vmcs, VmcsFieldNatural::GuestCr3);
        let cs_base = read_natural_or_zero(&self.vmcs, VmcsFieldNatural::GuestCsBase);
        let ds_base = read_natural_or_zero(&self.vmcs, VmcsFieldNatural::GuestDsBase);
        let es_base = read_natural_or_zero(&self.vmcs, VmcsFieldNatural::GuestEsBase);
        let ss_base = read_natural_or_zero(&self.vmcs, VmcsFieldNatural::GuestSsBase);
        let pending_dbg_exceptions = read_natural_or_zero(
            &self.vmcs,
            VmcsFieldNatural::GuestPendingDebugExceptions,
        );
        let interruptibility_state = match self.vmcs.read32(
            VmcsField32::GuestInterruptibilityState,
        ) {
            Ok(v) => v,
            Err(_) => 0,
        };
        let apic_hash = self.devices.apic.state_hash();
        let serial_hash = self.devices.serial.state_hash();
        let ioapic_hash = self.devices.ioapic.state_hash();
        let rdrand_hash = self.devices.random.state_hash();
        let entry = LogEntry {
            tsc: self.emulated_tsc,
            exit_reason: exit_reason.code(),
            flags,
            exit_qualification,
            rax: self.gprs.rax,
            rcx: self.gprs.rcx,
            rdx: self.gprs.rdx,
            rbx: self.gprs.rbx,
            rsp: self.gprs.rsp,
            rbp: self.gprs.rbp,
            rsi: self.gprs.rsi,
            rdi: self.gprs.rdi,
            r8: self.gprs.r8,
            r9: self.gprs.r9,
            r10: self.gprs.r10,
            r11: self.gprs.r11,
            r12: self.gprs.r12,
            r13: self.gprs.r13,
            r14: self.gprs.r14,
            r15: self.gprs.r15,
            rip,
            rflags,
            apic_hash,
            serial_hash,
            ioapic_hash,
            rtc_hash: 0,
            mtrr_hash: 0,
            rdrand_hash,
            memory_hash: 0,
            fs_base,
            gs_base,
            kernel_gs_base: self.kernel_gs_base,
            cr3,
            cs_base,
            ds_base,
            es_base,
            ss_base,
            pending_dbg_exceptions,
            interruptibility_state,
            cow_page_count: 0,
            _padding: [0u64; 26],
        };
        assert(entry._padding@ =~= Seq::new(26, |i: int| 0u64));
        let idx = self.log_entry_count;
        if let Some(buf) = &mut self.log_buffer {
            buf.set(idx, entry);
        }
        self.pending_log_idx = Some(idx);
        self.log_entry_count = idx + 1;
    }
}

impl<I: InstructionCounter> VmState<I> {
    /// The state of a VM forked from `parent`: registers, MSR bitmap, XSAVE
    /// mask, devices, host and MSR state, KERNEL_GS_BASE, TSC frequency and
    /// feedback buffers copied; the child's instruction count starts at 0
    /// with the TSC offset at the parent's emulated TSC, so its emulated TSC
    /// continues from the parent's; fresh console output, statistics and log
    /// state (logging disabled); no VPID.
    pub fn new_for_fork<I2: InstructionCounter>(
        vmcs: MockVmcs,
        parent: &VmState<I2>,
        instruction_counter: I,
    ) -> (r: Self)
        ensures
            r.vmcs == vmcs,
            r.vmx_ctx == VmxContext::spec_zeroed(),
            r.gprs == parent.gprs,
            r.msr_bitmap.view() == parent.msr_bitmap.view(),
            r.guest_xsave.view() == parent.guest_xsave.view(),
            r.host_xsave.view() == Seq::new(XSAVE_AREA_SIZE as nat, |i: int| 0u8),
            r.serial_output.out_len() == 0,
            r.serial_output.lines() == 0,
            r.serial_output.at_line_start(),
            r.serial_output.pending_byte() is None,
            r.xcr0_mask == parent.xcr0_mask,
            r.last_exit_qualification == 0,
            r.last_guest_physical_addr == 0,
            r.devices == parent.devices,
            r.host_state == parent.host_state,
            r.msr_state == parent.msr_state,
            r.kernel_gs_base == parent.kernel_gs_base,
            r.last_instruction_count == 0,
            r.emulated_tsc == parent.emulated_tsc,
            r.tsc_offset == parent.emulated_tsc,
            r.tsc_frequency == parent.tsc_frequency,
            r.log_mode == LogMode::Disabled,
            r.log_target_tsc == 0,
            r.log_start_tsc == 0,
            !r.log_captured,
            r.log_entry_count == 0,
            r.log_buffer is None,
            r.pending_log_idx is None,
            !r.skip_memory_hash,
            r.single_step_tsc_range is None,
            !r.mtf_enabled,
            r.stop_at_tsc is None,
            r.next_periodic_exit_count == u64::MAX,
            r.pending_pmi_skid == 0,
            r.exit_stats == AllExitStats::spec_zero(),
            r.last_checkpoint_idx == 0,
            r.last_exit_deterministic,
            r.feedback_buffers == parent.feedback_buffers,
            r.vpid == 0,
            !r.intercept_pf,
    {
        VmState {
            vmcs,
            vmx_ctx: VmxContext::new(),
            gprs: parent.gprs,
            msr_bitmap: parent.msr_bitmap.duplicate(),
            guest_xsave: parent.guest_xsave.duplicate(),
            host_xsave: XsaveArea::zeroed(),
            serial_output: SerialOutput::new(),
            xcr0_mask: parent.xcr0_mask,
            last_exit_qualification: 0,
            last_guest_physical_addr: 0,
            devices: parent.devices,
            host_state: parent.host_state,
            msr_state: parent.msr_state,
            kernel_gs_base: parent.kernel_gs_base,
            instruction_counter,
            last_instruction_count: 0,
            emulated_tsc: parent.emulated_tsc,
            tsc_offset: parent.emulated_tsc,
            tsc_frequency: parent.tsc_frequency,
            log_mode: LogMode::Disabled,
            log_target_tsc: 0,
            log_start_tsc: 0,
            log_captured: false,
            log_entry_count: 0,
            log_buffer: None,
            pending_log_idx: None,
            skip_memory_hash: false,
            single_step_tsc_range: None,
            mtf_enabled: false,
            stop_at_tsc: None,
            next_periodic_exit_count: u64::MAX,
            pending_pmi_skid: 0,
            exit_stats: AllExitStats::zero(),
            last_checkpoint_idx: 0,
            last_exit_deterministic: true,
            feedback_buffers: parent.feedback_buffers,
            vpid: 0,
            intercept_pf: false,
        }
    }
}


/// In `AtTsc` mode an exit is logged at most once: once an exit has been
/// logged, the plan for any later exit writes nothing.
pub proof fn lemma_at_tsc_logs_once<I: InstructionCounter>(
    s: VmState<I>,
    after: VmState<I>,
    reason: ExitReason,
    qual: u64,
    deterministic: bool,
    later_deterministic: bool,
)
    requires
        s.log_mode == LogMode::AtTsc,
        s.spec_logged_exit(after, reason, qual, deterministic),
        s.spec_log_exit_plan(deterministic).0,
    ensures
        after.log_captured,
        after.log_mode == LogMode::AtTsc,
        !after.spec_log_exit_plan(later_deterministic).0,
{
}

/// In `Checkpoints` mode the checkpoint index never decreases, and an exit
/// is logged only when it enters a later interval.
pub proof fn lemma_checkpoints_advance<I: InstructionCounter>(s: VmState<I>, deterministic: bool)
    requires
        s.log_mode == LogMode::Checkpoints,
    ensures
        s.spec_log_exit_plan(deterministic).1 >= s.last_checkpoint_idx,
        s.spec_log_exit_plan(deterministic).0 ==> s.spec_log_exit_plan(deterministic).1
            > s.last_checkpoint_idx,
{
}

} // verus!
