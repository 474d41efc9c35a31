//! Exit-handling statistics: per-exit-type counts and cycles, and copy-on-write
//! fault patterns.
use vstd::prelude::*;
use crate::exits::reasons::ExitReason;

verus! {

/// Count and total handling cycles of one exit type.
#[derive(Default, Clone, Copy, Debug)]
pub struct ExitStats {
    /// Number of exits of this type.
    pub count: u64,
    /// Total cycles spent handling this exit type.
    pub cycles: u64,
}

impl ExitStats {
    /// No exits recorded.
    pub fn zero() -> (r: Self)
        ensures
            r.count == 0 && r.cycles == 0,
    {
        ExitStats { count: 0, cycles: 0 }
    }

    /// Record one exit that took `cycles` cycles.
    pub fn record(&mut self, cycles: u64)
        requires
            old(self).count < u64::MAX,
            old(self).cycles + cycles <= u64::MAX,
        ensures
            final(self).count == old(self).count + 1,
            final(self).cycles == old(self).cycles + cycles,
    {
        self.count = self.count + 1;
        self.cycles = self.cycles + cycles;
    }

    /// Average cycles per exit, or 0 when no exit was recorded.
    pub fn avg_cycles(&self) -> (r: u64)
        ensures
            r == if self.count > 0 {
                self.cycles / self.count
            } else {
                0
            },
    {
        if self.count > 0 {
            self.cycles / self.count
        } else {
            0
        }
    }
}

/// Copy-on-write fault statistics: how often a faulting page lies near a
/// page that was already copied.
#[derive(Default, Clone, Copy, Debug)]
pub struct CowStats {
    /// Copy-on-write faults handled.
    pub total_faults: u64,
    /// Faults with an already-copied page within 1 page.
    pub adjacent_1: u64,
    /// Faults with an already-copied page within 2 pages.
    pub adjacent_2: u64,
    /// Faults with an already-copied page within 4 pages.
    pub adjacent_4: u64,
    /// Faults with an already-copied page within 8 pages.
    pub adjacent_8: u64,
    /// EPT violations on pages that were already copied (stale EPT TLB entries).
    pub stale_tlb_faults: u64,
}

impl CowStats {
    /// No faults recorded.
    pub fn zero() -> (r: Self)
        ensures
            r.total_faults == 0 && r.adjacent_1 == 0 && r.adjacent_2 == 0 && r.adjacent_4 == 0
                && r.adjacent_8 == 0 && r.stale_tlb_faults == 0,
    {
        CowStats {
            total_faults: 0,
            adjacent_1: 0,
            adjacent_2: 0,
            adjacent_4: 0,
            adjacent_8: 0,
            stale_tlb_faults: 0,
        }
    }

    /// Whether the counts nest: a fault within 1 page is also within 2, 4
    /// and 8 pages, and every counted fault is a fault.
    pub open spec fn spec_nested(&self) -> bool {
        self.adjacent_1 <= self.adjacent_2 <= self.adjacent_4 <= self.adjacent_8 <= self.total_faults
    }

    /// Record a fault; `min_distance` is the distance in pages to the nearest
    /// already-copied page, `None` when no page was copied yet.
    pub fn record(&mut self, min_distance: Option<u64>)
        requires
            old(self).total_faults < u64::MAX,
            old(self).adjacent_1 < u64::MAX,
            old(self).adjacent_2 < u64::MAX,
            old(self).adjacent_4 < u64::MAX,
            old(self).adjacent_8 < u64::MAX,
        ensures
            final(self).total_faults == old(self).total_faults + 1,
            final(self).adjacent_1 == old(self).adjacent_1 + if min_distance matches Some(d)
                && d <= 1 {
                1int
            } else {
                0
            },
            final(self).adjacent_2 == old(self).adjacent_2 + if min_distance matches Some(d)
                && d <= 2 {
                1int
            } else {
                0
            },
            final(self).adjacent_4 == old(self).adjacent_4 + if min_distance matches Some(d)
                && d <= 4 {
                1int
            } else {
                0
            },
            final(self).adjacent_8 == old(self).adjacent_8 + if min_distance matches Some(d)
                && d <= 8 {
                1int
            } else {
                0
            },
            final(self).stale_tlb_faults == old(self).stale_tlb_faults,
            old(self).spec_nested() ==> final(self).spec_nested(),
    {
        self.total_faults = self.total_faults + 1;
        if let Some(dist) = min_distance {
            if dist <= 1 {
                self.adjacent_1 = self.adjacent_1 + 1;
            }
            if dist <= 2 {
                self.adjacent_2 = self.adjacent_2 + 1;
            }
            if dist <= 4 {
                self.adjacent_4 = self.adjacent_4 + 1;
            }
            if dist <= 8 {
                self.adjacent_8 = self.adjacent_8 + 1;
            }
        }
    }
}

/// Statistics of all exit types.
#[derive(Default, Clone, Copy, Debug)]
pub struct AllExitStats {
    /// CPUID instruction exits.
    pub cpuid: ExitStats,
    /// RDMSR exits.
    pub msr_read: ExitStats,
    /// WRMSR exits.
    pub msr_write: ExitStats,
    /// Control register access exits.
    pub cr_access: ExitStats,
    /// I/O instruction exits.
    pub io_instruction: ExitStats,
    /// EPT violation exits.
    pub ept_violation: ExitStats,
    /// External interrupt exits.
    pub external_interrupt: ExitStats,
    /// RDTSC exits.
    pub rdtsc: ExitStats,
    /// RDTSCP exits.
    pub rdtscp: ExitStats,
    /// RDPMC exits.
    pub rdpmc: ExitStats,
    /// MWAIT exits.
    pub mwait: ExitStats,
    /// VMCALL exits (including shutdown hypercalls).
    pub vmcall: ExitStats,
    /// HLT exits.
    pub hlt: ExitStats,
    /// APIC access and APIC write exits.
    pub apic_access: ExitStats,
    /// Monitor trap flag exits.
    pub mtf: ExitStats,
    /// XSETBV exits.
    pub xsetbv: ExitStats,
    /// RDRAND exits.
    pub rdrand: ExitStats,
    /// RDSEED exits.
    pub rdseed: ExitStats,
    /// Exception/NMI exits.
    pub exception_nmi: ExitStats,
    /// All other exits.
    pub other: ExitStats,
    /// Total cycles in the VM run loop (including guest time).
    pub total_run_cycles: u64,
    /// Cycles in guest mode.
    pub guest_cycles: u64,
    /// Cycles of run-loop setup before VM entry.
    pub vmentry_overhead_cycles: u64,
    /// Cycles after VM exit before the exit handler, outside the IRQ window.
    pub vmexit_overhead_cycles: u64,
    /// Cycles in the IRQ window between VM exits.
    pub irq_window_cycles: u64,
    /// APIC timer firings delivered after their deadline.
    pub apic_timer_late_inject: u64,
    /// Single steps inside the margin before a forced exit (kept apart from `mtf`).
    pub periodic_margin_steps: u64,
    /// Copy-on-write statistics.
    pub cow: CowStats,
}

impl AllExitStats {
    /// The per-type statistics that an exit with `reason` is recorded in.
    pub open spec fn bucket(self, reason: ExitReason) -> ExitStats {
        match reason {
            ExitReason::Cpuid => self.cpuid,
            ExitReason::MsrRead => self.msr_read,
            ExitReason::MsrWrite => self.msr_write,
            ExitReason::CrAccess => self.cr_access,
            ExitReason::IoInstruction => self.io_instruction,
            ExitReason::EptViolation => self.ept_violation,
            ExitReason::ExternalInterrupt => self.external_interrupt,
            ExitReason::Rdtsc => self.rdtsc,
            ExitReason::Rdtscp => self.rdtscp,
            ExitReason::Rdpmc => self.rdpmc,
            ExitReason::Mwait => self.mwait,
            ExitReason::Vmcall | ExitReason::VmcallShutdown => self.vmcall,
            ExitReason::Hlt => self.hlt,
            ExitReason::ApicAccess | ExitReason::ApicWrite => self.apic_access,
            ExitReason::MonitorTrapFlag => self.mtf,
            ExitReason::Xsetbv => self.xsetbv,
            ExitReason::Rdrand => self.rdrand,
            ExitReason::Rdseed => self.rdseed,
            ExitReason::ExceptionNmi => self.exception_nmi,
            _ => self.other,
        }
    }

    /// The per-type statistics that an exit with `reason` is recorded in.
    pub fn bucket_of(&self, reason: ExitReason) -> (r: ExitStats)
        ensures
            r == self.bucket(reason),
    {
        match reason {
            ExitReason::Cpuid => self.cpuid,
            ExitReason::MsrRead => self.msr_read,
            ExitReason::MsrWrite => self.msr_write,
            ExitReason::CrAccess => self.cr_access,
            ExitReason::IoInstruction => self.io_instruction,
            ExitReason::EptViolation => self.ept_violation,
            ExitReason::ExternalInterrupt => self.external_interrupt,
            ExitReason::Rdtsc => self.rdtsc,
            ExitReason::Rdtscp => self.rdtscp,
            ExitReason::Rdpmc => self.rdpmc,
            ExitReason::Mwait => self.mwait,
            ExitReason::Vmcall | ExitReason::VmcallShutdown => self.vmcall,
            ExitReason::Hlt => self.hlt,
            ExitReason::ApicAccess | ExitReason::ApicWrite => self.apic_access,
            ExitReason::MonitorTrapFlag => self.mtf,
            ExitReason::Xsetbv => self.xsetbv,
            ExitReason::Rdrand => self.rdrand,
            ExitReason::Rdseed => self.rdseed,
            ExitReason::ExceptionNmi => self.exception_nmi,
            _ => self.other,
        }
    }

    /// These statistics with the bucket of `reason` replaced by `s`.
    pub open spec fn with_bucket(self, reason: ExitReason, s: ExitStats) -> Self {
        match reason {
            ExitReason::Cpuid => AllExitStats { cpuid: s, ..self },
            ExitReason::MsrRead => AllExitStats { msr_read: s, ..self },
            ExitReason::MsrWrite => AllExitStats { msr_write: s, ..self },
            ExitReason::CrAccess => AllExitStats { cr_access: s, ..self },
            ExitReason::IoInstruction => AllExitStats { io_instruction: s, ..self },
            ExitReason::EptViolation => AllExitStats { ept_violation: s, ..self },
            ExitReason::ExternalInterrupt => AllExitStats { external_interrupt: s, ..self },
            ExitReason::Rdtsc => AllExitStats { rdtsc: s, ..self },
            ExitReason::Rdtscp => AllExitStats { rdtscp: s, ..self },
            ExitReason::Rdpmc => AllExitStats { rdpmc: s, ..self },
            ExitReason::Mwait => AllExitStats { mwait: s, ..self },
            ExitReason::Vmcall | ExitReason::VmcallShutdown => AllExitStats { vmcall: s, ..self },
            ExitReason::Hlt => AllExitStats { hlt: s, ..self },
            ExitReason::ApicAccess | ExitReason::ApicWrite => AllExitStats { apic_access: s, ..self },
            ExitReason::MonitorTrapFlag => AllExitStats { mtf: s, ..self },
            ExitReason::Xsetbv => AllExitStats { xsetbv: s, ..self },
            ExitReason::Rdrand => AllExitStats { rdrand: s, ..self },
            ExitReason::Rdseed => AllExitStats { rdseed: s, ..self },
            ExitReason::ExceptionNmi => AllExitStats { exception_nmi: s, ..self },
            _ => AllExitStats { other: s, ..self },
        }
    }

    /// Sum of the counts of all exit types.
    pub open spec fn spec_total_count(self) -> int {
        self.cpuid.count
            + self.msr_read.count
            + self.msr_write.count
            + self.cr_access.count
            + self.io_instruction.count
            + self.ept_violation.count
            + self.external_interrupt.count
            + self.rdtsc.count
            + self.rdtscp.count
            + self.rdpmc.count
            + self.mwait.count
            + self.vmcall.count
            + self.hlt.count
            + self.apic_access.count
            + self.mtf.count
            + self.xsetbv.count
            + self.rdrand.count
            + self.rdseed.count
            + self.exception_nmi.count
            + self.other.count
    }

    /// Sum of the handling cycles of all exit types.
    pub open spec fn spec_total_cycles(self) -> int {
        self.cpuid.cycles
            + self.msr_read.cycles
            + self.msr_write.cycles
            + self.cr_access.cycles
            + self.io_instruction.cycles
            + self.ept_violation.cycles
            + self.external_interrupt.cycles
            + self.rdtsc.cycles
            + self.rdtscp.cycles
            + self.rdpmc.cycles
            + self.mwait.cycles
            + self.vmcall.cycles
            + self.hlt.cycles
            + self.apic_access.cycles
            + self.mtf.cycles
            + self.xsetbv.cycles
            + self.rdrand.cycles
            + self.rdseed.cycles
            + self.exception_nmi.cycles
            + self.other.cycles
    }

    /// All statistics zero.
    pub open spec fn spec_zero() -> Self {
        AllExitStats {
            cpuid: ExitStats { count: 0, cycles: 0 },
            msr_read: ExitStats { count: 0, cycles: 0 },
            msr_write: ExitStats { count: 0, cycles: 0 },
            cr_access: ExitStats { count: 0, cycles: 0 },
            io_instruction: ExitStats { count: 0, cycles: 0 },
            ept_violation: ExitStats { count: 0, cycles: 0 },
            external_interrupt: ExitStats { count: 0, cycles: 0 },
            rdtsc: ExitStats { count: 0, cycles: 0 },
            rdtscp: ExitStats { count: 0, cycles: 0 },
            rdpmc: ExitStats { count: 0, cycles: 0 },
            mwait: ExitStats { count: 0, cycles: 0 },
            vmcall: ExitStats { count: 0, cycles: 0 },
            hlt: ExitStats { count: 0, cycles: 0 },
            apic_access: ExitStats { count: 0, cycles: 0 },
            mtf: ExitStats { count: 0, cycles: 0 },
            xsetbv: ExitStats { count: 0, cycles: 0 },
            rdrand: ExitStats { count: 0, cycles: 0 },
            rdseed: ExitStats { count: 0, cycles: 0 },
            exception_nmi: ExitStats { count: 0, cycles: 0 },
            other: ExitStats { count: 0, cycles: 0 },
            total_run_cycles: 0,
            guest_cycles: 0,
            vmentry_overhead_cycles: 0,
            vmexit_overhead_cycles: 0,
            irq_window_cycles: 0,
            apic_timer_late_inject: 0,
            periodic_margin_steps: 0,
            cow: CowStats {
                total_faults: 0,
                adjacent_1: 0,
                adjacent_2: 0,
                adjacent_4: 0,
                adjacent_8: 0,
                stale_tlb_faults: 0,
            },
        }
    }

    /// All statistics zero.
    pub fn zero() -> (r: Self)
        ensures
            r == Self::spec_zero(),
    {
        AllExitStats {
            cpuid: ExitStats::zero(),
            msr_read: ExitStats::zero(),
            msr_write: ExitStats::zero(),
            cr_access: ExitStats::zero(),
            io_instruction: ExitStats::zero(),
            ept_violation: ExitStats::zero(),
            external_interrupt: ExitStats::zero(),
            rdtsc: ExitStats::zero(),
            rdtscp: ExitStats::zero(),
            rdpmc: ExitStats::zero(),
            mwait: ExitStats::zero(),
            vmcall: ExitStats::zero(),
            hlt: ExitStats::zero(),
            apic_access: ExitStats::zero(),
            mtf: ExitStats::zero(),
            xsetbv: ExitStats::zero(),
            rdrand: ExitStats::zero(),
            rdseed: ExitStats::zero(),
            exception_nmi: ExitStats::zero(),
            other: ExitStats::zero(),
            total_run_cycles: 0,
            guest_cycles: 0,
            vmentry_overhead_cycles: 0,
            vmexit_overhead_cycles: 0,
            irq_window_cycles: 0,
            apic_timer_late_inject: 0,
            periodic_margin_steps: 0,
            cow: CowStats::zero(),
        }
    }

    /// Record an exit of type `reason` that took `cycles` cycles.
    pub fn record(&mut self, reason: ExitReason, cycles: u64)
        requires
            old(self).bucket(reason).count < u64::MAX,
            old(self).bucket(reason).cycles + cycles <= u64::MAX,
        ensures
            *final(self) == old(self).with_bucket(
                reason,
                ExitStats {
                    count: (old(self).bucket(reason).count + 1) as u64,
                    cycles: (old(self).bucket(reason).cycles + cycles) as u64,
                },
            ),
    {
        match reason {
            ExitReason::Cpuid => self.cpuid.record(cycles),
            ExitReason::MsrRead => self.msr_read.record(cycles),
            ExitReason::MsrWrite => self.msr_write.record(cycles),
            ExitReason::CrAccess => self.cr_access.record(cycles),
            ExitReason::IoInstruction => self.io_instruction.record(cycles),
            ExitReason::EptViolation => self.ept_violation.record(cycles),
            ExitReason::ExternalInterrupt => self.external_interrupt.record(cycles),
            ExitReason::Rdtsc => self.rdtsc.record(cycles),
            ExitReason::Rdtscp => self.rdtscp.record(cycles),
            ExitReason::Rdpmc => self.rdpmc.record(cycles),
            ExitReason::Mwait => self.mwait.record(cycles),
            ExitReason::Vmcall | ExitReason::VmcallShutdown => self.vmcall.record(cycles),
            ExitReason::Hlt => self.hlt.record(cycles),
            ExitReason::ApicAccess | ExitReason::ApicWrite => self.apic_access.record(cycles),
            ExitReason::MonitorTrapFlag => self.mtf.record(cycles),
            ExitReason::Xsetbv => self.xsetbv.record(cycles),
            ExitReason::Rdrand => self.rdrand.record(cycles),
            ExitReason::Rdseed => self.rdseed.record(cycles),
            ExitReason::ExceptionNmi => self.exception_nmi.record(cycles),
            _ => self.other.record(cycles),
        }
    }

    /// Total exit count across all types.
    pub fn total_exit_count(&self) -> (r: u64)
        requires
            self.spec_total_count() <= u64::MAX,
        ensures
            r == self.spec_total_count(),
    {
        self.cpuid.count
            + self.msr_read.count
            + self.msr_write.count
            + self.cr_access.count
            + self.io_instruction.count
            + self.ept_violation.count
            + self.external_interrupt.count
            + self.rdtsc.count
            + self.rdtscp.count
            + self.rdpmc.count
            + self.mwait.count
            + self.vmcall.count
            + self.hlt.count
            + self.apic_access.count
            + self.mtf.count
            + self.xsetbv.count
            + self.rdrand.count
            + self.rdseed.count
            + self.exception_nmi.count
            + self.other.count
    }

    /// Total exit handling cycles across all types.
    pub fn total_exit_cycles(&self) -> (r: u64)
        requires
            self.spec_total_cycles() <= u64::MAX,
        ensures
            r == self.spec_total_cycles(),
    {
        self.cpuid.cycles
            + self.msr_read.cycles
            + self.msr_write.cycles
            + self.cr_access.cycles
            + self.io_instruction.cycles
            + self.ept_violation.cycles
            + self.external_interrupt.cycles
            + self.rdtsc.cycles
            + self.rdtscp.cycles
            + self.rdpmc.cycles
            + self.mwait.cycles
            + self.vmcall.cycles
            + self.hlt.cycles
            + self.apic_access.cycles
            + self.mtf.cycles
            + self.xsetbv.cycles
            + self.rdrand.cycles
            + self.rdseed.cycles
            + self.exception_nmi.cycles
            + self.other.cycles
    }

    /// Reset all statistics to zero.
    pub fn reset(&mut self)
        ensures
            *final(self) == Self::spec_zero(),
    {
        *self = Self::zero();
    }
}

/// Recording an exit adds one to the total exit count and its cycles to the
/// total handling cycles.
pub proof fn lemma_record_adds_to_totals(
    before: AllExitStats,
    reason: ExitReason,
    cycles: u64,
    after: AllExitStats,
)
    requires
        before.bucket(reason).count < u64::MAX,
        before.bucket(reason).cycles + cycles <= u64::MAX,
        after == before.with_bucket(
            reason,
            ExitStats {
                count: (before.bucket(reason).count + 1) as u64,
                cycles: (before.bucket(reason).cycles + cycles) as u64,
            },
        ),
    ensures
        after.spec_total_count() == before.spec_total_count() + 1,
        after.spec_total_cycles() == before.spec_total_cycles() + cycles,
{
}

/// Sum of a sequence of cycle counts.
pub open spec fn spec_sum(cycles: Seq<u64>) -> int
    decreases cycles.len(),
{
    if cycles.len() == 0 {
        0
    } else {
        spec_sum(cycles.drop_last()) + cycles.last()
    }
}

/// Recording `n` exits one after another (`states[i + 1]` is `states[i]`
/// with exit `i` recorded) adds `n` to the total exit count and the sum of
/// their cycles to the total handling cycles.
pub proof fn lemma_totals_over_records(
    states: Seq<AllExitStats>,
    reasons: Seq<ExitReason>,
    cycles: Seq<u64>,
)
    requires
        states.len() == reasons.len() + 1,
        cycles.len() == reasons.len(),
        forall|i: int|
            0 <= i < reasons.len() ==> {
                let b = #[trigger] states[i].bucket(reasons[i]);
                &&& b.count < u64::MAX
                &&& b.cycles + cycles[i] <= u64::MAX
                &&& states[i + 1] == states[i].with_bucket(
                    reasons[i],
                    ExitStats { count: (b.count + 1) as u64, cycles: (b.cycles + cycles[i]) as u64 },
                )
            },
    ensures
        states.last().spec_total_count() == states[0].spec_total_count() + reasons.len(),
        states.last().spec_total_cycles() == states[0].spec_total_cycles() + spec_sum(cycles),
    decreases reasons.len(),
{
    let n = reasons.len();
    if n > 0 {
        let k = (n - 1) as int;
        lemma_totals_over_records(states.drop_last(), reasons.drop_last(), cycles.drop_last());
        assert(states.drop_last().last() == states[k]);
        let b = states[k].bucket(reasons[k]);
        lemma_record_adds_to_totals(states[k], reasons[k], cycles[k], states[k + 1]);
    }
}

/// After `n > 0` exits recorded from zero, the average is the sum of their
/// cycles divided by `n` (`states[i + 1]` is `states[i]` after `record`
/// of `cycles[i]`).
pub proof fn lemma_average_over_records(states: Seq<ExitStats>, cycles: Seq<u64>)
    requires
        states.len() == cycles.len() + 1,
        states[0].count == 0 && states[0].cycles == 0,
        forall|i: int|
            0 <= i < cycles.len() ==> #[trigger] states[i + 1].count == states[i].count + 1
                && states[i + 1].cycles == states[i].cycles + cycles[i],
    ensures
        states.last().count == cycles.len(),
        states.last().cycles == spec_sum(cycles),
        cycles.len() > 0 ==> (if states.last().count > 0 {
            states.last().cycles / states.last().count
        } else {
            0
        }) == spec_sum(cycles) / (cycles.len() as int),
    decreases cycles.len(),
{
    let n = cycles.len();
    if n > 0 {
        let k = (n - 1) as int;
        assert forall|i: int| 0 <= i < cycles.drop_last().len() implies #[trigger] states.drop_last()[i
            + 1].count == states.drop_last()[i].count + 1 && states.drop_last()[i + 1].cycles
            == states.drop_last()[i].cycles + cycles.drop_last()[i] by {
            assert(states[i + 1].count == states[i].count + 1);
        }
        lemma_average_over_records(states.drop_last(), cycles.drop_last());
        assert(states.drop_last().last() == states[k]);
        assert(states[k + 1].count == states[k].count + 1);
    }
}

} // verus!
