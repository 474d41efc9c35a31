//! Counting guest instructions for deterministic virtual time.
use vstd::prelude::*;

verus! {

/// Counts retired guest instructions.
///
/// Implemented by the platform (performance counters) and by test doubles.
/// The counter is enabled around guest execution and read after each exit.
pub trait InstructionCounter: Sized {
    /// Tell the counter that the guest is about to run.
    fn set_guest_state(&mut self, user_mode: bool, rip: u64);

    /// Tell the counter that the guest stopped running.
    fn clear_guest_state(&mut self);

    /// Enable counting (no effect when already enabled).
    fn enable(&mut self);

    /// Disable counting (no effect when already disabled).
    fn disable(&mut self);

    /// Total guest instructions counted so far.
    fn read(&self) -> u64;

    /// Whether the counter is backed by hardware.
    fn is_configured(&self) -> bool;

    /// Guest and host IA32_PERF_GLOBAL_CTRL values for hardware switching,
    /// if available.
    fn perf_global_ctrl_values(&self) -> Option<(u64, u64)>;

    /// Whether the counter can raise a PMI at a target instruction count.
    fn supports_overflow(&self) -> (r: bool)
        default_ensures
            !r,
    {
        false
    }

    /// Arm a PMI at `target` total retired instructions.
    fn set_overflow_target(&mut self, target: u64) {
    }

    /// Remove any overflow target.
    fn clear_overflow_target(&mut self) {
    }

    /// After a VM exit: accumulate the hardware count into the total.
    fn accumulate_after_exit(&mut self) {
    }

    /// Before a VM entry: program the hardware counter.
    fn prepare_for_entry(&mut self) {
    }

    /// Whether the last NMI exit came from this counter's PMI (clears it).
    fn check_and_clear_pmi(&mut self) -> (r: bool)
        default_ensures
            !r,
            *final(self) == *old(self),
    {
        false
    }

    /// Re-arm the sampling counter so that its next overflow comes `period`
    /// instructions from now.
    fn realign_sampling(&mut self, period: u64)
        ensures
            old(self).spec_realigned(period, *final(self)),
    ;

    /// Whether `after` is a possible state of this counter after its
    /// sampling was re-armed with `period` (by default any state).
    open spec fn spec_realigned(&self, period: u64, after: Self) -> bool {
        true
    }
}

/// Counter for VMs without instruction counting: every operation has no
/// effect and the count is always 0.
#[derive(Debug, Default, Clone, Copy)]
pub struct NullInstructionCounter;

impl InstructionCounter for NullInstructionCounter {
    fn realign_sampling(&mut self, period: u64) {
    }

    fn set_guest_state(&mut self, _user_mode: bool, _rip: u64) {
    }

    fn clear_guest_state(&mut self) {
    }

    fn enable(&mut self) {
    }

    fn disable(&mut self) {
    }

    fn read(&self) -> (r: u64)
        ensures
            r == 0,
    {
        0
    }

    fn is_configured(&self) -> (r: bool)
        ensures
            !r,
    {
        false
    }

    fn perf_global_ctrl_values(&self) -> (r: Option<(u64, u64)>)
        ensures
            r is None,
    {
        None
    }
}

/// Software counter for tests: holds a settable count and records how often
/// it was enabled and disabled.
#[derive(Debug)]
pub struct MockInstructionCounter {
    pub count: u64,
    pub enabled: bool,
    pub enable_count: u32,
    pub disable_count: u32,
}

impl MockInstructionCounter {
    /// A disabled counter holding `count`.
    pub fn new(count: u64) -> (r: Self)
        ensures
            r.count == count,
            !r.enabled,
            r.enable_count == 0,
            r.disable_count == 0,
    {
        Self { count, enabled: false, enable_count: 0, disable_count: 0 }
    }
}

impl InstructionCounter for MockInstructionCounter {
    fn realign_sampling(&mut self, period: u64) {
    }

    fn set_guest_state(&mut self, _user_mode: bool, _rip: u64) {
    }

    fn clear_guest_state(&mut self) {
    }

    /// Enabling a disabled counter counts one enable; enabling an enabled one
    /// has no effect (the enable count saturates at `u32::MAX`).
    fn enable(&mut self)
        ensures
            final(self).enabled,
            final(self).count == old(self).count,
            final(self).disable_count == old(self).disable_count,
            final(self).enable_count == if old(self).enabled {
                old(self).enable_count
            } else {
                old(self).enable_count.saturating_add(1)
            },
    {
        if !self.enabled {
            self.enabled = true;
            self.enable_count = self.enable_count.saturating_add(1);
        }
    }

    /// Disabling an enabled counter counts one disable; disabling a disabled
    /// one has no effect (the disable count saturates at `u32::MAX`).
    fn disable(&mut self)
        ensures
            !final(self).enabled,
            final(self).count == old(self).count,
            final(self).enable_count == old(self).enable_count,
            final(self).disable_count == if old(self).enabled {
                old(self).disable_count.saturating_add(1)
            } else {
                old(self).disable_count
            },
    {
        if self.enabled {
            self.enabled = false;
            self.disable_count = self.disable_count.saturating_add(1);
        }
    }

    fn read(&self) -> (r: u64)
        ensures
            r == self.count,
    {
        self.count
    }

    fn is_configured(&self) -> (r: bool)
        ensures
            r,
    {
        true
    }

    fn perf_global_ctrl_values(&self) -> (r: Option<(u64, u64)>)
        ensures
            r is None,
    {
        None
    }
}

} // verus!
