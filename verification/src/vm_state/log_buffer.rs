//! The exit log buffer shared with userspace: room for `MAX_LOG_ENTRIES` entries.
use vstd::prelude::*;
use crate::logging::entry::{LogEntry, MAX_LOG_ENTRIES};

verus! {

impl LogEntry {
    /// An entry with every field zero.
    pub fn zero() -> (r: Self)
        ensures
            r.tsc == 0 && r.exit_reason == 0 && r.flags == 0 && r.memory_hash == 0,
    {
        LogEntry {
            tsc: 0,
            exit_reason: 0,
            flags: 0,
            exit_qualification: 0,
            rax: 0,
            rcx: 0,
            rdx: 0,
            rbx: 0,
            rsp: 0,
            rbp: 0,
            rsi: 0,
            rdi: 0,
            r8: 0,
            r9: 0,
            r10: 0,
            r11: 0,
            r12: 0,
            r13: 0,
            r14: 0,
            r15: 0,
            rip: 0,
            rflags: 0,
            apic_hash: 0,
            serial_hash: 0,
            ioapic_hash: 0,
            rtc_hash: 0,
            mtrr_hash: 0,
            rdrand_hash: 0,
            memory_hash: 0,
            fs_base: 0,
            gs_base: 0,
            kernel_gs_base: 0,
            cr3: 0,
            cs_base: 0,
            ds_base: 0,
            es_base: 0,
            ss_base: 0,
            pending_dbg_exceptions: 0,
            interruptibility_state: 0,
            cow_page_count: 0,
            _padding: [0u64; 26],
        }
    }
}

/// Log buffer holding exactly `MAX_LOG_ENTRIES` entry slots.
pub struct LogBuffer {
    entries: Vec<LogEntry>,
}

impl LogBuffer {
    #[verifier::type_invariant]
    spec fn inv(self) -> bool {
        self.entries@.len() == MAX_LOG_ENTRIES
    }

    /// The entry slots.
    pub closed spec fn entries(&self) -> Seq<LogEntry> {
        self.entries@
    }

    /// A buffer of zeroed entries.
    pub fn new() -> (r: Self)
        ensures
            r.entries().len() == MAX_LOG_ENTRIES,
    {
        let mut entries: Vec<LogEntry> = Vec::new();
        let mut i: usize = 0;
        while i < MAX_LOG_ENTRIES
            invariant
                i <= MAX_LOG_ENTRIES,
                entries@.len() == i,
            decreases MAX_LOG_ENTRIES - i,
        {
            entries.push(LogEntry::zero());
            i += 1;
        }
        LogBuffer { entries }
    }

    /// Write `entry` into slot `index`.
    pub fn set(&mut self, index: usize, entry: LogEntry)
        requires
            index < MAX_LOG_ENTRIES,
        ensures
            old(self).entries().len() == MAX_LOG_ENTRIES,
            final(self).entries() == old(self).entries().update(index as int, entry),
    {
        proof {
            use_type_invariant(&*self);
        }
        self.entries[index] = entry;
    }

    /// The entry in slot `index`.
    pub fn get(&self, index: usize) -> (r: LogEntry)
        requires
            index < MAX_LOG_ENTRIES,
        ensures
            self.entries().len() == MAX_LOG_ENTRIES,
            r == self.entries()[index as int],
    {
        proof {
            use_type_invariant(self);
        }
        self.entries[index]
    }

    /// Set the memory hash of the entry in slot `index`.
    pub fn set_memory_hash(&mut self, index: usize, memory_hash: u64)
        requires
            index < MAX_LOG_ENTRIES,
        ensures
            old(self).entries().len() == MAX_LOG_ENTRIES,
            final(self).entries() == old(self).entries().update(
                index as int,
                LogEntry { memory_hash, ..old(self).entries()[index as int] },
            ),
    {
        proof {
            use_type_invariant(&*self);
        }
        let mut e = self.entries[index];
        e.memory_hash = memory_hash;
        self.entries[index] = e;
    }
}

} // verus!
