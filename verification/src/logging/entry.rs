//! Log entry layout shared with userspace.
use vstd::prelude::*;

verus! {

/// Size of one log entry in bytes.
pub const LOG_ENTRY_SIZE: usize = 512;

/// Size of the log buffer in bytes (1 MB).
pub const LOG_BUFFER_SIZE: usize = 0x10_0000;

/// Number of 4 KB pages of the log buffer.
pub const LOG_BUFFER_PAGES: usize = 256;

/// Number of entries the log buffer holds.
pub const MAX_LOG_ENTRIES: usize = 2048;

/// Flag of an entry logged at a deterministic exit.
pub const LOG_ENTRY_FLAG_DETERMINISTIC: u32 = 1;

/// One logged VM exit: TSC, exit information, guest registers and state hashes.
#[derive(Clone, Copy)]
pub struct LogEntry {
    pub tsc: u64,
    pub exit_reason: u32,
    pub flags: u32,
    pub exit_qualification: u64,
    pub rax: u64,
    pub rcx: u64,
    pub rdx: u64,
    pub rbx: u64,
    pub rsp: u64,
    pub rbp: u64,
    pub rsi: u64,
    pub rdi: u64,
    pub r8: u64,
    pub r9: u64,
    pub r10: u64,
    pub r11: u64,
    pub r12: u64,
    pub r13: u64,
    pub r14: u64,
    pub r15: u64,
    pub rip: u64,
    pub rflags: u64,
    pub apic_hash: u64,
    pub serial_hash: u64,
    pub ioapic_hash: u64,
    pub rtc_hash: u64,
    pub mtrr_hash: u64,
    pub rdrand_hash: u64,
    pub memory_hash: u64,
    pub fs_base: u64,
    pub gs_base: u64,
    pub kernel_gs_base: u64,
    pub cr3: u64,
    pub cs_base: u64,
    pub ds_base: u64,
    pub es_base: u64,
    pub ss_base: u64,
    pub pending_dbg_exceptions: u64,
    pub interruptibility_state: u32,
    pub cow_page_count: u32,
    pub _padding: [u64; 26],
}

} // verus!
