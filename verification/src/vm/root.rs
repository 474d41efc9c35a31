//! `RootVm`: a VM state together with the guest physical memory it owns.
//! Guest physical addresses are offsets into that memory.
use vstd::prelude::*;
use crate::logging::entry::{LogEntry, MAX_LOG_ENTRIES};
use crate::logging::hash::Xxh64Hasher;
use crate::traits::instruction_counter::InstructionCounter;
use crate::vm_state::vm::{LogMode, VmState};

verus! {

/// Size of a guest page.
pub const PAGE_SIZE: usize = 4096;

/// Error of a guest memory access.
#[derive(Debug, Clone, Copy, PartialEq, Eq, Structural)]
pub enum MemoryError {
    /// The range is not inside guest memory.
    OutOfRange,
}

/// Whether `[gpa, gpa + len)` lies inside guest memory of `size` bytes.
pub open spec fn spec_in_range(size: nat, gpa: u64, len: nat) -> bool {
    gpa + len <= size
}

/// `mem` with `bytes` written at offset `at`.
pub open spec fn spec_overwrite(mem: Seq<u8>, at: int, bytes: Seq<u8>) -> Seq<u8> {
    mem.subrange(0, at) + bytes + mem.subrange(at + bytes.len(), mem.len() as int)
}

/// A VM with its own guest memory.
pub struct RootVm<I: InstructionCounter> {
    /// The VM state.
    pub state: VmState<I>,
    /// Guest physical memory, from address 0.
    pub memory: Vec<u8>,
    /// Number of forked children that share this memory.
    pub children_count: usize,
}

impl<I: InstructionCounter> RootVm<I> {
    /// A VM with the given state and memory and no children.
    pub fn new(state: VmState<I>, memory: Vec<u8>) -> (r: Self)
        ensures
            r.state == state,
            r.memory@ == memory@,
            r.children_count == 0,
    {
        RootVm { state, memory, children_count: 0 }
    }

    /// Copy `len` bytes of guest memory from `gpa`; `OutOfRange` when the
    /// range leaves guest memory.
    pub fn read_guest_memory(&self, gpa: u64, len: usize) -> (r: Result<Vec<u8>, MemoryError>)
        ensures
            match r {
                Ok(bytes) => spec_in_range(self.memory@.len(), gpa, len as nat) && bytes@
                    == self.memory@.subrange(gpa as int, gpa + len),
                Err(e) => !spec_in_range(self.memory@.len(), gpa, len as nat) && e
                    == MemoryError::OutOfRange,
            },
    {
        let mem_len = self.memory.len();
        let end = match gpa.checked_add(len as u64) {
            Some(e) => e,
            None => return Err(MemoryError::OutOfRange),
        };
        if end > self.memory.len() as u64 {
            return Err(MemoryError::OutOfRange);
        }
        let offset = gpa as usize;
        let mut out: Vec<u8> = Vec::new();
        let mut i: usize = 0;
        while i < len
            invariant
                i <= len,
                offset + len <= self.memory@.len(),
                self.memory@.len() <= usize::MAX,
                offset == gpa,
                out@ == self.memory@.subrange(offset as int, offset + i),
            decreases len - i,
        {
            out.push(self.memory[offset + i]);
            i += 1;
            assert(out@ =~= self.memory@.subrange(offset as int, offset + i));
        }
        Ok(out)
    }

    /// Write `buf` into guest memory at `gpa`; `OutOfRange`, writing
    /// nothing, when the range leaves guest memory.
    pub fn write_guest_memory(&mut self, gpa: u64, buf: &[u8]) -> (r: Result<(), MemoryError>)
        ensures
            final(self).state == old(self).state,
            final(self).children_count == old(self).children_count,
            match r {
                Ok(()) => spec_in_range(old(self).memory@.len(), gpa, buf@.len())
                    && final(self).memory@ == spec_overwrite(old(self).memory@, gpa as int, buf@),
                Err(e) => !spec_in_range(old(self).memory@.len(), gpa, buf@.len()) && e
                    == MemoryError::OutOfRange && final(self).memory@ == old(self).memory@,
            },
    {
        let mem_len = self.memory.len();
        let end = match gpa.checked_add(buf.len() as u64) {
            Some(e) => e,
            None => return Err(MemoryError::OutOfRange),
        };
        if end > self.memory.len() as u64 {
            return Err(MemoryError::OutOfRange);
        }
        let offset = gpa as usize;
        let mut i: usize = 0;
        while i < buf.len()
            invariant
                i <= buf@.len(),
                offset == gpa,
                offset + buf@.len() <= old(self).memory@.len(),
                self.memory@.len() == old(self).memory@.len(),
                old(self).memory@.len() <= usize::MAX,
                self.state == old(self).state,
                self.children_count == old(self).children_count,
                forall|j: int|
                    0 <= j < self.memory@.len() ==> #[trigger] self.memory@[j] == if offset <= j
                        < offset + i {
                        buf@[j - offset]
                    } else {
                        old(self).memory@[j]
                    },
            decreases buf@.len() - i,
        {
            self.memory[offset + i] = buf[i];
            i += 1;
        }
        assert(self.memory@ =~= spec_overwrite(old(self).memory@, gpa as int, buf@));
        Ok(())
    }

    /// Offset of the page holding `gpa` in guest memory, when the whole page
    /// lies inside it.
    pub fn read_page(&self, gpa: u64) -> (r: Option<usize>)
        ensures
            match r {
                Some(off) => off == gpa - gpa % 4096 && off + PAGE_SIZE <= self.memory@.len(),
                None => (gpa - gpa % 4096) + PAGE_SIZE > self.memory@.len(),
            },
    {
        let page_gpa = gpa & !0xFFF;
        assert(gpa & !0xFFFu64 == gpa - gpa % 4096) by (bit_vector);
        let len = self.memory.len() as u64;
        if page_gpa <= len && len - page_gpa >= PAGE_SIZE as u64 {
            Some(page_gpa as usize)
        } else {
            None
        }
    }

    /// Size of guest memory in bytes.
    pub fn memory_size(&self) -> (r: usize)
        ensures
            r == self.memory@.len(),
    {
        self.memory.len()
    }

    /// Count a new child (wrapping, as an atomic counter does).
    pub fn add_child(&mut self)
        ensures
            final(self).children_count == old(self).children_count.wrapping_add(1),
            final(self).state == old(self).state,
            final(self).memory@ == old(self).memory@,
    {
        self.children_count = self.children_count.wrapping_add(1);
    }

    /// Count a child gone (wrapping, as an atomic counter does).
    pub fn remove_child(&mut self)
        ensures
            final(self).children_count == old(self).children_count.wrapping_sub(1),
            final(self).state == old(self).state,
            final(self).memory@ == old(self).memory@,
    {
        self.children_count = self.children_count.wrapping_sub(1);
    }

    /// Number of children.
    pub fn children_count(&self) -> (r: usize)
        ensures
            r == self.children_count,
    {
        self.children_count
    }

    /// A VM can run only while no child shares its memory.
    pub fn can_run(&self) -> (r: bool)
        ensures
            r == (self.children_count == 0),
    {
        self.children_count == 0
    }

    /// Fill in the memory hash of the entry the last exit logged: the hash
    /// of all guest memory (0 while hashing is disabled, or when memory
    /// hashing is skipped or logging is off), then no entry is pending.
    pub fn finalize_log_entry(&mut self)
        requires
            old(self).state.pending_log_idx matches Some(i) ==> i < MAX_LOG_ENTRIES,
        ensures
            final(self).memory@ == old(self).memory@,
            final(self).children_count == old(self).children_count,
            match old(self).state.pending_log_idx {
                None => final(self).state == old(self).state,
                Some(idx) => {
                    &&& final(self).state == VmState {
                        pending_log_idx: None,
                        log_buffer: final(self).state.log_buffer,
                        ..old(self).state
                    }
                    &&& match old(self).state.log_buffer {
                        None => final(self).state.log_buffer is None,
                        Some(b) => final(self).state.log_buffer matches Some(nb) && nb.entries()
                            == b.entries().update(
                            idx as int,
                            LogEntry { memory_hash: 0, ..b.entries()[idx as int] },
                        ),
                    }
                },
            },
    {
        let log_idx = match self.state.pending_log_idx {
            Some(idx) => idx,
            None => return ,
        };
        self.state.pending_log_idx = None;
        let memory_hash = if self.state.skip_memory_hash {
            0
        } else {
            match self.state.log_mode {
                LogMode::Disabled => 0,
                _ => {
                    let mut hasher = Xxh64Hasher::new();
                    hasher.write_bytes(self.memory.as_slice());
                    hasher.finish()
                },
            }
        };
        if let Some(buf) = &mut self.state.log_buffer {
            buf.set_memory_hash(log_idx, memory_hash);
        }
    }
}


/// Reading guest memory back after a successful write gives the bytes
/// written, and the write leaves every byte outside its range as it was.
pub proof fn lemma_read_after_write(mem: Seq<u8>, gpa: u64, bytes: Seq<u8>, i: int)
    requires
        spec_in_range(mem.len(), gpa, bytes.len()),
    ensures
        spec_overwrite(mem, gpa as int, bytes).len() == mem.len(),
        spec_overwrite(mem, gpa as int, bytes).subrange(gpa as int, gpa + bytes.len()) == bytes,
        0 <= i < mem.len() && !(gpa <= i < gpa + bytes.len()) ==> spec_overwrite(
            mem,
            gpa as int,
            bytes,
        )[i] == mem[i],
{
    assert(spec_overwrite(mem, gpa as int, bytes).subrange(gpa as int, gpa + bytes.len()) =~= bytes);
}

} // verus!
