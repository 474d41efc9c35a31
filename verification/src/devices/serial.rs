//! Serial port (8250/16550 UART) emulation state for COM1 at 0x3F8.
//!
//! The 8250 driver probes the UART by testing registers, in particular the
//! scratch register, so writable registers are tracked and read back. Input
//! staged by the host is handed to the guest one byte per RBR read.
use vstd::prelude::*;
use crate::logging::hash::{StateHash, Xxh64Hasher};

verus! {

/// Maximum size of the serial input buffer.
pub const SERIAL_INPUT_MAX_SIZE: usize = 256;

/// Serial port state.
#[derive(Clone, Copy, Debug)]
pub struct SerialState {
    /// Interrupt Enable Register (0x3F9).
    pub ier: u8,
    /// Line Control Register (0x3FB).
    pub lcr: u8,
    /// Modem Control Register (0x3FC).
    pub mcr: u8,
    /// Scratch Register (0x3FF).
    pub scr: u8,
    /// Divisor Latch Low (DLAB=1, 0x3F8).
    pub dll: u8,
    /// Divisor Latch High (DLAB=1, 0x3F9).
    pub dlh: u8,
    /// Input buffer for data to be read by the guest.
    pub input_buf: [u8; 256],
    /// Current read position in the input buffer.
    pub input_pos: usize,
    /// Length of valid data in the input buffer.
    pub input_len: usize,
}

impl SerialState {
    /// The registers other than the input buffer state are equal.
    pub open spec fn same_registers(self, other: Self) -> bool {
        &&& self.ier == other.ier
        &&& self.lcr == other.lcr
        &&& self.mcr == other.mcr
        &&& self.scr == other.scr
        &&& self.dll == other.dll
        &&& self.dlh == other.dlh
    }

    /// The bytes that the guest has yet to read.
    pub open spec fn pending_input(self) -> Seq<u8> {
        self.input_buf@.subrange(self.input_pos as int, self.input_len as int)
    }

    /// The input state is consistent: `input_pos <= input_len <= 256`.
    pub open spec fn input_wf(self) -> bool {
        self.input_pos <= self.input_len <= SERIAL_INPUT_MAX_SIZE
    }

    /// Reset state: all registers zero and no input.
    pub fn new() -> (r: Self)
        ensures
            r.ier == 0 && r.lcr == 0 && r.mcr == 0 && r.scr == 0 && r.dll == 0 && r.dlh == 0,
            r.input_pos == 0,
            r.input_len == 0,
            forall|i: int| 0 <= i < 256 ==> r.input_buf@[i] == 0,
    {
        Self {
            ier: 0,
            lcr: 0,
            mcr: 0,
            scr: 0,
            dll: 0,
            dlh: 0,
            input_buf: [0u8; 256],
            input_pos: 0,
            input_len: 0,
        }
    }

    /// Set the input returned by guest RBR reads: the first (at most 256)
    /// bytes of `data`, read from the start.
    pub fn set_input(&mut self, data: &[u8])
        ensures
            final(self).input_len == if data@.len() < SERIAL_INPUT_MAX_SIZE {
                data@.len()
            } else {
                SERIAL_INPUT_MAX_SIZE as nat
            },
            final(self).input_pos == 0,
            final(self).input_buf@ == data@.take(final(self).input_len as int) + old(
                self,
            ).input_buf@.skip(final(self).input_len as int),
            final(self).pending_input() == data@.take(final(self).input_len as int),
            final(self).input_wf(),
            old(self).same_registers(*final(self)),
            spec_replaying(*final(self), data@, 0),
    {
        let len = if data.len() < SERIAL_INPUT_MAX_SIZE {
            data.len()
        } else {
            SERIAL_INPUT_MAX_SIZE
        };
        let ghost old_buf = self.input_buf@;
        let mut i: usize = 0;
        while i < len
            invariant
                i <= len <= SERIAL_INPUT_MAX_SIZE,
                len <= data@.len(),
                self.input_buf@.len() == 256,
                old_buf.len() == 256,
                self.input_buf@ == data@.take(i as int) + old_buf.skip(i as int),
                old(self).same_registers(*self),
            decreases len - i,
        {
            let ghost prev = self.input_buf@;
            self.input_buf[i] = data[i];
            assert(self.input_buf@ == prev.update(i as int, data@[i as int]));
            i += 1;
            assert(self.input_buf@ =~= data@.take(i as int) + old_buf.skip(i as int));
        }
        self.input_pos = 0;
        self.input_len = len;
        assert(self.pending_input() =~= data@.take(len as int));
        assert(self.input_buf@.take(len as int) =~= data@.take(len as int));
    }

    /// Read a byte of input (RBR read); 0 when no input is left.
    pub fn read_input(&mut self) -> (r: u8)
        requires
            old(self).input_pos < old(self).input_len ==> old(self).input_pos < SERIAL_INPUT_MAX_SIZE,
        ensures
            if old(self).input_pos < old(self).input_len {
                &&& r == old(self).input_buf@[old(self).input_pos as int]
                &&& final(self).input_pos == old(self).input_pos + 1
                &&& final(self).input_len == old(self).input_len
                &&& final(self).input_buf == old(self).input_buf
                &&& old(self).same_registers(*final(self))
            } else {
                r == 0 && *final(self) == *old(self)
            },
    {
        if self.input_pos < self.input_len {
            let byte = self.input_buf[self.input_pos];
            self.input_pos += 1;
            byte
        } else {
            0
        }
    }

    /// Whether input data is available.
    pub fn has_input(&self) -> (r: bool)
        ensures
            r == (self.input_pos < self.input_len),
    {
        self.input_pos < self.input_len
    }
}

/// Reading input consumes exactly the first pending byte: the pending input
/// after a read is the pending input before it without its first byte.
pub proof fn lemma_read_input_consumes_first(before: SerialState, after: SerialState, byte: u8)
    requires
        before.input_wf(),
        before.input_pos < before.input_len,
        byte == before.input_buf@[before.input_pos as int],
        after.input_pos == before.input_pos + 1,
        after.input_len == before.input_len,
        after.input_buf == before.input_buf,
    ensures
        before.pending_input() == seq![byte] + after.pending_input(),
        after.input_wf(),
{
    assert(before.pending_input() =~= seq![byte] + after.pending_input());
}

/// Whether `s` is the UART after `set_input(data)` and `i` reads: the first
/// `n` bytes of `data` (`n` capped at the buffer size) are queued, `i` of
/// them (at most `n`) already read.
pub open spec fn spec_replaying(s: SerialState, data: Seq<u8>, i: nat) -> bool {
    let n = if data.len() < SERIAL_INPUT_MAX_SIZE {
        data.len()
    } else {
        SERIAL_INPUT_MAX_SIZE as nat
    };
    &&& s.input_len == n
    &&& s.input_pos == if i < n {
        i
    } else {
        n
    }
    &&& s.input_buf@.take(n as int) == data.take(n as int)
}

/// Reads replay the queued input in order and then give 0: after
/// `set_input(data)`, read number `i` (from 0) returns `data[i]` while `i`
/// is below the queued length `n`, and 0 from then on without changing the
/// UART.
pub proof fn lemma_reads_replay_input(
    data: Seq<u8>,
    i: nat,
    before: SerialState,
    after: SerialState,
    r: u8,
)
    requires
        spec_replaying(before, data, i),
        if before.input_pos < before.input_len {
            &&& r == before.input_buf@[before.input_pos as int]
            &&& after.input_pos == before.input_pos + 1
            &&& after.input_len == before.input_len
            &&& after.input_buf == before.input_buf
        } else {
            r == 0 && after == before
        },
    ensures
        spec_replaying(after, data, i + 1),
        r == if i < before.input_len {
            data[i as int]
        } else {
            0u8
        },
{
    let n = before.input_len as int;
    if i < n {
        assert(before.input_buf@.take(n)[i as int] == data.take(n)[i as int]);
    }
}

impl StateHash for SerialState {
    fn state_hash(&self) -> (r: u64)
        ensures
            r == 0,
    {
        let mut h = Xxh64Hasher::new();
        h.write_u8(self.ier);
        h.write_u8(self.lcr);
        h.write_u8(self.mcr);
        h.write_u8(self.scr);
        h.write_u8(self.dll);
        h.write_u8(self.dlh);
        h.write_u64(self.input_pos as u64);
        h.write_u64(self.input_len as u64);
        h.finish()
    }
}

} // verus!
