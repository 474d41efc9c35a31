//! Guest console output: a 4 KB byte buffer and a 4 KB page of per-line TSC
//! metadata, both shared with userspace.
//!
//! Metadata page layout: bytes 0-1 line count (u16), bytes 2-3 magic
//! (0xCAFE), then one 10-byte entry per line starting at byte 4: the offset
//! of the line's first byte in the output buffer (u16) and the emulated TSC
//! when it was written (u64), both little-endian.
use vstd::prelude::*;

verus! {

/// Size of the serial output buffer (one page).
pub const SERIAL_BUFFER_SIZE: usize = 4096;

/// Magic value identifying the line TSC metadata format.
pub const SERIAL_METADATA_MAGIC: u16 = 0xCAFE;

/// Maximum number of line TSC entries: (4096 - 4) / 10.
pub const SERIAL_MAX_LINE_ENTRIES: usize = 409;

/// Offset of the first line entry in the metadata page.
pub const SERIAL_LINE_TSC_OFFSET: usize = 4;

/// Little-endian bytes of a u16.
pub open spec fn spec_le_u16(x: u16) -> Seq<u8> {
    seq![(x & 0xFF) as u8, (x >> 8u16) as u8]
}

/// Little-endian bytes of a u64.
pub open spec fn spec_le_u64(x: u64) -> Seq<u8> {
    seq![
        (x & 0xFF) as u8,
        ((x >> 8u64) & 0xFF) as u8,
        ((x >> 16u64) & 0xFF) as u8,
        ((x >> 24u64) & 0xFF) as u8,
        ((x >> 32u64) & 0xFF) as u8,
        ((x >> 40u64) & 0xFF) as u8,
        ((x >> 48u64) & 0xFF) as u8,
        ((x >> 56u64) & 0xFF) as u8,
    ]
}

/// `page` with `bytes` written from offset `at`.
pub open spec fn spec_write_bytes(page: Seq<u8>, at: int, bytes: Seq<u8>) -> Seq<u8> {
    page.subrange(0, at) + bytes + page.subrange(at + bytes.len(), page.len() as int)
}

/// Serial output buffer and its line TSC metadata.
pub struct SerialOutput {
    buffer: Vec<u8>,
    tsc_page: Vec<u8>,
    len: usize,
    line_count: usize,
    at_line_start: bool,
    pending_byte: Option<u8>,
}

impl SerialOutput {
    #[verifier::type_invariant]
    spec fn inv(self) -> bool {
        &&& self.buffer@.len() == SERIAL_BUFFER_SIZE
        &&& self.tsc_page@.len() == SERIAL_BUFFER_SIZE
        &&& self.len <= SERIAL_BUFFER_SIZE
        &&& self.line_count <= SERIAL_MAX_LINE_ENTRIES
    }

    /// The whole output buffer page.
    pub closed spec fn buffer(&self) -> Seq<u8> {
        self.buffer@
    }

    /// The whole metadata page.
    pub closed spec fn tsc_page(&self) -> Seq<u8> {
        self.tsc_page@
    }

    /// Number of output bytes written.
    pub closed spec fn out_len(&self) -> nat {
        self.len as nat
    }

    /// Number of line entries recorded.
    pub closed spec fn lines(&self) -> nat {
        self.line_count as nat
    }

    /// Whether the next byte starts a new line.
    pub closed spec fn at_line_start(&self) -> bool {
        self.at_line_start
    }

    /// Byte held back because the buffer was full.
    pub closed spec fn pending_byte(&self) -> Option<u8> {
        self.pending_byte
    }

    /// The output written so far.
    pub open spec fn contents(&self) -> Seq<u8> {
        self.buffer().subrange(0, self.out_len() as int)
    }

    /// Empty output, zeroed pages, at the start of a line.
    pub fn new() -> (r: Self)
        ensures
            r.out_len() == 0,
            r.lines() == 0,
            r.at_line_start(),
            r.pending_byte() is None,
            r.buffer() == Seq::new(SERIAL_BUFFER_SIZE as nat, |i: int| 0u8),
            r.tsc_page() == Seq::new(SERIAL_BUFFER_SIZE as nat, |i: int| 0u8),
    {
        let mut buffer: Vec<u8> = Vec::new();
        let mut tsc_page: Vec<u8> = Vec::new();
        let mut i: usize = 0;
        while i < SERIAL_BUFFER_SIZE
            invariant
                i <= SERIAL_BUFFER_SIZE,
                buffer@ == Seq::new(i as nat, |j: int| 0u8),
                tsc_page@ == Seq::new(i as nat, |j: int| 0u8),
            decreases SERIAL_BUFFER_SIZE - i,
        {
            buffer.push(0);
            tsc_page.push(0);
            i += 1;
            assert(buffer@ =~= Seq::new(i as nat, |j: int| 0u8));
            assert(tsc_page@ =~= Seq::new(i as nat, |j: int| 0u8));
        }
        SerialOutput {
            buffer,
            tsc_page,
            len: 0,
            line_count: 0,
            at_line_start: true,
            pending_byte: None,
        }
    }

    /// Hold back a byte that did not fit; it is written after the next clear.
    pub fn set_pending_byte(&mut self, byte: Option<u8>)
        ensures
            final(self).pending_byte() == byte,
            final(self).buffer() == old(self).buffer(),
            final(self).tsc_page() == old(self).tsc_page(),
            final(self).out_len() == old(self).out_len(),
            final(self).lines() == old(self).lines(),
            final(self).at_line_start() == old(self).at_line_start(),
    {
        proof {
            use_type_invariant(&*self);
        }
        self.pending_byte = byte;
    }

    /// Write a byte of output, recording `tsc` for a byte that starts a line
    /// (while line entries remain). Returns `false`, changing nothing, when
    /// the buffer is full.
    pub fn write(&mut self, byte: u8, tsc: u64) -> (r: bool)
        ensures
            r == (old(self).out_len() < SERIAL_BUFFER_SIZE),
            !r ==> *final(self) == *old(self),
            r ==> {
                let records = old(self).at_line_start() && old(self).lines()
                    < SERIAL_MAX_LINE_ENTRIES;
                &&& final(self).buffer() == old(self).buffer().update(old(self).out_len() as int, byte)
                &&& final(self).out_len() == old(self).out_len() + 1
                &&& final(self).tsc_page() == if records {
                    spec_write_bytes(
                        old(self).tsc_page(),
                        SERIAL_LINE_TSC_OFFSET + old(self).lines() * 10,
                        spec_le_u16(old(self).out_len() as u16) + spec_le_u64(tsc),
                    )
                } else {
                    old(self).tsc_page()
                }
                &&& final(self).lines() == old(self).lines() + if records {
                    1int
                } else {
                    0
                }
                &&& final(self).at_line_start() == (byte == 10 || (old(self).at_line_start()
                    && !records))
                &&& final(self).pending_byte() == old(self).pending_byte()
            },
    {
        proof {
            use_type_invariant(&*self);
        }
        if self.len >= SERIAL_BUFFER_SIZE {
            return false;
        }
        if self.at_line_start && self.line_count < SERIAL_MAX_LINE_ENTRIES {
            let entry_offset = SERIAL_LINE_TSC_OFFSET + self.line_count * 10;
            let off = self.len as u16;
            let ghost before = self.tsc_page@;
            let mut bytes: Vec<u8> = Vec::new();
            bytes.push((off & 0xFF) as u8);
            bytes.push((off >> 8) as u8);
            bytes.push((tsc & 0xFF) as u8);
            bytes.push(((tsc >> 8) & 0xFF) as u8);
            bytes.push(((tsc >> 16) & 0xFF) as u8);
            bytes.push(((tsc >> 24) & 0xFF) as u8);
            bytes.push(((tsc >> 32) & 0xFF) as u8);
            bytes.push(((tsc >> 40) & 0xFF) as u8);
            bytes.push(((tsc >> 48) & 0xFF) as u8);
            bytes.push(((tsc >> 56) & 0xFF) as u8);
            assert(bytes@ =~= spec_le_u16(off) + spec_le_u64(tsc));
            let mut k: usize = 0;
            while k < 10
                invariant
                    k <= 10,
                    entry_offset + 10 <= SERIAL_BUFFER_SIZE,
                    bytes@.len() == 10,
                    before.len() == SERIAL_BUFFER_SIZE,
                    self.tsc_page@ == spec_write_bytes(
                        before,
                        entry_offset as int,
                        bytes@.subrange(0, k as int),
                    ),
                    self.buffer@.len() == SERIAL_BUFFER_SIZE,
                    self.len < SERIAL_BUFFER_SIZE,
                    self.line_count < SERIAL_MAX_LINE_ENTRIES,
                    self.buffer == old(self).buffer,
                    self.len == old(self).len,
                    self.line_count == old(self).line_count,
                    self.at_line_start == old(self).at_line_start,
                    self.pending_byte == old(self).pending_byte,
                decreases 10 - k,
            {
                let ghost prev = self.tsc_page@;
                self.tsc_page[entry_offset + k] = bytes[k];
                assert(self.tsc_page@ == prev.update(entry_offset + k, bytes@[k as int]));
                k += 1;
                assert(self.tsc_page@ =~= spec_write_bytes(
                    before,
                    entry_offset as int,
                    bytes@.subrange(0, k as int),
                ));
            }
            assert(bytes@.subrange(0, 10) =~= bytes@);
            self.line_count += 1;
            self.at_line_start = false;
        }
        self.buffer[self.len] = byte;
        self.len += 1;
        if byte == 10 {
            self.at_line_start = true;
        }
        true
    }

    /// Clear the output and the line tracking; a held-back byte is then
    /// written as the first byte of the fresh buffer.
    pub fn clear(&mut self, tsc: u64)
        ensures
            final(self).pending_byte() is None,
            match old(self).pending_byte() {
                None => {
                    &&& final(self).out_len() == 0
                    &&& final(self).lines() == 0
                    &&& final(self).at_line_start()
                    &&& final(self).buffer() == old(self).buffer()
                    &&& final(self).tsc_page() == old(self).tsc_page()
                },
                Some(b) => {
                    &&& final(self).out_len() == 1
                    &&& final(self).lines() == 1
                    &&& final(self).at_line_start() == (b == 10)
                    &&& final(self).buffer() == old(self).buffer().update(0, b)
                    &&& final(self).tsc_page() == spec_write_bytes(
                        old(self).tsc_page(),
                        SERIAL_LINE_TSC_OFFSET as int,
                        spec_le_u16(0) + spec_le_u64(tsc),
                    )
                },
            },
    {
        proof {
            use_type_invariant(&*self);
        }
        self.len = 0;
        self.line_count = 0;
        self.at_line_start = true;
        let pending = self.pending_byte;
        self.pending_byte = None;
        if let Some(byte) = pending {
            self.write(byte, tsc);
        }
    }

    /// Write the metadata header: line count and magic.
    pub fn finalize_metadata(&mut self)
        ensures
            final(self).tsc_page() == spec_write_bytes(
                old(self).tsc_page(),
                0,
                spec_le_u16(old(self).lines() as u16) + spec_le_u16(SERIAL_METADATA_MAGIC),
            ),
            final(self).buffer() == old(self).buffer(),
            final(self).out_len() == old(self).out_len(),
            final(self).lines() == old(self).lines(),
            final(self).at_line_start() == old(self).at_line_start(),
            final(self).pending_byte() == old(self).pending_byte(),
    {
        proof {
            use_type_invariant(&*self);
        }
        let count = self.line_count as u16;
        let ghost before = self.tsc_page@;
        self.tsc_page[0] = (count & 0xFF) as u8;
        self.tsc_page[1] = (count >> 8) as u8;
        self.tsc_page[2] = (SERIAL_METADATA_MAGIC & 0xFF) as u8;
        self.tsc_page[3] = (SERIAL_METADATA_MAGIC >> 8) as u8;
        assert(self.tsc_page@ =~= spec_write_bytes(
            before,
            0,
            spec_le_u16(count) + spec_le_u16(SERIAL_METADATA_MAGIC),
        ));
    }

    /// The output written so far.
    pub fn output(&self) -> (r: &[u8])
        ensures
            r@ == self.contents(),
    {
        proof {
            use_type_invariant(self);
        }
        &self.buffer.as_slice()[0..self.len]
    }

    /// Number of output bytes written.
    pub fn len(&self) -> (r: usize)
        ensures
            r == self.out_len(),
    {
        self.len
    }

    /// Number of line entries recorded.
    pub fn line_count(&self) -> (r: usize)
        ensures
            r == self.lines(),
    {
        self.line_count
    }
}

} // verus!
