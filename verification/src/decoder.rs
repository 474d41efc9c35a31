//! Minimal x86-64 instruction decoder for MMIO emulation.
//!
//! Decodes the MOV forms that access memory (`8B`, `89`, `8A`, `88` and
//! `0F B6`/`0F B7` MOVZX), which is what software MMIO emulation of APIC
//! registers needs. Legacy prefixes and a REX prefix are accepted in front of
//! the opcode. Intel SDM Vol 2A/2B hold the full encoding reference.
use vstd::prelude::*;

verus! {

/// Decoded instruction information for MMIO emulation.
#[derive(Debug, Clone, Copy, PartialEq, Eq, Structural)]
pub struct DecodedInstruction {
    /// Length of the instruction in bytes.
    pub length: u8,
    /// Type of memory operation.
    pub operation: MemoryOperation,
    /// Register operand (index into the GPR array: 0=RAX, 1=RCX, 2=RDX, 3=RBX, ...).
    pub register: u8,
    /// Operand size in bytes (1, 2, 4 or 8).
    pub operand_size: u8,
}

/// Type of memory operation.
#[derive(Debug, Clone, Copy, PartialEq, Eq, Structural)]
pub enum MemoryOperation {
    /// Load from memory to register.
    Load,
    /// Store from register to memory.
    Store,
}

/// Errors from instruction decoding.
#[derive(Debug, Clone, Copy, PartialEq, Eq, Structural)]
pub enum DecodeError {
    /// Instruction buffer too short.
    BufferTooShort,
    /// Unknown or unsupported opcode.
    UnsupportedOpcode,
    /// Unsupported addressing mode (not a memory operand).
    UnsupportedAddressing,
}

/// REX prefix bits (Intel SDM Vol 2A, Section 2.2.1).
struct RexPrefix {
    /// REX.W - 64-bit operand size.
    w: bool,
    /// REX.R - extension of the ModR/M reg field.
    r: bool,
    /// REX.X - extension of the SIB index field.
    x: bool,
    /// REX.B - extension of the ModR/M r/m field or SIB base.
    b: bool,
}

// ---------------------------------------------------------------------------
// Specification of the accepted encodings
// ---------------------------------------------------------------------------

/// Operand-size, address-size, segment-override, LOCK and REP prefixes.
pub open spec fn is_legacy_prefix(b: u8) -> bool {
    b == 0x66 || b == 0x67 || b == 0x26 || b == 0x2E || b == 0x36 || b == 0x3E || b == 0x64
        || b == 0x65 || b == 0xF0 || b == 0xF2 || b == 0xF3
}

/// Position of the first byte at or after `pos` that is not a legacy prefix.
pub open spec fn prefix_end(s: Seq<u8>, pos: int) -> int
    decreases s.len() - pos,
{
    if 0 <= pos < s.len() && is_legacy_prefix(s[pos]) {
        prefix_end(s, pos + 1)
    } else {
        pos
    }
}

/// A REX prefix is any byte `0x40..=0x4F`.
pub open spec fn is_rex(b: u8) -> bool {
    b & 0xF0 == 0x40
}

/// Whether an operand-size override (0x66) occurs among the first `end` bytes.
pub open spec fn has_operand_size_prefix(s: Seq<u8>, end: int) -> bool {
    exists|i: int| 0 <= i < end && s[i] == 0x66
}

/// Number of SIB and displacement bytes that follow a ModR/M byte with the
/// given `mod` and `r/m` (low three bits) fields, when `rest` holds the bytes
/// after the ModR/M byte.
pub open spec fn spec_displacement_length(mod_bits: u8, rm: u8, rest: Seq<u8>) -> Result<
    nat,
    DecodeError,
> {
    let has_sib = rm == 4 && mod_bits != 3;
    if has_sib && rest.len() == 0 {
        Err(DecodeError::BufferTooShort)
    } else {
        let sib_len: nat = if has_sib {
            if mod_bits == 0 && rest[0] & 0x07 == 5 {
                5
            } else {
                1
            }
        } else {
            0
        };
        let disp: nat = if mod_bits == 0 {
            if rm == 5 && !has_sib {
                4
            } else {
                0
            }
        } else if mod_bits == 1 {
            1
        } else if mod_bits == 2 {
            4
        } else {
            0
        };
        if rest.len() < sib_len + disp {
            Err(DecodeError::BufferTooShort)
        } else {
            Ok(sib_len + disp)
        }
    }
}

/// Decoding of a ModR/M-addressed operand whose ModR/M byte is at `m`:
/// the register operand and the position just past the operand bytes.
pub open spec fn spec_modrm_operand(s: Seq<u8>, m: int, rex_r: bool) -> Result<
    (u8, int),
    DecodeError,
> {
    if m >= s.len() {
        Err(DecodeError::BufferTooShort)
    } else {
        let modrm = s[m];
        let reg = ((modrm >> 3u8) & 0x07u8) | (if rex_r {
            0x08u8
        } else {
            0u8
        });
        let mod_bits = modrm >> 6u8;
        match spec_displacement_length(mod_bits, modrm & 0x07u8, s.subrange(m + 1, s.len() as int)) {
            Err(e) => Err(e),
            Ok(d) => if mod_bits == 3 {
                Err(DecodeError::UnsupportedAddressing)
            } else {
                Ok((reg, m + 1 + d))
            },
        }
    }
}

/// The instruction described by a ModR/M operand decoding.
pub open spec fn spec_with_operand(
    operand: Result<(u8, int), DecodeError>,
    operation: MemoryOperation,
    operand_size: u8,
) -> Result<DecodedInstruction, DecodeError> {
    match operand {
        Err(e) => Err(e),
        Ok((reg, end)) => Ok(
            DecodedInstruction { length: end as u8, operation, register: reg, operand_size },
        ),
    }
}

/// What `decode_instruction` returns for the bytes `s`.
pub open spec fn spec_decode(s: Seq<u8>) -> Result<DecodedInstruction, DecodeError> {
    let p = prefix_end(s, 0);
    if p >= s.len() {
        Err(DecodeError::BufferTooShort)
    } else {
        let rex = is_rex(s[p]);
        let q = if rex {
            p + 1
        } else {
            p
        };
        if q >= s.len() {
            Err(DecodeError::BufferTooShort)
        } else {
            let rex_w = rex && s[p] & 0x08 != 0;
            let rex_r = rex && s[p] & 0x04 != 0;
            let size: u8 = if rex_w {
                8
            } else if has_operand_size_prefix(s, p) {
                2
            } else {
                4
            };
            let opcode = s[q];
            if opcode == 0x8B {
                spec_with_operand(spec_modrm_operand(s, q + 1, rex_r), MemoryOperation::Load, size)
            } else if opcode == 0x89 {
                spec_with_operand(spec_modrm_operand(s, q + 1, rex_r), MemoryOperation::Store, size)
            } else if opcode == 0x8A {
                spec_with_operand(spec_modrm_operand(s, q + 1, rex_r), MemoryOperation::Load, 1)
            } else if opcode == 0x88 {
                spec_with_operand(spec_modrm_operand(s, q + 1, rex_r), MemoryOperation::Store, 1)
            } else if opcode == 0x0F {
                if q + 1 >= s.len() {
                    Err(DecodeError::BufferTooShort)
                } else if s[q + 1] == 0xB6 {
                    spec_with_operand(
                        spec_modrm_operand(s, q + 2, rex_r),
                        MemoryOperation::Load,
                        1,
                    )
                } else if s[q + 1] == 0xB7 {
                    spec_with_operand(
                        spec_modrm_operand(s, q + 2, rex_r),
                        MemoryOperation::Load,
                        2,
                    )
                } else {
                    Err(DecodeError::UnsupportedOpcode)
                }
            } else {
                Err(DecodeError::UnsupportedOpcode)
            }
        }
    }
}

/// Where the instruction that `spec_decode` accepts in `s` ends: past the
/// prefixes, the REX byte, the opcode, the ModR/M byte, and the SIB and
/// displacement bytes.
pub open spec fn spec_instruction_end(s: Seq<u8>) -> int {
    let p = prefix_end(s, 0);
    let q = if is_rex(s[p]) {
        p + 1
    } else {
        p
    };
    let m = if s[q] == 0x0F {
        q + 2
    } else {
        q + 1
    };
    let modrm = s[m];
    match spec_displacement_length(modrm >> 6u8, modrm & 0x07u8, s.subrange(m + 1, s.len() as int)) {
        Ok(d) => m + 1 + d,
        Err(_) => 0,
    }
}

/// `prefix_end` reads no byte past its result: sequences that agree up to
/// and including it (and are long enough) end their prefixes there too.
proof fn lemma_prefix_end_agree(s: Seq<u8>, s2: Seq<u8>, pos: int)
    requires
        0 <= pos <= s.len(),
        prefix_end(s, pos) < s.len(),
        prefix_end(s, pos) < s2.len(),
        forall|i: int| 0 <= i <= prefix_end(s, pos) ==> s2[i] == s[i],
    ensures
        prefix_end(s2, pos) == prefix_end(s, pos),
    decreases s.len() - pos,
{
    lemma_prefix_end_bounds(s, pos);
    if is_legacy_prefix(s[pos]) {
        lemma_prefix_end_agree(s, s2, pos + 1);
    }
}

/// An accepted instruction is between 2 bytes long and the whole buffer
/// (its `length` is that count in a byte, so with 254 or more prefix bytes
/// it wraps), names one of the 16 registers, and has an operand size of 1,
/// 2, 4 or 8 bytes.
pub proof fn lemma_decode_bounds(s: Seq<u8>, d: DecodedInstruction)
    requires
        spec_decode(s) == Ok::<DecodedInstruction, DecodeError>(d),
    ensures
        2 <= spec_instruction_end(s) <= s.len(),
        d.length == spec_instruction_end(s) as u8,
        d.register < 16,
        d.operand_size == 1 || d.operand_size == 2 || d.operand_size == 4 || d.operand_size == 8,
{
    lemma_prefix_end_bounds(s, 0);
    let p = prefix_end(s, 0);
    let q = if is_rex(s[p]) {
        p + 1
    } else {
        p
    };
    let m = if s[q] == 0x0F {
        q + 2
    } else {
        q + 1
    };
    let modrm = s[m];
    let rex_r = is_rex(s[p]) && s[p] & 0x04 != 0;
    assert(((modrm >> 3u8) & 0x07u8) | (if rex_r { 0x08u8 } else { 0u8 }) < 16) by (bit_vector);
}

/// Decoding reads no byte past the instruction: the same instruction
/// followed by anything decodes the same.
pub proof fn lemma_decode_ignores_suffix(s: Seq<u8>, d: DecodedInstruction, t: Seq<u8>)
    requires
        spec_decode(s) == Ok::<DecodedInstruction, DecodeError>(d),
    ensures
        spec_decode(s.take(spec_instruction_end(s)) + t) == Ok::<DecodedInstruction, DecodeError>(d),
{
    lemma_decode_bounds(s, d);
    lemma_prefix_end_bounds(s, 0);
    let e = spec_instruction_end(s);
    let s2 = s.take(e) + t;
    assert forall|i: int| 0 <= i < e implies s2[i] == s[i] by {}
    let p = prefix_end(s, 0);
    lemma_prefix_end_agree(s, s2, 0);
    assert(has_operand_size_prefix(s2, p) == has_operand_size_prefix(s, p)) by {
        if has_operand_size_prefix(s, p) {
            let i = choose|i: int| 0 <= i < p && s[i] == 0x66;
            assert(s2[i] == 0x66);
        }
        if has_operand_size_prefix(s2, p) {
            let i = choose|i: int| 0 <= i < p && s2[i] == 0x66;
            assert(s[i] == 0x66);
        }
    }
    let q = if is_rex(s[p]) {
        p + 1
    } else {
        p
    };
    let m = if s[q] == 0x0F {
        q + 2
    } else {
        q + 1
    };
    let rest = s.subrange(m + 1, s.len() as int);
    let rest2 = s2.subrange(m + 1, s2.len() as int);
    if rest.len() > 0 && m + 1 < e {
        assert(rest2[0] == rest[0]);
    }
}

/// Bytes that the SDM's 32/64-bit addressing tables (Vol 2A, Tables 2-2 and
/// 2-3) put after the ModR/M byte `modrm` of a memory operand, `sib` being
/// the byte after it: a SIB byte when r/m is 100, then a displacement of one
/// byte (mod 01), four bytes (mod 10), or, with mod 00, four bytes for
/// r/m 101 (RIP-relative) and for a SIB byte whose base is 101.
pub open spec fn spec_sdm_address_bytes(modrm: u8, sib: u8) -> int {
    let md = modrm >> 6u8;
    let rm = modrm & 7u8;
    let sib_bytes: int = if rm == 4 && md != 3 {
        1
    } else {
        0
    };
    let disp_bytes: int = if md == 0 {
        if rm == 5 || (rm == 4 && sib & 7u8 == 5) {
            4
        } else {
            0
        }
    } else if md == 1 {
        1
    } else if md == 2 {
        4
    } else {
        0
    };
    sib_bytes + disp_bytes
}

/// The length of a decoded instruction is what the SDM's encoding gives:
/// the prefixes, an optional REX byte, the one- or two-byte opcode, the
/// ModR/M byte (a memory operand, mod not 11), and the SIB and displacement
/// bytes of `spec_sdm_address_bytes` (the length is counted in a byte).
pub proof fn lemma_decoded_length_follows_sdm(s: Seq<u8>, d: DecodedInstruction)
    requires
        spec_decode(s) == Ok::<DecodedInstruction, DecodeError>(d),
    ensures
        ({
            let p = prefix_end(s, 0);
            let q = if is_rex(s[p]) {
                p + 1
            } else {
                p
            };
            let m = if s[q] == 0x0F {
                q + 2
            } else {
                q + 1
            };
            &&& s[m] >> 6u8 != 3
            &&& d.length == (m + 1 + spec_sdm_address_bytes(s[m], s[m + 1])) as u8
        }),
{
    lemma_decode_bounds(s, d);
    lemma_prefix_end_bounds(s, 0);
}

/// What a decoded instruction does follows from its opcode (SDM Vol 2A/2B,
/// MOV and MOVZX): `8B`, `8A` and `0F B6`/`0F B7` load, `89` and `88`
/// store; the byte forms (`8A`, `88`, `0F B6`) move one byte and `0F B7` two;
/// `8B` and `89` move eight bytes with REX.W, else two after an
/// operand-size prefix, else four.
pub proof fn lemma_decoded_operation_follows_opcode(s: Seq<u8>, d: DecodedInstruction)
    requires
        spec_decode(s) == Ok::<DecodedInstruction, DecodeError>(d),
    ensures
        ({
            let p = prefix_end(s, 0);
            let rex = is_rex(s[p]);
            let q = if rex {
                p + 1
            } else {
                p
            };
            let op = s[q];
            let full_size: u8 = if rex && s[p] & 0x08 != 0 {
                8
            } else if exists|i: int| 0 <= i < p && s[i] == 0x66 {
                2
            } else {
                4
            };
            &&& op == 0x8B || op == 0x89 || op == 0x8A || op == 0x88 || (op == 0x0F && (s[q + 1]
                == 0xB6 || s[q + 1] == 0xB7))
            &&& d.operation == (if op == 0x89 || op == 0x88 {
                MemoryOperation::Store
            } else {
                MemoryOperation::Load
            })
            &&& d.operand_size == (if op == 0x8B || op == 0x89 {
                full_size
            } else if op == 0x0F && s[q + 1] == 0xB7 {
                2u8
            } else {
                1u8
            })
        }),
{
    lemma_prefix_end_bounds(s, 0);
}

/// The MOV load `8B /r` with a memory operand decodes, from any bytes that
/// follow it, as a 32-bit load into the ModR/M reg register whose length
/// counts the opcode, the ModR/M byte and the SDM's SIB and displacement
/// bytes.
pub proof fn lemma_mov_load_decodes(modrm: u8, rest: Seq<u8>)
    requires
        modrm >> 6u8 != 3,
        rest.len() >= 5,
    ensures
        spec_decode(seq![0x8Bu8, modrm] + rest) == Ok::<DecodedInstruction, DecodeError>(
            DecodedInstruction {
                length: (2 + spec_sdm_address_bytes(modrm, rest[0])) as u8,
                operation: MemoryOperation::Load,
                register: (modrm >> 3u8) & 7u8,
                operand_size: 4,
            },
        ),
{
    let s = seq![0x8Bu8, modrm] + rest;
    assert(s[0] == 0x8B);
    assert(s[1] == modrm);
    assert(prefix_end(s, 0) == 0);
    assert(!has_operand_size_prefix(s, 0));
    assert(s.subrange(2, s.len() as int) =~= rest);
    assert(0x8Bu8 & 0xF0u8 != 0x40u8 && ((modrm >> 3u8) & 0x07u8) | 0u8 == (modrm >> 3u8) & 7u8)
        by (bit_vector);
    assert(!is_rex(s[0]));
    let dl = spec_displacement_length(modrm >> 6u8, modrm & 0x07u8, rest);
    assert(dl == Ok::<nat, DecodeError>(spec_sdm_address_bytes(modrm, rest[0]) as nat));
    assert(spec_modrm_operand(s, 1, false) == Ok::<(u8, int), DecodeError>(
        ((modrm >> 3u8) & 7u8, 2 + spec_sdm_address_bytes(modrm, rest[0])),
    ));
}

// ---------------------------------------------------------------------------
// Implementation
// ---------------------------------------------------------------------------

impl RexPrefix {
    fn from_byte(byte: u8) -> (r: Option<Self>)
        ensures
            match r {
                Some(p) => is_rex(byte) && p.w == (byte & 0x08 != 0) && p.r == (byte & 0x04 != 0)
                    && p.x == (byte & 0x02 != 0) && p.b == (byte & 0x01 != 0),
                None => !is_rex(byte),
            },
    {
        if (byte & 0xF0) == 0x40 {
            Some(
                Self {
                    w: byte & 0x08 != 0,
                    r: byte & 0x04 != 0,
                    x: byte & 0x02 != 0,
                    b: byte & 0x01 != 0,
                },
            )
        } else {
            None
        }
    }
}

proof fn lemma_prefix_end_bounds(s: Seq<u8>, pos: int)
    requires
        0 <= pos <= s.len(),
    ensures
        pos <= prefix_end(s, pos) <= s.len(),
        forall|i: int| pos <= i < prefix_end(s, pos) ==> is_legacy_prefix(#[trigger] s[i]),
        prefix_end(s, pos) < s.len() ==> !is_legacy_prefix(s[prefix_end(s, pos)]),
    decreases s.len() - pos,
{
    if pos < s.len() && is_legacy_prefix(s[pos]) {
        lemma_prefix_end_bounds(s, pos + 1);
    }
}

/// Decode an x86-64 instruction for MMIO emulation.
///
/// Handles `MOV r, [mem]`, `MOV [mem], r` (32/64/16-bit and byte forms) and
/// `MOVZX r, byte/word [mem]`; for MOVZX the reported operand size is that of
/// the memory source.
pub fn decode_instruction(bytes: &[u8]) -> (r: Result<DecodedInstruction, DecodeError>)
    ensures
        r == spec_decode(bytes@),
{
    let ghost s = bytes@;
    if bytes.len() == 0 {
        return Err(DecodeError::BufferTooShort);
    }
    let mut pos: usize = 0;
    let mut has_operand_size_prefix = false;
    while pos < bytes.len()
        invariant_except_break
            0 <= pos <= bytes.len(),
            s == bytes@,
            prefix_end(s, pos as int) == prefix_end(s, 0),
            has_operand_size_prefix == (exists|i: int| 0 <= i < pos && s[i] == 0x66),
        ensures
            pos == prefix_end(s, 0),
            has_operand_size_prefix == (exists|i: int| 0 <= i < pos && s[i] == 0x66),
        decreases bytes.len() - pos,
    {
        let b = bytes[pos];
        if b == 0x66 {
            has_operand_size_prefix = true;
            pos += 1;
        } else if b == 0x67 || b == 0x26 || b == 0x2E || b == 0x36 || b == 0x3E || b == 0x64
            || b == 0x65 || b == 0xF0 || b == 0xF2 || b == 0xF3 {
            pos += 1;
        } else {
            break ;
        }
        proof {
            assert(has_operand_size_prefix == (exists|i: int| 0 <= i < pos && s[i] == 0x66)) by {
                if has_operand_size_prefix {
                    if b == 0x66 {
                        assert(s[pos - 1] == 0x66);
                    }
                }
            }
        }
    }
    if pos >= bytes.len() {
        return Err(DecodeError::BufferTooShort);
    }
    let rex_opt = RexPrefix::from_byte(bytes[pos]);
    let rex = match rex_opt {
        Some(p) => {
            pos += 1;
            p
        },
        None => RexPrefix { w: false, r: false, x: false, b: false },
    };
    if pos >= bytes.len() {
        return Err(DecodeError::BufferTooShort);
    }
    let operand_size: u8 = if rex.w {
        8
    } else if has_operand_size_prefix {
        2
    } else {
        4
    };
    let opcode = bytes[pos];
    pos += 1;
    if opcode == 0x8B {
        let (reg, end) = decode_modrm_operand(bytes, pos, rex.r)?;
        Ok(
            DecodedInstruction {
                length: end as u8,
                operation: MemoryOperation::Load,
                register: reg,
                operand_size,
            },
        )
    } else if opcode == 0x89 {
        let (reg, end) = decode_modrm_operand(bytes, pos, rex.r)?;
        Ok(
            DecodedInstruction {
                length: end as u8,
                operation: MemoryOperation::Store,
                register: reg,
                operand_size,
            },
        )
    } else if opcode == 0x8A {
        let (reg, end) = decode_modrm_operand(bytes, pos, rex.r)?;
        Ok(
            DecodedInstruction {
                length: end as u8,
                operation: MemoryOperation::Load,
                register: reg,
                operand_size: 1,
            },
        )
    } else if opcode == 0x88 {
        let (reg, end) = decode_modrm_operand(bytes, pos, rex.r)?;
        Ok(
            DecodedInstruction {
                length: end as u8,
                operation: MemoryOperation::Store,
                register: reg,
                operand_size: 1,
            },
        )
    } else if opcode == 0x0F {
        if pos >= bytes.len() {
            return Err(DecodeError::BufferTooShort);
        }
        let opcode2 = bytes[pos];
        pos += 1;
        if opcode2 == 0xB6 || opcode2 == 0xB7 {
            let (reg, end) = decode_modrm_operand(bytes, pos, rex.r)?;
            // For MOVZX the size of the memory source is reported.
            let mem_operand_size: u8 = if opcode2 == 0xB6 {
                1
            } else {
                2
            };
            Ok(
                DecodedInstruction {
                    length: end as u8,
                    operation: MemoryOperation::Load,
                    register: reg,
                    operand_size: mem_operand_size,
                },
            )
        } else {
            Err(DecodeError::UnsupportedOpcode)
        }
    } else {
        Err(DecodeError::UnsupportedOpcode)
    }
}

/// Decode the ModR/M operand whose ModR/M byte is at `pos`: returns the
/// register operand and the position just past the SIB and displacement bytes.
fn decode_modrm_operand(bytes: &[u8], pos: usize, rex_r: bool) -> (r: Result<
    (u8, usize),
    DecodeError,
>)
    ensures
        match spec_modrm_operand(bytes@, pos as int, rex_r) {
            Ok((reg, end)) => r == Ok::<(u8, usize), DecodeError>((reg, end as usize)) && end
                <= bytes@.len(),
            Err(e) => r == Err::<(u8, usize), DecodeError>(e),
        },
{
    if pos >= bytes.len() {
        return Err(DecodeError::BufferTooShort);
    }
    let modrm = bytes[pos];
    let reg = ((modrm >> 3) & 0x07) | (if rex_r {
        0x08
    } else {
        0
    });
    let mod_bits = modrm >> 6;
    let disp = modrm_displacement_length(mod_bits, modrm & 0x07, bytes, pos + 1)?;
    // mod=11 is register-to-register, not a memory operand.
    if mod_bits == 0b11 {
        return Err(DecodeError::UnsupportedAddressing);
    }
    Ok((reg, pos + 1 + disp))
}

/// Number of SIB and displacement bytes after a ModR/M byte, when the bytes
/// following the ModR/M byte start at `start`.
fn modrm_displacement_length(mod_bits: u8, rm: u8, bytes: &[u8], start: usize) -> (r: Result<
    usize,
    DecodeError,
>)
    requires
        start <= bytes@.len(),
    ensures
        match spec_displacement_length(mod_bits, rm, bytes@.subrange(start as int, bytes@.len() as int)) {
            Ok(n) => r == Ok::<usize, DecodeError>(n as usize) && start + n <= bytes@.len(),
            Err(e) => r == Err::<usize, DecodeError>(e),
        },
{
    let ghost rest = bytes@.subrange(start as int, bytes@.len() as int);
    let remaining = bytes.len() - start;
    let mut len: usize = 0;
    // A SIB byte follows when rm == 4 and mod != 11.
    let has_sib = rm == 4 && mod_bits != 0b11;
    if has_sib {
        if remaining == 0 {
            return Err(DecodeError::BufferTooShort);
        }
        len += 1;
        let sib = bytes[start];
        assert(sib == rest[0]);
        let base = sib & 0x07;
        // mod=00 with SIB base=5 carries a 32-bit displacement.
        if mod_bits == 0b00 && base == 5 {
            if remaining < len + 4 {
                return Err(DecodeError::BufferTooShort);
            }
            len += 4;
        }
    }
    if mod_bits == 0b00 {
        // RIP-relative addressing (rm=5 without SIB) has a 32-bit displacement.
        if rm == 5 && !has_sib {
            if remaining < len + 4 {
                return Err(DecodeError::BufferTooShort);
            }
            len += 4;
        }
    } else if mod_bits == 0b01 {
        if remaining < len + 1 {
            return Err(DecodeError::BufferTooShort);
        }
        len += 1;
    } else if mod_bits == 0b10 {
        if remaining < len + 4 {
            return Err(DecodeError::BufferTooShort);
        }
        len += 4;
    }
    Ok(len)
}

} // verus!
