//! Exit qualification and event-information formats of VM exits
//! (Intel SDM Vol 3C, Tables 28-3, 28-5, 28-7, 26-18 and 28-12).
use vstd::prelude::*;

verus! {

/// CR access type (bits 5:4 of the exit qualification).
#[derive(Debug, Clone, Copy, PartialEq, Eq, Structural)]
pub enum CrAccessType {
    /// MOV to CR.
    MovToCr,
    /// MOV from CR.
    MovFromCr,
    /// CLTS instruction.
    Clts,
    /// LMSW instruction.
    Lmsw,
}

/// The access type with the given two-bit code.
pub open spec fn spec_cr_access_type(value: u8) -> Option<CrAccessType> {
    if value == 0 {
        Some(CrAccessType::MovToCr)
    } else if value == 1 {
        Some(CrAccessType::MovFromCr)
    } else if value == 2 {
        Some(CrAccessType::Clts)
    } else if value == 3 {
        Some(CrAccessType::Lmsw)
    } else {
        None
    }
}

impl CrAccessType {
    /// The access type with the given code; `Err` for codes above 3.
    pub fn try_from_bits(value: u8) -> (r: Result<Self, ()>)
        ensures
            r == match spec_cr_access_type(value) {
                Some(t) => Ok::<CrAccessType, ()>(t),
                None => Err(()),
            },
    {
        match value {
            0 => Ok(Self::MovToCr),
            1 => Ok(Self::MovFromCr),
            2 => Ok(Self::Clts),
            3 => Ok(Self::Lmsw),
            _ => Err(()),
        }
    }
}

/// CR access exit qualification.
#[derive(Debug, Clone, Copy)]
pub struct CrAccessQualification {
    /// Control register number (0, 3, 4 or 8).
    pub cr_number: u8,
    /// Type of access.
    pub access_type: CrAccessType,
    /// General-purpose register (for MOV CR or register LMSW).
    pub register: u8,
    /// Source data for LMSW (bits 31:16).
    pub lmsw_source_data: u16,
}

/// The fields of a CR access qualification.
pub open spec fn spec_cr_access_qualification(qual: u64) -> CrAccessQualification {
    CrAccessQualification {
        cr_number: (qual & 0xF) as u8,
        access_type: match spec_cr_access_type(((qual >> 4u64) & 0x3) as u8) {
            Some(t) => t,
            None => CrAccessType::MovToCr,
        },
        register: ((qual >> 8u64) & 0xF) as u8,
        lmsw_source_data: ((qual >> 16u64) & 0xFFFF) as u16,
    }
}

impl CrAccessQualification {
    /// Parse the exit qualification of a CR access exit.
    pub fn from_qualification(qual: u64) -> (r: Self)
        ensures
            r == spec_cr_access_qualification(qual),
    {
        let access_type = match CrAccessType::try_from_bits(((qual >> 4) & 0x3) as u8) {
            Ok(t) => t,
            Err(()) => CrAccessType::MovToCr,
        };
        Self {
            cr_number: (qual & 0xF) as u8,
            access_type,
            register: ((qual >> 8) & 0xF) as u8,
            lmsw_source_data: ((qual >> 16) & 0xFFFF) as u16,
        }
    }
}

/// I/O access direction.
#[derive(Debug, Clone, Copy, PartialEq, Eq, Structural)]
pub enum IoDirection {
    /// OUT instruction (write to port).
    Out,
    /// IN instruction (read from port).
    In,
}

/// I/O access size.
#[derive(Debug, Clone, Copy, PartialEq, Eq, Structural)]
pub enum IoAccessSize {
    /// 1-byte access.
    Byte,
    /// 2-byte access.
    Word,
    /// 4-byte access.
    Dword,
}

/// The access size with the given size code (bits 2:0 of the qualification).
pub open spec fn spec_io_access_size(value: u8) -> Option<IoAccessSize> {
    if value == 0 {
        Some(IoAccessSize::Byte)
    } else if value == 1 {
        Some(IoAccessSize::Word)
    } else if value == 3 {
        Some(IoAccessSize::Dword)
    } else {
        None
    }
}

impl IoAccessSize {
    /// The access size with the given code; `Err` for codes other than 0, 1, 3.
    pub fn try_from_bits(value: u8) -> (r: Result<Self, ()>)
        ensures
            r == match spec_io_access_size(value) {
                Some(s) => Ok::<IoAccessSize, ()>(s),
                None => Err(()),
            },
    {
        match value {
            0 => Ok(Self::Byte),
            1 => Ok(Self::Word),
            3 => Ok(Self::Dword),
            _ => Err(()),
        }
    }

    /// Size of the access in bytes.
    pub fn bytes(&self) -> (r: u8)
        ensures
            r == match *self {
                IoAccessSize::Byte => 1u8,
                IoAccessSize::Word => 2u8,
                IoAccessSize::Dword => 4u8,
            },
    {
        match self {
            IoAccessSize::Byte => 1,
            IoAccessSize::Word => 2,
            IoAccessSize::Dword => 4,
        }
    }
}

/// I/O instruction exit qualification.
#[derive(Debug, Clone, Copy)]
pub struct IoQualification {
    /// Size of access (1, 2 or 4 bytes).
    pub size: IoAccessSize,
    /// Direction: IN or OUT.
    pub direction: IoDirection,
    /// String instruction (INS/OUTS).
    pub string: bool,
    /// Port number (bits 31:16).
    pub port: u16,
}

/// The fields of an I/O instruction qualification.
pub open spec fn spec_io_qualification(qual: u64) -> IoQualification {
    IoQualification {
        size: match spec_io_access_size((qual & 0x7) as u8) {
            Some(s) => s,
            None => IoAccessSize::Byte,
        },
        direction: if (qual >> 3u64) & 1 != 0 {
            IoDirection::In
        } else {
            IoDirection::Out
        },
        string: (qual >> 4u64) & 1 != 0,
        port: ((qual >> 16u64) & 0xFFFF) as u16,
    }
}

impl IoQualification {
    /// Parse the exit qualification of an I/O instruction exit.
    pub fn from_qualification(qual: u64) -> (r: Self)
        ensures
            r == spec_io_qualification(qual),
    {
        let size_bits = (qual & 0x7) as u8;
        let size = match IoAccessSize::try_from_bits(size_bits) {
            Ok(s) => s,
            Err(()) => IoAccessSize::Byte,
        };
        Self {
            size,
            direction: if (qual >> 3) & 1 != 0 {
                IoDirection::In
            } else {
                IoDirection::Out
            },
            string: (qual >> 4) & 1 != 0,
            port: ((qual >> 16) & 0xFFFF) as u16,
        }
    }
}

/// EPT violation exit qualification.
#[derive(Debug, Clone, Copy, PartialEq, Eq, Structural)]
pub struct EptViolationQualification {
    /// Caused by a data read.
    pub read: bool,
    /// Caused by a data write.
    pub write: bool,
    /// Caused by an instruction fetch.
    pub execute: bool,
    /// The guest-physical address was readable.
    pub readable: bool,
    /// The guest-physical address was writable.
    pub writable: bool,
    /// The guest-physical address was executable.
    pub executable: bool,
    /// The guest linear-address field is valid.
    pub guest_linear_valid: bool,
    /// The access was asynchronous to instruction execution (bit 16).
    pub asynchronous: bool,
}

/// The fields of an EPT violation qualification: bits 0-5, 7 and 16.
pub open spec fn spec_ept_violation_qualification(qual: u64) -> EptViolationQualification {
    EptViolationQualification {
        read: qual & 0x1 != 0,
        write: qual & 0x2 != 0,
        execute: qual & 0x4 != 0,
        readable: qual & 0x8 != 0,
        writable: qual & 0x10 != 0,
        executable: qual & 0x20 != 0,
        guest_linear_valid: qual & 0x80 != 0,
        asynchronous: qual & 0x10000 != 0,
    }
}

impl EptViolationQualification {
    /// Parse the exit qualification of an EPT violation.
    pub fn from_qualification(qual: u64) -> (r: Self)
        ensures
            r == spec_ept_violation_qualification(qual),
    {
        Self {
            read: qual & 0x1 != 0,
            write: qual & 0x2 != 0,
            execute: qual & 0x4 != 0,
            readable: qual & 0x8 != 0,
            writable: qual & 0x10 != 0,
            executable: qual & 0x20 != 0,
            guest_linear_valid: qual & 0x80 != 0,
            asynchronous: qual & 0x10000 != 0,
        }
    }
}

/// Interruption type of the VM-entry/exit interruption-information fields.
#[derive(Debug, Clone, Copy, PartialEq, Eq, Structural)]
pub enum InterruptionType {
    /// External interrupt.
    ExternalInterrupt,
    /// Reserved.
    Reserved,
    /// Non-maskable interrupt (NMI).
    Nmi,
    /// Hardware exception.
    HardwareException,
    /// Software interrupt (INT n).
    SoftwareInterrupt,
    /// Privileged software exception (INT1).
    PrivilegedSoftwareException,
    /// Software exception (INT3 or INTO).
    SoftwareException,
    /// Other event.
    OtherEvent,
}

impl InterruptionType {
    /// The three-bit type code.
    pub open spec fn spec_bits(self) -> u32 {
        match self {
            InterruptionType::ExternalInterrupt => 0,
            InterruptionType::Reserved => 1,
            InterruptionType::Nmi => 2,
            InterruptionType::HardwareException => 3,
            InterruptionType::SoftwareInterrupt => 4,
            InterruptionType::PrivilegedSoftwareException => 5,
            InterruptionType::SoftwareException => 6,
            InterruptionType::OtherEvent => 7,
        }
    }

    /// The three-bit type code.
    pub fn bits(&self) -> (r: u32)
        ensures
            r == self.spec_bits(),
    {
        match self {
            InterruptionType::ExternalInterrupt => 0,
            InterruptionType::Reserved => 1,
            InterruptionType::Nmi => 2,
            InterruptionType::HardwareException => 3,
            InterruptionType::SoftwareInterrupt => 4,
            InterruptionType::PrivilegedSoftwareException => 5,
            InterruptionType::SoftwareException => 6,
            InterruptionType::OtherEvent => 7,
        }
    }
}

/// The interruption type with the given code; codes above 6 are `OtherEvent`.
pub open spec fn spec_interruption_type(code: u32) -> InterruptionType {
    if code == 0 {
        InterruptionType::ExternalInterrupt
    } else if code == 1 {
        InterruptionType::Reserved
    } else if code == 2 {
        InterruptionType::Nmi
    } else if code == 3 {
        InterruptionType::HardwareException
    } else if code == 4 {
        InterruptionType::SoftwareInterrupt
    } else if code == 5 {
        InterruptionType::PrivilegedSoftwareException
    } else if code == 6 {
        InterruptionType::SoftwareException
    } else {
        InterruptionType::OtherEvent
    }
}

/// VM-entry/exit interruption-information field (Intel SDM Vol 3C, 26.8.3).
#[derive(Debug, Clone, Copy, PartialEq, Eq, Structural)]
pub struct InterruptionInfo {
    /// Interrupt/exception vector (bits 7:0).
    pub vector: u8,
    /// Interruption type (bits 10:8).
    pub interruption_type: InterruptionType,
    /// Error code valid (bit 11).
    pub error_code_valid: bool,
    /// NMI unblocking due to IRET (bit 12, VM exit only).
    pub nmi_unblocking: bool,
    /// Valid (bit 31).
    pub valid: bool,
}

/// Bit 11 of the interruption information: error code valid.
pub const INTR_INFO_ERROR_CODE_VALID: u32 = 0x800;

/// Bit 12 of the interruption information: NMI unblocking due to IRET.
pub const INTR_INFO_NMI_UNBLOCKING: u32 = 0x1000;

/// Bit 31 of the interruption information: valid.
pub const INTR_INFO_VALID: u32 = 0x8000_0000;

impl InterruptionInfo {
    /// The 32-bit VMCS encoding of this information.
    pub open spec fn spec_encode(self) -> u32 {
        (self.vector as u32) | (self.interruption_type.spec_bits() << 8u32) | (if self.error_code_valid {
            INTR_INFO_ERROR_CODE_VALID
        } else {
            0
        }) | (if self.nmi_unblocking {
            INTR_INFO_NMI_UNBLOCKING
        } else {
            0
        }) | (if self.valid {
            INTR_INFO_VALID
        } else {
            0
        })
    }

    /// The information held by a 32-bit VMCS value; bits 30:13 are ignored.
    pub open spec fn spec_decode(value: u32) -> Self {
        InterruptionInfo {
            vector: (value & 0xFF) as u8,
            interruption_type: spec_interruption_type((value >> 8u32) & 0x7),
            error_code_valid: (value >> 11u32) & 1 != 0,
            nmi_unblocking: (value >> 12u32) & 1 != 0,
            valid: (value >> 31u32) & 1 != 0,
        }
    }

    /// A valid external interrupt with the given vector, for injection.
    pub fn external_interrupt(vector: u8) -> (r: Self)
        ensures
            r == (InterruptionInfo {
                vector,
                interruption_type: InterruptionType::ExternalInterrupt,
                error_code_valid: false,
                nmi_unblocking: false,
                valid: true,
            }),
    {
        Self {
            vector,
            interruption_type: InterruptionType::ExternalInterrupt,
            error_code_valid: false,
            nmi_unblocking: false,
            valid: true,
        }
    }

    /// Encode to the 32-bit VMCS field format.
    pub fn encode(&self) -> (r: u32)
        ensures
            r == self.spec_encode(),
    {
        let mut value = self.vector as u32;
        value = value | (self.interruption_type.bits() << 8);
        if self.error_code_valid {
            value = value | INTR_INFO_ERROR_CODE_VALID;
        }
        if self.nmi_unblocking {
            value = value | INTR_INFO_NMI_UNBLOCKING;
        }
        if self.valid {
            value = value | INTR_INFO_VALID;
        }
        proof {
            let v = self.vector as u32;
            let t = self.interruption_type.spec_bits() << 8u32;
            let e = self.error_code_valid;
            let n = self.nmi_unblocking;
            let a = self.valid;
            assert(value == (v | t | (if e {
                INTR_INFO_ERROR_CODE_VALID
            } else {
                0
            }) | (if n {
                INTR_INFO_NMI_UNBLOCKING
            } else {
                0
            }) | (if a {
                INTR_INFO_VALID
            } else {
                0
            }))) by {
                assert(forall|x: u32| #[trigger] (x | 0u32) == x) by (bit_vector);
            }
        }
        value
    }

    /// Decode a 32-bit VMCS interruption-information value.
    pub fn decode(value: u32) -> (r: Self)
        ensures
            r == Self::spec_decode(value),
    {
        let code = (value >> 8) & 0x7;
        let interruption_type = if code == 0 {
            InterruptionType::ExternalInterrupt
        } else if code == 1 {
            InterruptionType::Reserved
        } else if code == 2 {
            InterruptionType::Nmi
        } else if code == 3 {
            InterruptionType::HardwareException
        } else if code == 4 {
            InterruptionType::SoftwareInterrupt
        } else if code == 5 {
            InterruptionType::PrivilegedSoftwareException
        } else if code == 6 {
            InterruptionType::SoftwareException
        } else {
            InterruptionType::OtherEvent
        };
        Self {
            vector: (value & 0xFF) as u8,
            interruption_type,
            error_code_valid: (value >> 11) & 1 != 0,
            nmi_unblocking: (value >> 12) & 1 != 0,
            valid: (value >> 31) & 1 != 0,
        }
    }
}

/// Bits of a 32-bit interruption-information value that the structure holds:
/// vector, type, error-code valid, NMI unblocking and valid.
pub const INTR_INFO_DEFINED_BITS: u32 = 0x8000_1FFF;

/// Decoding the encoding of an interruption information gives back the same
/// information.
pub proof fn lemma_interruption_info_decode_encode(info: InterruptionInfo)
    ensures
        InterruptionInfo::spec_decode(info.spec_encode()) == info,
{
    let v = info.vector as u32;
    let t = info.interruption_type.spec_bits();
    let e = info.error_code_valid;
    let n = info.nmi_unblocking;
    let a = info.valid;
    let x = info.spec_encode();
    assert(t < 8);
    assert(v < 256);
    assert({
        &&& x & 0xFF == v
        &&& (x >> 8u32) & 0x7 == t
        &&& ((x >> 11u32) & 1 != 0) == e
        &&& ((x >> 12u32) & 1 != 0) == n
        &&& ((x >> 31u32) & 1 != 0) == a
    }) by (bit_vector)
        requires
            v < 256,
            t < 8,
            x == v | (t << 8u32) | (if e {
                0x800u32
            } else {
                0
            }) | (if n {
                0x1000u32
            } else {
                0
            }) | (if a {
                0x8000_0000u32
            } else {
                0
            }),
    ;
    assert(spec_interruption_type(t) == info.interruption_type);
}

/// Encoding the decoding of a 32-bit value gives back the value with the bits
/// the structure does not hold (30:13) cleared.
pub proof fn lemma_interruption_info_encode_decode(value: u32)
    ensures
        InterruptionInfo::spec_decode(value).spec_encode() == value & INTR_INFO_DEFINED_BITS,
{
    let info = InterruptionInfo::spec_decode(value);
    let code = (value >> 8u32) & 0x7;
    assert(code < 8) by (bit_vector)
        requires
            code == (value >> 8u32) & 0x7,
    ;
    assert(info.interruption_type.spec_bits() == code);
    let v = info.vector as u32;
    assert(v == value & 0xFF) by {
        assert(value & 0xFF < 256) by (bit_vector);
    }
    let e = info.error_code_valid;
    let n = info.nmi_unblocking;
    let a = info.valid;
    assert((value & 0xFF) | (((value >> 8u32) & 0x7) << 8u32) | (if e {
        0x800u32
    } else {
        0
    }) | (if n {
        0x1000u32
    } else {
        0
    }) | (if a {
        0x8000_0000u32
    } else {
        0
    }) == value & 0x8000_1FFFu32) by (bit_vector)
        requires
            e == ((value >> 11u32) & 1 != 0),
            n == ((value >> 12u32) & 1 != 0),
            a == ((value >> 31u32) & 1 != 0),
    ;
}

/// Operand size of RDRAND/RDSEED.
#[derive(Debug, Clone, Copy, PartialEq, Eq, Structural)]
pub enum RdrandOperandSize {
    /// 16-bit operand.
    Size16,
    /// 32-bit operand.
    Size32,
    /// 64-bit operand.
    Size64,
}

/// The operand size with the given two-bit code.
pub open spec fn spec_rdrand_operand_size(value: u8) -> Option<RdrandOperandSize> {
    if value == 0 {
        Some(RdrandOperandSize::Size16)
    } else if value == 1 {
        Some(RdrandOperandSize::Size32)
    } else if value == 2 {
        Some(RdrandOperandSize::Size64)
    } else {
        None
    }
}

impl RdrandOperandSize {
    /// The size in bits.
    pub fn bits(&self) -> (r: u8)
        ensures
            r == match *self {
                RdrandOperandSize::Size16 => 16u8,
                RdrandOperandSize::Size32 => 32u8,
                RdrandOperandSize::Size64 => 64u8,
            },
    {
        match self {
            Self::Size16 => 16,
            Self::Size32 => 32,
            Self::Size64 => 64,
        }
    }

    /// The operand size with the given code; `Err` for code 3.
    pub fn try_from_bits(value: u8) -> (r: Result<Self, ()>)
        ensures
            r == match spec_rdrand_operand_size(value) {
                Some(s) => Ok::<RdrandOperandSize, ()>(s),
                None => Err(()),
            },
    {
        match value {
            0 => Ok(Self::Size16),
            1 => Ok(Self::Size32),
            2 => Ok(Self::Size64),
            _ => Err(()),
        }
    }
}

/// RDRAND/RDSEED instruction information (VM-exit instruction-information field).
#[derive(Debug, Clone, Copy)]
pub struct RdrandInstructionInfo {
    /// Destination register index (0=RAX ... 15=R15).
    pub dest_reg: u8,
    /// Operand size.
    pub operand_size: RdrandOperandSize,
}

/// The fields of RDRAND/RDSEED instruction information: register in bits 6:3,
/// operand size in bits 12:11 (code 3 read as 64-bit).
pub open spec fn spec_rdrand_instruction_info(value: u32) -> RdrandInstructionInfo {
    RdrandInstructionInfo {
        dest_reg: ((value >> 3u32) & 0xF) as u8,
        operand_size: match spec_rdrand_operand_size(((value >> 11u32) & 0x3) as u8) {
            Some(s) => s,
            None => RdrandOperandSize::Size64,
        },
    }
}

impl RdrandInstructionInfo {
    /// Parse the VM-exit instruction-information field of RDRAND/RDSEED.
    pub fn from_instruction_info(value: u32) -> (r: Self)
        ensures
            r == spec_rdrand_instruction_info(value),
    {
        let operand_size = match RdrandOperandSize::try_from_bits(((value >> 11) & 0x3) as u8) {
            Ok(s) => s,
            Err(()) => RdrandOperandSize::Size64,
        };
        Self { dest_reg: ((value >> 3) & 0xF) as u8, operand_size }
    }
}

} // verus!
