//! General-purpose registers.
use vstd::prelude::*;

verus! {

/// The general-purpose registers of a guest, in encoding order of the
/// ModR/M register field (0=RAX, 1=RCX, 2=RDX, 3=RBX, 4=RSP, 5=RBP, 6=RSI,
/// 7=RDI, 8-15=R8-R15).
#[derive(Clone, Copy, Debug, Default, PartialEq, Eq, Structural)]
pub struct GeneralPurposeRegisters {
    pub rax: u64,
    pub rcx: u64,
    pub rdx: u64,
    pub rbx: u64,
    pub rsp: u64,
    pub rbp: u64,
    pub rsi: u64,
    pub rdi: u64,
    pub r8: u64,
    pub r9: u64,
    pub r10: u64,
    pub r11: u64,
    pub r12: u64,
    pub r13: u64,
    pub r14: u64,
    pub r15: u64,
}

impl GeneralPurposeRegisters {
    /// All registers zero.
    pub fn zeroed() -> (r: Self)
        ensures
            r == Self::spec_zeroed(),
    {
        Self {
            rax: 0,
            rcx: 0,
            rdx: 0,
            rbx: 0,
            rsp: 0,
            rbp: 0,
            rsi: 0,
            rdi: 0,
            r8: 0,
            r9: 0,
            r10: 0,
            r11: 0,
            r12: 0,
            r13: 0,
            r14: 0,
            r15: 0,
        }
    }

    pub open spec fn spec_zeroed() -> Self {
        Self {
            rax: 0,
            rcx: 0,
            rdx: 0,
            rbx: 0,
            rsp: 0,
            rbp: 0,
            rsi: 0,
            rdi: 0,
            r8: 0,
            r9: 0,
            r10: 0,
            r11: 0,
            r12: 0,
            r13: 0,
            r14: 0,
            r15: 0,
        }
    }

    /// The register with the given encoding index; indices above 15 read as 0.
    pub open spec fn spec_get(self, index: u8) -> u64 {
        if index == 0 {
            self.rax
        } else if index == 1 {
            self.rcx
        } else if index == 2 {
            self.rdx
        } else if index == 3 {
            self.rbx
        } else if index == 4 {
            self.rsp
        } else if index == 5 {
            self.rbp
        } else if index == 6 {
            self.rsi
        } else if index == 7 {
            self.rdi
        } else if index == 8 {
            self.r8
        } else if index == 9 {
            self.r9
        } else if index == 10 {
            self.r10
        } else if index == 11 {
            self.r11
        } else if index == 12 {
            self.r12
        } else if index == 13 {
            self.r13
        } else if index == 14 {
            self.r14
        } else if index == 15 {
            self.r15
        } else {
            0
        }
    }

    /// The registers with the one of encoding `index` replaced by `value`;
    /// unchanged when `index` is above 15.
    pub open spec fn spec_set(self, index: u8, value: u64) -> Self {
        if index == 0 {
            Self { rax: value, ..self }
        } else if index == 1 {
            Self { rcx: value, ..self }
        } else if index == 2 {
            Self { rdx: value, ..self }
        } else if index == 3 {
            Self { rbx: value, ..self }
        } else if index == 4 {
            Self { rsp: value, ..self }
        } else if index == 5 {
            Self { rbp: value, ..self }
        } else if index == 6 {
            Self { rsi: value, ..self }
        } else if index == 7 {
            Self { rdi: value, ..self }
        } else if index == 8 {
            Self { r8: value, ..self }
        } else if index == 9 {
            Self { r9: value, ..self }
        } else if index == 10 {
            Self { r10: value, ..self }
        } else if index == 11 {
            Self { r11: value, ..self }
        } else if index == 12 {
            Self { r12: value, ..self }
        } else if index == 13 {
            Self { r13: value, ..self }
        } else if index == 14 {
            Self { r14: value, ..self }
        } else if index == 15 {
            Self { r15: value, ..self }
        } else {
            self
        }
    }
}

} // verus!
