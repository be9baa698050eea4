//! Register identifiers and their numeric encodings.

use vstd::prelude::*;

verus! {

/// The sixteen architectural registers.
#[derive(Copy, Clone, Debug, PartialEq, Eq, Structural)]
pub enum Reg {
    /// General purpose register 0, also known as a1 (argument 1 register)
    R0,
    /// General purpose register 1, also known as a2 (argument 2 register)
    R1,
    /// General purpose register 2, also known as a3 (argument 3 register)
    R2,
    /// General purpose register 3, also known as a4 (argument 4 register)
    R3,
    /// General purpose register 4, also known as v1 (variable 1 register)
    R4,
    /// General purpose register 5, also known as v2 (variable 2 register)
    R5,
    /// General purpose register 6, also known as v3 (variable 3 register)
    R6,
    /// General purpose register 7, also known as v4 (variable 4 register)
    R7,
    /// General purpose register 8, also known as v5 (variable 5 register)
    R8,
    /// General purpose register 9, also known as v6 or sb (static base)
    R9,
    /// General purpose register 10, also known as v7 (variable 7 register)
    R10,
    /// General purpose register 11, also known as v8 (variable 8 register)
    R11,
    /// General purpose register 12, also known as ip (intra procedure call scratch)
    R12,
    /// Stack pointer, alias for R13
    SP,
    /// Link register, alias for R14
    LR,
    /// Program counter, alias for R15
    PC,
}

/// Special registers addressed by MRS and MSR; several are overlays of the same word.
#[allow(clippy::upper_case_acronyms)]
#[derive(Copy, Clone, Debug, PartialEq, Eq, Structural)]
pub enum SpecialReg {
    /// Application Program Status Register
    APSR,
    /// Interrupt and application status
    IAPSR,
    /// Execution and application status
    EAPSR,
    /// All three status registers together
    XPSR,
    /// Interrupt Program Status Register
    IPSR,
    /// Execution Program Status Register
    EPSR,
    /// Interrupt and execution status
    IEPSR,
    /// Main Stack Pointer
    MSP,
    /// Process Stack Pointer
    PSP,
    /// Priority Mask Register
    PRIMASK,
    /// Fault Mask Register
    FAULTMASK,
    /// CONTROL Register
    CONTROL,
}

impl Reg {
    /// The register number, 0 to 15.
    pub open spec fn spec_value(self) -> usize {
        match self {
            Reg::R0 => 0,
            Reg::R1 => 1,
            Reg::R2 => 2,
            Reg::R3 => 3,
            Reg::R4 => 4,
            Reg::R5 => 5,
            Reg::R6 => 6,
            Reg::R7 => 7,
            Reg::R8 => 8,
            Reg::R9 => 9,
            Reg::R10 => 10,
            Reg::R11 => 11,
            Reg::R12 => 12,
            Reg::SP => 13,
            Reg::LR => 14,
            Reg::PC => 15,
        }
    }

    /// The register with number `n`; `R0` where `n` is no register number.
    pub open spec fn spec_from(n: int) -> Reg {
        if n == 0 {
            Reg::R0
        } else if n == 1 {
            Reg::R1
        } else if n == 2 {
            Reg::R2
        } else if n == 3 {
            Reg::R3
        } else if n == 4 {
            Reg::R4
        } else if n == 5 {
            Reg::R5
        } else if n == 6 {
            Reg::R6
        } else if n == 7 {
            Reg::R7
        } else if n == 8 {
            Reg::R8
        } else if n == 9 {
            Reg::R9
        } else if n == 10 {
            Reg::R10
        } else if n == 11 {
            Reg::R11
        } else if n == 12 {
            Reg::R12
        } else if n == 13 {
            Reg::SP
        } else if n == 14 {
            Reg::LR
        } else if n == 15 {
            Reg::PC
        } else {
            Reg::R0
        }
    }

    /// The assembler name of the register.
    pub open spec fn spec_name(self) -> Seq<char> {
        match self {
            Reg::R0 => "r0"@,
            Reg::R1 => "r1"@,
            Reg::R2 => "r2"@,
            Reg::R3 => "r3"@,
            Reg::R4 => "r4"@,
            Reg::R5 => "r5"@,
            Reg::R6 => "r6"@,
            Reg::R7 => "r7"@,
            Reg::R8 => "r8"@,
            Reg::R9 => "r9"@,
            Reg::R10 => "r10"@,
            Reg::R11 => "r11"@,
            Reg::R12 => "r12"@,
            Reg::SP => "sp"@,
            Reg::LR => "lr"@,
            Reg::PC => "pc"@,
        }
    }

    /// Converts the register to its number, usable as an index.
    pub fn value(self) -> (n: usize)
        ensures
            n == self.spec_value(),
            n < 16,
            Reg::spec_from(n as int) == self,
    {
        match self {
            Reg::R0 => 0,
            Reg::R1 => 1,
            Reg::R2 => 2,
            Reg::R3 => 3,
            Reg::R4 => 4,
            Reg::R5 => 5,
            Reg::R6 => 6,
            Reg::R7 => 7,
            Reg::R8 => 8,
            Reg::R9 => 9,
            Reg::R10 => 10,
            Reg::R11 => 11,
            Reg::R12 => 12,
            Reg::SP => 13,
            Reg::LR => 14,
            Reg::PC => 15,
        }
    }

    /// Converts a number to the register it names, if it names one.
    pub fn from_u16(n: u16) -> (r: Option<Reg>)
        ensures
            n < 16 ==> r == Some(Reg::spec_from(n as int)),
            n >= 16 ==> r is None,
            r matches Some(reg) ==> reg.spec_value() == n,
    {
        match n {
            0 => Some(Reg::R0),
            1 => Some(Reg::R1),
            2 => Some(Reg::R2),
            3 => Some(Reg::R3),
            4 => Some(Reg::R4),
            5 => Some(Reg::R5),
            6 => Some(Reg::R6),
            7 => Some(Reg::R7),
            8 => Some(Reg::R8),
            9 => Some(Reg::R9),
            10 => Some(Reg::R10),
            11 => Some(Reg::R11),
            12 => Some(Reg::R12),
            13 => Some(Reg::SP),
            14 => Some(Reg::LR),
            15 => Some(Reg::PC),
            _ => None,
        }
    }

    /// The assembler name of the register, in lower case.
    pub fn name(self) -> (s: &'static str)
        ensures
            s@ == self.spec_name(),
    {
        match self {
            Reg::R0 => "r0",
            Reg::R1 => "r1",
            Reg::R2 => "r2",
            Reg::R3 => "r3",
            Reg::R4 => "r4",
            Reg::R5 => "r5",
            Reg::R6 => "r6",
            Reg::R7 => "r7",
            Reg::R8 => "r8",
            Reg::R9 => "r9",
            Reg::R10 => "r10",
            Reg::R11 => "r11",
            Reg::R12 => "r12",
            Reg::SP => "sp",
            Reg::LR => "lr",
            Reg::PC => "pc",
        }
    }
}

impl From<u8> for Reg {
    /// The register named by the low four bits of `value`.
    fn from(value: u8) -> (r: Reg) {
        match value & 0xf {
            0 => Reg::R0,
            1 => Reg::R1,
            2 => Reg::R2,
            3 => Reg::R3,
            4 => Reg::R4,
            5 => Reg::R5,
            6 => Reg::R6,
            7 => Reg::R7,
            8 => Reg::R8,
            9 => Reg::R9,
            10 => Reg::R10,
            11 => Reg::R11,
            12 => Reg::R12,
            13 => Reg::SP,
            14 => Reg::LR,
            15 => Reg::PC,
            _ => Reg::R0,
        }
    }
}

impl vstd::std_specs::convert::FromSpecImpl<u8> for Reg {
    open spec fn obeys_from_spec() -> bool {
        true
    }

    open spec fn from_spec(value: u8) -> Reg {
        Reg::spec_from((value & 0xf) as int)
    }
}

impl From<u16> for Reg {
    /// The register named by the low four bits of `value`.
    fn from(value: u16) -> (r: Reg) {
        match value & 0xf {
            0 => Reg::R0,
            1 => Reg::R1,
            2 => Reg::R2,
            3 => Reg::R3,
            4 => Reg::R4,
            5 => Reg::R5,
            6 => Reg::R6,
            7 => Reg::R7,
            8 => Reg::R8,
            9 => Reg::R9,
            10 => Reg::R10,
            11 => Reg::R11,
            12 => Reg::R12,
            13 => Reg::SP,
            14 => Reg::LR,
            15 => Reg::PC,
            _ => Reg::R0,
        }
    }
}

impl vstd::std_specs::convert::FromSpecImpl<u16> for Reg {
    open spec fn obeys_from_spec() -> bool {
        true
    }

    open spec fn from_spec(value: u16) -> Reg {
        Reg::spec_from((value & 0xf) as int)
    }
}

impl From<u32> for Reg {
    /// The register named by the low four bits of `value`.
    fn from(value: u32) -> (r: Reg) {
        match value & 0xf {
            0 => Reg::R0,
            1 => Reg::R1,
            2 => Reg::R2,
            3 => Reg::R3,
            4 => Reg::R4,
            5 => Reg::R5,
            6 => Reg::R6,
            7 => Reg::R7,
            8 => Reg::R8,
            9 => Reg::R9,
            10 => Reg::R10,
            11 => Reg::R11,
            12 => Reg::R12,
            13 => Reg::SP,
            14 => Reg::LR,
            15 => Reg::PC,
            _ => Reg::R0,
        }
    }
}

impl vstd::std_specs::convert::FromSpecImpl<u32> for Reg {
    open spec fn obeys_from_spec() -> bool {
        true
    }

    open spec fn from_spec(value: u32) -> Reg {
        Reg::spec_from((value & 0xf) as int)
    }
}

impl From<Reg> for u8 {
    /// The number of the register.
    fn from(value: Reg) -> (n: u8) {
        match value {
            Reg::R0 => 0,
            Reg::R1 => 1,
            Reg::R2 => 2,
            Reg::R3 => 3,
            Reg::R4 => 4,
            Reg::R5 => 5,
            Reg::R6 => 6,
            Reg::R7 => 7,
            Reg::R8 => 8,
            Reg::R9 => 9,
            Reg::R10 => 10,
            Reg::R11 => 11,
            Reg::R12 => 12,
            Reg::SP => 13,
            Reg::LR => 14,
            Reg::PC => 15,
        }
    }
}

impl vstd::std_specs::convert::FromSpecImpl<Reg> for u8 {
    open spec fn obeys_from_spec() -> bool {
        true
    }

    open spec fn from_spec(value: Reg) -> u8 {
        value.spec_value() as u8
    }
}

impl From<Reg> for usize {
    /// The number of the register.
    fn from(value: Reg) -> (n: usize) {
        match value {
            Reg::R0 => 0,
            Reg::R1 => 1,
            Reg::R2 => 2,
            Reg::R3 => 3,
            Reg::R4 => 4,
            Reg::R5 => 5,
            Reg::R6 => 6,
            Reg::R7 => 7,
            Reg::R8 => 8,
            Reg::R9 => 9,
            Reg::R10 => 10,
            Reg::R11 => 11,
            Reg::R12 => 12,
            Reg::SP => 13,
            Reg::LR => 14,
            Reg::PC => 15,
        }
    }
}

impl vstd::std_specs::convert::FromSpecImpl<Reg> for usize {
    open spec fn obeys_from_spec() -> bool {
        true
    }

    open spec fn from_spec(value: Reg) -> usize {
        value.spec_value() as usize
    }
}

impl SpecialReg {
    /// The special register with SYSm number `n`, if that number is assigned.
    pub open spec fn spec_from(n: int) -> Option<SpecialReg> {
        if n == 0 {
            Some(SpecialReg::APSR)
        } else if n == 1 {
            Some(SpecialReg::IAPSR)
        } else if n == 2 {
            Some(SpecialReg::EAPSR)
        } else if n == 3 {
            Some(SpecialReg::XPSR)
        } else if n == 5 {
            Some(SpecialReg::IPSR)
        } else if n == 6 {
            Some(SpecialReg::EPSR)
        } else if n == 7 {
            Some(SpecialReg::IEPSR)
        } else if n == 8 {
            Some(SpecialReg::MSP)
        } else if n == 9 {
            Some(SpecialReg::PSP)
        } else if n == 16 {
            Some(SpecialReg::PRIMASK)
        } else if n == 20 {
            Some(SpecialReg::CONTROL)
        } else {
            None
        }
    }

    /// The special register that the low five bits of a SYSm field
    /// designate; `APSR` where they designate none.
    pub open spec fn spec_from_sysm(value: u8) -> SpecialReg {
        match SpecialReg::spec_from((value & 0x1f) as int) {
            Some(r) => r,
            None => SpecialReg::APSR,
        }
    }

    /// The name of the special register.
    pub open spec fn spec_name(self) -> Seq<char> {
        match self {
            SpecialReg::APSR => "APSR"@,
            SpecialReg::IAPSR => "IAPSR"@,
            SpecialReg::EAPSR => "EAPSR"@,
            SpecialReg::XPSR => "XPSR"@,
            SpecialReg::IPSR => "IPSR"@,
            SpecialReg::EPSR => "EPSR"@,
            SpecialReg::IEPSR => "IEPSR"@,
            SpecialReg::MSP => "MSP"@,
            SpecialReg::PSP => "PSP"@,
            SpecialReg::PRIMASK => "PRIMASK"@,
            SpecialReg::FAULTMASK => "FAULTMASK"@,
            SpecialReg::CONTROL => "CONTROL"@,
        }
    }

    /// Decodes a SYSm number to the special register it designates.
    pub fn from_u16(n: u16) -> (r: Option<SpecialReg>)
        ensures
            r == SpecialReg::spec_from(n as int),
    {
        match n {
            0 => Some(SpecialReg::APSR),
            1 => Some(SpecialReg::IAPSR),
            2 => Some(SpecialReg::EAPSR),
            3 => Some(SpecialReg::XPSR),
            5 => Some(SpecialReg::IPSR),
            6 => Some(SpecialReg::EPSR),
            7 => Some(SpecialReg::IEPSR),
            8 => Some(SpecialReg::MSP),
            9 => Some(SpecialReg::PSP),
            16 => Some(SpecialReg::PRIMASK),
            20 => Some(SpecialReg::CONTROL),
            _ => None,
        }
    }

    /// The name of the special register, in upper case.
    pub fn name(self) -> (s: &'static str)
        ensures
            s@ == self.spec_name(),
    {
        match self {
            SpecialReg::APSR => "APSR",
            SpecialReg::IAPSR => "IAPSR",
            SpecialReg::EAPSR => "EAPSR",
            SpecialReg::XPSR => "XPSR",
            SpecialReg::IPSR => "IPSR",
            SpecialReg::EPSR => "EPSR",
            SpecialReg::IEPSR => "IEPSR",
            SpecialReg::MSP => "MSP",
            SpecialReg::PSP => "PSP",
            SpecialReg::PRIMASK => "PRIMASK",
            SpecialReg::FAULTMASK => "FAULTMASK",
            SpecialReg::CONTROL => "CONTROL",
        }
    }
}

impl From<u8> for SpecialReg {
    /// The special register designated by the low five bits of `value`; `APSR`
    /// where they designate none.
    fn from(value: u8) -> (r: SpecialReg) {
        match value & 0x1f {
            0 => SpecialReg::APSR,
            1 => SpecialReg::IAPSR,
            2 => SpecialReg::EAPSR,
            3 => SpecialReg::XPSR,
            5 => SpecialReg::IPSR,
            6 => SpecialReg::EPSR,
            7 => SpecialReg::IEPSR,
            8 => SpecialReg::MSP,
            9 => SpecialReg::PSP,
            16 => SpecialReg::PRIMASK,
            20 => SpecialReg::CONTROL,
            _ => SpecialReg::APSR,
        }
    }
}

impl vstd::std_specs::convert::FromSpecImpl<u8> for SpecialReg {
    open spec fn obeys_from_spec() -> bool {
        true
    }

    open spec fn from_spec(value: u8) -> SpecialReg {
        SpecialReg::spec_from_sysm(value)
    }
}

} // verus!
