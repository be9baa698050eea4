//! Condition codes of conditional branches.

use crate::psr::Apsr;
use crate::psr::PSR;
use crate::psr::PSR_C;
use crate::psr::PSR_N;
use crate::psr::PSR_V;
use crate::psr::PSR_Z;
use vstd::prelude::*;

verus! {

/// The sixteen condition encodings.
#[allow(clippy::upper_case_acronyms)]
#[derive(Copy, Clone, Debug, PartialEq, Eq, Structural)]
pub enum Condition {
    /// Equal: Z set
    EQ,
    /// Not equal: Z clear
    NE,
    /// Carry set, unsigned higher or same
    CS,
    /// Carry clear, unsigned lower
    CC,
    /// Minus: N set
    MI,
    /// Plus: N clear
    PL,
    /// Overflow: V set
    VS,
    /// No overflow: V clear
    VC,
    /// Unsigned higher: C set and Z clear
    HI,
    /// Unsigned lower or same: C clear or Z set
    LS,
    /// Signed greater or equal: N equals V
    GE,
    /// Signed less: N differs from V
    LT,
    /// Signed greater: Z clear and N equals V
    GT,
    /// Signed less or equal: Z set or N differs from V
    LE,
    /// Always
    AL,
    /// The sixteenth encoding, which also always passes
    UNCOND,
}

impl Condition {
    /// The four-bit encoding of the condition.
    pub open spec fn spec_value(self) -> usize {
        match self {
            Condition::EQ => 0,
            Condition::NE => 1,
            Condition::CS => 2,
            Condition::CC => 3,
            Condition::MI => 4,
            Condition::PL => 5,
            Condition::VS => 6,
            Condition::VC => 7,
            Condition::HI => 8,
            Condition::LS => 9,
            Condition::GE => 10,
            Condition::LT => 11,
            Condition::GT => 12,
            Condition::LE => 13,
            Condition::AL => 14,
            Condition::UNCOND => 15,
        }
    }

    /// The condition with encoding `n`; `EQ` where `n` encodes none.
    pub open spec fn spec_from(n: int) -> Condition {
        if n == 0 {
            Condition::EQ
        }         else if n == 1 {
            Condition::NE
        }         else if n == 2 {
            Condition::CS
        }         else if n == 3 {
            Condition::CC
        }         else if n == 4 {
            Condition::MI
        }         else if n == 5 {
            Condition::PL
        }         else if n == 6 {
            Condition::VS
        }         else if n == 7 {
            Condition::VC
        }         else if n == 8 {
            Condition::HI
        }         else if n == 9 {
            Condition::LS
        }         else if n == 10 {
            Condition::GE
        }         else if n == 11 {
            Condition::LT
        }         else if n == 12 {
            Condition::GT
        }         else if n == 13 {
            Condition::LE
        }         else if n == 14 {
            Condition::AL
        }         else if n == 15 {
            Condition::UNCOND
        } else {
            Condition::EQ
        }
    }

    /// The suffix that the condition adds to a mnemonic.
    pub open spec fn spec_name(self) -> Seq<char> {
        match self {
            Condition::EQ => "eq"@,
            Condition::NE => "ne"@,
            Condition::CS => "cs"@,
            Condition::CC => "cc"@,
            Condition::MI => "mi"@,
            Condition::PL => "pl"@,
            Condition::VS => "vs"@,
            Condition::VC => "vc"@,
            Condition::HI => "hi"@,
            Condition::LS => "ls"@,
            Condition::GE => "ge"@,
            Condition::LT => "lt"@,
            Condition::GT => "gt"@,
            Condition::LE => "le"@,
            Condition::AL => ""@,
            Condition::UNCOND => "nv"@,
        }
    }

    /// The four-bit encoding of the condition.
    pub fn value(self) -> (n: usize)
        ensures
            n == self.spec_value(),
            n < 16,
            Condition::spec_from(n as int) == self,
    {
        match self {
            Condition::EQ => 0,
            Condition::NE => 1,
            Condition::CS => 2,
            Condition::CC => 3,
            Condition::MI => 4,
            Condition::PL => 5,
            Condition::VS => 6,
            Condition::VC => 7,
            Condition::HI => 8,
            Condition::LS => 9,
            Condition::GE => 10,
            Condition::LT => 11,
            Condition::GT => 12,
            Condition::LE => 13,
            Condition::AL => 14,
            Condition::UNCOND => 15,
        }
    }

    /// Decodes a four-bit condition field.
    pub fn from_u16(n: u16) -> (c: Option<Condition>)
        ensures
            n < 16 ==> c == Some(Condition::spec_from(n as int)),
            n >= 16 ==> c is None,
            c matches Some(cond) ==> cond.spec_value() == n,
    {
        match n {
            0 => Some(Condition::EQ),
            1 => Some(Condition::NE),
            2 => Some(Condition::CS),
            3 => Some(Condition::CC),
            4 => Some(Condition::MI),
            5 => Some(Condition::PL),
            6 => Some(Condition::VS),
            7 => Some(Condition::VC),
            8 => Some(Condition::HI),
            9 => Some(Condition::LS),
            10 => Some(Condition::GE),
            11 => Some(Condition::LT),
            12 => Some(Condition::GT),
            13 => Some(Condition::LE),
            14 => Some(Condition::AL),
            15 => Some(Condition::UNCOND),
            _ => None,
        }
    }

    /// The suffix that the condition adds to a mnemonic, in lower case.
    pub fn name(self) -> (s: &'static str)
        ensures
            s@ == self.spec_name(),
    {
        match self {
            Condition::EQ => "eq",
            Condition::NE => "ne",
            Condition::CS => "cs",
            Condition::CC => "cc",
            Condition::MI => "mi",
            Condition::PL => "pl",
            Condition::VS => "vs",
            Condition::VC => "vc",
            Condition::HI => "hi",
            Condition::LS => "ls",
            Condition::GE => "ge",
            Condition::LT => "lt",
            Condition::GT => "gt",
            Condition::LE => "le",
            Condition::AL => "",
            Condition::UNCOND => "nv",
        }
    }
}

/// Whether `condition` holds for the flags N, Z, C and V.
pub open spec fn spec_condition_holds(condition: Condition, n: bool, z: bool, c: bool, v: bool) -> bool {
    match condition {
        Condition::EQ => z,
        Condition::NE => !z,
        Condition::CS => c,
        Condition::CC => !c,
        Condition::MI => n,
        Condition::PL => !n,
        Condition::VS => v,
        Condition::VC => !v,
        Condition::HI => c && !z,
        Condition::LS => !c || z,
        Condition::GE => n == v,
        Condition::LT => n != v,
        Condition::GT => !z && n == v,
        Condition::LE => z || n != v,
        Condition::AL => true,
        Condition::UNCOND => true,
    }
}

/// Whether `condition` holds for the flags held in `psr`.
pub open spec fn spec_condition_passed(condition: Condition, psr: PSR) -> bool {
    spec_condition_holds(
        condition,
        psr.flag(PSR_N as nat),
        psr.flag(PSR_Z as nat),
        psr.flag(PSR_C as nat),
        psr.flag(PSR_V as nat),
    )
}

/// Evaluates a condition code against the N, Z, C and V flags.
pub fn condition_passed(condition: Condition, psr: &PSR) -> (passed: bool)
    ensures
        passed == spec_condition_passed(condition, *psr),
{
    match condition {
        Condition::EQ => psr.get_z(),
        Condition::NE => !psr.get_z(),
        Condition::CS => psr.get_c(),
        Condition::CC => !psr.get_c(),
        Condition::MI => psr.get_n(),
        Condition::PL => !psr.get_n(),
        Condition::VS => psr.get_v(),
        Condition::VC => !psr.get_v(),
        Condition::HI => psr.get_c() && !psr.get_z(),
        Condition::LS => !psr.get_c() || psr.get_z(),
        Condition::GE => psr.get_n() == psr.get_v(),
        Condition::LT => psr.get_n() != psr.get_v(),
        Condition::GT => !psr.get_z() && psr.get_n() == psr.get_v(),
        Condition::LE => psr.get_z() || psr.get_n() != psr.get_v(),
        Condition::AL => true,
        Condition::UNCOND => true,
    }
}

/// A condition whose encoding differs from another's only in bit 0 holds
/// exactly when the other fails, except for the two that always hold.
pub proof fn lemma_condition_pairs(code: int, n: bool, z: bool, c: bool, v: bool)
    requires
        0 <= code < 14,
        code % 2 == 0,
    ensures
        spec_condition_holds(Condition::spec_from(code + 1), n, z, c, v) == !spec_condition_holds(
            Condition::spec_from(code),
            n,
            z,
            c,
            v,
        ),
{
}

} // verus!
