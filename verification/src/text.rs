//! Building the text that instructions are rendered as.

use crate::condition::Condition;
use crate::executor::listed;
use crate::executor::spec_listed;
use crate::executor::spec_listed_below;
use crate::register::Reg;
use crate::register::SpecialReg;
use vstd::prelude::*;

verus! {

/// Calls `String::push_str`, which appends the string slice to the end of
/// the string.
#[verifier::external_body]
pub(crate) fn append(text: &mut String, piece: &str)
    ensures
        final(text)@ == old(text)@ + piece@,
{
    text.push_str(piece);
}

/// The digit `d` as text.
pub open spec fn spec_digit(d: nat) -> Seq<char> {
    if d == 0 {
        "0"@
    } else if d == 1 {
        "1"@
    } else if d == 2 {
        "2"@
    } else if d == 3 {
        "3"@
    } else if d == 4 {
        "4"@
    } else if d == 5 {
        "5"@
    } else if d == 6 {
        "6"@
    } else if d == 7 {
        "7"@
    } else if d == 8 {
        "8"@
    } else {
        "9"@
    }
}

/// The decimal digits of `n`, without leading zeros.
pub open spec fn spec_decimal(n: nat) -> Seq<char>
    decreases n,
{
    if n < 10 {
        spec_digit(n)
    } else {
        spec_decimal(n / 10) + spec_digit(n % 10)
    }
}

/// The decimal digits of `i`, with a minus sign where it is negative.
pub open spec fn spec_signed_decimal(i: int) -> Seq<char> {
    if i < 0 {
        "-"@ + spec_decimal((-i) as nat)
    } else {
        spec_decimal(i as nat)
    }
}

/// The suffix of a mnemonic that sets the flags.
pub open spec fn spec_flag_suffix(setflags: bool) -> Seq<char> {
    if setflags {
        "S"@
    } else {
        Seq::empty()
    }
}

/// The names of the listed registers below `upto`, separated by commas.
pub open spec fn spec_register_names(registers: u16, upto: nat) -> Seq<char>
    decreases upto,
{
    if upto == 0 {
        Seq::empty()
    } else {
        let below = spec_register_names(registers, (upto - 1) as nat);
        if spec_listed(registers, (upto - 1) as nat) {
            if spec_listed_below(registers, (upto - 1) as nat) > 0 {
                below + ", "@ + Reg::spec_from(upto - 1).spec_name()
            } else {
                below + Reg::spec_from(upto - 1).spec_name()
            }
        } else {
            below
        }
    }
}

/// A register list in braces.
pub open spec fn spec_register_list(registers: u16) -> Seq<char> {
    "{"@ + spec_register_names(registers, 16) + "}"@
}

/// A mnemonic alone.
pub open spec fn spec_bare(mnemonic: Seq<char>) -> Seq<char> {
    mnemonic
}

/// A mnemonic and one register.
pub open spec fn spec_one_reg(mnemonic: Seq<char>, a: Reg) -> Seq<char> {
    mnemonic + " "@ + a.spec_name()
}

/// A mnemonic and two registers.
pub open spec fn spec_two_regs(mnemonic: Seq<char>, setflags: bool, a: Reg, b: Reg) -> Seq<char> {
    mnemonic + spec_flag_suffix(setflags) + " "@ + a.spec_name() + ", "@ + b.spec_name()
}

/// A mnemonic and three registers.
pub open spec fn spec_three_regs(mnemonic: Seq<char>, setflags: bool, a: Reg, b: Reg, c: Reg) -> Seq<
    char,
> {
    spec_two_regs(mnemonic, setflags, a, b) + ", "@ + c.spec_name()
}

/// A mnemonic and four registers.
pub open spec fn spec_four_regs(mnemonic: Seq<char>, a: Reg, b: Reg, c: Reg, d: Reg) -> Seq<char> {
    spec_three_regs(mnemonic, false, a, b, c) + ", "@ + d.spec_name()
}

/// A mnemonic and an immediate.
pub open spec fn spec_immediate(mnemonic: Seq<char>, imm: u32) -> Seq<char> {
    mnemonic + " #"@ + spec_decimal(imm as nat)
}

/// A mnemonic, a register and an immediate.
pub open spec fn spec_reg_imm(mnemonic: Seq<char>, setflags: bool, a: Reg, imm: u32) -> Seq<char> {
    mnemonic + spec_flag_suffix(setflags) + " "@ + a.spec_name() + ", #"@ + spec_decimal(imm as nat)
}

/// A mnemonic, two registers and an immediate.
pub open spec fn spec_two_regs_imm(
    mnemonic: Seq<char>,
    setflags: bool,
    a: Reg,
    b: Reg,
    imm: u32,
) -> Seq<char> {
    spec_two_regs(mnemonic, setflags, a, b) + ", #"@ + spec_decimal(imm as nat)
}

/// A load or store with an immediate offset.
pub open spec fn spec_mem_imm(mnemonic: Seq<char>, rt: Reg, rn: Reg, imm: u32) -> Seq<char> {
    mnemonic + " "@ + rt.spec_name() + ", ["@ + rn.spec_name() + ", #"@ + spec_decimal(imm as nat)
        + "]"@
}

/// A load or store with a register offset.
pub open spec fn spec_mem_reg(mnemonic: Seq<char>, rt: Reg, rn: Reg, rm: Reg) -> Seq<char> {
    mnemonic + " "@ + rt.spec_name() + ", ["@ + rn.spec_name() + ", "@ + rm.spec_name() + "]"@
}

/// A branch with its condition and its offset in bytes.
pub open spec fn spec_branch(mnemonic: Seq<char>, cond: Condition, offset: i32) -> Seq<char> {
    mnemonic + cond.spec_name() + " "@ + spec_signed_decimal(offset as int)
}

/// A mnemonic and a register list.
pub open spec fn spec_reg_list(mnemonic: Seq<char>, registers: u16) -> Seq<char> {
    mnemonic + " "@ + spec_register_list(registers)
}

/// A mnemonic, a base register and a register list.
pub open spec fn spec_base_list(mnemonic: Seq<char>, rn: Reg, registers: u16) -> Seq<char> {
    mnemonic + " "@ + rn.spec_name() + ", "@ + spec_register_list(registers)
}

/// A move from a special register.
pub open spec fn spec_from_special(mnemonic: Seq<char>, rd: Reg, spec_reg: SpecialReg) -> Seq<char> {
    mnemonic + " "@ + rd.spec_name() + ", "@ + spec_reg.spec_name()
}

/// A move to a special register.
pub open spec fn spec_to_special(mnemonic: Seq<char>, spec_reg: SpecialReg, rn: Reg) -> Seq<char> {
    mnemonic + " "@ + spec_reg.spec_name() + ", "@ + rn.spec_name()
}

fn digit(d: u32) -> (s: &'static str)
    requires
        d < 10,
    ensures
        s@ == spec_digit(d as nat),
{
    match d {
        0 => "0",
        1 => "1",
        2 => "2",
        3 => "3",
        4 => "4",
        5 => "5",
        6 => "6",
        7 => "7",
        8 => "8",
        _ => "9",
    }
}

/// Appends the decimal digits of `n`.
pub fn append_decimal(text: &mut String, n: u32)
    ensures
        final(text)@ == old(text)@ + spec_decimal(n as nat),
    decreases n,
{
    if n >= 10 {
        append_decimal(text, n / 10);
    }
    append(text, digit(n % 10));
    proof {
        assert(text@ =~= old(text)@ + spec_decimal(n as nat));
    }
}

/// Appends the decimal digits of `i`, with a minus sign where it is negative.
pub fn append_signed_decimal(text: &mut String, i: i32)
    ensures
        final(text)@ == old(text)@ + spec_signed_decimal(i as int),
{
    if i < 0 {
        append(text, "-");
        let magnitude: u32 = (-(i as i64)) as u32;
        append_decimal(text, magnitude);
    } else {
        append_decimal(text, i as u32);
    }
    proof {
        assert(text@ =~= old(text)@ + spec_signed_decimal(i as int));
    }
}

fn append_flag_suffix(text: &mut String, setflags: bool)
    ensures
        final(text)@ == old(text)@ + spec_flag_suffix(setflags),
{
    if setflags {
        append(text, "S");
    }
    proof {
        assert(text@ =~= old(text)@ + spec_flag_suffix(setflags));
    }
}

/// Appends a register list in braces.
pub fn append_register_list(text: &mut String, registers: u16)
    ensures
        final(text)@ == old(text)@ + spec_register_list(registers),
{
    append(text, "{");
    let mut any: bool = false;
    let mut i: u16 = 0;
    while i < 16
        invariant
            i <= 16,
            any == (spec_listed_below(registers, i as nat) > 0),
            text@ == old(text)@ + "{"@ + spec_register_names(registers, i as nat),
        decreases 16 - i,
    {
        let ghost before = text@;
        if listed(registers, i) {
            match Reg::from_u16(i) {
                Some(r) => {
                    if any {
                        append(text, ", ");
                    }
                    append(text, r.name());
                },
                None => {},
            }
            any = true;
        }
        proof {
            assert(text@ =~= old(text)@ + "{"@ + spec_register_names(registers, (i + 1) as nat));
        }
        i = i + 1;
    }
    append(text, "}");
    proof {
        assert(text@ =~= old(text)@ + spec_register_list(registers));
    }
}

/// Renders a mnemonic alone.
pub fn bare(mnemonic: &str) -> (text: String)
    ensures
        text@ == spec_bare(mnemonic@),
{
    let mut text = String::new();
    append(&mut text, mnemonic);
    proof {
        assert(text@ =~= spec_bare(mnemonic@));
    }
    text
}

/// Renders a mnemonic and one register.
pub fn one_reg(mnemonic: &str, a: Reg) -> (text: String)
    ensures
        text@ == spec_one_reg(mnemonic@, a),
{
    let mut text = bare(mnemonic);
    append(&mut text, " ");
    append(&mut text, a.name());
    text
}

/// Renders a mnemonic and two registers.
pub fn two_regs(mnemonic: &str, setflags: bool, a: Reg, b: Reg) -> (text: String)
    ensures
        text@ == spec_two_regs(mnemonic@, setflags, a, b),
{
    let mut text = bare(mnemonic);
    append_flag_suffix(&mut text, setflags);
    append(&mut text, " ");
    append(&mut text, a.name());
    append(&mut text, ", ");
    append(&mut text, b.name());
    text
}

/// Renders a mnemonic and three registers.
pub fn three_regs(mnemonic: &str, setflags: bool, a: Reg, b: Reg, c: Reg) -> (text: String)
    ensures
        text@ == spec_three_regs(mnemonic@, setflags, a, b, c),
{
    let mut text = two_regs(mnemonic, setflags, a, b);
    append(&mut text, ", ");
    append(&mut text, c.name());
    text
}

/// Renders a mnemonic and four registers.
pub fn four_regs(mnemonic: &str, a: Reg, b: Reg, c: Reg, d: Reg) -> (text: String)
    ensures
        text@ == spec_four_regs(mnemonic@, a, b, c, d),
{
    let mut text = three_regs(mnemonic, false, a, b, c);
    append(&mut text, ", ");
    append(&mut text, d.name());
    text
}

/// Renders a mnemonic and an immediate.
pub fn immediate(mnemonic: &str, imm: u32) -> (text: String)
    ensures
        text@ == spec_immediate(mnemonic@, imm),
{
    let mut text = bare(mnemonic);
    append(&mut text, " #");
    append_decimal(&mut text, imm);
    text
}

/// Renders a mnemonic, a register and an immediate.
pub fn reg_imm(mnemonic: &str, setflags: bool, a: Reg, imm: u32) -> (text: String)
    ensures
        text@ == spec_reg_imm(mnemonic@, setflags, a, imm),
{
    let mut text = bare(mnemonic);
    append_flag_suffix(&mut text, setflags);
    append(&mut text, " ");
    append(&mut text, a.name());
    append(&mut text, ", #");
    append_decimal(&mut text, imm);
    text
}

/// Renders a mnemonic, two registers and an immediate.
pub fn two_regs_imm(mnemonic: &str, setflags: bool, a: Reg, b: Reg, imm: u32) -> (text: String)
    ensures
        text@ == spec_two_regs_imm(mnemonic@, setflags, a, b, imm),
{
    let mut text = two_regs(mnemonic, setflags, a, b);
    append(&mut text, ", #");
    append_decimal(&mut text, imm);
    text
}

/// Renders a load or store with an immediate offset.
pub fn mem_imm(mnemonic: &str, rt: Reg, rn: Reg, imm: u32) -> (text: String)
    ensures
        text@ == spec_mem_imm(mnemonic@, rt, rn, imm),
{
    let mut text = bare(mnemonic);
    append(&mut text, " ");
    append(&mut text, rt.name());
    append(&mut text, ", [");
    append(&mut text, rn.name());
    append(&mut text, ", #");
    append_decimal(&mut text, imm);
    append(&mut text, "]");
    text
}

/// Renders a load or store with a register offset.
pub fn mem_reg(mnemonic: &str, rt: Reg, rn: Reg, rm: Reg) -> (text: String)
    ensures
        text@ == spec_mem_reg(mnemonic@, rt, rn, rm),
{
    let mut text = bare(mnemonic);
    append(&mut text, " ");
    append(&mut text, rt.name());
    append(&mut text, ", [");
    append(&mut text, rn.name());
    append(&mut text, ", ");
    append(&mut text, rm.name());
    append(&mut text, "]");
    text
}

/// Renders a branch with its condition and its offset in bytes.
pub fn branch(mnemonic: &str, cond: Condition, offset: i32) -> (text: String)
    ensures
        text@ == spec_branch(mnemonic@, cond, offset),
{
    let mut text = bare(mnemonic);
    append(&mut text, cond.name());
    append(&mut text, " ");
    append_signed_decimal(&mut text, offset);
    text
}

/// Renders a mnemonic and a register list.
pub fn reg_list(mnemonic: &str, registers: u16) -> (text: String)
    ensures
        text@ == spec_reg_list(mnemonic@, registers),
{
    let mut text = bare(mnemonic);
    append(&mut text, " ");
    append_register_list(&mut text, registers);
    text
}

/// Renders a mnemonic, a base register and a register list.
pub fn base_list(mnemonic: &str, rn: Reg, registers: u16) -> (text: String)
    ensures
        text@ == spec_base_list(mnemonic@, rn, registers),
{
    let mut text = bare(mnemonic);
    append(&mut text, " ");
    append(&mut text, rn.name());
    append(&mut text, ", ");
    append_register_list(&mut text, registers);
    text
}

/// Renders a move from a special register.
pub fn from_special(mnemonic: &str, rd: Reg, spec_reg: SpecialReg) -> (text: String)
    ensures
        text@ == spec_from_special(mnemonic@, rd, spec_reg),
{
    let mut text = bare(mnemonic);
    append(&mut text, " ");
    append(&mut text, rd.name());
    append(&mut text, ", ");
    append(&mut text, spec_reg.name());
    text
}

/// Renders a move to a special register.
pub fn to_special(mnemonic: &str, spec_reg: SpecialReg, rn: Reg) -> (text: String)
    ensures
        text@ == spec_to_special(mnemonic@, spec_reg, rn),
{
    let mut text = bare(mnemonic);
    append(&mut text, " ");
    append(&mut text, spec_reg.name());
    append(&mut text, ", ");
    append(&mut text, rn.name());
    text
}

} // verus!
