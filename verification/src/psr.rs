//! The program status register and the CONTROL register.
//!
//! One 32-bit word holds the application flags (APSR), the active exception
//! number (IPSR) and the execution state (EPSR).

use crate::bits::get_bit;
use crate::bits::get_bits;
use crate::bits::lemma_with_bit;
use crate::bits::lemma_with_bits_frame;
use crate::bits::lemma_with_bits_read_back;
use crate::bits::set_bit;
use crate::bits::set_bits;
use crate::bits::spec_bit;
use crate::bits::spec_bits;
use crate::bits::spec_low_mask;
use crate::bits::spec_with_bit;
use crate::bits::spec_with_bits;
use vstd::prelude::*;

verus! {

/// Position of the negative flag.
pub const PSR_N: usize = 31;

/// Position of the zero flag.
pub const PSR_Z: usize = 30;

/// Position of the carry flag.
pub const PSR_C: usize = 29;

/// Position of the overflow flag.
pub const PSR_V: usize = 28;

/// Position of the saturation flag.
pub const PSR_Q: usize = 27;

/// Position of the Thumb state bit.
pub const PSR_T: usize = 24;

/// Position of the first of the four greater-or-equal flags.
pub const PSR_GE0: usize = 16;

/// The architecture profile that a simulation instance models.
#[derive(Copy, Clone, Debug, PartialEq, Eq, Structural)]
pub enum Profile {
    /// Armv6-M: the exception number has 6 bits.
    ArmV6M,
    /// Armv7-M: the exception number has 9 bits.
    ArmV7M,
    /// Armv7E-M: the exception number has 9 bits.
    ArmV7EM,
}

impl Profile {
    /// Width in bits of the exception number field.
    pub open spec fn spec_isr_bits(self) -> nat {
        match self {
            Profile::ArmV6M => 6,
            Profile::ArmV7M => 9,
            Profile::ArmV7EM => 9,
        }
    }

    /// Width in bits of the exception number field.
    pub fn isr_bits(self) -> (width: usize)
        ensures
            width == self.spec_isr_bits(),
    {
        match self {
            Profile::ArmV6M => 6,
            Profile::ArmV7M => 9,
            Profile::ArmV7EM => 9,
        }
    }
}

/// Processor status: APSR, IPSR and EPSR packed in one word.
#[allow(clippy::upper_case_acronyms)]
#[derive(Copy, Clone, Debug, PartialEq, Eq, Structural)]
pub struct PSR {
    /// Raw register content.
    pub value: u32,
    /// Profile that fixes the width of the exception number field.
    pub profile: Profile,
}

impl PSR {
    /// The flag at bit position `bit`.
    pub open spec fn flag(self, bit: nat) -> bool {
        spec_bit(self.value, bit)
    }

    /// This register with the flag at `bit` replaced.
    pub open spec fn with_flag(self, bit: nat, set: bool) -> PSR {
        PSR { value: spec_with_bit(self.value, bit, set), profile: self.profile }
    }

    /// The active exception number.
    pub open spec fn isr_number(self) -> nat {
        spec_bits(self.value, 0, self.profile.spec_isr_bits()) as nat
    }

    /// This register with the active exception number replaced by the low
    /// bits of `number`.
    pub open spec fn with_isr_number(self, number: u32) -> PSR {
        PSR {
            value: spec_with_bits(self.value, 0, self.profile.spec_isr_bits(), number),
            profile: self.profile,
        }
    }

    /// This register with N and Z taken from `result`.
    pub open spec fn with_nz(self, result: u32) -> PSR {
        self.with_flag(PSR_N as nat, spec_bit(result, 31)).with_flag(PSR_Z as nat, result == 0)
    }

    /// This register with N and Z taken from `result` and C replaced.
    pub open spec fn with_nzc(self, result: u32, carry: bool) -> PSR {
        self.with_nz(result).with_flag(PSR_C as nat, carry)
    }

    /// This register with N and Z taken from `result` and C and V replaced.
    pub open spec fn with_nzcv(self, result: u32, carry: bool, overflow: bool) -> PSR {
        self.with_nzc(result, carry).with_flag(PSR_V as nat, overflow)
    }

    /// This register with N and Z taken from `result`.
    pub fn updated_nz(self, result: u32) -> (psr: PSR)
        ensures
            psr == self.with_nz(result),
    {
        let mut psr = self;
        psr.set_n(result);
        psr.set_z(result);
        psr
    }

    /// This register with N and Z taken from `result` and C replaced.
    pub fn updated_nzc(self, result: u32, carry: bool) -> (psr: PSR)
        ensures
            psr == self.with_nzc(result, carry),
    {
        let mut psr = self.updated_nz(result);
        psr.set_c(carry);
        psr
    }

    /// This register with N and Z taken from `result` and C and V replaced.
    pub fn updated_nzcv(self, result: u32, carry: bool, overflow: bool) -> (psr: PSR)
        ensures
            psr == self.with_nzcv(result, carry, overflow),
    {
        let mut psr = self.updated_nzc(result, carry);
        psr.set_v(overflow);
        psr
    }

    /// A status register with every bit clear.
    pub fn new(profile: Profile) -> (psr: PSR)
        ensures
            psr.value == 0,
            psr.profile == profile,
    {
        PSR { value: 0, profile }
    }
}

/// Access to the Application Program Status Register.
pub trait Apsr {
    /// Negative flag.
    fn get_n(&self) -> bool;

    /// Sets the negative flag to bit 31 of `result`.
    fn set_n(&mut self, result: u32);

    /// Zero flag.
    fn get_z(&self) -> bool;

    /// Sets the zero flag if and only if `result` is zero.
    fn set_z(&mut self, result: u32);

    /// Carry flag.
    fn get_c(&self) -> bool;

    /// Sets the carry flag.
    fn set_c(&mut self, c: bool);

    /// Overflow flag.
    fn get_v(&self) -> bool;

    /// Sets the overflow flag.
    fn set_v(&mut self, v: bool);

    /// Saturation flag.
    fn get_q(&self) -> bool;

    /// Sets the saturation flag.
    fn set_q(&mut self, q: bool);

    /// Sets GE0.
    fn set_ge0(&mut self, bit: bool);

    /// Sets GE1.
    fn set_ge1(&mut self, bit: bool);

    /// Sets GE2.
    fn set_ge2(&mut self, bit: bool);

    /// Sets GE3.
    fn set_ge3(&mut self, bit: bool);

    /// GE0.
    fn get_ge0(&self) -> bool;

    /// GE1.
    fn get_ge1(&self) -> bool;

    /// GE2.
    fn get_ge2(&self) -> bool;

    /// GE3.
    fn get_ge3(&self) -> bool;
}

/// Access to the Interrupt Program Status Register.
pub trait Ipsr {
    /// The exception number of the current interrupt service routine.
    fn get_isr_number(&self) -> usize;

    /// Sets the exception number of the current interrupt service routine.
    fn set_isr_number(&mut self, exception_number: usize);
}

/// Access to the Execution Program Status Register.
pub trait Epsr {
    /// Sets the Thumb state bit.
    fn set_t(&mut self, t: bool);

    /// The Thumb state bit.
    fn get_t(&self) -> bool;
}

impl Apsr for PSR {
    fn get_n(&self) -> (n: bool)
        ensures
            n == self.flag(PSR_N as nat),
    {
        get_bit(self.value, PSR_N)
    }

    fn set_n(&mut self, result: u32)
        ensures
            *final(self) == old(self).with_flag(PSR_N as nat, spec_bit(result, 31)),
    {
        set_bit(&mut self.value, PSR_N, get_bit(result, 31));
    }

    fn get_z(&self) -> (z: bool)
        ensures
            z == self.flag(PSR_Z as nat),
    {
        get_bit(self.value, PSR_Z)
    }

    fn set_z(&mut self, result: u32)
        ensures
            *final(self) == old(self).with_flag(PSR_Z as nat, result == 0),
    {
        set_bit(&mut self.value, PSR_Z, result == 0);
    }

    fn get_c(&self) -> (c: bool)
        ensures
            c == self.flag(PSR_C as nat),
    {
        get_bit(self.value, PSR_C)
    }

    fn set_c(&mut self, c: bool)
        ensures
            *final(self) == old(self).with_flag(PSR_C as nat, c),
    {
        set_bit(&mut self.value, PSR_C, c);
    }

    fn get_v(&self) -> (v: bool)
        ensures
            v == self.flag(PSR_V as nat),
    {
        get_bit(self.value, PSR_V)
    }

    fn set_v(&mut self, v: bool)
        ensures
            *final(self) == old(self).with_flag(PSR_V as nat, v),
    {
        set_bit(&mut self.value, PSR_V, v);
    }

    fn get_q(&self) -> (q: bool)
        ensures
            q == self.flag(PSR_Q as nat),
    {
        get_bit(self.value, PSR_Q)
    }

    fn set_q(&mut self, q: bool)
        ensures
            *final(self) == old(self).with_flag(PSR_Q as nat, q),
    {
        set_bit(&mut self.value, PSR_Q, q);
    }

    fn set_ge0(&mut self, bit: bool)
        ensures
            *final(self) == old(self).with_flag(PSR_GE0 as nat, bit),
    {
        set_bit(&mut self.value, PSR_GE0, bit);
    }

    fn set_ge1(&mut self, bit: bool)
        ensures
            *final(self) == old(self).with_flag((PSR_GE0 + 1) as nat, bit),
    {
        set_bit(&mut self.value, PSR_GE0 + 1, bit);
    }

    fn set_ge2(&mut self, bit: bool)
        ensures
            *final(self) == old(self).with_flag((PSR_GE0 + 2) as nat, bit),
    {
        set_bit(&mut self.value, PSR_GE0 + 2, bit);
    }

    fn set_ge3(&mut self, bit: bool)
        ensures
            *final(self) == old(self).with_flag((PSR_GE0 + 3) as nat, bit),
    {
        set_bit(&mut self.value, PSR_GE0 + 3, bit);
    }

    fn get_ge0(&self) -> (bit: bool)
        ensures
            bit == self.flag(PSR_GE0 as nat),
    {
        get_bit(self.value, PSR_GE0)
    }

    fn get_ge1(&self) -> (bit: bool)
        ensures
            bit == self.flag((PSR_GE0 + 1) as nat),
    {
        get_bit(self.value, PSR_GE0 + 1)
    }

    fn get_ge2(&self) -> (bit: bool)
        ensures
            bit == self.flag((PSR_GE0 + 2) as nat),
    {
        get_bit(self.value, PSR_GE0 + 2)
    }

    fn get_ge3(&self) -> (bit: bool)
        ensures
            bit == self.flag((PSR_GE0 + 3) as nat),
    {
        get_bit(self.value, PSR_GE0 + 3)
    }
}

impl Epsr for PSR {
    fn get_t(&self) -> (t: bool)
        ensures
            t == self.flag(PSR_T as nat),
    {
        get_bit(self.value, PSR_T)
    }

    fn set_t(&mut self, t: bool)
        ensures
            *final(self) == old(self).with_flag(PSR_T as nat, t),
    {
        set_bit(&mut self.value, PSR_T, t);
    }
}

impl Ipsr for PSR {
    fn get_isr_number(&self) -> (number: usize)
        ensures
            number == self.isr_number(),
    {
        let width: usize = self.profile.isr_bits();
        let field: u32 = get_bits(self.value, 0, width);
        proof {
            lemma_with_bits_read_back(self.value, 0, width as nat, 0);
        }
        field as usize
    }

    fn set_isr_number(&mut self, exception_number: usize)
        ensures
            *final(self) == old(self).with_isr_number(exception_number as u32),
    {
        let width: usize = self.profile.isr_bits();
        set_bits(&mut self.value, 0, width, exception_number as u32);
    }
}

/// The CONTROL register.
#[derive(Copy, Clone, Debug, PartialEq, Eq, Structural)]
pub struct Control {
    /// Thread mode privilege level: true when unprivileged.
    pub n_priv: bool,
    /// Active stack pointer: true selects PSP, false selects MSP.
    pub sp_sel: bool,
}

impl Control {
    /// The register as it is packed in a word: `n_priv` in bit 0, `sp_sel` in bit 1.
    pub open spec fn spec_packed(self) -> u8 {
        ((if self.n_priv {
            1int
        } else {
            0int
        }) + (if self.sp_sel {
            2int
        } else {
            0int
        })) as u8
    }
}

impl From<Control> for u8 {
    /// Packs the register: `n_priv` in bit 0, `sp_sel` in bit 1.
    fn from(control: Control) -> (packed: u8) {
        let low: u8 = if control.n_priv {
            1
        } else {
            0
        };
        let high: u8 = if control.sp_sel {
            2
        } else {
            0
        };
        low + high
    }
}

impl vstd::std_specs::convert::FromSpecImpl<Control> for u8 {
    open spec fn obeys_from_spec() -> bool {
        true
    }

    open spec fn from_spec(control: Control) -> u8 {
        control.spec_packed()
    }
}

/// Writing one flag sets that flag and changes no other bit of the register.
pub proof fn lemma_flag_write(psr: PSR, bit: nat, set: bool, other: nat)
    requires
        bit < 32,
        other < 32,
    ensures
        psr.with_flag(bit, set).flag(other) == (if other == bit {
            set
        } else {
            psr.flag(other)
        }),
        psr.with_flag(bit, set).profile == psr.profile,
{
    lemma_with_bit(psr.value, bit, set, other);
}

/// Writing the exception number leaves every flag above the field as it was,
/// and reading it back gives the number reduced to the field's width.
pub proof fn lemma_isr_number_write(psr: PSR, number: u32, flag: nat)
    requires
        psr.profile.spec_isr_bits() <= flag < 32,
    ensures
        psr.with_isr_number(number).flag(flag) == psr.flag(flag),
        psr.with_isr_number(number).isr_number() == (number & spec_low_mask(
            psr.profile.spec_isr_bits(),
        )) as nat,
{
    let width = psr.profile.spec_isr_bits();
    lemma_with_bits_frame(psr.value, 0, width, number, flag);
    lemma_with_bits_read_back(psr.value, 0, width, number);
}

} // verus!
