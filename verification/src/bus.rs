//! Address-routed access to memory and to the system peripherals.
//!
//! Three pieces cooperate: the AHB-lite bus with flash and RAM, the internal
//! bus with the system timer's registers, and the bus matrix that hands each
//! access to the one that owns its address.

use crate::fault::Fault;
use crate::memory::FlashMemory;
use crate::memory::Region;
use crate::memory::RAM;
use vstd::prelude::*;

verus! {

/// Address of the system timer's control and status register.
pub const SYST_CSR_ADDR: u32 = 0xE000_E010;

/// Address of the system timer's reload value register.
pub const SYST_RVR_ADDR: u32 = 0xE000_E014;

/// Address of the system timer's current value register.
pub const SYST_CVR_ADDR: u32 = 0xE000_E018;

/// Address of the system timer's calibration register.
pub const SYST_CALIB_ADDR: u32 = 0xE000_E01C;

/// Enable bit of the control and status register.
pub const SYST_ENABLE: u32 = 1;

/// Bit of the control and status register that lets the timer raise its exception.
pub const SYST_TICKINT: u32 = 2;

/// Bit of the control and status register that tells the counter reached zero.
pub const SYST_COUNTFLAG: u32 = 0x1_0000;

/// Mask of the 24 bits that the reload and current value registers hold.
pub const SYST_VALUE_MASK: u32 = 0x00ff_ffff;

/// Reads and writes of 8, 16 and 32 bits that report a fault where they
/// cannot be served.
pub trait Bus {
    /// Reads a byte.
    fn read8(&self, addr: u32) -> Result<u8, Fault>;

    /// Reads a halfword.
    fn read16(&self, addr: u32) -> Result<u16, Fault>;

    /// Reads a word.
    fn read32(&self, addr: u32) -> Result<u32, Fault>;

    /// Writes a byte.
    fn write8(&mut self, addr: u32, value: u8) -> Result<(), Fault>;

    /// Writes a halfword.
    fn write16(&mut self, addr: u32, value: u16) -> Result<(), Fault>;

    /// Writes a word.
    fn write32(&mut self, addr: u32, value: u32) -> Result<(), Fault>;

    /// Whether this bus owns the address.
    fn in_range(&self, addr: u32) -> bool;
}

/// What a write leaves behind: the expected state and success, or the fault
/// and the state untouched.
pub open spec fn write_outcome<S>(
    before: S,
    after: S,
    out: Result<(), Fault>,
    expected: Result<S, Fault>,
) -> bool {
    match expected {
        Ok(state) => out is Ok && after == state,
        Err(fault) => out == Err::<(), Fault>(fault) && after == before,
    }
}

/// The internal bus: it holds the registers of the system timer.
#[derive(Copy, Clone, Debug, PartialEq, Eq, Structural)]
pub struct InternalBus {
    /// SYST_RVR, the reload value.
    pub syst_rvr: u32,
    /// SYST_CVR, the current value.
    pub syst_cvr: u32,
    /// SYST_CSR, control and status.
    pub syst_csr: u32,
}

impl InternalBus {
    /// Whether the internal bus owns `addr`.
    pub open spec fn covers(self, addr: u32) -> bool {
        SYST_CSR_ADDR <= addr < 0xE000_E020
    }

    /// The registers after a write to SYST_RVR: the low 24 bits are stored.
    pub open spec fn with_rvr_written(self, value: u32) -> InternalBus {
        InternalBus { syst_rvr: value & SYST_VALUE_MASK, ..self }
    }

    /// The registers after a write to SYST_CVR: the count and COUNTFLAG are cleared.
    pub open spec fn with_cvr_written(self) -> InternalBus {
        InternalBus {
            syst_cvr: 0,
            syst_csr: self.syst_csr & (SYST_COUNTFLAG ^ 0xffff_ffffu32),
            ..self
        }
    }

    /// The registers after a write to SYST_CSR: the low three bits are
    /// replaced, and enabling the timer reloads the count.
    pub open spec fn with_csr_written(self, value: u32) -> InternalBus {
        InternalBus {
            syst_cvr: if self.syst_csr & SYST_ENABLE == 0 && value & SYST_ENABLE == SYST_ENABLE {
                self.syst_rvr & SYST_VALUE_MASK
            } else {
                self.syst_cvr
            },
            syst_csr: (self.syst_csr & (0b111u32 ^ 0xffff_ffffu32)) | (value & 0b111u32),
            ..self
        }
    }

    /// The count after one tick, before any reload.
    pub open spec fn ticked_count(self) -> u32 {
        (if self.syst_cvr == 0 {
            0u32
        } else {
            (self.syst_cvr - 1) as u32
        }) & SYST_VALUE_MASK
    }

    /// Whether the timer is enabled.
    pub open spec fn enabled(self) -> bool {
        self.syst_csr & SYST_ENABLE == SYST_ENABLE
    }

    /// Whether the next tick brings the count to zero.
    pub open spec fn expires(self) -> bool {
        self.enabled() && self.ticked_count() == 0
    }

    /// Whether the next tick raises the timer's exception.
    pub open spec fn raises(self) -> bool {
        self.expires() && (self.syst_csr | SYST_COUNTFLAG) & SYST_TICKINT == SYST_TICKINT
    }

    /// The registers after one clock tick.
    pub open spec fn ticked(self) -> InternalBus {
        if !self.enabled() {
            self
        } else if self.ticked_count() == 0 {
            InternalBus {
                syst_cvr: self.syst_rvr & SYST_VALUE_MASK,
                syst_csr: self.syst_csr | SYST_COUNTFLAG,
                ..self
            }
        } else {
            InternalBus { syst_cvr: self.ticked_count(), ..self }
        }
    }

    /// The word that a 32-bit read of `addr` returns.
    pub open spec fn spec_read32(self, addr: u32) -> Result<u32, Fault> {
        if addr == SYST_CSR_ADDR {
            Ok(self.syst_csr)
        } else if addr == SYST_RVR_ADDR {
            Ok(self.syst_rvr)
        } else if addr == SYST_CVR_ADDR {
            Ok(self.syst_cvr)
        } else if addr == SYST_CALIB_ADDR {
            Ok(0u32)
        } else {
            Err(Fault::BusFault)
        }
    }

    /// The registers after a 32-bit write to `addr`. The calibration register
    /// is read-only: a write to it changes nothing.
    pub open spec fn spec_write32(self, addr: u32, value: u32) -> Result<InternalBus, Fault> {
        if addr == SYST_CSR_ADDR {
            Ok(self.with_csr_written(value))
        } else if addr == SYST_RVR_ADDR {
            Ok(self.with_rvr_written(value))
        } else if addr == SYST_CVR_ADDR {
            Ok(self.with_cvr_written())
        } else if addr == SYST_CALIB_ADDR {
            Ok(self)
        } else {
            Err(Fault::BusFault)
        }
    }

    /// An internal bus with the timer disabled and all its registers zero.
    pub fn new() -> (bus: InternalBus)
        ensures
            bus == (InternalBus { syst_rvr: 0, syst_cvr: 0, syst_csr: 0 }),
    {
        InternalBus { syst_rvr: 0, syst_cvr: 0, syst_csr: 0 }
    }

    /// Writes SYST_RVR.
    pub fn write_syst_rvr(&mut self, value: u32)
        ensures
            *final(self) == old(self).with_rvr_written(value),
    {
        self.syst_rvr = value & SYST_VALUE_MASK;
    }

    /// Writes SYST_CVR; the value written does not matter.
    pub fn write_syst_cvr(&mut self, _value: u32)
        ensures
            *final(self) == old(self).with_cvr_written(),
    {
        self.syst_cvr = 0;
        self.syst_csr = self.syst_csr & (SYST_COUNTFLAG ^ 0xffff_ffffu32);
    }

    /// Writes SYST_CSR.
    pub fn write_syst_csr(&mut self, value: u32)
        ensures
            *final(self) == old(self).with_csr_written(value),
    {
        if (self.syst_csr & SYST_ENABLE == 0) && (value & SYST_ENABLE == SYST_ENABLE) {
            self.syst_cvr = self.syst_rvr & SYST_VALUE_MASK;
        }
        self.syst_csr = (self.syst_csr & (0b111u32 ^ 0xffff_ffffu32)) | (value & 0b111u32);
    }

    /// Advances the timer by one clock tick and tells whether its exception
    /// is to be made pending.
    pub fn syst_step(&mut self) -> (raise: bool)
        ensures
            *final(self) == old(self).ticked(),
            raise == old(self).raises(),
    {
        if (self.syst_csr & SYST_ENABLE) == SYST_ENABLE {
            self.syst_cvr = self.syst_cvr.saturating_sub(1);
            self.syst_cvr = self.syst_cvr & SYST_VALUE_MASK;
            if self.syst_cvr == 0 {
                self.syst_cvr = self.syst_rvr & SYST_VALUE_MASK;
                self.syst_csr = self.syst_csr | SYST_COUNTFLAG;
                if (self.syst_csr & SYST_TICKINT) == SYST_TICKINT {
                    return true;
                }
            }
        }
        false
    }
}

/// The timer's registers are words: narrower accesses are bus faults.
impl Bus for InternalBus {
    fn read8(&self, addr: u32) -> (out: Result<u8, Fault>)
        ensures
            out == Err::<u8, Fault>(Fault::BusFault),
    {
        Err(Fault::BusFault)
    }

    fn read16(&self, addr: u32) -> (out: Result<u16, Fault>)
        ensures
            out == Err::<u16, Fault>(Fault::BusFault),
    {
        Err(Fault::BusFault)
    }

    fn read32(&self, addr: u32) -> (out: Result<u32, Fault>)
        ensures
            out == self.spec_read32(addr),
    {
        if addr == SYST_CSR_ADDR {
            Ok(self.syst_csr)
        } else if addr == SYST_RVR_ADDR {
            Ok(self.syst_rvr)
        } else if addr == SYST_CVR_ADDR {
            Ok(self.syst_cvr)
        } else if addr == SYST_CALIB_ADDR {
            Ok(0)
        } else {
            Err(Fault::BusFault)
        }
    }

    fn write8(&mut self, addr: u32, value: u8) -> (out: Result<(), Fault>)
        ensures
            out == Err::<(), Fault>(Fault::BusFault),
            *final(self) == *old(self),
    {
        Err(Fault::BusFault)
    }

    fn write16(&mut self, addr: u32, value: u16) -> (out: Result<(), Fault>)
        ensures
            out == Err::<(), Fault>(Fault::BusFault),
            *final(self) == *old(self),
    {
        Err(Fault::BusFault)
    }

    fn write32(&mut self, addr: u32, value: u32) -> (out: Result<(), Fault>)
        ensures
            write_outcome(*old(self), *final(self), out, old(self).spec_write32(addr, value)),
    {
        if addr == SYST_CSR_ADDR {
            self.write_syst_csr(value);
            Ok(())
        } else if addr == SYST_RVR_ADDR {
            self.write_syst_rvr(value);
            Ok(())
        } else if addr == SYST_CVR_ADDR {
            self.write_syst_cvr(value);
            Ok(())
        } else if addr == SYST_CALIB_ADDR {
            Ok(())
        } else {
            Err(Fault::BusFault)
        }
    }

    fn in_range(&self, addr: u32) -> (inside: bool)
        ensures
            inside == self.covers(addr),
    {
        SYST_CSR_ADDR <= addr && addr < 0xE000_E020
    }
}

/// The AHB-lite bus: flash and RAM, each owning the addresses of its bytes.
pub struct AHBLite {
    /// The flash device.
    pub flash: FlashMemory,
    /// The RAM device.
    pub ram: RAM,
}

/// The contents of the AHB-lite bus.
pub struct AhbView {
    /// The flash device.
    pub flash: Region,
    /// The RAM device.
    pub ram: Region,
}

impl View for AHBLite {
    type V = AhbView;

    open spec fn view(&self) -> AhbView {
        AhbView { flash: self.flash@, ram: self.ram@ }
    }
}

impl AhbView {
    /// Both devices end within the address space.
    pub open spec fn wf(self) -> bool {
        self.flash.wf() && self.ram.wf()
    }

    /// Whether a device of this bus has a byte at `addr`.
    pub open spec fn covers(self, addr: u32) -> bool {
        self.flash.covers(addr, 1) || self.ram.covers(addr, 1)
    }

    /// The byte at `addr`: flash is asked first, then RAM.
    pub open spec fn read8(self, addr: u32) -> Result<u8, Fault> {
        if self.flash.covers(addr, 1) {
            self.flash.read8(addr)
        } else {
            self.ram.read8(addr)
        }
    }

    /// The halfword at `addr`, from the device that owns `addr`.
    pub open spec fn read16(self, addr: u32) -> Result<u16, Fault> {
        if self.flash.covers(addr, 1) {
            self.flash.read16(addr)
        } else {
            self.ram.read16(addr)
        }
    }

    /// The word at `addr`, from the device that owns `addr`.
    pub open spec fn read32(self, addr: u32) -> Result<u32, Fault> {
        if self.flash.covers(addr, 1) {
            self.flash.read32(addr)
        } else {
            self.ram.read32(addr)
        }
    }

    /// The bus after a byte store: a fault in flash, a store in RAM.
    pub open spec fn write8(self, addr: u32, value: u8) -> Result<AhbView, Fault> {
        if self.flash.covers(addr, 1) {
            Err(Fault::BusFault)
        } else {
            match self.ram.write8(addr, value) {
                Ok(ram) => Ok(AhbView { ram, ..self }),
                Err(fault) => Err(fault),
            }
        }
    }

    /// The bus after a halfword store: a fault in flash, a store in RAM.
    pub open spec fn write16(self, addr: u32, value: u16) -> Result<AhbView, Fault> {
        if self.flash.covers(addr, 1) {
            Err(Fault::BusFault)
        } else {
            match self.ram.write16(addr, value) {
                Ok(ram) => Ok(AhbView { ram, ..self }),
                Err(fault) => Err(fault),
            }
        }
    }

    /// The bus after a word store: a fault in flash, a store in RAM.
    pub open spec fn write32(self, addr: u32, value: u32) -> Result<AhbView, Fault> {
        if self.flash.covers(addr, 1) {
            Err(Fault::BusFault)
        } else {
            match self.ram.write32(addr, value) {
                Ok(ram) => Ok(AhbView { ram, ..self }),
                Err(fault) => Err(fault),
            }
        }
    }
}

impl AHBLite {
    /// A bus over the two devices.
    pub fn new(flash: FlashMemory, ram: RAM) -> (bus: AHBLite)
        ensures
            bus@ == (AhbView { flash: flash@, ram: ram@ }),
    {
        AHBLite { flash, ram }
    }
}

impl Bus for AHBLite {
    fn read8(&self, addr: u32) -> (out: Result<u8, Fault>)
        ensures
            out == self@.read8(addr),
    {
        if self.flash.in_range(addr) {
            self.flash.read8(addr)
        } else {
            self.ram.read8(addr)
        }
    }

    fn read16(&self, addr: u32) -> (out: Result<u16, Fault>)
        ensures
            out == self@.read16(addr),
    {
        if self.flash.in_range(addr) {
            self.flash.read16(addr)
        } else {
            self.ram.read16(addr)
        }
    }

    fn read32(&self, addr: u32) -> (out: Result<u32, Fault>)
        ensures
            out == self@.read32(addr),
    {
        if self.flash.in_range(addr) {
            self.flash.read32(addr)
        } else {
            self.ram.read32(addr)
        }
    }

    fn write8(&mut self, addr: u32, value: u8) -> (out: Result<(), Fault>)
        ensures
            write_outcome(old(self)@, final(self)@, out, old(self)@.write8(addr, value)),
    {
        if self.flash.in_range(addr) {
            self.flash.write8(addr, value)
        } else {
            self.ram.write8(addr, value)
        }
    }

    fn write16(&mut self, addr: u32, value: u16) -> (out: Result<(), Fault>)
        ensures
            write_outcome(old(self)@, final(self)@, out, old(self)@.write16(addr, value)),
    {
        if self.flash.in_range(addr) {
            self.flash.write16(addr, value)
        } else {
            self.ram.write16(addr, value)
        }
    }

    fn write32(&mut self, addr: u32, value: u32) -> (out: Result<(), Fault>)
        ensures
            write_outcome(old(self)@, final(self)@, out, old(self)@.write32(addr, value)),
    {
        if self.flash.in_range(addr) {
            self.flash.write32(addr, value)
        } else {
            self.ram.write32(addr, value)
        }
    }

    fn in_range(&self, addr: u32) -> (inside: bool)
        ensures
            inside == self@.covers(addr),
    {
        self.flash.in_range(addr) || self.ram.in_range(addr)
    }
}

/// The bus matrix: routes each access to the internal bus or to the AHB-lite bus.
pub struct BusMatrix {
    /// The internal bus with the system peripherals.
    pub internal: InternalBus,
    /// The AHB-lite bus with the memories.
    pub ahb: AHBLite,
}

/// The contents of everything behind the bus matrix.
pub struct BusView {
    /// The registers on the internal bus.
    pub internal: InternalBus,
    /// The memories on the AHB-lite bus.
    pub ahb: AhbView,
}

impl View for BusMatrix {
    type V = BusView;

    open spec fn view(&self) -> BusView {
        BusView { internal: self.internal, ahb: self.ahb@ }
    }
}

impl BusView {
    /// The memories end within the address space.
    pub open spec fn wf(self) -> bool {
        self.ahb.wf()
    }

    /// Whether any bus owns `addr`.
    pub open spec fn covers(self, addr: u32) -> bool {
        self.internal.covers(addr) || self.ahb.covers(addr)
    }

    /// The byte at `addr`.
    pub open spec fn read8(self, addr: u32) -> Result<u8, Fault> {
        if self.internal.covers(addr) {
            Err(Fault::BusFault)
        } else {
            self.ahb.read8(addr)
        }
    }

    /// The halfword at `addr`.
    pub open spec fn read16(self, addr: u32) -> Result<u16, Fault> {
        if self.internal.covers(addr) {
            Err(Fault::BusFault)
        } else {
            self.ahb.read16(addr)
        }
    }

    /// The word at `addr`.
    pub open spec fn read32(self, addr: u32) -> Result<u32, Fault> {
        if self.internal.covers(addr) {
            self.internal.spec_read32(addr)
        } else {
            self.ahb.read32(addr)
        }
    }

    /// Everything behind the matrix after a byte store.
    pub open spec fn write8(self, addr: u32, value: u8) -> Result<BusView, Fault> {
        if self.internal.covers(addr) {
            Err(Fault::BusFault)
        } else {
            match self.ahb.write8(addr, value) {
                Ok(ahb) => Ok(BusView { ahb, ..self }),
                Err(fault) => Err(fault),
            }
        }
    }

    /// Everything behind the matrix after a halfword store.
    pub open spec fn write16(self, addr: u32, value: u16) -> Result<BusView, Fault> {
        if self.internal.covers(addr) {
            Err(Fault::BusFault)
        } else {
            match self.ahb.write16(addr, value) {
                Ok(ahb) => Ok(BusView { ahb, ..self }),
                Err(fault) => Err(fault),
            }
        }
    }

    /// Everything behind the matrix after a word store.
    pub open spec fn write32(self, addr: u32, value: u32) -> Result<BusView, Fault> {
        if self.internal.covers(addr) {
            match self.internal.spec_write32(addr, value) {
                Ok(internal) => Ok(BusView { internal, ..self }),
                Err(fault) => Err(fault),
            }
        } else {
            match self.ahb.write32(addr, value) {
                Ok(ahb) => Ok(BusView { ahb, ..self }),
                Err(fault) => Err(fault),
            }
        }
    }
}

impl BusView {
    /// The address of word `index` of a block of words that starts at `addr`.
    pub open spec fn word_address(addr: u32, index: nat) -> u32 {
        addr.wrapping_add((4 * index) as u32)
    }

    /// The `count` consecutive words from `addr`, or the fault of the first
    /// read that fails.
    pub open spec fn read_words(self, addr: u32, count: nat) -> Result<Seq<u32>, Fault>
        decreases count,
    {
        if count == 0 {
            Ok(Seq::empty())
        } else {
            match self.read_words(addr, (count - 1) as nat) {
                Err(fault) => Err(fault),
                Ok(words) => match self.read32(BusView::word_address(addr, (count - 1) as nat)) {
                    Err(fault) => Err(fault),
                    Ok(word) => Ok(words.push(word)),
                },
            }
        }
    }

    /// Everything behind the matrix after `words` were stored one after the
    /// other from `addr` on, with the fault that stopped the stores if one did.
    /// The words before the failing one stay stored.
    pub open spec fn write_words(self, addr: u32, words: Seq<u32>) -> (BusView, Result<(), Fault>)
        decreases words.len(),
    {
        if words.len() == 0 {
            (self, Ok(()))
        } else {
            let (before, done) = self.write_words(addr, words.drop_last());
            if done is Err {
                (before, done)
            } else {
                match before.write32(
                    BusView::word_address(addr, (words.len() - 1) as nat),
                    words.last(),
                ) {
                    Ok(after) => (after, Ok(())),
                    Err(fault) => (before, Err(fault)),
                }
            }
        }
    }
}

impl BusMatrix {
    /// A matrix over the two buses.
    pub fn new(internal: InternalBus, ahb: AHBLite) -> (bus: BusMatrix)
        ensures
            bus@ == (BusView { internal, ahb: ahb@ }),
    {
        BusMatrix { internal, ahb }
    }

    /// Reads `count` consecutive words from `addr`, stopping at the first
    /// fault. The block is at most as long as the address space.
    pub fn read_words(&self, addr: u32, count: usize) -> (out: Result<Vec<u32>, Fault>)
        requires
            4 * count <= u32::MAX,
        ensures
            match self@.read_words(addr, count as nat) {
                Ok(words) => out is Ok && out->Ok_0@ == words,
                Err(fault) => out is Err && out->Err_0 == fault,
            },
    {
        let mut words: Vec<u32> = Vec::new();
        let mut i: usize = 0;
        while i < count
            invariant
                i <= count,
                4 * count <= u32::MAX,
                self@.read_words(addr, i as nat) == Ok::<Seq<u32>, Fault>(words@),
            decreases count - i,
        {
            let at: u32 = addr.wrapping_add(4 * (i as u32));
            match self.read32(at) {
                Ok(word) => {
                    words.push(word);
                },
                Err(fault) => {
                    proof {
                        lemma_read_words_fails_on(self@, addr, (i + 1) as nat, count as nat);
                    }
                    return Err(fault);
                },
            }
            i = i + 1;
        }
        Ok(words)
    }

    /// Stores `words` one after the other from `addr` on, stopping at the
    /// first fault. The block is at most as long as the address space.
    pub fn write_words(&mut self, addr: u32, words: &Vec<u32>) -> (out: Result<(), Fault>)
        requires
            4 * words@.len() <= u32::MAX,
        ensures
            final(self)@ == old(self)@.write_words(addr, words@).0,
            out == old(self)@.write_words(addr, words@).1,
    {
        let mut i: usize = 0;
        while i < words.len()
            invariant
                i <= words@.len(),
                4 * words@.len() <= u32::MAX,
                (self@, Ok::<(), Fault>(())) == old(self)@.write_words(addr, words@.take(i as int)),
            decreases words@.len() - i,
        {
            let at: u32 = addr.wrapping_add(4 * (i as u32));
            proof {
                assert(words@.take(i + 1).drop_last() =~= words@.take(i as int));
            }
            match self.write32(at, words[i]) {
                Ok(()) => {},
                Err(fault) => {
                    proof {
                        lemma_write_words_fails_on(old(self)@, addr, words@, (i + 1) as nat);
                    }
                    return Err(fault);
                },
            }
            i = i + 1;
        }
        proof {
            assert(words@.take(i as int) =~= words@);
        }
        Ok(())
    }
}

impl Bus for BusMatrix {
    fn read8(&self, addr: u32) -> (out: Result<u8, Fault>)
        ensures
            out == self@.read8(addr),
    {
        if self.internal.in_range(addr) {
            self.internal.read8(addr)
        } else {
            self.ahb.read8(addr)
        }
    }

    fn read16(&self, addr: u32) -> (out: Result<u16, Fault>)
        ensures
            out == self@.read16(addr),
    {
        if self.internal.in_range(addr) {
            self.internal.read16(addr)
        } else {
            self.ahb.read16(addr)
        }
    }

    fn read32(&self, addr: u32) -> (out: Result<u32, Fault>)
        ensures
            out == self@.read32(addr),
    {
        if self.internal.in_range(addr) {
            self.internal.read32(addr)
        } else {
            self.ahb.read32(addr)
        }
    }

    fn write8(&mut self, addr: u32, value: u8) -> (out: Result<(), Fault>)
        ensures
            write_outcome(old(self)@, final(self)@, out, old(self)@.write8(addr, value)),
    {
        if self.internal.in_range(addr) {
            self.internal.write8(addr, value)
        } else {
            self.ahb.write8(addr, value)
        }
    }

    fn write16(&mut self, addr: u32, value: u16) -> (out: Result<(), Fault>)
        ensures
            write_outcome(old(self)@, final(self)@, out, old(self)@.write16(addr, value)),
    {
        if self.internal.in_range(addr) {
            self.internal.write16(addr, value)
        } else {
            self.ahb.write16(addr, value)
        }
    }

    fn write32(&mut self, addr: u32, value: u32) -> (out: Result<(), Fault>)
        ensures
            write_outcome(old(self)@, final(self)@, out, old(self)@.write32(addr, value)),
    {
        if self.internal.in_range(addr) {
            self.internal.write32(addr, value)
        } else {
            self.ahb.write32(addr, value)
        }
    }

    fn in_range(&self, addr: u32) -> (inside: bool)
        ensures
            inside == self@.covers(addr),
    {
        self.internal.in_range(addr) || self.ahb.in_range(addr)
    }
}

/// Once a block of words fails to be read, every longer block from the same
/// address fails with the same fault.
pub proof fn lemma_read_words_fails_on(bus: BusView, addr: u32, failing: nat, count: nat)
    requires
        failing <= count,
        bus.read_words(addr, failing) is Err,
    ensures
        bus.read_words(addr, count) == bus.read_words(addr, failing),
    decreases count,
{
    if failing < count {
        lemma_read_words_fails_on(bus, addr, failing, (count - 1) as nat);
    }
}

/// Once storing a prefix of a block fails, storing the whole block fails in
/// the same way and leaves the same behind.
pub proof fn lemma_write_words_fails_on(bus: BusView, addr: u32, words: Seq<u32>, failing: nat)
    requires
        failing <= words.len(),
        bus.write_words(addr, words.take(failing as int)).1 is Err,
    ensures
        bus.write_words(addr, words) == bus.write_words(addr, words.take(failing as int)),
    decreases words.len(),
{
    if failing < words.len() {
        assert(words.drop_last().take(failing as int) =~= words.take(failing as int));
        lemma_write_words_fails_on(bus, addr, words.drop_last(), failing);
    } else {
        assert(words.take(failing as int) =~= words);
    }
}

impl BusView {
    /// Whether the word at `addr` lies in RAM and nothing else claims its
    /// address before the RAM does.
    pub open spec fn ram_word(self, addr: u32) -> bool {
        &&& self.ahb.ram.covers(addr, 4)
        &&& !self.ahb.flash.covers(addr, 1)
        &&& !self.internal.covers(addr)
    }

    /// Whether the `count` words from `addr` lie in RAM, below the end of the
    /// address space.
    pub open spec fn ram_block(self, addr: u32, count: nat) -> bool {
        &&& addr + 4 * count <= 0x1_0000_0000
        &&& forall|i: nat| i < count ==> self.ram_word(#[trigger] BusView::word_address(addr, i))
    }

    /// Whether two states of the bus differ in the contents of the RAM only.
    pub open spec fn same_but_ram_contents(self, other: BusView) -> bool {
        &&& self.internal == other.internal
        &&& self.ahb.flash == other.ahb.flash
        &&& self.ahb.ram.base == other.ahb.ram.base
        &&& self.ahb.ram.bytes.len() == other.ahb.ram.bytes.len()
    }
}

/// A word that was stored in RAM is the word that is read from there.
pub proof fn lemma_ram_word_read_back(bus: BusView, addr: u32, value: u32)
    requires
        bus.ram_word(addr),
    ensures
        bus.write32(addr, value) matches Ok(after) && after.read32(addr) == Ok::<u32, Fault>(value)
            && after.same_but_ram_contents(bus),
{
    crate::memory::lemma_word_read_back(bus.ahb.ram, addr, value);
}

/// A word store to RAM leaves every other word of RAM as it was.
pub proof fn lemma_ram_word_store_frame(bus: BusView, addr: u32, value: u32, other: u32)
    requires
        bus.ram_word(addr),
        bus.ram_word(other),
        addr + 4 <= other || other + 4 <= addr,
    ensures
        bus.write32(addr, value) matches Ok(after) && after.read32(other) == bus.read32(other),
{
    crate::memory::lemma_word_store_frame(bus.ahb.ram, addr, value, other);
}

/// A block of words in RAM reads the same after a word was stored beyond
/// its end.
pub proof fn lemma_read_words_frame(bus: BusView, addr: u32, count: nat, beyond: u32, value: u32)
    requires
        bus.ram_block(addr, count),
        bus.ram_word(beyond),
        addr + 4 * count <= beyond,
    ensures
        bus.write32(beyond, value) matches Ok(after) && after.read_words(addr, count)
            == bus.read_words(addr, count),
    decreases count,
{
    lemma_ram_word_read_back(bus, beyond, value);
    if count > 0 {
        lemma_read_words_frame(bus, addr, (count - 1) as nat, beyond, value);
        let last = BusView::word_address(addr, (count - 1) as nat);
        assert(bus.ram_word(last));
        lemma_ram_word_store_frame(bus, beyond, value, last);
    }
}

/// A block of words that was stored in RAM is the block that is read from
/// there, and the stores change nothing but the contents of the RAM.
pub proof fn lemma_block_read_back(bus: BusView, addr: u32, words: Seq<u32>)
    requires
        bus.ram_block(addr, words.len()),
    ensures
        bus.write_words(addr, words).1 is Ok,
        bus.write_words(addr, words).0.read_words(addr, words.len()) == Ok::<Seq<u32>, Fault>(
            words,
        ),
        bus.write_words(addr, words).0.same_but_ram_contents(bus),
    decreases words.len(),
{
    if words.len() > 0 {
        let prefix = words.drop_last();
        let count = prefix.len();
        lemma_block_read_back(bus, addr, prefix);
        let before = bus.write_words(addr, prefix).0;
        let last = BusView::word_address(addr, count);
        assert(bus.ram_word(last));
        assert forall|i: nat| i < count implies before.ram_word(
            #[trigger] BusView::word_address(addr, i),
        ) by {
            assert(bus.ram_word(BusView::word_address(addr, i)));
        }
        lemma_ram_word_read_back(before, last, words.last());
        lemma_read_words_frame(before, addr, count, last, words.last());
        let after = before.write32(last, words.last())->Ok_0;
        assert(bus.write_words(addr, words).0 == after);
        assert(after.read_words(addr, count) == Ok::<Seq<u32>, Fault>(prefix));
        assert(after.read32(BusView::word_address(addr, (words.len() - 1) as nat)) == Ok::<
            u32,
            Fault,
        >(words.last()));
        assert(prefix.push(words.last()) =~= words);
    } else {
        assert(words =~= Seq::<u32>::empty());
    }
}

} // verus!
