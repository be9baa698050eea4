//! Byte-addressable memory devices: read-only flash and read-write RAM.
//!
//! Halfwords and words are stored little-endian. Accesses need no alignment.

use crate::bus::write_outcome;
use crate::bus::Bus;
use crate::fault::Fault;
use byteorder::ByteOrder;
use byteorder::LittleEndian;
use vstd::bytes::spec_u16_from_le_bytes;
use vstd::bytes::spec_u16_to_le_bytes;
use vstd::bytes::spec_u32_from_le_bytes;
use vstd::bytes::spec_u32_to_le_bytes;
use vstd::prelude::*;
use vstd::slice::slice_subrange;

verus! {

/// The contents of a memory device: consecutive bytes from a base address.
pub struct Region {
    /// Address of the first byte.
    pub base: u32,
    /// The bytes, in address order.
    pub bytes: Seq<u8>,
}

impl Region {
    /// The device ends within the 32-bit address space.
    pub open spec fn wf(self) -> bool {
        self.base + self.bytes.len() <= 0x1_0000_0000
    }

    /// The `width` bytes from `addr` all lie in the device.
    pub open spec fn covers(self, addr: u32, width: nat) -> bool {
        self.base <= addr && addr - self.base + width <= self.bytes.len()
    }

    /// The `width` bytes from `addr`.
    pub open spec fn slice(self, addr: u32, width: nat) -> Seq<u8> {
        self.bytes.subrange(addr - self.base, addr - self.base + width)
    }

    /// The byte at `addr`, or a bus fault where the device has none.
    pub open spec fn read8(self, addr: u32) -> Result<u8, Fault> {
        if self.covers(addr, 1) {
            Ok(self.bytes[addr - self.base])
        } else {
            Err(Fault::BusFault)
        }
    }

    /// The little-endian halfword at `addr`, or a bus fault.
    pub open spec fn read16(self, addr: u32) -> Result<u16, Fault> {
        if self.covers(addr, 2) {
            Ok(spec_u16_from_le_bytes(self.slice(addr, 2)))
        } else {
            Err(Fault::BusFault)
        }
    }

    /// The little-endian word at `addr`, or a bus fault.
    pub open spec fn read32(self, addr: u32) -> Result<u32, Fault> {
        if self.covers(addr, 4) {
            Ok(spec_u32_from_le_bytes(self.slice(addr, 4)))
        } else {
            Err(Fault::BusFault)
        }
    }

    /// The device with `data` stored from `addr` on.
    pub open spec fn with_bytes(self, addr: u32, data: Seq<u8>) -> Region {
        Region {
            base: self.base,
            bytes: Seq::new(
                self.bytes.len(),
                |i: int|
                    if addr - self.base <= i < addr - self.base + data.len() {
                        data[i - (addr - self.base)]
                    } else {
                        self.bytes[i]
                    },
            ),
        }
    }

    /// The device after a byte store, or a bus fault where the byte is not in it.
    pub open spec fn write8(self, addr: u32, value: u8) -> Result<Region, Fault> {
        if self.covers(addr, 1) {
            Ok(self.with_bytes(addr, seq![value]))
        } else {
            Err(Fault::BusFault)
        }
    }

    /// The device after a little-endian halfword store, or a bus fault.
    pub open spec fn write16(self, addr: u32, value: u16) -> Result<Region, Fault> {
        if self.covers(addr, 2) {
            Ok(self.with_bytes(addr, spec_u16_to_le_bytes(value)))
        } else {
            Err(Fault::BusFault)
        }
    }

    /// The device after a little-endian word store, or a bus fault.
    pub open spec fn write32(self, addr: u32, value: u32) -> Result<Region, Fault> {
        if self.covers(addr, 4) {
            Ok(self.with_bytes(addr, spec_u32_to_le_bytes(value)))
        } else {
            Err(Fault::BusFault)
        }
    }
}

/// Calls `byteorder::LittleEndian::read_u16`, which reads the first two bytes
/// of the buffer as a little-endian number and panics on a shorter buffer.
#[verifier::external_body]
pub(crate) fn le_read_u16(buf: &[u8]) -> (value: u16)
    requires
        buf@.len() >= 2,
    ensures
        value == spec_u16_from_le_bytes(buf@.subrange(0, 2)),
{
    LittleEndian::read_u16(buf)
}

/// Calls `byteorder::LittleEndian::read_u32`, which reads the first four bytes
/// of the buffer as a little-endian number and panics on a shorter buffer.
#[verifier::external_body]
pub(crate) fn le_read_u32(buf: &[u8]) -> (value: u32)
    requires
        buf@.len() >= 4,
    ensures
        value == spec_u32_from_le_bytes(buf@.subrange(0, 4)),
{
    LittleEndian::read_u32(buf)
}

/// Calls `byteorder::LittleEndian::write_u16` on a two-byte buffer, which
/// stores the number's little-endian bytes in it.
#[verifier::external_body]
pub(crate) fn le_bytes_u16(value: u16) -> (bytes: [u8; 2])
    ensures
        bytes@ == spec_u16_to_le_bytes(value),
{
    let mut bytes = [0u8; 2];
    LittleEndian::write_u16(&mut bytes, value);
    bytes
}

/// Calls `byteorder::LittleEndian::write_u32` on a four-byte buffer, which
/// stores the number's little-endian bytes in it.
#[verifier::external_body]
pub(crate) fn le_bytes_u32(value: u32) -> (bytes: [u8; 4])
    ensures
        bytes@ == spec_u32_to_le_bytes(value),
{
    let mut bytes = [0u8; 4];
    LittleEndian::write_u32(&mut bytes, value);
    bytes
}

/// Offset of `addr` in a device of `len` bytes at `base`, if `width` bytes
/// from `addr` lie in it.
fn offset_in(base: u32, len: usize, addr: u32, width: u64) -> (offset: Option<usize>)
    requires
        base + len <= 0x1_0000_0000,
        width <= 4,
    ensures
        offset matches Some(at) ==> base <= addr && at == addr - base && at + width <= len,
        offset is None ==> !(base <= addr && addr - base + width <= len),
{
    if addr < base {
        return None;
    }
    let at: u32 = addr - base;
    if at as u64 + width <= len as u64 {
        Some(at as usize)
    } else {
        None
    }
}

/// Reads a byte of `data`, a device's contents.
fn device_read8(base: u32, data: &Vec<u8>, addr: u32) -> (out: Result<u8, Fault>)
    requires
        base + data@.len() <= 0x1_0000_0000,
    ensures
        out == (Region { base, bytes: data@ }).read8(addr),
{
    match offset_in(base, data.len(), addr, 1) {
        Some(at) => Ok(data[at]),
        None => Err(Fault::BusFault),
    }
}

/// Reads a halfword of `data`, a device's contents.
fn device_read16(base: u32, data: &Vec<u8>, addr: u32) -> (out: Result<u16, Fault>)
    requires
        base + data@.len() <= 0x1_0000_0000,
    ensures
        out == (Region { base, bytes: data@ }).read16(addr),
{
    match offset_in(base, data.len(), addr, 2) {
        Some(at) => {
            let part = slice_subrange(data.as_slice(), at, at + 2);
            proof {
                assert(part@.subrange(0, 2) =~= data@.subrange(at as int, at + 2));
            }
            Ok(le_read_u16(part))
        },
        None => Err(Fault::BusFault),
    }
}

/// Reads a word of `data`, a device's contents.
fn device_read32(base: u32, data: &Vec<u8>, addr: u32) -> (out: Result<u32, Fault>)
    requires
        base + data@.len() <= 0x1_0000_0000,
    ensures
        out == (Region { base, bytes: data@ }).read32(addr),
{
    match offset_in(base, data.len(), addr, 4) {
        Some(at) => {
            let part = slice_subrange(data.as_slice(), at, at + 4);
            proof {
                assert(part@.subrange(0, 4) =~= data@.subrange(at as int, at + 4));
            }
            Ok(le_read_u32(part))
        },
        None => Err(Fault::BusFault),
    }
}

/// Stores `bytes` in `data`, a device's contents, from `addr` on.
fn device_write(base: u32, data: &mut Vec<u8>, addr: u32, bytes: &[u8]) -> (out: Result<(), Fault>)
    requires
        base + old(data)@.len() <= 0x1_0000_0000,
        bytes@.len() <= 4,
    ensures
        final(data)@.len() == old(data)@.len(),
        ({
            let before = Region { base, bytes: old(data)@ };
            if before.covers(addr, bytes@.len()) {
                out is Ok && final(data)@ == before.with_bytes(addr, bytes@).bytes
            } else {
                out == Err::<(), Fault>(Fault::BusFault) && final(data)@ == old(data)@
            }
        }),
{
    let len: usize = data.len();
    match offset_in(base, len, addr, bytes.len() as u64) {
        Some(at) => {
            let mut i: usize = 0;
            while i < bytes.len()
                invariant
                    i <= bytes@.len(),
                    at + bytes@.len() <= data@.len() <= usize::MAX,
                    data@.len() == old(data)@.len(),
                    forall|k: int| at <= k < at + i ==> data@[k] == bytes@[k - at],
                    forall|k: int|
                        0 <= k < data@.len() && !(at <= k < at + i) ==> data@[k] == old(data)@[k],
                decreases bytes@.len() - i,
            {
                data.set(at + i, bytes[i]);
                i = i + 1;
            }
            proof {
                let before = Region { base, bytes: old(data)@ };
                assert(data@ =~= before.with_bytes(addr, bytes@).bytes);
            }
            Ok(())
        },
        None => Err(Fault::BusFault),
    }
}

/// Flash memory: loaded once, read-only afterwards.
pub struct FlashMemory {
    start_address: u32,
    data: Vec<u8>,
}

/// Random access memory: zero at the start, freely read and written.
#[allow(clippy::upper_case_acronyms)]
pub struct RAM {
    start_address: u32,
    data: Vec<u8>,
}

impl View for FlashMemory {
    type V = Region;

    closed spec fn view(&self) -> Region {
        Region { base: self.start_address, bytes: self.data@ }
    }
}

impl View for RAM {
    type V = Region;

    closed spec fn view(&self) -> Region {
        Region { base: self.start_address, bytes: self.data@ }
    }
}

impl FlashMemory {
    #[verifier::type_invariant]
    spec fn fits(self) -> bool {
        self.start_address + self.data@.len() <= 0x1_0000_0000
    }

    /// A flash of `size` zero bytes at `start_address`.
    pub fn new(start_address: u32, size: usize) -> (device: FlashMemory)
        requires
            start_address + size <= 0x1_0000_0000,
        ensures
            device@.base == start_address,
            device@.bytes == Seq::new(size as nat, |i: int| 0u8),
            device@.wf(),
    {
        let data: Vec<u8> = vec![0u8; size];
        proof {
            assert(data@ =~= Seq::new(size as nat, |i: int| 0u8));
        }
        FlashMemory { start_address, data }
    }

    /// The address of the first byte.
    pub fn start_address(&self) -> (base: u32)
        ensures
            base == self@.base,
    {
        self.start_address
    }

    /// The number of bytes in the device; the device ends within the address space.
    pub fn size(&self) -> (size: usize)
        ensures
            size == self@.bytes.len(),
            self@.wf(),
    {
        proof {
            use_type_invariant(self);
        }
        self.data.len()
    }

    /// Copies the firmware image to the start of the flash.
    pub fn load(&mut self, code: &[u8])
        requires
            code@.len() <= old(self)@.bytes.len(),
        ensures
            final(self)@ == old(self)@.with_bytes(old(self)@.base, code@),
            final(self)@.wf(),
    {
        proof {
            use_type_invariant(&*self);
        }
        let mut data: Vec<u8> = Vec::new();
        std::mem::swap(&mut self.data, &mut data);
        let mut i: usize = 0;
        while i < code.len()
            invariant
                i <= code@.len(),
                code@.len() <= data@.len(),
                data@.len() == old(self).data@.len(),
                forall|k: int| 0 <= k < i ==> data@[k] == code@[k],
                forall|k: int| i <= k < data@.len() ==> data@[k] == old(self).data@[k],
            decreases code@.len() - i,
        {
            data.set(i, code[i]);
            i = i + 1;
        }
        std::mem::swap(&mut self.data, &mut data);
        proof {
            assert(self.data@ =~= old(self)@.with_bytes(old(self)@.base, code@).bytes);
        }
    }
}

impl RAM {
    #[verifier::type_invariant]
    spec fn fits(self) -> bool {
        self.start_address + self.data@.len() <= 0x1_0000_0000
    }

    /// A RAM of `size` zero bytes at `start_address`.
    pub fn new(start_address: u32, size: usize) -> (device: RAM)
        requires
            start_address + size <= 0x1_0000_0000,
        ensures
            device@.base == start_address,
            device@.bytes == Seq::new(size as nat, |i: int| 0u8),
            device@.wf(),
    {
        let data: Vec<u8> = vec![0u8; size];
        proof {
            assert(data@ =~= Seq::new(size as nat, |i: int| 0u8));
        }
        RAM { start_address, data }
    }

    /// The address of the first byte.
    pub fn start_address(&self) -> (base: u32)
        ensures
            base == self@.base,
    {
        self.start_address
    }

    /// The number of bytes in the device; the device ends within the address space.
    pub fn size(&self) -> (size: usize)
        ensures
            size == self@.bytes.len(),
            self@.wf(),
    {
        proof {
            use_type_invariant(self);
        }
        self.data.len()
    }
}

/// Flash serves reads; every write is refused with a bus fault and changes nothing.
impl Bus for FlashMemory {
    fn read8(&self, addr: u32) -> (out: Result<u8, Fault>)
        ensures
            out == self@.read8(addr),
    {
        proof {
            use_type_invariant(self);
        }
        device_read8(self.start_address, &self.data, addr)
    }

    fn read16(&self, addr: u32) -> (out: Result<u16, Fault>)
        ensures
            out == self@.read16(addr),
    {
        proof {
            use_type_invariant(self);
        }
        device_read16(self.start_address, &self.data, addr)
    }

    fn read32(&self, addr: u32) -> (out: Result<u32, Fault>)
        ensures
            out == self@.read32(addr),
    {
        proof {
            use_type_invariant(self);
        }
        device_read32(self.start_address, &self.data, addr)
    }

    fn write8(&mut self, addr: u32, value: u8) -> (out: Result<(), Fault>)
        ensures
            out == Err::<(), Fault>(Fault::BusFault),
            final(self)@ == old(self)@,
    {
        Err(Fault::BusFault)
    }

    fn write16(&mut self, addr: u32, value: u16) -> (out: Result<(), Fault>)
        ensures
            out == Err::<(), Fault>(Fault::BusFault),
            final(self)@ == old(self)@,
    {
        Err(Fault::BusFault)
    }

    fn write32(&mut self, addr: u32, value: u32) -> (out: Result<(), Fault>)
        ensures
            out == Err::<(), Fault>(Fault::BusFault),
            final(self)@ == old(self)@,
    {
        Err(Fault::BusFault)
    }

    fn in_range(&self, addr: u32) -> (inside: bool)
        ensures
            inside == self@.covers(addr, 1),
    {
        proof {
            use_type_invariant(self);
        }
        offset_in(self.start_address, self.data.len(), addr, 1).is_some()
    }
}

/// RAM serves reads and writes of every width.
impl Bus for RAM {
    fn read8(&self, addr: u32) -> (out: Result<u8, Fault>)
        ensures
            out == self@.read8(addr),
    {
        proof {
            use_type_invariant(self);
        }
        device_read8(self.start_address, &self.data, addr)
    }

    fn read16(&self, addr: u32) -> (out: Result<u16, Fault>)
        ensures
            out == self@.read16(addr),
    {
        proof {
            use_type_invariant(self);
        }
        device_read16(self.start_address, &self.data, addr)
    }

    fn read32(&self, addr: u32) -> (out: Result<u32, Fault>)
        ensures
            out == self@.read32(addr),
    {
        proof {
            use_type_invariant(self);
        }
        device_read32(self.start_address, &self.data, addr)
    }

    fn write8(&mut self, addr: u32, value: u8) -> (out: Result<(), Fault>)
        ensures
            write_outcome(old(self)@, final(self)@, out, old(self)@.write8(addr, value)),
    {
        proof {
            use_type_invariant(&*self);
        }
        let bytes: [u8; 1] = [value];
        let mut data: Vec<u8> = Vec::new();
        std::mem::swap(&mut self.data, &mut data);
        let out = device_write(self.start_address, &mut data, addr, bytes.as_slice());
        std::mem::swap(&mut self.data, &mut data);
        proof {
            assert(bytes@ =~= seq![value]);
        }
        out
    }

    fn write16(&mut self, addr: u32, value: u16) -> (out: Result<(), Fault>)
        ensures
            write_outcome(old(self)@, final(self)@, out, old(self)@.write16(addr, value)),
    {
        proof {
            use_type_invariant(&*self);
        }
        let bytes: [u8; 2] = le_bytes_u16(value);
        let mut data: Vec<u8> = Vec::new();
        std::mem::swap(&mut self.data, &mut data);
        let out = device_write(self.start_address, &mut data, addr, bytes.as_slice());
        std::mem::swap(&mut self.data, &mut data);
        proof {
            assert(bytes@ =~= spec_u16_to_le_bytes(value));
        }
        out
    }

    fn write32(&mut self, addr: u32, value: u32) -> (out: Result<(), Fault>)
        ensures
            write_outcome(old(self)@, final(self)@, out, old(self)@.write32(addr, value)),
    {
        proof {
            use_type_invariant(&*self);
        }
        let bytes: [u8; 4] = le_bytes_u32(value);
        let mut data: Vec<u8> = Vec::new();
        std::mem::swap(&mut self.data, &mut data);
        let out = device_write(self.start_address, &mut data, addr, bytes.as_slice());
        std::mem::swap(&mut self.data, &mut data);
        proof {
            assert(bytes@ =~= spec_u32_to_le_bytes(value));
        }
        out
    }

    fn in_range(&self, addr: u32) -> (inside: bool)
        ensures
            inside == self@.covers(addr, 1),
    {
        proof {
            use_type_invariant(self);
        }
        offset_in(self.start_address, self.data.len(), addr, 1).is_some()
    }
}

/// A word that was stored in a device is the word that is read from there,
/// and the device keeps its place and size.
pub proof fn lemma_word_read_back(region: Region, addr: u32, value: u32)
    requires
        region.covers(addr, 4),
    ensures
        region.write32(addr, value) matches Ok(after) && after.read32(addr) == Ok::<u32, Fault>(
            value,
        ) && after.base == region.base && after.bytes.len() == region.bytes.len(),
{
    vstd::bytes::lemma_auto_spec_u32_to_from_le_bytes();
    let after = region.with_bytes(addr, spec_u32_to_le_bytes(value));
    assert(after.slice(addr, 4) =~= spec_u32_to_le_bytes(value));
}

/// A word store leaves every word that it does not overlap as it was.
pub proof fn lemma_word_store_frame(region: Region, addr: u32, value: u32, other: u32)
    requires
        region.covers(addr, 4),
        addr + 4 <= other || other + 4 <= addr,
    ensures
        region.write32(addr, value) matches Ok(after) && after.read32(other) == region.read32(
            other,
        ),
{
    vstd::bytes::lemma_auto_spec_u32_to_from_le_bytes();
    let after = region.with_bytes(addr, spec_u32_to_le_bytes(value));
    if region.covers(other, 4) {
        assert(after.slice(other, 4) =~= region.slice(other, 4));
    }
}

} // verus!
