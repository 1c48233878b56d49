//! Memory behind the bus: what an implementation has to say of itself, the
//! little-endian accesses built on single bytes, and devices installed in
//! front of a memory.

use byteorder::{ByteOrder, LittleEndian};
use vstd::prelude::*;

verus! {

/// An access that no device answered, or a write to what cannot be written.
#[derive(Debug, Clone, Copy, PartialEq, Eq, Structural)]
pub struct BusFault {
    pub address: u32,
}

/// A memory as the core sees it: the byte behind each address that answers a
/// read, and the addresses that take a write.
pub struct MemoryMap {
    pub bytes: Map<u32, u8>,
    pub writable: Set<u32>,
}

/// The halfword whose bytes, low byte first, are `b0` and `b1`.
pub open spec fn u16_of_bytes(b0: u8, b1: u8) -> u16 {
    (b0 + 0x100 * b1) as u16
}

/// The word whose bytes, low byte first, are `b0` to `b3`.
pub open spec fn u32_of_bytes(b0: u8, b1: u8, b2: u8, b3: u8) -> u32 {
    (b0 + 0x100 * b1 + 0x1_0000 * b2 + 0x100_0000 * b3) as u32
}

/// Byte `i` of a word, counted from the low byte.
pub open spec fn byte_of(value: u32, i: int) -> u8 {
    if i == 0 {
        (value % 0x100) as u8
    } else if i == 1 {
        ((value / 0x100) % 0x100) as u8
    } else if i == 2 {
        ((value / 0x1_0000) % 0x100) as u8
    } else {
        (value / 0x100_0000) as u8
    }
}

/// The bytes of a word put together from four bytes are those bytes.
pub proof fn lemma_bytes_of_word(b0: u8, b1: u8, b2: u8, b3: u8)
    ensures
        byte_of(u32_of_bytes(b0, b1, b2, b3), 0) == b0,
        byte_of(u32_of_bytes(b0, b1, b2, b3), 1) == b1,
        byte_of(u32_of_bytes(b0, b1, b2, b3), 2) == b2,
        byte_of(u32_of_bytes(b0, b1, b2, b3), 3) == b3,
{
    let word: int = b0 + 0x100 * b1 + 0x1_0000 * b2 + 0x100_0000 * b3;
    assert(word / 0x100 == b1 + 0x100 * b2 + 0x1_0000 * b3);
    assert(word / 0x1_0000 == b2 + 0x100 * b3);
    assert(word / 0x100_0000 == b3);
}

/// A word is put together again from its four bytes.
pub proof fn lemma_word_of_bytes(value: u32)
    ensures
        u32_of_bytes(byte_of(value, 0), byte_of(value, 1), byte_of(value, 2), byte_of(value, 3))
            == value,
{
}

impl MemoryMap {
    /// What a read of one byte returns: the byte, or a fault where no byte
    /// answers.
    pub open spec fn read(self, address: u32) -> Result<u8, BusFault> {
        if self.bytes.dom().contains(address) {
            Ok(self.bytes[address])
        } else {
            Err(BusFault { address })
        }
    }

    /// The memory after a write, and whether the write was taken. A write
    /// that is not taken changes nothing.
    pub open spec fn write(self, address: u32, value: u8) -> (MemoryMap, Result<(), BusFault>) {
        if self.writable.contains(address) {
            (MemoryMap { bytes: self.bytes.insert(address, value), ..self }, Ok(()))
        } else {
            (self, Err(BusFault { address }))
        }
    }

    /// A halfword is read as two bytes, the low byte at the lower address.
    pub open spec fn read_u16(self, address: u32) -> Result<u16, BusFault> {
        match (self.read(address), self.read(address.wrapping_add(1))) {
            (Ok(b0), Ok(b1)) => Ok(u16_of_bytes(b0, b1)),
            (Err(e), _) => Err(e),
            (_, Err(e)) => Err(e),
        }
    }

    /// A word is read as four bytes, the low byte at the lowest address.
    pub open spec fn read_u32(self, address: u32) -> Result<u32, BusFault> {
        match (
            self.read(address),
            self.read(address.wrapping_add(1)),
            self.read(address.wrapping_add(2)),
            self.read(address.wrapping_add(3)),
        ) {
            (Ok(b0), Ok(b1), Ok(b2), Ok(b3)) => Ok(u32_of_bytes(b0, b1, b2, b3)),
            (Err(e), _, _, _) => Err(e),
            (_, Err(e), _, _) => Err(e),
            (_, _, Err(e), _) => Err(e),
            (_, _, _, Err(e)) => Err(e),
        }
    }

    /// A halfword is written byte by byte from the low byte up; the first
    /// byte that is not taken ends the write, and the bytes before it stay
    /// written.
    pub open spec fn write_u16(self, address: u32, value: u16) -> (
        MemoryMap,
        Result<(), BusFault>,
    ) {
        let first = self.write(address, byte_of(value as u32, 0));
        if first.1 is Err {
            first
        } else {
            first.0.write(address.wrapping_add(1), byte_of(value as u32, 1))
        }
    }

    /// A word is written byte by byte from the low byte up; the first byte
    /// that is not taken ends the write, and the bytes before it stay
    /// written.
    pub open spec fn write_u32(self, address: u32, value: u32) -> (
        MemoryMap,
        Result<(), BusFault>,
    ) {
        let first = self.write(address, byte_of(value, 0));
        if first.1 is Err {
            first
        } else {
            let second = first.0.write(address.wrapping_add(1), byte_of(value, 1));
            if second.1 is Err {
                second
            } else {
                let third = second.0.write(address.wrapping_add(2), byte_of(value, 2));
                if third.1 is Err {
                    third
                } else {
                    third.0.write(address.wrapping_add(3), byte_of(value, 3))
                }
            }
        }
    }
}

/// `byteorder::LittleEndian::read_u16` on a buffer of the two bytes given,
/// which returns the halfword that has the first as its low byte.
#[verifier::external_body]
pub(crate) fn little_endian_u16(b0: u8, b1: u8) -> (r: u16)
    ensures
        r == u16_of_bytes(b0, b1),
{
    LittleEndian::read_u16(&[b0, b1])
}

/// `byteorder::LittleEndian::read_u32` on a buffer of the four bytes given,
/// which returns the word that has the first as its low byte.
#[verifier::external_body]
pub(crate) fn little_endian_u32(b0: u8, b1: u8, b2: u8, b3: u8) -> (r: u32)
    ensures
        r == u32_of_bytes(b0, b1, b2, b3),
{
    LittleEndian::read_u32(&[b0, b1, b2, b3])
}

/// A byte-addressed memory behind the core's bus. An implementation says
/// through `map` what it holds; `read` and `write` are held to it.
pub trait MemoryInterface {
    spec fn map(&self) -> MemoryMap;

    fn read(&self, address: u32) -> (r: Result<u8, BusFault>)
        ensures
            r == self.map().read(address),
    ;

    fn write(&mut self, address: u32, value: u8) -> (r: Result<(), BusFault>)
        ensures
            (final(self).map(), r) == old(self).map().write(address, value),
    ;

    fn read_u16(&self, address: u32) -> (r: Result<u16, BusFault>)
        ensures
            r == self.map().read_u16(address),
    {
        let b0: u8 = match self.read(address) {
            Ok(b) => b,
            Err(e) => { return Err(e); },
        };
        let b1: u8 = match self.read(address.wrapping_add(1)) {
            Ok(b) => b,
            Err(e) => { return Err(e); },
        };
        Ok(little_endian_u16(b0, b1))
    }

    fn read_u32(&self, address: u32) -> (r: Result<u32, BusFault>)
        ensures
            r == self.map().read_u32(address),
    {
        let b0: u8 = match self.read(address) {
            Ok(b) => b,
            Err(e) => { return Err(e); },
        };
        let b1: u8 = match self.read(address.wrapping_add(1)) {
            Ok(b) => b,
            Err(e) => { return Err(e); },
        };
        let b2: u8 = match self.read(address.wrapping_add(2)) {
            Ok(b) => b,
            Err(e) => { return Err(e); },
        };
        let b3: u8 = match self.read(address.wrapping_add(3)) {
            Ok(b) => b,
            Err(e) => { return Err(e); },
        };
        Ok(little_endian_u32(b0, b1, b2, b3))
    }

    fn write_u16(&mut self, address: u32, value: u16) -> (r: Result<(), BusFault>)
        ensures
            (final(self).map(), r) == old(self).map().write_u16(address, value),
    {
        match self.write(address, (value % 0x100) as u8) {
            Ok(()) => {},
            Err(e) => { return Err(e); },
        }
        self.write(address.wrapping_add(1), (value / 0x100) as u8)
    }

    fn write_u32(&mut self, address: u32, value: u32) -> (r: Result<(), BusFault>)
        ensures
            (final(self).map(), r) == old(self).map().write_u32(address, value),
    {
        match self.write(address, (value % 0x100) as u8) {
            Ok(()) => {},
            Err(e) => { return Err(e); },
        }
        match self.write(address.wrapping_add(1), ((value / 0x100) % 0x100) as u8) {
            Ok(()) => {},
            Err(e) => { return Err(e); },
        }
        match self.write(address.wrapping_add(2), ((value / 0x1_0000) % 0x100) as u8) {
            Ok(()) => {},
            Err(e) => { return Err(e); },
        }
        self.write(address.wrapping_add(3), (value / 0x100_0000) as u8)
    }
}

/// A device installed in front of a memory: the device answers the addresses
/// from `first` to `last`, the memory behind it all the others. Whatever
/// window the memory behind has for these addresses is hidden, so that one
/// handler at most answers each byte.
pub struct Peripheral<D: MemoryInterface, M: MemoryInterface> {
    pub first: u32,
    pub last: u32,
    pub device: D,
    pub behind: M,
}

impl<D: MemoryInterface, M: MemoryInterface> Peripheral<D, M> {
    /// Whether the device answers an address.
    pub open spec fn covers(&self, address: u32) -> bool {
        self.first <= address <= self.last
    }
}

/// Installs `device` for the addresses from `first` to `last` in front of
/// `memory`.
pub fn install_peripheral<D: MemoryInterface, M: MemoryInterface>(
    memory: M,
    first: u32,
    last: u32,
    device: D,
) -> (r: Peripheral<D, M>)
    ensures
        r == (Peripheral { first, last, device, behind: memory }),
{
    Peripheral { first, last, device, behind: memory }
}

impl<D: MemoryInterface, M: MemoryInterface> MemoryInterface for Peripheral<D, M> {
    open spec fn map(&self) -> MemoryMap {
        MemoryMap {
            bytes: Map::new(
                |a: u32|
                    if self.covers(a) {
                        self.device.map().bytes.dom().contains(a)
                    } else {
                        self.behind.map().bytes.dom().contains(a)
                    },
                |a: u32|
                    if self.covers(a) {
                        self.device.map().bytes[a]
                    } else {
                        self.behind.map().bytes[a]
                    },
            ),
            writable: Set::new(
                |a: u32|
                    if self.covers(a) {
                        self.device.map().writable.contains(a)
                    } else {
                        self.behind.map().writable.contains(a)
                    },
            ),
        }
    }

    fn read(&self, address: u32) -> (r: Result<u8, BusFault>) {
        if self.first <= address && address <= self.last {
            self.device.read(address)
        } else {
            self.behind.read(address)
        }
    }

    fn write(&mut self, address: u32, value: u8) -> (r: Result<(), BusFault>) {
        if self.first <= address && address <= self.last {
            let r = self.device.write(address, value);
            assert(self.map().bytes =~= old(self).map().write(address, value).0.bytes);
            assert(self.map().writable =~= old(self).map().write(address, value).0.writable);
            r
        } else {
            let r = self.behind.write(address, value);
            assert(self.map().bytes =~= old(self).map().write(address, value).0.bytes);
            assert(self.map().writable =~= old(self).map().write(address, value).0.writable);
            r
        }
    }
}

} // verus!
