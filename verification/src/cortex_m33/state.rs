//! The processor, the plain state that its contracts speak of, and the bus
//! that decodes an address to the processor's own registers or to memory.

use super::apsr::Xpsr;
use super::control::Control;
use super::exception::Exceptions;
use super::nvic::Nvic;
use super::registers::{CortexM33Registers, RegisterFile};
use super::shpr::Shpr;
use crate::memory::{
    byte_of, little_endian_u16, little_endian_u32, u16_of_bytes, u32_of_bytes, BusFault,
    MemoryInterface, MemoryMap,
};
use vstd::prelude::*;

verus! {

broadcast use vstd::std_specs::hash::group_hash_axioms;

/// Thread mode runs the program, Handler mode an exception handler.
#[derive(Debug, Clone, Copy, PartialEq, Eq, Structural)]
pub enum Mode {
    Thread,
    Handler,
}

/// First address of the private peripheral bus.
pub const PPB_START: u32 = 0xe000_0000;

/// First address past the private peripheral bus.
pub const PPB_END: u32 = 0xe010_0000;

/// The interrupt enable word.
pub const NVIC_ISER: u32 = 0xe000_e100;

/// IPR0; IPR1 to IPR7 follow it.
pub const NVIC_IPR: u32 = 0xe000_e400;

/// The vector table offset register.
pub const SCB_VTOR: u32 = 0xe000_ed08;

/// System handler priority register 2.
pub const SCB_SHPR2: u32 = 0xe000_ed1c;

/// System handler priority register 3.
pub const SCB_SHPR3: u32 = 0xe000_ed20;

/// `word` with byte `lane`, counted from the low byte, replaced by `value`.
pub open spec fn with_byte(word: u32, lane: int, value: u8) -> u32 {
    let unit: int = if lane == 0 {
        1
    } else if lane == 1 {
        0x100
    } else if lane == 2 {
        0x1_0000
    } else {
        0x100_0000
    };
    (word - byte_of(word, lane) * unit + value * unit) as u32
}

/// `word` with byte `lane` replaced by `value`.
pub fn replace_byte(word: u32, lane: u32, value: u8) -> (r: u32)
    requires
        lane < 4,
    ensures
        r == with_byte(word, lane as int, value),
{
    if lane == 0 {
        word - word % 0x100 + value as u32
    } else if lane == 1 {
        word - ((word / 0x100) % 0x100) * 0x100 + (value as u32) * 0x100
    } else if lane == 2 {
        word - ((word / 0x1_0000) % 0x100) * 0x1_0000 + (value as u32) * 0x1_0000
    } else {
        word - (word / 0x100_0000) * 0x100_0000 + (value as u32) * 0x100_0000
    }
}

/// Byte `lane` of `word`, counted from the low byte.
pub fn byte_lane(word: u32, lane: u32) -> (r: u8)
    requires
        lane < 4,
    ensures
        r == byte_of(word, lane as int),
{
    if lane == 0 {
        (word % 0x100) as u8
    } else if lane == 1 {
        ((word / 0x100) % 0x100) as u8
    } else if lane == 2 {
        ((word / 0x1_0000) % 0x100) as u8
    } else {
        (word / 0x100_0000) as u8
    }
}

/// The processor as plain values: what its contracts speak of.
pub struct CpuState {
    pub regs: RegisterFile,
    pub xpsr: Xpsr,
    pub mode: Mode,
    pub control: Control,
    pub primask: bool,
    pub shpr: Shpr,
    pub nvic: Nvic,
    pub vtor: u32,
    pub svc_number: u8,
    pub active: Set<u8>,
    pub pending: Set<u8>,
    pub lockup: bool,
    pub unpredictable: bool,
    pub stop_requested: bool,
    pub memory: MemoryMap,
}

impl CpuState {
    /// The state out of reset over the memory given: every register zero,
    /// Thread mode, privileged, on the main stack, nothing pending or
    /// active, the vector table at address zero.
    pub open spec fn reset(memory: MemoryMap) -> CpuState {
        CpuState {
            regs: CortexM33Registers::new_spec(),
            xpsr: Xpsr::new_spec(),
            mode: Mode::Thread,
            control: Control::new_spec(),
            primask: false,
            shpr: Shpr { shpr2: 0, shpr3: 0 },
            nvic: Nvic::new_spec(),
            vtor: 0,
            svc_number: 0,
            active: Set::<u8>::empty(),
            pending: Set::<u8>::empty(),
            lockup: false,
            unpredictable: false,
            stop_requested: false,
            memory,
        }
    }

    /// The state with register `i` written; R13 and R15 keep their alignment.
    pub open spec fn with_reg(self, i: int, value: u32) -> CpuState {
        CpuState { regs: self.regs.write(i, value), ..self }
    }

    /// The state with exception `n` waiting to be taken.
    pub open spec fn pend(self, n: u8) -> CpuState {
        CpuState { pending: self.pending.insert(n), ..self }
    }

    /// Whether an address belongs to the private peripheral bus, which the
    /// processor's own registers answer.
    pub open spec fn in_ppb(address: u32) -> bool {
        PPB_START <= address < PPB_END
    }

    /// The register behind a word of the private peripheral bus; a word with
    /// no register behind it reads as zero.
    pub open spec fn ppb_word(self, address: u32) -> u32 {
        if address == NVIC_ISER {
            self.nvic.enabled
        } else if NVIC_IPR <= address < NVIC_IPR + 32 {
            self.nvic.ipr((address - NVIC_IPR) / 4)
        } else if address == SCB_VTOR {
            self.vtor
        } else if address == SCB_SHPR2 {
            self.shpr.shpr2
        } else if address == SCB_SHPR3 {
            self.shpr.shpr3
        } else {
            0
        }
    }

    /// The state with a word of the private peripheral bus replaced; a word
    /// with no register behind it takes the write and keeps nothing.
    pub open spec fn with_ppb_word(self, address: u32, value: u32) -> CpuState {
        if address == NVIC_ISER {
            CpuState { nvic: Nvic { enabled: value, ..self.nvic }, ..self }
        } else if NVIC_IPR <= address < NVIC_IPR + 32 {
            CpuState { nvic: self.nvic.with_ipr((address - NVIC_IPR) / 4, value), ..self }
        } else if address == SCB_VTOR {
            CpuState { vtor: value, ..self }
        } else if address == SCB_SHPR2 {
            CpuState { shpr: Shpr { shpr2: value, ..self.shpr }, ..self }
        } else if address == SCB_SHPR3 {
            CpuState { shpr: Shpr { shpr3: value, ..self.shpr }, ..self }
        } else {
            self
        }
    }

    /// A byte read over the bus: from the processor's registers on the
    /// private peripheral bus, from memory elsewhere.
    #[verifier::opaque]
    pub open spec fn load_u8(self, address: u32) -> Result<u8, BusFault> {
        if Self::in_ppb(address) {
            Ok(byte_of(self.ppb_word((address - address % 4) as u32), address as int % 4))
        } else {
            self.memory.read(address)
        }
    }

    /// A byte written over the bus, and whether the write was taken.
    #[verifier::opaque]
    pub open spec fn store_u8(self, address: u32, value: u8) -> (CpuState, Result<(), BusFault>) {
        if Self::in_ppb(address) {
            let word: u32 = (address - address % 4) as u32;
            (
                self.with_ppb_word(word, with_byte(self.ppb_word(word), address as int % 4, value)),
                Ok(()),
            )
        } else {
            let written = self.memory.write(address, value);
            (CpuState { memory: written.0, ..self }, written.1)
        }
    }

    /// A halfword is read as two bytes, the low byte at the lower address.
    pub open spec fn load_u16(self, address: u32) -> Result<u16, BusFault> {
        match (self.load_u8(address), self.load_u8(address.wrapping_add(1))) {
            (Ok(b0), Ok(b1)) => Ok(u16_of_bytes(b0, b1)),
            (Err(e), _) => Err(e),
            (_, Err(e)) => Err(e),
        }
    }

    /// A word is read as four bytes, the low byte at the lowest address.
    pub open spec fn load_u32(self, address: u32) -> Result<u32, BusFault> {
        match (
            self.load_u8(address),
            self.load_u8(address.wrapping_add(1)),
            self.load_u8(address.wrapping_add(2)),
            self.load_u8(address.wrapping_add(3)),
        ) {
            (Ok(b0), Ok(b1), Ok(b2), Ok(b3)) => Ok(u32_of_bytes(b0, b1, b2, b3)),
            (Err(e), _, _, _) => Err(e),
            (_, Err(e), _, _) => Err(e),
            (_, _, Err(e), _) => Err(e),
            (_, _, _, Err(e)) => Err(e),
        }
    }

    /// A halfword is written byte by byte from the low byte up; the first
    /// byte that is not taken ends the write.
    pub open spec fn store_u16(self, address: u32, value: u16) -> (
        CpuState,
        Result<(), BusFault>,
    ) {
        let first = self.store_u8(address, byte_of(value as u32, 0));
        if first.1 is Err {
            first
        } else {
            first.0.store_u8(address.wrapping_add(1), byte_of(value as u32, 1))
        }
    }

    /// A word is written byte by byte from the low byte up; the first byte
    /// that is not taken ends the write.
    pub open spec fn store_u32(self, address: u32, value: u32) -> (CpuState, Result<(), BusFault>) {
        let first = self.store_u8(address, byte_of(value, 0));
        if first.1 is Err {
            first
        } else {
            let second = first.0.store_u8(address.wrapping_add(1), byte_of(value, 1));
            if second.1 is Err {
                second
            } else {
                let third = second.0.store_u8(address.wrapping_add(2), byte_of(value, 2));
                if third.1 is Err {
                    third
                } else {
                    third.0.store_u8(address.wrapping_add(3), byte_of(value, 3))
                }
            }
        }
    }
}

/// The processor: registers, status, exception state, and the memory behind
/// its bus.
pub struct CortexM33<M: MemoryInterface> {
    pub registers: CortexM33Registers,
    pub xpsr: Xpsr,
    pub mode: Mode,
    pub exceptions: Exceptions,
    pub shpr: Shpr,
    pub nvic: Nvic,
    pub control: Control,
    pub primask: bool,
    pub vtor: u32,
    pub svc_number: u8,
    pub lockup: bool,
    pub unpredictable: bool,
    pub stop_requested: bool,
    pub memory: M,
}

impl<M: MemoryInterface> View for CortexM33<M> {
    type V = CpuState;

    open spec fn view(&self) -> CpuState {
        CpuState {
            regs: self.registers@,
            xpsr: self.xpsr,
            mode: self.mode,
            control: self.control,
            primask: self.primask,
            shpr: self.shpr,
            nvic: self.nvic,
            vtor: self.vtor,
            svc_number: self.svc_number,
            active: self.exceptions.active@,
            pending: self.exceptions.pending@,
            lockup: self.lockup,
            unpredictable: self.unpredictable,
            stop_requested: self.stop_requested,
            memory: self.memory.map(),
        }
    }
}

impl<M: MemoryInterface> CortexM33<M> {
    /// A processor out of reset, in Thread mode with nothing in flight, over
    /// the memory given.
    pub fn new(memory: M) -> (r: Self)
        ensures
            r@ == CpuState::reset(memory.map()),
            r.memory == memory,
            r.registers.numbered(),
    {
        Self {
            registers: CortexM33Registers::new(),
            xpsr: Xpsr::new(),
            mode: Mode::Thread,
            exceptions: Exceptions::new(),
            shpr: Shpr::new(),
            nvic: Nvic::new(),
            control: Control::new(),
            primask: false,
            vtor: 0,
            svc_number: 0,
            lockup: false,
            unpredictable: false,
            stop_requested: false,
            memory,
        }
    }

    /// Reads register `i`. The stack pointer reads as a multiple of four,
    /// the program counter as an even number.
    pub fn read_register(&self, i: u16) -> (r: u32)
        requires
            i < 16,
        ensures
            r == self@.regs.read(i as int),
            i == 13 ==> r % 4 == 0,
            i == 15 ==> r % 2 == 0,
    {
        self.registers.read(i)
    }

    /// Writes register `i`: the stack pointer keeps a multiple of four, the
    /// program counter an even number. Each register answers to the number
    /// it had.
    pub fn write_register(&mut self, i: u16, value: u32)
        requires
            i < 16,
        ensures
            final(self)@ == old(self)@.with_reg(i as int, value),
            final(self)@.regs.numbers == old(self)@.regs.numbers,
            final(self)@.regs.aligned(),
    {
        self.registers.write(i, value);
    }

    /// Marks exception `n` as waiting to be taken.
    pub fn pend(&mut self, n: u8)
        ensures
            final(self)@ == old(self)@.pend(n),
    {
        self.exceptions.pend(n);
    }

    fn ppb_read_word(&self, address: u32) -> (r: u32)
        requires
            CpuState::in_ppb(address),
            address % 4 == 0,
        ensures
            r == self@.ppb_word(address),
    {
        if address == NVIC_ISER {
            self.nvic.enabled
        } else if address >= NVIC_IPR && address < NVIC_IPR + 32 {
            self.nvic.index(((address - NVIC_IPR) / 4) as usize)
        } else if address == SCB_VTOR {
            self.vtor
        } else if address == SCB_SHPR2 {
            self.shpr.shpr2
        } else if address == SCB_SHPR3 {
            self.shpr.shpr3
        } else {
            0
        }
    }

    fn ppb_write_word(&mut self, address: u32, value: u32)
        requires
            CpuState::in_ppb(address),
            address % 4 == 0,
        ensures
            final(self)@ == old(self)@.with_ppb_word(address, value),
    {
        if address == NVIC_ISER {
            self.nvic.enabled = value;
        } else if address >= NVIC_IPR && address < NVIC_IPR + 32 {
            *self.nvic.index_mut(((address - NVIC_IPR) / 4) as usize) = value;
        } else if address == SCB_VTOR {
            self.vtor = value;
        } else if address == SCB_SHPR2 {
            self.shpr.shpr2 = value;
        } else if address == SCB_SHPR3 {
            self.shpr.shpr3 = value;
        }
    }

    /// Reads a byte over the bus.
    pub fn read_u8(&self, address: u32) -> (r: Result<u8, BusFault>)
        ensures
            r == self@.load_u8(address),
    {
        proof {
            reveal(CpuState::load_u8);
        }
        if address >= PPB_START && address < PPB_END {
            let word: u32 = self.ppb_read_word(address - address % 4);
            Ok(byte_lane(word, address % 4))
        } else {
            self.memory.read(address)
        }
    }

    /// Writes a byte over the bus.
    pub fn write_u8(&mut self, address: u32, value: u8) -> (r: Result<(), BusFault>)
        ensures
            (final(self)@, r) == old(self)@.store_u8(address, value),
    {
        proof {
            reveal(CpuState::store_u8);
        }
        if address >= PPB_START && address < PPB_END {
            let at: u32 = address - address % 4;
            let word: u32 = self.ppb_read_word(at);
            self.ppb_write_word(at, replace_byte(word, address % 4, value));
            Ok(())
        } else {
            self.memory.write(address, value)
        }
    }

    /// Reads a halfword over the bus, low byte first.
    pub fn read_u16(&self, address: u32) -> (r: Result<u16, BusFault>)
        ensures
            r == self@.load_u16(address),
    {
        let b0: u8 = match self.read_u8(address) {
            Ok(b) => b,
            Err(e) => { return Err(e); },
        };
        let b1: u8 = match self.read_u8(address.wrapping_add(1)) {
            Ok(b) => b,
            Err(e) => { return Err(e); },
        };
        Ok(little_endian_u16(b0, b1))
    }

    /// Reads a word over the bus, low byte first.
    pub fn read_u32(&self, address: u32) -> (r: Result<u32, BusFault>)
        ensures
            r == self@.load_u32(address),
    {
        let b0: u8 = match self.read_u8(address) {
            Ok(b) => b,
            Err(e) => { return Err(e); },
        };
        let b1: u8 = match self.read_u8(address.wrapping_add(1)) {
            Ok(b) => b,
            Err(e) => { return Err(e); },
        };
        let b2: u8 = match self.read_u8(address.wrapping_add(2)) {
            Ok(b) => b,
            Err(e) => { return Err(e); },
        };
        let b3: u8 = match self.read_u8(address.wrapping_add(3)) {
            Ok(b) => b,
            Err(e) => { return Err(e); },
        };
        Ok(little_endian_u32(b0, b1, b2, b3))
    }

    /// Writes a halfword over the bus, low byte first.
    pub fn write_u16(&mut self, address: u32, value: u16) -> (r: Result<(), BusFault>)
        ensures
            (final(self)@, r) == old(self)@.store_u16(address, value),
    {
        match self.write_u8(address, (value % 0x100) as u8) {
            Ok(()) => {},
            Err(e) => { return Err(e); },
        }
        self.write_u8(address.wrapping_add(1), (value / 0x100) as u8)
    }

    /// Writes a word over the bus, low byte first.
    pub fn write_u32(&mut self, address: u32, value: u32) -> (r: Result<(), BusFault>)
        ensures
            (final(self)@, r) == old(self)@.store_u32(address, value),
    {
        match self.write_u8(address, (value % 0x100) as u8) {
            Ok(()) => {},
            Err(e) => { return Err(e); },
        }
        match self.write_u8(address.wrapping_add(1), ((value / 0x100) % 0x100) as u8) {
            Ok(()) => {},
            Err(e) => { return Err(e); },
        }
        match self.write_u8(address.wrapping_add(2), ((value / 0x1_0000) % 0x100) as u8) {
            Ok(()) => {},
            Err(e) => { return Err(e); },
        }
        self.write_u8(address.wrapping_add(3), (value / 0x100_0000) as u8)
    }
}

} // verus!
