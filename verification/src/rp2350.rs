//! The RP2350: its memory map, its memories, and the machine that a host
//! drives.

use crate::cortex_m33::apsr::Apsr;
use crate::cortex_m33::exception::{FIRST_EXCEPTION, LAST_EXCEPTION};
use crate::cortex_m33::instructions::{OpCode, Run, Stop};
use crate::cortex_m33::registers::Register;
use crate::cortex_m33::state::{CortexM33, CpuState};
use crate::hex::{load, load_spec, LoaderError};
use crate::memory::{BusFault, MemoryInterface, MemoryMap};
use vstd::prelude::*;
use vstd::string::StringSliceAdditionalSpecFns;

verus! {

/// First address of the XIP window, behind which the flash lies.
pub const FLASH_START_ADDRESS: u32 = 0x1000_0000;

/// First address past the XIP window.
pub const FLASH_END_ADDRESS: u32 = 0x1400_0000;

/// First address of SRAM.
pub const RAM_START_ADDRESS: u32 = 0x2000_0000;

/// First address of the APB peripherals, and the first past the SRAM window.
pub const APB_START_ADDRESS: u32 = 0x4000_0000;

/// First address of the AHB peripherals.
pub const AHB_START_ADDRESS: u32 = 0x5000_0000;

/// First address of the USB dual-port RAM, among the AHB peripherals.
pub const DPRAM_START_ADDRESS: u32 = 0x5010_0000;

/// First address past the AHB peripherals.
pub const AHB_END_ADDRESS: u32 = 0x6000_0000;

/// First address of the core-local peripherals.
pub const SIO_START_ADDRESS: u32 = 0xd000_0000;

/// First address of the private peripheral bus.
pub const PPB_START_ADDRESS: u32 = 0xe000_0000;

/// First address past the private peripheral bus.
pub const PPB_END_ADDRESS: u32 = 0xe010_0000;

/// Bytes of SRAM that are modeled: 520 KB in one piece.
pub const SRAM_SIZE: usize = 520 * 1024;

/// Bytes of flash that are modeled: 4 MB.
pub const FLASH_SIZE: usize = 4 * 1024 * 1024;

/// Whether an address lies in one of the windows of the memory map: ROM,
/// flash, SRAM, the APB and AHB peripherals, SIO, or the private peripheral
/// bus.
pub open spec fn is_mapped(address: u32) -> bool {
    ||| address < FLASH_END_ADDRESS
    ||| RAM_START_ADDRESS <= address < AHB_END_ADDRESS
    ||| SIO_START_ADDRESS <= address < PPB_END_ADDRESS
}

/// The memories of the RP2350: SRAM, and the flash behind the XIP window.
pub struct RP2350Memory {
    pub sram: Vec<u8>,
    pub flash: Vec<u8>,
}

impl RP2350Memory {
    /// The byte that a read of a mapped address returns: what flash or SRAM
    /// holds there, and zero where nothing is modeled.
    pub open spec fn byte_at(&self, address: u32) -> u8 {
        if FLASH_START_ADDRESS <= address < FLASH_END_ADDRESS && address - FLASH_START_ADDRESS
            < self.flash@.len() {
            self.flash@[address - FLASH_START_ADDRESS]
        } else if RAM_START_ADDRESS <= address < APB_START_ADDRESS && address - RAM_START_ADDRESS
            < self.sram@.len() {
            self.sram@[address - RAM_START_ADDRESS]
        } else {
            0
        }
    }

    /// Only modeled SRAM takes a write from the core.
    pub open spec fn takes_write(&self, address: u32) -> bool {
        RAM_START_ADDRESS <= address < APB_START_ADDRESS && address - RAM_START_ADDRESS
            < self.sram@.len()
    }

    /// SRAM zeroed, flash erased.
    pub fn new() -> (r: Self)
        ensures
            r.sram@ == Seq::new(SRAM_SIZE as nat, |i: int| 0u8),
            r.flash@ == Seq::new(FLASH_SIZE as nat, |i: int| 0xffu8),
    {
        let sram: Vec<u8> = vec![0u8; SRAM_SIZE];
        let flash: Vec<u8> = vec![0xffu8; FLASH_SIZE];
        assert(sram@ =~= Seq::new(SRAM_SIZE as nat, |i: int| 0u8));
        assert(flash@ =~= Seq::new(FLASH_SIZE as nat, |i: int| 0xffu8));
        Self { sram, flash }
    }
}

impl MemoryInterface for RP2350Memory {
    open spec fn map(&self) -> MemoryMap {
        MemoryMap {
            bytes: Map::new(|a: u32| is_mapped(a), |a: u32| self.byte_at(a)),
            writable: Set::new(|a: u32| self.takes_write(a)),
        }
    }

    fn read(&self, address: u32) -> (r: Result<u8, BusFault>) {
        if address >= FLASH_START_ADDRESS && address < FLASH_END_ADDRESS {
            let offset: usize = (address - FLASH_START_ADDRESS) as usize;
            if offset < self.flash.len() {
                Ok(self.flash[offset])
            } else {
                Ok(0)
            }
        } else if address >= RAM_START_ADDRESS && address < APB_START_ADDRESS {
            let offset: usize = (address - RAM_START_ADDRESS) as usize;
            if offset < self.sram.len() {
                Ok(self.sram[offset])
            } else {
                Ok(0)
            }
        } else if address < FLASH_START_ADDRESS || (address >= APB_START_ADDRESS && address
            < AHB_END_ADDRESS) || (address >= SIO_START_ADDRESS && address < PPB_END_ADDRESS) {
            Ok(0)
        } else {
            Err(BusFault { address })
        }
    }

    fn write(&mut self, address: u32, value: u8) -> (r: Result<(), BusFault>) {
        if address >= RAM_START_ADDRESS && address < APB_START_ADDRESS {
            let offset: usize = (address - RAM_START_ADDRESS) as usize;
            if offset < self.sram.len() {
                self.sram.set(offset, value);
                assert(self.map().bytes =~= old(self).map().bytes.insert(address, value));
                assert(self.map().writable =~= old(self).map().writable);
                return Ok(());
            }
        }
        Err(BusFault { address })
    }
}

/// The address `i` bytes after `address`, wrapping around at the end of the
/// address space.
pub open spec fn address_after(address: u32, i: int) -> u32 {
    ((address + i) % 0x1_0000_0000) as u32
}

/// The flags that a host can ask for by name.
#[derive(Debug, Clone, Copy, PartialEq, Eq, Structural)]
pub enum Flag {
    N,
    Z,
    C,
    V,
    Q,
}

impl Flag {
    /// The flag among the flags given.
    pub open spec fn of(self, apsr: Apsr) -> bool {
        match self {
            Flag::N => apsr.n,
            Flag::Z => apsr.z,
            Flag::C => apsr.c,
            Flag::V => apsr.v,
            Flag::Q => apsr.q,
        }
    }
}

/// The microcontroller: one Cortex-M33 over the memories of the RP2350.
pub struct RP2350 {
    pub cortex_m33: CortexM33<RP2350Memory>,
}

impl View for RP2350 {
    type V = CpuState;

    open spec fn view(&self) -> CpuState {
        self.cortex_m33@
    }
}

impl RP2350 {
    /// A processor out of reset over zeroed SRAM and erased flash.
    pub fn new() -> (r: Self)
        ensures
            r.cortex_m33.memory.sram@ == Seq::new(SRAM_SIZE as nat, |i: int| 0u8),
            r.cortex_m33.memory.flash@ == Seq::new(FLASH_SIZE as nat, |i: int| 0xffu8),
            r@ == CpuState::reset(r.cortex_m33.memory.map()),
            r.cortex_m33.registers.numbered(),
    {
        let memory: RP2350Memory = RP2350Memory::new();
        RP2350 { cortex_m33: CortexM33::new(memory) }
    }

    /// Loads an Intel HEX image into flash, whose first byte has the address
    /// `FLASH_START_ADDRESS`. Returns the number of records that were
    /// skipped because their type, though defined, carries nothing to load.
    /// After an error the flash keeps what the lines before the one refused
    /// wrote. Nothing but flash changes.
    pub fn load_hex(&mut self, source: &str) -> (r: Result<usize, LoaderError>)
        ensures
            (final(self).cortex_m33.memory.flash@, r) == load_spec(
                old(self).cortex_m33.memory.flash@,
                FLASH_START_ADDRESS,
                source.spec_bytes(),
                0,
                0,
                1,
                0,
            ),
            final(self).cortex_m33.memory.sram@ == old(self).cortex_m33.memory.sram@,
            final(self)@ == (CpuState {
                memory: final(self).cortex_m33.memory.map(),
                ..old(self)@
            }),
    {
        load(&mut self.cortex_m33.memory.flash, FLASH_START_ADDRESS, source.as_bytes())
    }

    /// Starts the image in flash: the vector table is at the start of flash.
    pub fn boot(&mut self) -> (r: Result<(), BusFault>)
        ensures
            (final(self)@, r) == old(self)@.start(FLASH_START_ADDRESS),
    {
        self.cortex_m33.start(FLASH_START_ADDRESS)
    }

    /// The halfword at the program counter.
    pub fn get_opcode(&self) -> (r: Result<OpCode, BusFault>)
        ensures
            r == (match self@.load_u16(self@.regs.pc) {
                Ok(code) => Ok(OpCode { code, address: self@.regs.pc }),
                Err(e) => Err(e),
            }),
    {
        let address: u32 = self.cortex_m33.registers.pc.get();
        OpCode::from_address(&self.cortex_m33, address)
    }

    /// Executes the instruction at the program counter. Each register
    /// answers to the number it had.
    pub fn execute_instruction(&mut self)
        ensures
            final(self)@ == old(self)@.execute_instruction(),
            final(self)@.regs.numbers == old(self)@.regs.numbers,
    {
        self.cortex_m33.execute_instruction();
    }

    /// One step: an instruction, then the exception to take, if any.
    /// Afterwards bit 0 of the program counter is clear and both stack
    /// pointers are multiples of four, and each register answers to the
    /// number it had.
    pub fn step(&mut self)
        ensures
            final(self)@ == old(self)@.step(),
            final(self)@.regs.aligned(),
            final(self)@.regs.numbers == old(self)@.regs.numbers,
            old(self)@.mode_fits_active() ==> final(self)@.mode_fits_active(),
    {
        self.cortex_m33.step();
    }

    /// Sets the program counter; bit 0 of the address is dropped.
    pub fn set_pc(&mut self, address: u32)
        ensures
            final(self)@ == old(self)@.with_reg(15, address),
    {
        self.cortex_m33.write_register(15, address);
    }

    /// The value of register `i`, for `i` up to 15.
    pub fn inspect_register(&self, i: u16) -> (r: Option<u32>)
        ensures
            r == (if i < 16 {
                Some(self@.regs.read(i as int))
            } else {
                None
            }),
    {
        if i < 16 {
            Some(self.cortex_m33.read_register(i))
        } else {
            None
        }
    }

    /// The value of a flag.
    pub fn inspect_flag(&self, flag: Flag) -> (r: bool)
        ensures
            r == flag.of(self@.xpsr.apsr),
    {
        match flag {
            Flag::N => self.cortex_m33.xpsr.apsr.n(),
            Flag::Z => self.cortex_m33.xpsr.apsr.z(),
            Flag::C => self.cortex_m33.xpsr.apsr.c(),
            Flag::V => self.cortex_m33.xpsr.apsr.v(),
            Flag::Q => self.cortex_m33.xpsr.apsr.q(),
        }
    }

    /// The `len` bytes from `address` on, as the bus reads them; the
    /// addresses wrap around at the end of the address space.
    pub fn read_memory(&self, address: u32, len: usize) -> (r: Result<Vec<u8>, BusFault>)
        ensures
            match r {
                Ok(bytes) => bytes@.len() == len && forall|i: int|
                    0 <= i < len ==> #[trigger] self@.load_u8(address_after(address, i)) == Ok::<
                        u8,
                        BusFault,
                    >(bytes@[i]),
                Err(e) => exists|i: int|
                    0 <= i < len && #[trigger] self@.load_u8(address_after(address, i)) == Err::<
                        u8,
                        BusFault,
                    >(e) && forall|j: int|
                        0 <= j < i ==> (#[trigger] self@.load_u8(address_after(address, j))) is Ok,
            },
    {
        let mut bytes: Vec<u8> = Vec::new();
        let mut at: u32 = address;
        let mut i: usize = 0;
        while i < len
            invariant
                i <= len,
                bytes@.len() == i,
                at == address_after(address, i as int),
                forall|j: int|
                    0 <= j < i ==> #[trigger] self@.load_u8(address_after(address, j)) == Ok::<
                        u8,
                        BusFault,
                    >(bytes@[j]),
            decreases len - i,
        {
            match self.cortex_m33.read_u8(at) {
                Ok(byte) => bytes.push(byte),
                Err(e) => {
                    assert(self@.load_u8(address_after(address, i as int)) == Err::<u8, BusFault>(e));
                    return Err(e);
                },
            }
            at = at.wrapping_add(1);
            i = i + 1;
        }
        Ok(bytes)
    }

    /// Makes exception `exception_number` pending, if it is a number from 1
    /// to 48; says whether it was.
    pub fn pend_interrupt(&mut self, exception_number: u8) -> (r: bool)
        ensures
            r == (1 <= exception_number <= 48),
            final(self)@ == (if r {
                old(self)@.pend(exception_number)
            } else {
                old(self)@
            }),
    {
        if exception_number >= FIRST_EXCEPTION && exception_number <= LAST_EXCEPTION {
            self.cortex_m33.pend(exception_number);
            true
        } else {
            false
        }
    }

    /// Steps until a stop has been requested, a fault has been raised, the
    /// predicate holds of the processor, or `max_steps` steps have been
    /// made, whichever comes first; the four are looked at in this order
    /// before each step.
    pub fn run_until<F: Fn(&CortexM33<RP2350Memory>) -> bool>(
        &mut self,
        predicate: F,
        max_steps: u64,
    ) -> (r: Run)
        requires
            forall|cortex: &CortexM33<RP2350Memory>| call_requires(predicate, (cortex,)),
        ensures
            r.steps <= max_steps,
            final(self)@ == old(self)@.steps(r.steps as nat),
            forall|k: nat|
                k < r.steps ==> !(#[trigger] old(self)@.steps(k)).stop_requested && !old(
                    self,
                )@.steps(k).faulted() && CortexM33::<RP2350Memory>::rejected(
                    predicate,
                    old(self)@.steps(k),
                ),
            match r.stop {
                Stop::Requested => final(self)@.stop_requested,
                Stop::Fault => !final(self)@.stop_requested && final(self)@.faulted(),
                Stop::Predicate => !final(self)@.stop_requested && !final(self)@.faulted()
                    && call_ensures(predicate, (&final(self).cortex_m33,), true),
                Stop::Budget => !final(self)@.stop_requested && !final(self)@.faulted()
                    && CortexM33::<RP2350Memory>::rejected(predicate, final(self)@) && r.steps
                    == max_steps,
            },
    {
        self.cortex_m33.run_until(predicate, max_steps)
    }

    /// Asks a run to end before its next instruction.
    pub fn request_stop(&mut self)
        ensures
            final(self)@ == (CpuState { stop_requested: true, ..old(self)@ }),
    {
        self.cortex_m33.stop_requested = true;
    }
}

} // verus!
