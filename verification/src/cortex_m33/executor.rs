//! The steps that instructions are made of, each held to its counterpart on
//! the plain state.

use super::apsr::Apsr;
use super::control::{Control, NPriv, SpSel};
use super::exception::{bx_write_pc, HARD_FAULT, USAGE_FAULT};
use super::operation::{add_with_carry, sxtb, sxth};
use super::registers::{Register, SpMode};
use super::semantics::{count_from, list_has};
use super::state::{CortexM33, CpuState, Mode};
use crate::memory::MemoryInterface;
use vstd::prelude::*;

verus! {

/// Whether register `i` is in a register list.
pub fn list_holds(list: u16, i: u16) -> (r: bool)
    requires
        i < 8,
    ensures
        r == list_has(list as int, i as int),
{
    match i {
        0 => list % 2 == 1,
        1 => (list / 2) % 2 == 1,
        2 => (list / 4) % 2 == 1,
        3 => (list / 8) % 2 == 1,
        4 => (list / 16) % 2 == 1,
        5 => (list / 32) % 2 == 1,
        6 => (list / 64) % 2 == 1,
        _ => (list / 128) % 2 == 1,
    }
}

/// How many of the registers R0 to R7 are in a register list.
pub fn count_listed(list: u16) -> (r: u32)
    ensures
        r == count_from(list as int, 0),
        r <= 8,
{
    let mut count: u32 = 0;
    let mut i: u16 = 8;
    while i > 0
        invariant
            i <= 8,
            count <= 8 - i,
            count == count_from(list as int, i as int),
        decreases i,
    {
        i = i - 1;
        if list_holds(list, i) {
            count = count + 1;
        }
    }
    count
}

impl<M: MemoryInterface> CortexM33<M> {
    /// Moves the program counter past the halfword just fetched.
    pub fn advance(&mut self)
        ensures
            final(self)@ == old(self)@.advance(),
    {
        let pc: u32 = self.registers.pc.get();
        self.write_register(15, pc.wrapping_add(2));
    }

    /// Reads register `i` as an instruction sees it after `advance`.
    pub fn operand(&self, i: u16) -> (r: u32)
        requires
            i < 16,
        ensures
            r == self@.operand(i as int),
    {
        if i == 15 {
            self.registers.pc.get().wrapping_add(2)
        } else {
            self.registers.read(i)
        }
    }

    /// The address that ADR and a literal load name.
    pub fn literal_address(&self, imm8: u16) -> (r: u32)
        requires
            imm8 < 0x100,
        ensures
            r == self@.literal_address(imm8 as int),
    {
        let address: u32 = self.registers.pc.get().wrapping_sub(2);
        let base: u32 = address - address % 4;
        base.wrapping_add(4).wrapping_add(imm8 as u32 * 4)
    }

    /// Sets N and Z from a result, C and V as given.
    pub fn set_nzcv(&mut self, result: u32, carry: bool, overflow: bool)
        ensures
            final(self)@ == old(self)@.with_nzcv(result, carry, overflow),
    {
        self.xpsr.apsr.set_n(result >= 0x8000_0000);
        self.xpsr.apsr.set_z(result == 0);
        self.xpsr.apsr.set_c(carry);
        self.xpsr.apsr.set_v(overflow);
    }

    /// Sets N and Z from a result and C as given; V stays.
    pub fn set_nzc(&mut self, result: u32, carry: bool)
        ensures
            final(self)@ == old(self)@.with_nzc(result, carry),
    {
        self.xpsr.apsr.set_n(result >= 0x8000_0000);
        self.xpsr.apsr.set_z(result == 0);
        self.xpsr.apsr.set_c(carry);
    }

    /// Sets N and Z from a result; C and V stay.
    pub fn set_nz(&mut self, result: u32)
        ensures
            final(self)@ == old(self)@.with_nz(result),
    {
        self.xpsr.apsr.set_n(result >= 0x8000_0000);
        self.xpsr.apsr.set_z(result == 0);
    }

    /// `x + y + carry_in` into register `rd`, with all four flags.
    pub fn add_to(&mut self, rd: u16, x: u32, y: u32, carry_in: bool)
        requires
            rd < 16,
        ensures
            final(self)@ == old(self)@.add_to(rd as int, x, y, carry_in),
    {
        let (result, carry, overflow) = add_with_carry(x, y, carry_in);
        self.write_register(rd, result);
        self.set_nzcv(result, carry, overflow);
    }

    /// The flags of `x + y + carry_in`.
    pub fn compare(&mut self, x: u32, y: u32, carry_in: bool)
        ensures
            final(self)@ == old(self)@.compare(x, y, carry_in),
    {
        let (result, carry, overflow) = add_with_carry(x, y, carry_in);
        self.set_nzcv(result, carry, overflow);
    }

    /// A result into register `rd`, with N, Z and the shifter's carry.
    pub fn move_to(&mut self, rd: u16, result: (u32, bool))
        requires
            rd < 16,
        ensures
            final(self)@ == old(self)@.move_to(rd as int, result),
    {
        self.write_register(rd, result.0);
        self.set_nzc(result.0, result.1);
    }

    /// Whether the code that runs is privileged.
    pub fn privileged(&self) -> (r: bool)
        ensures
            r == self@.privileged(),
    {
        self.mode == Mode::Handler || self.control.npriv == NPriv::ThreadModePrivileged
    }

    /// Loads a word into register `rt`; a bus fault makes HardFault pending.
    pub fn load_word_to(&mut self, rt: u16, address: u32)
        requires
            rt < 16,
        ensures
            final(self)@ == old(self)@.load_word_to(rt as int, address),
    {
        match self.read_u32(address) {
            Ok(value) => self.write_register(rt, value),
            Err(_) => self.pend(HARD_FAULT),
        }
    }

    /// Loads a halfword into register `rt`, zero-extended or sign-extended.
    pub fn load_half_to(&mut self, rt: u16, address: u32, signed: bool)
        requires
            rt < 16,
        ensures
            final(self)@ == old(self)@.load_half_to(rt as int, address, signed),
    {
        match self.read_u16(address) {
            Ok(value) => {
                let extended: u32 = if signed {
                    sxth(value as u32)
                } else {
                    value as u32
                };
                self.write_register(rt, extended)
            },
            Err(_) => self.pend(HARD_FAULT),
        }
    }

    /// Loads a byte into register `rt`, zero-extended or sign-extended.
    pub fn load_byte_to(&mut self, rt: u16, address: u32, signed: bool)
        requires
            rt < 16,
        ensures
            final(self)@ == old(self)@.load_byte_to(rt as int, address, signed),
    {
        match self.read_u8(address) {
            Ok(value) => {
                let extended: u32 = if signed {
                    sxtb(value as u32)
                } else {
                    value as u32
                };
                self.write_register(rt, extended)
            },
            Err(_) => self.pend(HARD_FAULT),
        }
    }

    /// Stores a word; a bus fault makes HardFault pending.
    pub fn store_word(&mut self, address: u32, value: u32)
        ensures
            final(self)@ == old(self)@.store_word(address, value),
    {
        match self.write_u32(address, value) {
            Ok(()) => {},
            Err(_) => self.pend(HARD_FAULT),
        }
    }

    /// Stores the low halfword of `value`.
    pub fn store_half(&mut self, address: u32, value: u32)
        ensures
            final(self)@ == old(self)@.store_half(address, value),
    {
        match self.write_u16(address, (value % 0x1_0000) as u16) {
            Ok(()) => {},
            Err(_) => self.pend(HARD_FAULT),
        }
    }

    /// Stores the low byte of `value`.
    pub fn store_byte(&mut self, address: u32, value: u32)
        ensures
            final(self)@ == old(self)@.store_byte(address, value),
    {
        match self.write_u8(address, (value % 0x100) as u8) {
            Ok(()) => {},
            Err(_) => self.pend(HARD_FAULT),
        }
    }

    /// Loads the low registers of `list` from ascending addresses; returns
    /// the address after the last word and whether every load was answered.
    pub fn load_multiple(&mut self, list: u16, address: u32) -> (r: (u32, bool))
        ensures
            (final(self)@, r.0, r.1) == old(self)@.load_multiple(list as int, 0, address),
    {
        let mut at: u32 = address;
        let mut i: u16 = 0;
        while i < 8
            invariant
                i <= 8,
                self@.load_multiple(list as int, i as int, at) == old(self)@.load_multiple(
                    list as int,
                    0,
                    address,
                ),
            decreases 8 - i,
        {
            if list_holds(list, i) {
                match self.read_u32(at) {
                    Ok(value) => {
                        self.write_register(i, value);
                        at = at.wrapping_add(4);
                    },
                    Err(_) => {
                        return (at, false);
                    },
                }
            }
            i = i + 1;
        }
        (at, true)
    }

    /// Stores the low registers of `list` at ascending addresses; returns
    /// the address after the last word and whether every store was taken.
    pub fn store_multiple(&mut self, list: u16, address: u32) -> (r: (u32, bool))
        ensures
            (final(self)@, r.0, r.1) == old(self)@.store_multiple(list as int, 0, address),
    {
        let mut at: u32 = address;
        let mut i: u16 = 0;
        while i < 8
            invariant
                i <= 8,
                self@.store_multiple(list as int, i as int, at) == old(self)@.store_multiple(
                    list as int,
                    0,
                    address,
                ),
            decreases 8 - i,
        {
            if list_holds(list, i) {
                let value: u32 = self.registers.read(i);
                match self.write_u32(at, value) {
                    Ok(()) => {
                        at = at.wrapping_add(4);
                    },
                    Err(_) => {
                        return (at, false);
                    },
                }
            }
            i = i + 1;
        }
        (at, true)
    }

    /// PUSH of the registers of `list`, and of LR if `with_lr`.
    pub fn push(&mut self, list: u16, with_lr: bool)
        ensures
            final(self)@ == old(self)@.push(list as int, with_lr),
    {
        proof {
            reveal(CpuState::push);
        }
        let listed: u32 = count_listed(list);
        let count: u32 = if with_lr {
            listed + 1
        } else {
            listed
        };
        let sp: u32 = self.registers.sp.get();
        let lr: u32 = self.registers.lr.get();
        let base: u32 = sp.wrapping_sub(4 * count);
        let (end, complete) = self.store_multiple(list, base);
        if !complete {
            self.pend(HARD_FAULT);
        } else if with_lr {
            match self.write_u32(end, lr) {
                Ok(()) => {
                    self.write_register(13, base);
                },
                Err(_) => {
                    self.pend(HARD_FAULT);
                },
            }
        } else {
            self.write_register(13, base);
        }
    }

    /// POP of the registers of `list`, and of the program counter if
    /// `with_pc`.
    pub fn pop(&mut self, list: u16, with_pc: bool)
        ensures
            final(self)@ == old(self)@.pop(list as int, with_pc),
    {
        proof {
            reveal(CpuState::pop);
        }
        let sp: u32 = self.registers.sp.get();
        let (end, complete) = self.load_multiple(list, sp);
        if !complete {
            self.pend(HARD_FAULT);
        } else if !with_pc {
            self.write_register(13, end);
        } else {
            match self.read_u32(end) {
                Ok(target) => {
                    self.write_register(13, end.wrapping_add(4));
                    bx_write_pc(self, target, HARD_FAULT);
                },
                Err(_) => {
                    self.pend(HARD_FAULT);
                },
            }
        }
    }

    /// Branches relative to the program counter as read.
    pub fn branch_by(&mut self, offset: u32)
        ensures
            final(self)@ == old(self)@.branch_by(offset),
    {
        let pc: u32 = self.operand(15);
        self.write_register(15, pc.wrapping_add(offset));
    }

    /// Branches relative to the program counter as read, with the return address in LR.
    pub fn branch_link(&mut self, offset: u32)
        ensures
            final(self)@ == old(self)@.branch_link(offset),
    {
        let next: u32 = self.registers.pc.get().wrapping_add(2);
        assert(next % 2 == 0);
        self.write_register(14, next + 1);
        self.write_register(15, next.wrapping_add(offset));
    }

    /// Branches to `target`, with the return address in LR.
    pub fn branch_link_exchange(&mut self, target: u32)
        ensures
            final(self)@ == old(self)@.branch_link_exchange(target),
    {
        let next: u32 = self.registers.pc.get();
        self.write_register(14, next + 1);
        bx_write_pc(self, target, USAGE_FAULT);
    }

    /// Reads the special register `sysm` for MRS.
    pub fn special_register(&self, sysm: u16) -> (r: u32)
        ensures
            r == self@.special_register(sysm as int),
    {
        if sysm / 8 == 0 {
            let flags: u32 = if (sysm / 4) % 2 == 0 {
                self.xpsr.apsr.into_u32()
            } else {
                0
            };
            let number: u32 = if sysm % 2 == 1 {
                self.xpsr.ipsr.into_u32()
            } else {
                0
            };
            flags | number
        } else if sysm == 8 {
            self.registers.sp.get_msp()
        } else if sysm == 9 {
            self.registers.sp.get_psp()
        } else if sysm == 16 {
            if self.primask {
                1
            } else {
                0
            }
        } else if sysm == 20 {
            self.control.into_u32()
        } else {
            0
        }
    }

    /// Writes the special register `sysm` for MSR.
    pub fn write_special_register(&mut self, sysm: u16, value: u32)
        ensures
            final(self)@ == old(self)@.with_special_register(sysm as int, value),
    {
        if sysm / 8 == 0 {
            if (sysm / 4) % 2 == 0 {
                let ge: u8 = self.xpsr.apsr.ge;
                let mut written: Apsr = Apsr::new();
                written.set_from_u32(value);
                written.ge = ge;
                self.xpsr.apsr = written;
            }
        } else if sysm == 8 {
            if self.privileged() {
                self.registers.sp.set_msp(value);
            }
        } else if sysm == 9 {
            if self.privileged() {
                self.registers.sp.set_psp(value);
            }
        } else if sysm == 16 {
            if self.privileged() {
                self.primask = value % 2 == 1;
            } else {
                self.pend(USAGE_FAULT);
            }
        } else if sysm == 20 {
            if !self.privileged() {
                self.pend(USAGE_FAULT);
            } else if self.mode == Mode::Handler {
                self.control.npriv = Control::from_u32(value).npriv;
            } else {
                let control: Control = Control::from_u32(value);
                self.control = control;
                self.registers.sp.set_mode(
                    if control.spsel == SpSel::SpProcess {
                        SpMode::Process
                    } else {
                        SpMode::Main
                    },
                );
            }
        }
    }
}

} // verus!
