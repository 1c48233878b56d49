//! What each instruction does, as a function from the state before it to the
//! state after it. The executor is held to these functions.

use super::apsr::{Apsr, Ipsr, Xpsr};
use super::control::{Control, NPriv, SpSel};
use super::exception::{priority_spec, HARD_FAULT, SVCALL, USAGE_FAULT};
use super::instructions::{Instruction, InstructionType, OpCode};
use super::operation::{
    add_with_carry_spec, condition_passed_spec, decode_imm_shift_spec, is_negative, rev16_spec,
    rev_spec, revsh_spec, shift_c_spec, sxtb_spec, sxth_spec, uxtb_spec, uxth_spec, SRType,
};
use super::registers::{align_down, RegisterFile, Sp, SpMode};
use super::state::{CpuState, Mode};
use crate::memory::{byte_of, BusFault};
use vstd::prelude::*;

verus! {

/// The link value that returns to Handler mode on the main stack.
pub const EXC_RETURN_HANDLER: u32 = 0xffff_fff1;

/// The link value that returns to Thread mode on the main stack.
pub const EXC_RETURN_THREAD_MSP: u32 = 0xffff_fff9;

/// The link value that returns to Thread mode on the process stack.
pub const EXC_RETURN_THREAD_PSP: u32 = 0xffff_fffd;

/// Whether register `i` is in a register list: bit `i` of the list.
pub open spec fn list_has(list: int, i: int) -> bool {
    if i == 0 {
        list % 2 == 1
    } else if i == 1 {
        (list / 2) % 2 == 1
    } else if i == 2 {
        (list / 4) % 2 == 1
    } else if i == 3 {
        (list / 8) % 2 == 1
    } else if i == 4 {
        (list / 16) % 2 == 1
    } else if i == 5 {
        (list / 32) % 2 == 1
    } else if i == 6 {
        (list / 64) % 2 == 1
    } else {
        (list / 128) % 2 == 1
    }
}

/// How many of the registers from R`i` to R7 are in a register list.
pub open spec fn count_from(list: int, i: int) -> int
    decreases 8 - i,
{
    if i >= 8 {
        0
    } else {
        count_from(list, i + 1) + if list_has(list, i) {
            1int
        } else {
            0int
        }
    }
}

/// The offset of a branch: the immediate of `bits` bits, doubled, and read
/// as a signed number, in two's complement.
pub open spec fn branch_offset(imm: int, bits: int) -> u32 {
    if bits == 8 {
        if imm >= 0x80 {
            (imm * 2 + 0xffff_fe00) as u32
        } else {
            (imm * 2) as u32
        }
    } else {
        if imm >= 0x400 {
            (imm * 2 + 0xffff_f000) as u32
        } else {
            (imm * 2) as u32
        }
    }
}

/// The offset of BL: S:I1:I2:imm10:imm11:0 read as a signed number, where
/// I1 = NOT(J1 XOR S) and I2 = NOT(J2 XOR S).
pub open spec fn bl_offset(code: u16, code2: u16) -> u32 {
    let imm10: int = code as int % 0x400;
    let s: int = (code as int / 0x400) % 2;
    let imm11: int = code2 as int % 0x800;
    let j2: int = (code2 as int / 0x800) % 2;
    let j1: int = (code2 as int / 0x2000) % 2;
    let i1: int = if j1 == s {
        1
    } else {
        0
    };
    let i2: int = if j2 == s {
        1
    } else {
        0
    };
    (s * 0xff00_0000 + i1 * 0x80_0000 + i2 * 0x40_0000 + imm10 * 0x1000 + imm11 * 2) as u32
}

/// What the instructions that reverse bytes or extend a byte or a halfword
/// make of a word.
pub open spec fn rearranged(instruction: InstructionType, value: u32) -> u32 {
    match instruction {
        InstructionType::RevT1 => rev_spec(value),
        InstructionType::Rev16T1 => rev16_spec(value),
        InstructionType::RevshT1 => revsh_spec(value),
        InstructionType::SxtbT1 => sxtb_spec(value),
        InstructionType::SxthT1 => sxth_spec(value),
        InstructionType::UxtbT1 => uxtb_spec(value),
        _ => uxth_spec(value),
    }
}

/// The words of an exception frame, from the lowest address up.
#[derive(Debug, Clone, Copy, PartialEq, Eq, Structural)]
pub struct Frame {
    pub r0: u32,
    pub r1: u32,
    pub r2: u32,
    pub r3: u32,
    pub r12: u32,
    pub lr: u32,
    pub return_address: u32,
    pub xpsr: u32,
}

impl CpuState {
    /// The state once the instruction has been fetched: the program counter,
    /// with bit 0 cleared, has moved on by one halfword.
    pub open spec fn advance(self) -> CpuState {
        self.with_reg(15, self.regs.pc.wrapping_add(2))
    }

    /// What an instruction reads from register `i` after `advance`: the
    /// program counter reads as the instruction's address plus 4.
    pub open spec fn operand(self, i: int) -> u32 {
        if i == 15 {
            self.regs.pc.wrapping_add(2)
        } else {
            self.regs.read(i)
        }
    }

    /// The address that ADR and a literal load name after `advance`: four
    /// bytes and `imm8` words past the address of the instruction rounded
    /// down to a multiple of four.
    pub open spec fn literal_address(self, imm8: int) -> u32 {
        align_down(self.regs.pc.wrapping_sub(2), 4).wrapping_add(4).wrapping_add((imm8 * 4) as u32)
    }

    /// The state with the flags replaced.
    pub open spec fn with_apsr(self, apsr: Apsr) -> CpuState {
        CpuState { xpsr: Xpsr { apsr, ..self.xpsr }, ..self }
    }

    /// N and Z from the result, C and V as given.
    pub open spec fn with_nzcv(self, result: u32, carry: bool, overflow: bool) -> CpuState {
        self.with_apsr(
            Apsr {
                n: is_negative(result),
                z: result == 0,
                c: carry,
                v: overflow,
                ..self.xpsr.apsr
            },
        )
    }

    /// N and Z from the result, C as given, V as it was.
    pub open spec fn with_nzc(self, result: u32, carry: bool) -> CpuState {
        self.with_apsr(
            Apsr { n: is_negative(result), z: result == 0, c: carry, ..self.xpsr.apsr },
        )
    }

    /// N and Z from the result, C and V as they were.
    pub open spec fn with_nz(self, result: u32) -> CpuState {
        self.with_apsr(Apsr { n: is_negative(result), z: result == 0, ..self.xpsr.apsr })
    }

    /// `x + y + carry_in` into register `rd`, with all four flags.
    pub open spec fn add_to(self, rd: int, x: u32, y: u32, carry_in: bool) -> CpuState {
        let sum = add_with_carry_spec(x, y, carry_in);
        self.with_reg(rd, sum.0).with_nzcv(sum.0, sum.1, sum.2)
    }

    /// The flags of `x + y + carry_in`, the sum dropped.
    pub open spec fn compare(self, x: u32, y: u32, carry_in: bool) -> CpuState {
        let sum = add_with_carry_spec(x, y, carry_in);
        self.with_nzcv(sum.0, sum.1, sum.2)
    }

    /// A result into register `rd`, with N, Z and the shifter's carry.
    pub open spec fn move_to(self, rd: int, result: (u32, bool)) -> CpuState {
        self.with_reg(rd, result.0).with_nzc(result.0, result.1)
    }

    /// Handler mode is privileged whatever CONTROL says.
    pub open spec fn privileged(self) -> bool {
        self.mode == Mode::Handler || self.control.npriv == NPriv::ThreadModePrivileged
    }

    /// A word loaded into register `rt`; a bus fault leaves the register and
    /// makes HardFault pending.
    pub open spec fn load_word_to(self, rt: int, address: u32) -> CpuState {
        match self.load_u32(address) {
            Ok(value) => self.with_reg(rt, value),
            Err(_) => self.pend(HARD_FAULT),
        }
    }

    /// A halfword loaded into register `rt`, zero-extended or sign-extended.
    pub open spec fn load_half_to(self, rt: int, address: u32, signed: bool) -> CpuState {
        match self.load_u16(address) {
            Ok(value) => self.with_reg(
                rt,
                if signed {
                    sxth_spec(value as u32)
                } else {
                    value as u32
                },
            ),
            Err(_) => self.pend(HARD_FAULT),
        }
    }

    /// A byte loaded into register `rt`, zero-extended or sign-extended.
    pub open spec fn load_byte_to(self, rt: int, address: u32, signed: bool) -> CpuState {
        match self.load_u8(address) {
            Ok(value) => self.with_reg(
                rt,
                if signed {
                    sxtb_spec(value as u32)
                } else {
                    value as u32
                },
            ),
            Err(_) => self.pend(HARD_FAULT),
        }
    }

    /// A word stored; a bus fault makes HardFault pending.
    pub open spec fn store_word(self, address: u32, value: u32) -> CpuState {
        let stored = self.store_u32(address, value);
        if stored.1 is Ok {
            stored.0
        } else {
            stored.0.pend(HARD_FAULT)
        }
    }

    /// The low halfword of `value` stored.
    pub open spec fn store_half(self, address: u32, value: u32) -> CpuState {
        let stored = self.store_u16(address, (value % 0x1_0000) as u16);
        if stored.1 is Ok {
            stored.0
        } else {
            stored.0.pend(HARD_FAULT)
        }
    }

    /// The low byte of `value` stored.
    pub open spec fn store_byte(self, address: u32, value: u32) -> CpuState {
        let stored = self.store_u8(address, (value % 0x100) as u8);
        if stored.1 is Ok {
            stored.0
        } else {
            stored.0.pend(HARD_FAULT)
        }
    }

    /// The registers of `list` from R`i` up, loaded from ascending addresses
    /// that start at `address`: the state, the address after the last word
    /// transferred, and whether every load was answered. The first load
    /// that faults ends the transfer.
    pub open spec fn load_multiple(self, list: int, i: int, address: u32) -> (CpuState, u32, bool)
        decreases 8 - i,
    {
        if i >= 8 {
            (self, address, true)
        } else if list_has(list, i) {
            match self.load_u32(address) {
                Ok(value) => self.with_reg(i, value).load_multiple(
                    list,
                    i + 1,
                    address.wrapping_add(4),
                ),
                Err(_) => (self, address, false),
            }
        } else {
            self.load_multiple(list, i + 1, address)
        }
    }

    /// The registers of `list` from R`i` up, stored at ascending addresses
    /// that start at `address`: the state, the address after the last word
    /// transferred, and whether every store was taken. The first store that
    /// faults ends the transfer.
    pub open spec fn store_multiple(self, list: int, i: int, address: u32) -> (CpuState, u32, bool)
        decreases 8 - i,
    {
        if i >= 8 {
            (self, address, true)
        } else if list_has(list, i) {
            let stored = self.store_u32(address, self.regs.read(i));
            if stored.1 is Ok {
                stored.0.store_multiple(list, i + 1, address.wrapping_add(4))
            } else {
                (stored.0, address, false)
            }
        } else {
            self.store_multiple(list, i + 1, address)
        }
    }

    /// PUSH: the stack pointer moves down by four bytes for each register
    /// of the list, and for LR if it is pushed too; the registers are stored
    /// from there up in the order of their numbers, LR last. A store that
    /// faults leaves the stack pointer where it was and makes HardFault
    /// pending.
    #[verifier::opaque]
    pub open spec fn push(self, list: int, with_lr: bool) -> CpuState {
        let count: int = count_from(list, 0) + if with_lr {
            1int
        } else {
            0int
        };
        let base: u32 = self.regs.sp.current().wrapping_sub((4 * count) as u32);
        let stored = self.store_multiple(list, 0, base);
        if !stored.2 {
            stored.0.pend(HARD_FAULT)
        } else if with_lr {
            let last = stored.0.store_u32(stored.1, self.regs.lr);
            if last.1 is Ok {
                last.0.with_reg(13, base)
            } else {
                last.0.pend(HARD_FAULT)
            }
        } else {
            stored.0.with_reg(13, base)
        }
    }

    /// POP: the registers of the list are loaded from the stack pointer up
    /// in the order of their numbers, then the program counter if it is
    /// popped too, and the stack pointer moves up past what was loaded. A
    /// load that faults leaves the stack pointer where it was and makes
    /// HardFault pending. The value popped into the program counter is taken
    /// as BX takes it, but makes HardFault pending where bit 0 is clear.
    #[verifier::opaque]
    pub open spec fn pop(self, list: int, with_pc: bool) -> CpuState {
        let loaded = self.load_multiple(list, 0, self.regs.sp.current());
        if !loaded.2 {
            loaded.0.pend(HARD_FAULT)
        } else if !with_pc {
            loaded.0.with_reg(13, loaded.1)
        } else {
            match loaded.0.load_u32(loaded.1) {
                Ok(target) => loaded.0.with_reg(13, loaded.1.wrapping_add(4)).bx_write_pc(
                    target,
                    HARD_FAULT,
                ),
                Err(_) => loaded.0.pend(HARD_FAULT),
            }
        }
    }

    /// What an exception return that cannot be carried out leaves: the event
    /// is recorded and HardFault is pending.
    pub open spec fn illegal_return(self) -> CpuState {
        CpuState { unpredictable: true, ..self.pend(HARD_FAULT) }
    }

    /// The eight words of the frame at `frameptr`, if all of them can be
    /// read.
    pub open spec fn frame_at(self, frameptr: u32) -> Option<Frame> {
        match (
            self.load_u32(frameptr),
            self.load_u32(frameptr.wrapping_add(0x04)),
            self.load_u32(frameptr.wrapping_add(0x08)),
            self.load_u32(frameptr.wrapping_add(0x0c)),
            self.load_u32(frameptr.wrapping_add(0x10)),
            self.load_u32(frameptr.wrapping_add(0x14)),
            self.load_u32(frameptr.wrapping_add(0x18)),
            self.load_u32(frameptr.wrapping_add(0x1c)),
        ) {
            (Ok(r0), Ok(r1), Ok(r2), Ok(r3), Ok(r12), Ok(lr), Ok(return_address), Ok(xpsr)) => Some(
                Frame { r0, r1, r2, r3, r12, lr, return_address, xpsr },
            ),
            _ => None,
        }
    }

    /// Whether the link value `exc_return` can be honoured in this state:
    /// bits 27:4 are ones, the exception named by IPSR is active, and the
    /// low four bits ask for Handler mode with another exception still
    /// active, or for Thread mode with none.
    pub open spec fn return_is_legal(self, exc_return: u32) -> bool {
        let selector: int = exc_return as int % 16;
        &&& (exc_return / 16) % 0x100_0000 == 0xff_ffff
        &&& self.xpsr.ipsr.0 < 256
        &&& self.active.contains(self.xpsr.ipsr.0 as u8)
        &&& self.active.finite()
        &&& (selector == 1 && self.active.len() > 1) || ((selector == 9 || selector == 13)
            && self.active.len() == 1)
    }

    /// The state with the frame `f` unstacked from `frameptr` on a return
    /// that `exc_return` asks for. Bit 9 of the stacked status word says
    /// whether the stack pointer was moved down by four more bytes to align
    /// the frame.
    pub open spec fn popstack(self, f: Frame, frameptr: u32, exc_return: u32) -> CpuState {
        let to_process: bool = exc_return % 16 == 13;
        let padding: u32 = if (f.xpsr / 0x200) % 2 == 1 {
            4
        } else {
            0
        };
        let sp_value: u32 = align_down(frameptr.wrapping_add(0x20).wrapping_add(padding), 4);
        let sp: Sp = if to_process {
            Sp { psp: sp_value, mode: SpMode::Process, ..self.regs.sp }
        } else {
            Sp { msp: sp_value, mode: SpMode::Main, ..self.regs.sp }
        };
        CpuState {
            regs: RegisterFile {
                r: self.regs.r.update(0, f.r0).update(1, f.r1).update(2, f.r2).update(
                    3,
                    f.r3,
                ).update(12, f.r12),
                sp,
                lr: f.lr,
                pc: align_down(f.return_address, 2),
                ..self.regs
            },
            xpsr: Xpsr::unpack((f.xpsr - ((f.xpsr / 0x200) % 2) * 0x200) as u32),
            ..self
        }
    }

    /// Return from an exception, asked for by a link value loaded into the
    /// program counter in Handler mode. The exception named by IPSR leaves
    /// the active set, the frame is unstacked from the stack that the link
    /// value names, and execution goes on in the mode it names. Where the
    /// link value is not legal, the frame cannot be read, or the exception
    /// number in the frame does not fit the mode returned to, nothing is
    /// unstacked.
    #[verifier::opaque]
    pub open spec fn exception_return(self, exc_return: u32) -> CpuState {
        let selector: int = exc_return as int % 16;
        let frameptr: u32 = if selector == 13 {
            self.regs.sp.psp
        } else {
            self.regs.sp.msp
        };
        if !self.return_is_legal(exc_return) {
            self.illegal_return()
        } else {
            match self.frame_at(frameptr) {
                None => self.illegal_return(),
                Some(f) => {
                    let number: int = f.xpsr as int % 0x200;
                    let remaining: Set<u8> = self.active.remove(self.xpsr.ipsr.0 as u8);
                    let fits: bool = if selector == 1 {
                        0 < number < 256 && remaining.contains(number as u8)
                    } else {
                        number == 0
                    };
                    if !fits {
                        self.illegal_return()
                    } else {
                        CpuState {
                            active: remaining,
                            mode: if selector == 1 {
                                Mode::Handler
                            } else {
                                Mode::Thread
                            },
                            control: Control {
                                spsel: if selector == 13 {
                                    SpSel::SpProcess
                                } else {
                                    SpSel::SpMain
                                },
                                ..self.control
                            },
                            ..self.popstack(f, frameptr, exc_return)
                        }
                    }
                },
            }
        }
    }

    /// A value loaded into the program counter by BX, BLX or POP. In Handler
    /// mode a value whose top four bits are ones asks for an exception
    /// return. Otherwise the program counter takes the value without bit 0,
    /// and a value whose bit 0 is clear makes `fault` pending.
    pub open spec fn bx_write_pc(self, target: u32, fault: u8) -> CpuState {
        if self.mode == Mode::Handler && target / 0x1000_0000 == 0xf {
            self.exception_return(target)
        } else if target % 2 == 0 {
            self.with_reg(15, target).pend(fault)
        } else {
            self.with_reg(15, target)
        }
    }

    /// A branch relative to the program counter as read.
    pub open spec fn branch_by(self, offset: u32) -> CpuState {
        self.with_reg(15, self.operand(15).wrapping_add(offset))
    }

    /// A relative branch that leaves in LR the address of the instruction
    /// after this one of two halfwords, with bit 0 set.
    pub open spec fn branch_link(self, offset: u32) -> CpuState {
        self.with_reg(14, (self.operand(15) + 1) as u32).with_reg(
            15,
            self.operand(15).wrapping_add(offset),
        )
    }

    /// A branch to the address in a register that leaves in LR the address
    /// of the instruction after this one, with bit 0 set.
    pub open spec fn branch_link_exchange(self, target: u32) -> CpuState {
        self.with_reg(14, (self.regs.pc + 1) as u32).bx_write_pc(target, USAGE_FAULT)
    }

    /// The value that MRS reads from the special register `sysm`.
    pub open spec fn special_register(self, sysm: int) -> u32 {
        if sysm / 8 == 0 {
            let flags: u32 = if (sysm / 4) % 2 == 0 {
                self.xpsr.apsr.pack()
            } else {
                0
            };
            let number: u32 = if sysm % 2 == 1 {
                self.xpsr.ipsr.pack()
            } else {
                0
            };
            flags | number
        } else if sysm == 8 {
            self.regs.sp.msp
        } else if sysm == 9 {
            self.regs.sp.psp
        } else if sysm == 16 {
            if self.primask {
                1
            } else {
                0
            }
        } else if sysm == 20 {
            self.control.pack()
        } else {
            0
        }
    }

    /// The state after MSR has written `value` to the special register
    /// `sysm`. The flags N, Z, C, V and Q can be written from any mode. The
    /// stack pointers take a write in privileged code only. A write to
    /// PRIMASK or CONTROL from unprivileged code makes UsageFault pending;
    /// in Handler mode CONTROL keeps its stack selection.
    pub open spec fn with_special_register(self, sysm: int, value: u32) -> CpuState {
        if sysm / 8 == 0 {
            if (sysm / 4) % 2 == 0 {
                let written: Apsr = Apsr::unpack(value);
                self.with_apsr(Apsr { ge: self.xpsr.apsr.ge, ..written })
            } else {
                self
            }
        } else if sysm == 8 {
            if self.privileged() {
                CpuState {
                    regs: RegisterFile {
                        sp: Sp { msp: align_down(value, 4), ..self.regs.sp },
                        ..self.regs
                    },
                    ..self
                }
            } else {
                self
            }
        } else if sysm == 9 {
            if self.privileged() {
                CpuState {
                    regs: RegisterFile {
                        sp: Sp { psp: align_down(value, 4), ..self.regs.sp },
                        ..self.regs
                    },
                    ..self
                }
            } else {
                self
            }
        } else if sysm == 16 {
            if self.privileged() {
                CpuState { primask: value % 2 == 1, ..self }
            } else {
                self.pend(USAGE_FAULT)
            }
        } else if sysm == 20 {
            if !self.privileged() {
                self.pend(USAGE_FAULT)
            } else if self.mode == Mode::Handler {
                CpuState {
                    control: Control { npriv: Control::unpack(value).npriv, ..self.control },
                    ..self
                }
            } else {
                let control: Control = Control::unpack(value);
                CpuState {
                    control,
                    regs: RegisterFile {
                        sp: Sp {
                            mode: if control.spsel == SpSel::SpProcess {
                                SpMode::Process
                            } else {
                                SpMode::Main
                            },
                            ..self.regs.sp
                        },
                        ..self.regs
                    },
                    ..self
                }
            }
        } else {
            self
        }
    }
}

impl CpuState {
    /// The link value that an exception taken now leaves in LR: it names the
    /// mode and the stack to come back to.
    pub open spec fn exc_return_value(self) -> u32 {
        if self.mode == Mode::Handler {
            EXC_RETURN_HANDLER
        } else if self.control.spsel == SpSel::SpProcess {
            EXC_RETURN_THREAD_PSP
        } else {
            EXC_RETURN_THREAD_MSP
        }
    }

    /// Where the frame of an exception taken now goes: 32 bytes below the
    /// stack pointer, and lower still by what it takes to reach a multiple
    /// of eight.
    pub open spec fn frame_pointer(self) -> u32 {
        align_down(self.regs.sp.current().wrapping_sub(0x20), 8)
    }

    /// Whether the frame had to be moved down to be aligned.
    pub open spec fn frame_padded(self) -> bool {
        self.regs.sp.current().wrapping_sub(0x20) % 8 != 0
    }

    /// The words of the frame of an exception taken now: R0 to R3, R12, LR,
    /// the address to come back to, and the status word, in which bit 9
    /// says whether the frame was moved down.
    pub open spec fn frame_words(self) -> Seq<u32> {
        let image: u32 = self.xpsr.pack();
        let status: u32 = (image - ((image / 0x200) % 2) * 0x200 + if self.frame_padded() {
            0x200int
        } else {
            0int
        }) as u32;
        seq![
            self.regs.r[0],
            self.regs.r[1],
            self.regs.r[2],
            self.regs.r[3],
            self.regs.r[12],
            self.regs.lr,
            self.regs.pc,
            status,
        ]
    }

    /// The words from `words[i]` on, stored at ascending addresses that
    /// start at `address`, and whether every store was taken. The first
    /// store that faults ends the transfer.
    pub open spec fn store_words(self, words: Seq<u32>, i: int, address: u32) -> (CpuState, bool)
        decreases words.len() - i,
    {
        if i < 0 || i >= words.len() {
            (self, true)
        } else {
            let stored = self.store_u32(address, words[i]);
            if stored.1 is Ok {
                stored.0.store_words(words, i + 1, address.wrapping_add(4))
            } else {
                (stored.0, false)
            }
        }
    }

    /// What is left when exception `e` cannot be taken: HardFault becomes
    /// pending, and where it was HardFault that could not be taken, or
    /// HardFault is active already, the processor locks up.
    pub open spec fn fail_to_take(self, e: u8) -> CpuState {
        if e == HARD_FAULT || self.active.contains(HARD_FAULT) {
            CpuState { lockup: true, ..self }
        } else {
            self.pend(HARD_FAULT)
        }
    }

    /// Entry into the handler of exception `e` once its frame is on the
    /// stack: the stack pointer in use moves to the frame, LR takes the link
    /// value and the program counter the vector; `e` stops pending and
    /// becomes active, and the processor is in Handler mode on the main
    /// stack.
    pub open spec fn enter_handler(self, e: u8, frameptr: u32, link: u32, vector: u32) -> CpuState {
        CpuState {
            regs: RegisterFile {
                sp: Sp {
                    mode: SpMode::Main,
                    ..self.regs.sp.with_current(align_down(frameptr, 4))
                },
                lr: link,
                pc: align_down(vector, 2),
                ..self.regs
            },
            xpsr: Xpsr { ipsr: Ipsr(e as u16), ..self.xpsr },
            mode: Mode::Handler,
            control: Control { spsel: SpSel::SpMain, ..self.control },
            active: self.active.insert(e),
            pending: self.pending.remove(e),
            ..self
        }
    }

    /// Taking exception `e`: the frame is pushed on the stack in use, the
    /// program counter takes the entry of `e` in the vector table, LR the
    /// link value; `e` stops pending and becomes active, and the processor
    /// is in Handler mode on the main stack. The exception cannot be taken
    /// where its vector cannot be read or has bit 0 clear, or where the
    /// frame cannot be written.
    pub open spec fn take_exception(self, e: u8) -> CpuState {
        match self.load_u32(self.vtor.wrapping_add((4 * e) as u32)) {
            Err(_) => self.fail_to_take(e),
            Ok(vector) => if vector % 2 == 0 {
                self.fail_to_take(e)
            } else {
                let frameptr: u32 = self.frame_pointer();
                let pushed = self.store_words(self.frame_words(), 0, frameptr);
                if !pushed.1 {
                    pushed.0.fail_to_take(e)
                } else {
                    pushed.0.enter_handler(e, frameptr, self.exc_return_value(), vector)
                }
            },
        }
    }

    /// The priority of exception `n` in this state.
    pub open spec fn priority(self, n: u8) -> int {
        priority_spec(self.shpr, self.nvic, n)
    }

    /// The highest priority among the active exceptions numbered up to `n`;
    /// 5, below every exception, where there is none.
    pub open spec fn active_priority(self, n: int) -> int
        decreases n,
    {
        if n <= 0 {
            5
        } else {
            let rest: int = self.active_priority(n - 1);
            if self.active.contains(n as u8) && self.priority(n as u8) < rest {
                self.priority(n as u8)
            } else {
                rest
            }
        }
    }

    /// The priority that the processor runs at: that of the active
    /// exceptions, raised to 0 while PRIMASK is set.
    pub open spec fn execution_priority(self) -> int {
        let active: int = self.active_priority(48);
        if self.primask && active > 0 {
            0
        } else {
            active
        }
    }

    /// Whether exception `n` can be taken now: it is pending, it is enabled
    /// if it is an external interrupt, and it outranks what runs.
    pub open spec fn can_take(self, n: u8) -> bool {
        &&& 1 <= n <= 48
        &&& self.pending.contains(n)
        &&& 16 <= n <= 47 ==> self.nvic.is_enabled_spec(n - 16)
        &&& self.priority(n) < self.execution_priority()
    }

    /// Among the exceptions numbered up to `n` that can be taken, the one of
    /// the highest priority, and of those the one with the lowest number.
    pub open spec fn best_pending(self, n: int) -> Option<u8>
        decreases n,
    {
        if n <= 0 {
            None
        } else {
            let rest: Option<u8> = self.best_pending(n - 1);
            if self.can_take(n as u8) && (rest matches Some(m) ==> self.priority(n as u8)
                < self.priority(m)) {
                Some(n as u8)
            } else {
                rest
            }
        }
    }

    /// What happens between two instructions: a pending HardFault while
    /// HardFault is active locks the processor up; otherwise the exception
    /// to take, if there is one, is taken.
    pub open spec fn service(self) -> CpuState {
        if self.lockup {
            self
        } else if self.pending.contains(HARD_FAULT) && self.active.contains(HARD_FAULT) {
            CpuState { lockup: true, ..self }
        } else {
            match self.best_pending(48) {
                Some(e) => self.take_exception(e),
                None => self,
            }
        }
    }

    /// The instruction at the program counter, executed. A fetch that faults
    /// makes HardFault pending. The halfword after the first reads as zero
    /// where it cannot be read. An encoding that is not recognised makes
    /// UsageFault pending and is stepped over.
    pub open spec fn execute_instruction(self) -> CpuState {
        match self.load_u16(self.regs.pc) {
            Err(_) => self.pend(HARD_FAULT),
            Ok(code) => OpCode { code, address: self.regs.pc }.execute_spec(self),
        }
    }

    /// One step: nothing when the processor is locked up; otherwise one
    /// instruction, and then what happens between two instructions.
    pub open spec fn step(self) -> CpuState {
        if self.lockup {
            self
        } else {
            self.execute_instruction().service()
        }
    }
}

impl CpuState {
    /// Whether two states differ at most in what a store can change: memory,
    /// and the registers behind the private peripheral bus.
    pub open spec fn same_but_stores(self, other: CpuState) -> bool {
        other == (CpuState {
            memory: other.memory,
            nvic: other.nvic,
            shpr: other.shpr,
            vtor: other.vtor,
            ..self
        })
    }
}

/// A store over the bus changes memory and the registers behind the private
/// peripheral bus, and nothing else.
pub proof fn lemma_store_byte_keeps(s: CpuState, address: u32, value: u8)
    ensures
        s.same_but_stores(s.store_u8(address, value).0),
{
    reveal(CpuState::store_u8);
}

/// A word stored over the bus changes memory and the registers behind the
/// private peripheral bus, and nothing else.
pub proof fn lemma_store_keeps(s: CpuState, address: u32, value: u32)
    ensures
        s.same_but_stores(s.store_u32(address, value).0),
{
    let first = s.store_u8(address, byte_of(value, 0));
    lemma_store_byte_keeps(s, address, byte_of(value, 0));
    if first.1 is Ok {
        let second = first.0.store_u8(address.wrapping_add(1), byte_of(value, 1));
        lemma_store_byte_keeps(first.0, address.wrapping_add(1), byte_of(value, 1));
        if second.1 is Ok {
            let third = second.0.store_u8(address.wrapping_add(2), byte_of(value, 2));
            lemma_store_byte_keeps(second.0, address.wrapping_add(2), byte_of(value, 2));
            if third.1 is Ok {
                lemma_store_byte_keeps(third.0, address.wrapping_add(3), byte_of(value, 3));
            }
        }
    }
}

/// Storing a run of words changes memory and the registers behind the
/// private peripheral bus, and nothing else.
pub proof fn lemma_store_words_keeps(s: CpuState, words: Seq<u32>, i: int, address: u32)
    ensures
        s.same_but_stores(s.store_words(words, i, address).0),
    decreases words.len() - i,
{
    if 0 <= i < words.len() {
        lemma_store_keeps(s, address, words[i]);
        let stored = s.store_u32(address, words[i]);
        if stored.1 is Ok {
            lemma_store_words_keeps(stored.0, words, i + 1, address.wrapping_add(4));
        }
    }
}

impl CpuState {
    /// The state in which the program whose vector table is at `table`
    /// starts: the main stack pointer holds the first word of the table and
    /// the program counter the second, and the processor takes its vectors
    /// from the table. Nothing changes if either word cannot be read.
    pub open spec fn start(self, table: u32) -> (CpuState, Result<(), BusFault>) {
        match (self.load_u32(table), self.load_u32(table.wrapping_add(4))) {
            (Ok(stack), Ok(entry)) => (
                CpuState {
                    regs: RegisterFile {
                        sp: Sp { msp: align_down(stack, 4), ..self.regs.sp },
                        pc: align_down(entry, 2),
                        ..self.regs
                    },
                    vtor: table,
                    ..self
                },
                Ok(()),
            ),
            (Err(e), _) => (self, Err(e)),
            (_, Err(e)) => (self, Err(e)),
        }
    }

    /// The state after `n` steps.
    pub open spec fn steps(self, n: nat) -> CpuState
        decreases n,
    {
        if n == 0 {
            self
        } else {
            self.steps((n - 1) as nat).step()
        }
    }

    /// Whether a fault has been raised: the processor has locked up, or
    /// HardFault is pending or active.
    pub open spec fn faulted(self) -> bool {
        self.lockup || self.pending.contains(HARD_FAULT) || self.active.contains(HARD_FAULT)
    }
}

/// The variant that a halfword and the one after it encode.
pub open spec fn decode_spec(code: u16, code2: u16) -> Option<InstructionType> {
    if exists|t: InstructionType| t.matches(code, code2) {
        Some(choose|t: InstructionType| t.matches(code, code2))
    } else {
        None
    }
}

impl OpCode {
    /// The halfword executed as an instruction in state `pre`.
    pub open spec fn execute_spec(self, pre: CpuState) -> CpuState {
        let code2: u16 = match pre.load_u16(self.address.wrapping_add(2)) {
            Ok(code) => code,
            Err(_) => 0,
        };
        match decode_spec(self.code, code2) {
            Some(instruction) => (Instruction {
                opcode: self,
                opcode_2: OpCode { code: code2, address: self.address.wrapping_add(2) },
                instruction,
            }).execute_spec(pre),
            None => pre.advance().pend(USAGE_FAULT),
        }
    }
}

/// The classes of instructions, by what they do to the state.
#[derive(Debug, Clone, Copy, PartialEq, Eq, Structural)]
pub enum InstructionClass {
    Arithmetic,
    Logical,
    Shift,
    Data,
    Branch,
    Load,
    Store,
    Multiple,
    System,
}

impl InstructionType {
    /// The class of a variant.
    pub open spec fn class_spec(self) -> InstructionClass {
        match self {
            InstructionType::AdcT1
            | InstructionType::AddsT1
            | InstructionType::AddsT2
            | InstructionType::AddRegisterT1
            | InstructionType::CmnRegisterT1
            | InstructionType::CmpImmediateT1
            | InstructionType::CmpRegisterT1
            | InstructionType::CmpRegisterT2
            | InstructionType::RsbImmediateT1
            | InstructionType::SbcRegisterT1
            | InstructionType::SubT1
            | InstructionType::SubT2
            | InstructionType::SubRegisterT1 => InstructionClass::Arithmetic,
            InstructionType::AndRegisterT1
            | InstructionType::BicRegisterT1
            | InstructionType::EorRegisterT1
            | InstructionType::MovImmediateT1
            | InstructionType::MulT1
            | InstructionType::MvnT1
            | InstructionType::OrrRegisterT1
            | InstructionType::TstRegisterT1 => InstructionClass::Logical,
            InstructionType::AsrImmediateT1
            | InstructionType::AsrRegisterT1
            | InstructionType::LslImmediateT1
            | InstructionType::LslRegisterT1
            | InstructionType::LsrImmediateT1
            | InstructionType::LsrRegisterT1
            | InstructionType::RorRegisterT1 => InstructionClass::Shift,
            InstructionType::AddSpPlusImmediateT1
            | InstructionType::AddSpPlusImmediateT2
            | InstructionType::AddRegisterT2
            | InstructionType::AdrT1
            | InstructionType::MovRegisterT1
            | InstructionType::SubSpMinusImmediateT1
            | InstructionType::RevT1
            | InstructionType::Rev16T1
            | InstructionType::RevshT1
            | InstructionType::SxtbT1
            | InstructionType::SxthT1
            | InstructionType::UxtbT1
            | InstructionType::UxthT1 => InstructionClass::Data,
            InstructionType::BT1
            | InstructionType::BT2
            | InstructionType::BlT1
            | InstructionType::BlxT1
            | InstructionType::BxT1 => InstructionClass::Branch,
            InstructionType::LdrImmediateT1
            | InstructionType::LdrImmediateT2
            | InstructionType::LdrLiteralT1
            | InstructionType::LdrRegisterT1
            | InstructionType::LdrbImmediateT1
            | InstructionType::LdrbRegisterT1
            | InstructionType::LdrhImmediateT1
            | InstructionType::LdrhRegisterT1
            | InstructionType::LdrsbRegisterT1
            | InstructionType::LdrshRegisterT1 => InstructionClass::Load,
            InstructionType::StrImmediateT1
            | InstructionType::StrImmediateT2
            | InstructionType::StrRegisterT1
            | InstructionType::StrbImmediateT1
            | InstructionType::StrbRegisterT1
            | InstructionType::StrhImmediateT1
            | InstructionType::StrhRegisterT1 => InstructionClass::Store,
            InstructionType::LdmiaT1
            | InstructionType::StmiaT1
            | InstructionType::PopT1
            | InstructionType::PushT1 => InstructionClass::Multiple,
            InstructionType::BkptT1
            | InstructionType::CpsT1Id
            | InstructionType::CpsT1Ie
            | InstructionType::DmbT1Sy
            | InstructionType::DsbT1Sy
            | InstructionType::IsbT1Sy
            | InstructionType::MrsT1
            | InstructionType::MsrT1
            | InstructionType::NopT1
            | InstructionType::SevT1
            | InstructionType::SvcT1
            | InstructionType::UdfT1
            | InstructionType::UdfT2
            | InstructionType::WfeT1
            | InstructionType::WfiT1
            | InstructionType::YieldT1 => InstructionClass::System,
        }
    }

    /// The class of a variant.
    pub fn class(self) -> (r: InstructionClass)
        ensures
            r == self.class_spec(),
    {
        match self {
            InstructionType::AdcT1
            | InstructionType::AddsT1
            | InstructionType::AddsT2
            | InstructionType::AddRegisterT1
            | InstructionType::CmnRegisterT1
            | InstructionType::CmpImmediateT1
            | InstructionType::CmpRegisterT1
            | InstructionType::CmpRegisterT2
            | InstructionType::RsbImmediateT1
            | InstructionType::SbcRegisterT1
            | InstructionType::SubT1
            | InstructionType::SubT2
            | InstructionType::SubRegisterT1 => InstructionClass::Arithmetic,
            InstructionType::AndRegisterT1
            | InstructionType::BicRegisterT1
            | InstructionType::EorRegisterT1
            | InstructionType::MovImmediateT1
            | InstructionType::MulT1
            | InstructionType::MvnT1
            | InstructionType::OrrRegisterT1
            | InstructionType::TstRegisterT1 => InstructionClass::Logical,
            InstructionType::AsrImmediateT1
            | InstructionType::AsrRegisterT1
            | InstructionType::LslImmediateT1
            | InstructionType::LslRegisterT1
            | InstructionType::LsrImmediateT1
            | InstructionType::LsrRegisterT1
            | InstructionType::RorRegisterT1 => InstructionClass::Shift,
            InstructionType::AddSpPlusImmediateT1
            | InstructionType::AddSpPlusImmediateT2
            | InstructionType::AddRegisterT2
            | InstructionType::AdrT1
            | InstructionType::MovRegisterT1
            | InstructionType::SubSpMinusImmediateT1
            | InstructionType::RevT1
            | InstructionType::Rev16T1
            | InstructionType::RevshT1
            | InstructionType::SxtbT1
            | InstructionType::SxthT1
            | InstructionType::UxtbT1
            | InstructionType::UxthT1 => InstructionClass::Data,
            InstructionType::BT1
            | InstructionType::BT2
            | InstructionType::BlT1
            | InstructionType::BlxT1
            | InstructionType::BxT1 => InstructionClass::Branch,
            InstructionType::LdrImmediateT1
            | InstructionType::LdrImmediateT2
            | InstructionType::LdrLiteralT1
            | InstructionType::LdrRegisterT1
            | InstructionType::LdrbImmediateT1
            | InstructionType::LdrbRegisterT1
            | InstructionType::LdrhImmediateT1
            | InstructionType::LdrhRegisterT1
            | InstructionType::LdrsbRegisterT1
            | InstructionType::LdrshRegisterT1 => InstructionClass::Load,
            InstructionType::StrImmediateT1
            | InstructionType::StrImmediateT2
            | InstructionType::StrRegisterT1
            | InstructionType::StrbImmediateT1
            | InstructionType::StrbRegisterT1
            | InstructionType::StrhImmediateT1
            | InstructionType::StrhRegisterT1 => InstructionClass::Store,
            InstructionType::LdmiaT1
            | InstructionType::StmiaT1
            | InstructionType::PopT1
            | InstructionType::PushT1 => InstructionClass::Multiple,
            InstructionType::BkptT1
            | InstructionType::CpsT1Id
            | InstructionType::CpsT1Ie
            | InstructionType::DmbT1Sy
            | InstructionType::DsbT1Sy
            | InstructionType::IsbT1Sy
            | InstructionType::MrsT1
            | InstructionType::MsrT1
            | InstructionType::NopT1
            | InstructionType::SevT1
            | InstructionType::SvcT1
            | InstructionType::UdfT1
            | InstructionType::UdfT2
            | InstructionType::WfeT1
            | InstructionType::WfiT1
            | InstructionType::YieldT1 => InstructionClass::System,
        }
    }
}

impl Instruction {
    /// The two numbers and the carry that a flag-setting addition,
    /// subtraction or comparison adds up. A subtraction adds the complement
    /// of what it takes away, with a carry of one; ADC and SBC take the
    /// carry from the flags.
    pub open spec fn arithmetic_operands(self, s: CpuState) -> (u32, u32, bool) {
        let code: int = self.opcode.code as int;
        let carry: bool = s.xpsr.apsr.c;
        let rd0: int = code % 8;
        let rm3: int = (code / 8) % 8;
        let rm6: int = (code / 0x40) % 8;
        let rd8: int = (code / 0x100) % 8;
        let rm4: int = (code / 8) % 16;
        let rdn4: int = ((code / 0x80) % 2) * 8 + code % 8;
        let imm8: int = code % 0x100;
        match self.instruction {
            InstructionType::AdcT1 => (s.regs.read(rd0), s.regs.read(rm3), carry),
            InstructionType::AddsT1 => (s.regs.read(rm3), rm6 as u32, false),
            InstructionType::AddsT2 => (s.regs.read(rd8), imm8 as u32, false),
            InstructionType::AddRegisterT1 => (s.regs.read(rm3), s.regs.read(rm6), false),
            InstructionType::CmnRegisterT1 => (s.regs.read(rd0), s.regs.read(rm3), false),
            InstructionType::CmpImmediateT1 => (s.regs.read(rd8), !(imm8 as u32), true),
            InstructionType::CmpRegisterT1 => (s.regs.read(rd0), !s.regs.read(rm3), true),
            InstructionType::CmpRegisterT2 => (s.operand(rdn4), !s.operand(rm4), true),
            InstructionType::RsbImmediateT1 => (!s.regs.read(rm3), 0, true),
            InstructionType::SbcRegisterT1 => (s.regs.read(rd0), !s.regs.read(rm3), carry),
            InstructionType::SubT1 => (s.regs.read(rm3), !(rm6 as u32), true),
            InstructionType::SubT2 => (s.regs.read(rd8), !(imm8 as u32), true),
            _ => (s.regs.read(rm3), !s.regs.read(rm6), true),
        }
    }

    /// The register that takes the sum; a comparison has none.
    pub open spec fn arithmetic_destination(self) -> Option<int> {
        let code: int = self.opcode.code as int;
        match self.instruction {
            InstructionType::CmnRegisterT1
            | InstructionType::CmpImmediateT1
            | InstructionType::CmpRegisterT1
            | InstructionType::CmpRegisterT2 => None,
            InstructionType::AddsT2 | InstructionType::SubT2 => Some((code / 0x100) % 8),
            _ => Some(code % 8),
        }
    }

    /// Additions, subtractions and comparisons: the result and all four
    /// flags come from one addition with carry. `s` is the state after the
    /// program counter has moved past the first halfword.
    #[verifier::opaque]
    pub open spec fn arithmetic_spec(self, s: CpuState) -> CpuState {
        let operands = self.arithmetic_operands(s);
        match self.arithmetic_destination() {
            Some(rd) => s.add_to(rd, operands.0, operands.1, operands.2),
            None => s.compare(operands.0, operands.1, operands.2),
        }
    }

    /// Logical operations, MOVS and MULS: N and Z from the result; the carry
    /// is the shifter's, which shifts by nothing here, and MULS leaves it
    /// alone. `s` is the state after the program counter has moved past the
    /// first halfword.
    #[verifier::opaque]
    pub open spec fn logical_spec(self, s: CpuState) -> CpuState {
        let code: int = self.opcode.code as int;
        let carry: bool = s.xpsr.apsr.c;
        let rd0: int = code % 8;
        let rm3: int = (code / 8) % 8;
        let rd8: int = (code / 0x100) % 8;
        let imm8: int = code % 0x100;
        match self.instruction {
            InstructionType::AndRegisterT1 => s.move_to(
                rd0,
                (s.regs.read(rd0) & s.regs.read(rm3), carry),
            ),
            InstructionType::BicRegisterT1 => s.move_to(
                rd0,
                (s.regs.read(rd0) & !s.regs.read(rm3), carry),
            ),
            InstructionType::EorRegisterT1 => s.move_to(
                rd0,
                (s.regs.read(rd0) ^ s.regs.read(rm3), carry),
            ),
            InstructionType::MovImmediateT1 => s.move_to(rd8, (imm8 as u32, carry)),
            InstructionType::MulT1 => {
                let product: u32 = s.regs.read(rm3).wrapping_mul(s.regs.read(rd0));
                s.with_reg(rd0, product).with_nz(product)
            },
            InstructionType::MvnT1 => s.move_to(rd0, (!s.regs.read(rm3), carry)),
            InstructionType::OrrRegisterT1 => s.move_to(
                rd0,
                (s.regs.read(rd0) | s.regs.read(rm3), carry),
            ),
            InstructionType::TstRegisterT1 => s.with_nzc(
                s.regs.read(rd0) & s.regs.read(rm3),
                carry,
            ),
            _ => s,
        }
    }

    /// Shifts and rotations: N and Z from the result, C from the shifter.
    /// `s` is the state after the program counter has moved past the first
    /// halfword.
    #[verifier::opaque]
    pub open spec fn shift_spec(self, s: CpuState) -> CpuState {
        let code: int = self.opcode.code as int;
        let carry: bool = s.xpsr.apsr.c;
        let rd0: int = code % 8;
        let rm3: int = (code / 8) % 8;
        let imm5: int = (code / 0x40) % 32;
        match self.instruction {
            InstructionType::AsrImmediateT1 => s.move_to(
                rd0,
                shift_c_spec(
                    s.regs.read(rm3),
                    SRType::Asr,
                    decode_imm_shift_spec(2, imm5 as u16).1,
                    carry,
                ),
            ),
            InstructionType::AsrRegisterT1 => s.move_to(
                rd0,
                shift_c_spec(
                    s.regs.read(rd0),
                    SRType::Asr,
                    (s.regs.read(rm3) % 0x100) as u16,
                    carry,
                ),
            ),
            InstructionType::LslImmediateT1 => s.move_to(
                rd0,
                shift_c_spec(
                    s.regs.read(rm3),
                    SRType::Lsl,
                    decode_imm_shift_spec(0, imm5 as u16).1,
                    carry,
                ),
            ),
            InstructionType::LslRegisterT1 => s.move_to(
                rd0,
                shift_c_spec(
                    s.regs.read(rd0),
                    SRType::Lsl,
                    (s.regs.read(rm3) % 0x100) as u16,
                    carry,
                ),
            ),
            InstructionType::LsrImmediateT1 => s.move_to(
                rd0,
                shift_c_spec(
                    s.regs.read(rm3),
                    SRType::Lsr,
                    decode_imm_shift_spec(1, imm5 as u16).1,
                    carry,
                ),
            ),
            InstructionType::LsrRegisterT1 => s.move_to(
                rd0,
                shift_c_spec(
                    s.regs.read(rd0),
                    SRType::Lsr,
                    (s.regs.read(rm3) % 0x100) as u16,
                    carry,
                ),
            ),
            InstructionType::RorRegisterT1 => s.move_to(
                rd0,
                shift_c_spec(
                    s.regs.read(rd0),
                    SRType::Ror,
                    (s.regs.read(rm3) % 0x100) as u16,
                    carry,
                ),
            ),
            _ => s,
        }
    }

    /// Operations that set no flag: address arithmetic, register moves, byte
    /// reversal and extension. `s` is the state after the program counter
    /// has moved past the first halfword.
    #[verifier::opaque]
    pub open spec fn data_spec(self, s: CpuState) -> CpuState {
        let code: int = self.opcode.code as int;
        let rd0: int = code % 8;
        let rm3: int = (code / 8) % 8;
        let rd8: int = (code / 0x100) % 8;
        let rm4: int = (code / 8) % 16;
        let rdn4: int = ((code / 0x80) % 2) * 8 + code % 8;
        let imm8: int = code % 0x100;
        match self.instruction {
            InstructionType::AddSpPlusImmediateT1 => s.with_reg(
                rd8,
                s.regs.sp.current().wrapping_add((imm8 * 4) as u32),
            ),
            InstructionType::AddSpPlusImmediateT2 => s.with_reg(
                13,
                s.regs.sp.current().wrapping_add(((code % 0x80) * 4) as u32),
            ),
            InstructionType::AddRegisterT2 => s.with_reg(
                rdn4,
                s.operand(rdn4).wrapping_add(s.operand(rm4)),
            ),
            InstructionType::AdrT1 => s.with_reg(
                rd8,
                s.literal_address(imm8),
            ),
            InstructionType::MovRegisterT1 => s.with_reg(rdn4, s.operand(rm4)),
            InstructionType::SubSpMinusImmediateT1 => s.with_reg(
                13,
                s.regs.sp.current().wrapping_sub(((code % 0x80) * 4) as u32),
            ),
            InstructionType::RevT1
            | InstructionType::Rev16T1
            | InstructionType::RevshT1
            | InstructionType::SxtbT1
            | InstructionType::SxthT1
            | InstructionType::UxtbT1
            | InstructionType::UxthT1 => s.with_reg(
                rd0,
                rearranged(self.instruction, s.regs.read(rm3)),
            ),
            _ => s,
        }
    }

    /// Branches. `s` is the state after the program counter has moved past
    /// the first halfword.
    #[verifier::opaque]
    pub open spec fn branch_spec(self, s: CpuState) -> CpuState {
        let code: int = self.opcode.code as int;
        let rm4: int = (code / 8) % 16;
        let imm8: int = code % 0x100;
        match self.instruction {
            InstructionType::BT1 => if condition_passed_spec(
                s.xpsr.apsr,
                ((code / 0x100) % 16) as u16,
            ) {
                s.branch_by(branch_offset(imm8, 8))
            } else {
                s
            },
            InstructionType::BT2 => s.branch_by(branch_offset(code % 0x800, 11)),
            InstructionType::BlT1 => s.branch_link(bl_offset(self.opcode.code, self.opcode_2.code)),
            InstructionType::BlxT1 => s.branch_link_exchange(s.operand(rm4)),
            InstructionType::BxT1 => s.bx_write_pc(s.operand(rm4), USAGE_FAULT),
            _ => s,
        }
    }

    /// Loads of one register. `s` is the state after the program counter has
    /// moved past the first halfword.
    #[verifier::opaque]
    pub open spec fn load_spec(self, s: CpuState) -> CpuState {
        let code: int = self.opcode.code as int;
        let rd0: int = code % 8;
        let rm3: int = (code / 8) % 8;
        let rm6: int = (code / 0x40) % 8;
        let rd8: int = (code / 0x100) % 8;
        let imm5: int = (code / 0x40) % 32;
        let imm8: int = code % 0x100;
        match self.instruction {
            InstructionType::LdrImmediateT1 => s.load_word_to(
                rd0,
                s.regs.read(rm3).wrapping_add((imm5 * 4) as u32),
            ),
            InstructionType::LdrImmediateT2 => s.load_word_to(
                rd8,
                s.regs.sp.current().wrapping_add((imm8 * 4) as u32),
            ),
            InstructionType::LdrLiteralT1 => s.load_word_to(
                rd8,
                s.literal_address(imm8),
            ),
            InstructionType::LdrRegisterT1 => s.load_word_to(
                rd0,
                s.regs.read(rm3).wrapping_add(s.regs.read(rm6)),
            ),
            InstructionType::LdrbImmediateT1 => s.load_byte_to(
                rd0,
                s.regs.read(rm3).wrapping_add(imm5 as u32),
                false,
            ),
            InstructionType::LdrbRegisterT1 => s.load_byte_to(
                rd0,
                s.regs.read(rm3).wrapping_add(s.regs.read(rm6)),
                false,
            ),
            InstructionType::LdrhImmediateT1 => s.load_half_to(
                rd0,
                s.regs.read(rm3).wrapping_add((imm5 * 2) as u32),
                false,
            ),
            InstructionType::LdrhRegisterT1 => s.load_half_to(
                rd0,
                s.regs.read(rm3).wrapping_add(s.regs.read(rm6)),
                false,
            ),
            InstructionType::LdrsbRegisterT1 => s.load_byte_to(
                rd0,
                s.regs.read(rm3).wrapping_add(s.regs.read(rm6)),
                true,
            ),
            InstructionType::LdrshRegisterT1 => s.load_half_to(
                rd0,
                s.regs.read(rm3).wrapping_add(s.regs.read(rm6)),
                true,
            ),
            _ => s,
        }
    }

    /// Stores of one register. `s` is the state after the program counter
    /// has moved past the first halfword.
    #[verifier::opaque]
    pub open spec fn store_spec(self, s: CpuState) -> CpuState {
        let code: int = self.opcode.code as int;
        let rd0: int = code % 8;
        let rm3: int = (code / 8) % 8;
        let rm6: int = (code / 0x40) % 8;
        let rd8: int = (code / 0x100) % 8;
        let imm5: int = (code / 0x40) % 32;
        let imm8: int = code % 0x100;
        match self.instruction {
            InstructionType::StrImmediateT1 => s.store_word(
                s.regs.read(rm3).wrapping_add((imm5 * 4) as u32),
                s.regs.read(rd0),
            ),
            InstructionType::StrImmediateT2 => s.store_word(
                s.regs.sp.current().wrapping_add((imm8 * 4) as u32),
                s.regs.read(rd8),
            ),
            InstructionType::StrRegisterT1 => s.store_word(
                s.regs.read(rm3).wrapping_add(s.regs.read(rm6)),
                s.regs.read(rd0),
            ),
            InstructionType::StrbImmediateT1 => s.store_byte(
                s.regs.read(rm3).wrapping_add(imm5 as u32),
                s.regs.read(rd0),
            ),
            InstructionType::StrbRegisterT1 => s.store_byte(
                s.regs.read(rm3).wrapping_add(s.regs.read(rm6)),
                s.regs.read(rd0),
            ),
            InstructionType::StrhImmediateT1 => s.store_half(
                s.regs.read(rm3).wrapping_add((imm5 * 2) as u32),
                s.regs.read(rd0),
            ),
            InstructionType::StrhRegisterT1 => s.store_half(
                s.regs.read(rm3).wrapping_add(s.regs.read(rm6)),
                s.regs.read(rd0),
            ),
            _ => s,
        }
    }

    /// Transfers of several registers. `s` is the state after the program
    /// counter has moved past the first halfword.
    #[verifier::opaque]
    pub open spec fn multiple_spec(self, s: CpuState) -> CpuState {
        let code: int = self.opcode.code as int;
        let rd8: int = (code / 0x100) % 8;
        let list: int = code % 0x100;
        match self.instruction {
            InstructionType::LdmiaT1 => {
                let loaded = s.load_multiple(list, 0, s.regs.read(rd8));
                if !loaded.2 {
                    loaded.0.pend(HARD_FAULT)
                } else if list_has(list, rd8) {
                    loaded.0
                } else {
                    loaded.0.with_reg(rd8, loaded.1)
                }
            },
            InstructionType::StmiaT1 => {
                let stored = s.store_multiple(list, 0, s.regs.read(rd8));
                if !stored.2 {
                    stored.0.pend(HARD_FAULT)
                } else {
                    stored.0.with_reg(rd8, stored.1)
                }
            },
            InstructionType::PopT1 => s.pop(list, (code / 0x100) % 2 == 1),
            InstructionType::PushT1 => s.push(list, (code / 0x100) % 2 == 1),
            _ => s,
        }
    }

    /// Barriers, hints, special registers and the instructions that raise an
    /// exception. `s` is the state after the program counter has moved past
    /// the first halfword.
    #[verifier::opaque]
    pub open spec fn system_spec(self, s: CpuState) -> CpuState {
        let code: int = self.opcode.code as int;
        let code2: int = self.opcode_2.code as int;
        let imm8: int = code % 0x100;
        match self.instruction {
            InstructionType::BkptT1 => s.pend(HARD_FAULT),
            InstructionType::CpsT1Id => if s.privileged() {
                CpuState { primask: true, ..s }
            } else {
                s
            },
            InstructionType::CpsT1Ie => if s.privileged() {
                CpuState { primask: false, ..s }
            } else {
                s
            },
            InstructionType::DmbT1Sy
            | InstructionType::DsbT1Sy
            | InstructionType::IsbT1Sy => s.advance(),
            InstructionType::MrsT1 => s.advance().with_reg(
                (code2 / 0x100) % 16,
                s.special_register(code2 % 0x100),
            ),
            InstructionType::MsrT1 => s.advance().with_special_register(
                code2 % 0x100,
                s.regs.read(code % 16),
            ),
            InstructionType::NopT1
            | InstructionType::SevT1
            | InstructionType::WfeT1
            | InstructionType::WfiT1
            | InstructionType::YieldT1 => s,
            InstructionType::SvcT1 => CpuState { svc_number: imm8 as u8, ..s }.pend(SVCALL),
            InstructionType::UdfT1 => s.pend(USAGE_FAULT),
            InstructionType::UdfT2 => s.advance().pend(USAGE_FAULT),
            _ => s,
        }
    }

    /// The state that the instruction leaves when it is executed in `pre`.
    /// The program counter first moves past the first halfword; an encoding
    /// of two halfwords moves it once more; a branch overrides both.
    pub open spec fn execute_spec(self, pre: CpuState) -> CpuState {
        let s: CpuState = pre.advance();
        match self.instruction.class_spec() {
            InstructionClass::Arithmetic => self.arithmetic_spec(s),
            InstructionClass::Logical => self.logical_spec(s),
            InstructionClass::Shift => self.shift_spec(s),
            InstructionClass::Data => self.data_spec(s),
            InstructionClass::Branch => self.branch_spec(s),
            InstructionClass::Load => self.load_spec(s),
            InstructionClass::Store => self.store_spec(s),
            InstructionClass::Multiple => self.multiple_spec(s),
            InstructionClass::System => self.system_spec(s),
        }
    }
}

} // verus!
