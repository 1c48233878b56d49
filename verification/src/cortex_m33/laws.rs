//! What holds of every instruction and every state.

use super::exception::{lemma_numbers_finite, HARD_FAULT, USAGE_FAULT};
use super::instructions::{Instruction, InstructionType, OpCode};
use super::registers::align_down;
use super::operation::{add_with_carry_spec, is_negative};
use super::semantics::{
    count_from, decode_spec, lemma_store_byte_keeps, lemma_store_keeps, lemma_store_words_keeps,
    list_has, Frame, InstructionClass,
};
use super::state::{CpuState, Mode};
use crate::memory::{byte_of, MemoryMap};
use vstd::prelude::*;

verus! {

/// After a flag-setting addition, subtraction or comparison, the four flags
/// are those of one addition with carry of the instruction's operands: C is
/// its carry out and V its signed overflow, N and Z describe its sum.
pub proof fn lemma_arithmetic_flags(instruction: Instruction, pre: CpuState)
    requires
        instruction.instruction.class_spec() == InstructionClass::Arithmetic,
    ensures
        ({
            let operands = instruction.arithmetic_operands(pre.advance());
            let sum = add_with_carry_spec(operands.0, operands.1, operands.2);
            let flags = instruction.execute_spec(pre).xpsr.apsr;
            &&& flags.c == sum.1
            &&& flags.v == sum.2
            &&& flags.n == is_negative(sum.0)
            &&& flags.z == (sum.0 == 0)
        }),
{
    reveal(Instruction::arithmetic_spec);
    let s = pre.advance();
    assert(instruction.execute_spec(pre) == instruction.arithmetic_spec(s));
}

impl CpuState {
    /// The processor is in Handler mode exactly when an exception is active.
    pub open spec fn mode_fits_active(self) -> bool {
        (self.mode == Mode::Handler) <==> self.active.len() > 0
    }

    /// Whether `other` has the mode and the active exceptions of this state.
    pub open spec fn same_mode(self, other: CpuState) -> bool {
        other.mode == self.mode && other.active == self.active
    }
}

/// Out of reset the processor is in Thread mode with no exception active, its
/// program counter is even and its stack pointers are multiples of four.
pub proof fn lemma_reset_fits(memory: MemoryMap)
    ensures
        CpuState::reset(memory).mode_fits_active(),
        CpuState::reset(memory).regs.aligned(),
{
}

/// A transfer of several registers from memory changes neither the mode nor
/// the active exceptions.
pub proof fn lemma_load_multiple_same_mode(s: CpuState, list: int, i: int, address: u32)
    ensures
        s.same_mode(s.load_multiple(list, i, address).0),
    decreases 8 - i,
{
    if i < 8 {
        if list_has(list, i) {
            match s.load_u32(address) {
                Ok(value) => {
                    lemma_load_multiple_same_mode(
                        s.with_reg(i, value),
                        list,
                        i + 1,
                        address.wrapping_add(4),
                    );
                },
                Err(_) => {},
            }
        } else {
            lemma_load_multiple_same_mode(s, list, i + 1, address);
        }
    }
}

/// A transfer of several registers to memory changes neither the mode nor
/// the active exceptions.
pub proof fn lemma_store_multiple_same_mode(s: CpuState, list: int, i: int, address: u32)
    ensures
        s.same_mode(s.store_multiple(list, i, address).0),
    decreases 8 - i,
{
    if i < 8 {
        if list_has(list, i) {
            lemma_store_keeps(s, address, s.regs.read(i));
            let stored = s.store_u32(address, s.regs.read(i));
            if stored.1 is Ok {
                lemma_store_multiple_same_mode(stored.0, list, i + 1, address.wrapping_add(4));
            }
        } else {
            lemma_store_multiple_same_mode(s, list, i + 1, address);
        }
    }
}

/// An exception return leaves the mode fitting the active exceptions.
pub proof fn lemma_exception_return_fits(s: CpuState, exc_return: u32)
    requires
        s.mode_fits_active(),
    ensures
        s.exception_return(exc_return).mode_fits_active(),
{
    reveal(CpuState::exception_return);
    lemma_numbers_finite(s.active);
}

/// A value loaded into the program counter leaves the mode fitting the
/// active exceptions.
pub proof fn lemma_bx_write_pc_fits(s: CpuState, target: u32, fault: u8)
    requires
        s.mode_fits_active(),
    ensures
        s.bx_write_pc(target, fault).mode_fits_active(),
{
    lemma_exception_return_fits(s, target);
}

/// Taking an exception leaves the mode fitting the active exceptions.
pub proof fn lemma_take_exception_fits(s: CpuState, e: u8)
    requires
        s.mode_fits_active(),
    ensures
        s.take_exception(e).mode_fits_active(),
{
    lemma_numbers_finite(s.active);
    lemma_store_words_keeps(s, s.frame_words(), 0, s.frame_pointer());
}

/// What happens between two instructions leaves the mode fitting the active
/// exceptions.
pub proof fn lemma_service_fits(s: CpuState)
    requires
        s.mode_fits_active(),
    ensures
        s.service().mode_fits_active(),
{
    match s.best_pending(48) {
        Some(e) => lemma_take_exception_fits(s, e),
        None => {},
    }
}

/// Instructions that compute leave the mode and the active exceptions alone.
pub proof fn lemma_computing_same_mode(instruction: Instruction, s: CpuState)
    ensures
        s.same_mode(instruction.arithmetic_spec(s)),
        s.same_mode(instruction.logical_spec(s)),
        s.same_mode(instruction.shift_spec(s)),
        s.same_mode(instruction.data_spec(s)),
{
    reveal(Instruction::arithmetic_spec);
    reveal(Instruction::logical_spec);
    reveal(Instruction::shift_spec);
    reveal(Instruction::data_spec);
    lemma_with_reg_keeps_form(s);
}

/// Loads and stores of one register leave the mode and the active exceptions
/// alone.
pub proof fn lemma_memory_same_mode(instruction: Instruction, s: CpuState)
    ensures
        s.same_mode(instruction.load_spec(s)),
        s.same_mode(instruction.store_spec(s)),
{
    reveal(Instruction::load_spec);
    reveal(Instruction::store_spec);
    assert forall|address: u32, value: u32| s.same_mode(#[trigger] s.store_word(address, value)) by {
        lemma_store_keeps(s, address, value);
    }
    assert forall|address: u32, value: u32| s.same_mode(#[trigger] s.store_half(address, value)) by {
        let half: u16 = (value % 0x1_0000) as u16;
        lemma_store_byte_keeps(s, address, byte_of(half as u32, 0));
        let first = s.store_u8(address, byte_of(half as u32, 0));
        lemma_store_byte_keeps(
            first.0,
            address.wrapping_add(1),
            byte_of(half as u32, 1),
        );
    }
    assert forall|address: u32, value: u32| s.same_mode(#[trigger] s.store_byte(address, value)) by {
        lemma_store_byte_keeps(s, address, (value % 0x100) as u8);
    }
}

/// The instructions of the system class leave the mode and the active
/// exceptions alone.
pub proof fn lemma_system_same_mode(instruction: Instruction, s: CpuState)
    ensures
        s.same_mode(instruction.system_spec(s)),
{
    reveal(Instruction::system_spec);
}

/// A branch leaves the mode fitting the active exceptions.
pub proof fn lemma_branch_fits(instruction: Instruction, s: CpuState)
    requires
        s.mode_fits_active(),
    ensures
        instruction.branch_spec(s).mode_fits_active(),
{
    reveal(Instruction::branch_spec);
    let target: u32 = s.operand((instruction.opcode.code as int / 8) % 16);
    lemma_bx_write_pc_fits(s, target, USAGE_FAULT);
    lemma_bx_write_pc_fits(s.with_reg(14, (s.regs.pc + 1) as u32), target, USAGE_FAULT);
}

/// A transfer of several registers leaves the mode fitting the active
/// exceptions.
pub proof fn lemma_multiple_fits(instruction: Instruction, s: CpuState)
    requires
        s.mode_fits_active(),
    ensures
        instruction.multiple_spec(s).mode_fits_active(),
{
    reveal(Instruction::multiple_spec);
    let code: int = instruction.opcode.code as int;
    let list: int = code % 0x100;
    let rd8: int = (code / 0x100) % 8;
    lemma_load_multiple_same_mode(s, list, 0, s.regs.read(rd8));
    lemma_store_multiple_same_mode(s, list, 0, s.regs.read(rd8));
    lemma_pop_fits(s, list, (code / 0x100) % 2 == 1);
    lemma_push_same_mode(s, list, (code / 0x100) % 2 == 1);
}

/// POP leaves the mode fitting the active exceptions.
pub proof fn lemma_pop_fits(s: CpuState, list: int, with_pc: bool)
    requires
        s.mode_fits_active(),
    ensures
        s.pop(list, with_pc).mode_fits_active(),
{
    reveal(CpuState::pop);
    lemma_load_multiple_same_mode(s, list, 0, s.regs.sp.current());
    let loaded = s.load_multiple(list, 0, s.regs.sp.current());
    match loaded.0.load_u32(loaded.1) {
        Ok(target) => {
            lemma_bx_write_pc_fits(
                loaded.0.with_reg(13, loaded.1.wrapping_add(4)),
                target,
                HARD_FAULT,
            );
        },
        Err(_) => {},
    }
}

/// PUSH leaves the mode and the active exceptions alone.
pub proof fn lemma_push_same_mode(s: CpuState, list: int, with_lr: bool)
    ensures
        s.same_mode(s.push(list, with_lr)),
{
    reveal(CpuState::push);
    let count: int = count_from(list, 0) + if with_lr {
        1int
    } else {
        0int
    };
    let base: u32 = s.regs.sp.current().wrapping_sub((4 * count) as u32);
    lemma_store_multiple_same_mode(s, list, 0, base);
    let stored = s.store_multiple(list, 0, base);
    lemma_store_keeps(stored.0, stored.1, s.regs.lr);
}

/// Whatever instruction is executed, the processor is in Handler mode
/// afterwards exactly when an exception is active, if that held before.
pub proof fn lemma_execute_fits(instruction: Instruction, pre: CpuState)
    requires
        pre.mode_fits_active(),
    ensures
        instruction.execute_spec(pre).mode_fits_active(),
{
    let s = pre.advance();
    lemma_computing_same_mode(instruction, s);
    lemma_memory_same_mode(instruction, s);
    lemma_system_same_mode(instruction, s);
    lemma_branch_fits(instruction, s);
    lemma_multiple_fits(instruction, s);
}

/// Whatever a step does, the processor is in Handler mode afterwards exactly
/// when an exception is active, if that held before.
pub proof fn lemma_step_fits(pre: CpuState)
    requires
        pre.mode_fits_active(),
    ensures
        pre.execute_instruction().mode_fits_active(),
        pre.step().mode_fits_active(),
{
    match pre.load_u16(pre.regs.pc) {
        Ok(code) => {
            let opcode = OpCode { code, address: pre.regs.pc };
            let code2: u16 = match pre.load_u16(opcode.address.wrapping_add(2)) {
                Ok(code) => code,
                Err(_) => 0,
            };
            match decode_spec(code, code2) {
                Some(instruction) => {
                    lemma_execute_fits(
                        Instruction {
                            opcode,
                            opcode_2: OpCode { code: code2, address: opcode.address.wrapping_add(2) },
                            instruction,
                        },
                        pre,
                    );
                },
                None => {},
            }
        },
        Err(_) => {},
    }
    lemma_service_fits(pre.execute_instruction());
}

/// The priority that the active exceptions give is that of one of them, or
/// 5 if there is none among those numbered up to `n`; none of them has a
/// higher priority.
pub proof fn lemma_active_priority(s: CpuState, n: int)
    requires
        0 <= n <= 255,
    ensures
        forall|a: u8|
            1 <= a <= n && s.active.contains(a) ==> s.active_priority(n) <= #[trigger] s.priority(
                a,
            ),
        s.active_priority(n) == 5 || exists|a: u8|
            1 <= a <= n && s.active.contains(a) && #[trigger] s.priority(a) == s.active_priority(n),
    decreases n,
{
    if n > 0 {
        lemma_active_priority(s, n - 1);
        let rest: int = s.active_priority(n - 1);
        if s.active.contains(n as u8) && s.priority(n as u8) < rest {
            assert(s.priority(n as u8) == s.active_priority(n));
        } else if rest != 5 {
            let a: u8 = choose|a: u8|
                1 <= a <= n - 1 && s.active.contains(a) && #[trigger] s.priority(a) == rest;
            assert(s.priority(a) == s.active_priority(n));
        }
    }
}

/// The exception chosen among those numbered up to `n` can be taken, and no
/// other that can be taken has a higher priority, or the same priority and a
/// lower number. None is chosen exactly when none can be taken.
pub proof fn lemma_best_pending(s: CpuState, n: int)
    requires
        0 <= n <= 255,
    ensures
        match s.best_pending(n) {
            Some(e) => {
                &&& 1 <= e <= n
                &&& s.can_take(e)
                &&& forall|m: u8|
                    1 <= m <= n && #[trigger] s.can_take(m) ==> s.priority(e) < s.priority(m) || (
                    s.priority(e) == s.priority(m) && e <= m)
            },
            None => forall|m: u8| 1 <= m <= n ==> !#[trigger] s.can_take(m),
        },
    decreases n,
{
    if n > 0 {
        lemma_best_pending(s, n - 1);
    }
}

impl CpuState {
    /// Whether `other` has the program counter of this state.
    pub open spec fn same_pc(self, other: CpuState) -> bool {
        other.regs.pc == self.regs.pc
    }
}

/// A store leaves the registers alone.
proof fn lemma_stores_same_pc(s: CpuState)
    ensures
        forall|address: u32, value: u32| s.same_pc(#[trigger] s.store_word(address, value)),
        forall|address: u32, value: u32| s.same_pc(#[trigger] s.store_half(address, value)),
        forall|address: u32, value: u32| s.same_pc(#[trigger] s.store_byte(address, value)),
{
    assert forall|address: u32, value: u32| s.same_pc(#[trigger] s.store_word(address, value)) by {
        lemma_store_keeps(s, address, value);
    }
    assert forall|address: u32, value: u32| s.same_pc(#[trigger] s.store_half(address, value)) by {
        let half: u16 = (value % 0x1_0000) as u16;
        lemma_store_byte_keeps(s, address, byte_of(half as u32, 0));
        let first = s.store_u8(address, byte_of(half as u32, 0));
        lemma_store_byte_keeps(
            first.0,
            address.wrapping_add(1),
            byte_of(half as u32, 1),
        );
    }
    assert forall|address: u32, value: u32| s.same_pc(#[trigger] s.store_byte(address, value)) by {
        lemma_store_byte_keeps(s, address, (value % 0x100) as u8);
    }
}

proof fn lemma_arithmetic_same_pc(instruction: Instruction, s: CpuState)
    ensures
        s.same_pc(instruction.arithmetic_spec(s)),
{
    reveal(Instruction::arithmetic_spec);
}

proof fn lemma_logical_same_pc(instruction: Instruction, s: CpuState)
    ensures
        s.same_pc(instruction.logical_spec(s)),
{
    reveal(Instruction::logical_spec);
}

proof fn lemma_shift_same_pc(instruction: Instruction, s: CpuState)
    ensures
        s.same_pc(instruction.shift_spec(s)),
{
    reveal(Instruction::shift_spec);
}

proof fn lemma_load_same_pc(instruction: Instruction, s: CpuState)
    ensures
        s.same_pc(instruction.load_spec(s)),
{
    reveal(Instruction::load_spec);
}

proof fn lemma_store_same_pc(instruction: Instruction, s: CpuState)
    ensures
        s.same_pc(instruction.store_spec(s)),
{
    reveal(Instruction::store_spec);
    lemma_stores_same_pc(s);
}

proof fn lemma_system_pc(instruction: Instruction, s: CpuState)
    requires
        instruction.instruction.class_spec() == InstructionClass::System,
        instruction.instruction != InstructionType::MrsT1,
    ensures
        instruction.system_spec(s).regs.pc == (if instruction.instruction.is_wide() {
            s.advance().regs.pc
        } else {
            s.regs.pc
        }),
{
    reveal(Instruction::system_spec);
}

/// Dropping bit 0 after a move by one halfword is the same as dropping it
/// before.
proof fn lemma_halfword_on(pc: u32)
    ensures
        align_down(pc.wrapping_add(2), 2) == align_down(pc, 2).wrapping_add(2),
        align_down(align_down(pc, 2).wrapping_add(2), 2) == align_down(pc, 2).wrapping_add(2),
        align_down(align_down(pc, 2).wrapping_add(2).wrapping_add(2), 2) == align_down(
            pc,
            2,
        ).wrapping_add(4),
{
}

/// The program counter moves once for each instruction: an instruction that
/// computes into the low registers, loads one of them or stores advances it
/// by its own width from the address of the instruction, and so do the
/// barriers, the hints, MSR and the instructions that raise an exception.
pub proof fn lemma_pc_advances(instruction: Instruction, pre: CpuState)
    requires
        ({
            let class = instruction.instruction.class_spec();
            ||| class == InstructionClass::Arithmetic
            ||| class == InstructionClass::Logical
            ||| class == InstructionClass::Shift
            ||| class == InstructionClass::Load
            ||| class == InstructionClass::Store
            ||| class == InstructionClass::System && instruction.instruction != InstructionType::MrsT1
        }),
    ensures
        instruction.execute_spec(pre).regs.pc == align_down(pre.regs.pc, 2).wrapping_add(
            if instruction.instruction.is_wide() {
                4u32
            } else {
                2u32
            },
        ),
{
    let s = pre.advance();
    let class = instruction.instruction.class_spec();
    lemma_wide_is_branch_or_system(instruction.instruction);
    lemma_halfword_on(pre.regs.pc);
    assert(s.regs.pc == align_down(pre.regs.pc, 2).wrapping_add(2));
    assert(s.advance().regs.pc == align_down(pre.regs.pc, 2).wrapping_add(4));
    if class == InstructionClass::Arithmetic {
        lemma_arithmetic_same_pc(instruction, s);
    } else if class == InstructionClass::Logical {
        lemma_logical_same_pc(instruction, s);
    } else if class == InstructionClass::Shift {
        lemma_shift_same_pc(instruction, s);
    } else if class == InstructionClass::Load {
        lemma_load_same_pc(instruction, s);
    } else if class == InstructionClass::Store {
        lemma_store_same_pc(instruction, s);
    } else {
        lemma_system_pc(instruction, s);
    }
}

/// The encodings of two halfwords are BL and instructions of the system
/// class.
pub proof fn lemma_wide_is_branch_or_system(instruction: InstructionType)
    ensures
        instruction.is_wide() ==> instruction.class_spec() == InstructionClass::System
            || instruction == InstructionType::BlT1,
{
}

impl CpuState {
    /// Whether `after` has kept the form of this state's registers: each
    /// answers to the number it had, the program counter is even if it was,
    /// and the stack pointers are multiples of four if they were.
    pub open spec fn keeps_form(self, after: CpuState) -> bool {
        &&& after.regs.numbers == self.regs.numbers
        &&& self.regs.pc % 2 == 0 ==> after.regs.pc % 2 == 0
        &&& self.regs.sp.msp % 4 == 0 && self.regs.sp.psp % 4 == 0 ==> after.regs.sp.msp % 4 == 0
            && after.regs.sp.psp % 4 == 0
    }
}

/// A transfer of several registers from memory keeps the form of the
/// registers.
pub proof fn lemma_load_multiple_keeps_form(s: CpuState, list: int, i: int, address: u32)
    ensures
        s.keeps_form(s.load_multiple(list, i, address).0),
    decreases 8 - i,
{
    if i < 8 {
        if list_has(list, i) {
            match s.load_u32(address) {
                Ok(value) => {
                    lemma_load_multiple_keeps_form(
                        s.with_reg(i, value),
                        list,
                        i + 1,
                        address.wrapping_add(4),
                    );
                },
                Err(_) => {},
            }
        } else {
            lemma_load_multiple_keeps_form(s, list, i + 1, address);
        }
    }
}

/// A transfer of several registers to memory leaves the registers alone.
pub proof fn lemma_store_multiple_same_registers(s: CpuState, list: int, i: int, address: u32)
    ensures
        s.store_multiple(list, i, address).0.regs == s.regs,
    decreases 8 - i,
{
    if i < 8 {
        if list_has(list, i) {
            lemma_store_keeps(s, address, s.regs.read(i));
            let stored = s.store_u32(address, s.regs.read(i));
            if stored.1 is Ok {
                lemma_store_multiple_same_registers(stored.0, list, i + 1, address.wrapping_add(4));
            }
        } else {
            lemma_store_multiple_same_registers(s, list, i + 1, address);
        }
    }
}

/// A write to a register keeps the form of the registers: the stack
/// pointer and the program counter drop their low bits, and no number
/// changes.
pub proof fn lemma_with_reg_keeps_form(s: CpuState)
    ensures
        forall|i: int, value: u32| s.keeps_form(#[trigger] s.with_reg(i, value)),
{
}

/// Unstacking a frame keeps the form of the registers.
pub proof fn lemma_popstack_keeps_form(s: CpuState, f: Frame, frameptr: u32, exc_return: u32)
    ensures
        s.keeps_form(s.popstack(f, frameptr, exc_return)),
{
}

/// An exception return keeps the form of the registers.
pub proof fn lemma_exception_return_keeps_form(s: CpuState, exc_return: u32)
    ensures
        s.keeps_form(s.exception_return(exc_return)),
{
    reveal(CpuState::exception_return);
    let selector: int = exc_return as int % 16;
    let frameptr: u32 = if selector == 13 {
        s.regs.sp.psp
    } else {
        s.regs.sp.msp
    };
    match s.frame_at(frameptr) {
        Some(f) => {
            lemma_popstack_keeps_form(s, f, frameptr, exc_return);
            let popped = s.popstack(f, frameptr, exc_return);
            assert(s.exception_return(exc_return).regs == s.regs || s.exception_return(
                exc_return,
            ).regs == popped.regs);
        },
        None => {},
    }
}

/// A value loaded into the program counter keeps the form of the registers.
pub proof fn lemma_bx_write_pc_keeps_form(s: CpuState, target: u32, fault: u8)
    ensures
        s.keeps_form(s.bx_write_pc(target, fault)),
{
    lemma_exception_return_keeps_form(s, target);
}

proof fn lemma_computing_keeps_form(instruction: Instruction, s: CpuState)
    ensures
        s.keeps_form(instruction.arithmetic_spec(s)),
        s.keeps_form(instruction.logical_spec(s)),
        s.keeps_form(instruction.shift_spec(s)),
{
    reveal(Instruction::arithmetic_spec);
    reveal(Instruction::logical_spec);
    reveal(Instruction::shift_spec);
}

proof fn lemma_data_keeps_form(instruction: Instruction, s: CpuState)
    ensures
        s.keeps_form(instruction.data_spec(s)),
{
    reveal(Instruction::data_spec);
    lemma_with_reg_keeps_form(s);
}

proof fn lemma_load_keeps_form(instruction: Instruction, s: CpuState)
    ensures
        s.keeps_form(instruction.load_spec(s)),
{
    reveal(Instruction::load_spec);
}

proof fn lemma_store_same_registers(instruction: Instruction, s: CpuState)
    ensures
        instruction.store_spec(s).regs == s.regs,
{
    reveal(Instruction::store_spec);
    assert forall|address: u32, value: u32| (#[trigger] s.store_word(address, value)).regs
        == s.regs by {
        lemma_store_keeps(s, address, value);
    }
    assert forall|address: u32, value: u32| (#[trigger] s.store_half(address, value)).regs
        == s.regs by {
        let half: u16 = (value % 0x1_0000) as u16;
        lemma_store_byte_keeps(s, address, byte_of(half as u32, 0));
        let first = s.store_u8(address, byte_of(half as u32, 0));
        lemma_store_byte_keeps(first.0, address.wrapping_add(1), byte_of(half as u32, 1));
    }
    assert forall|address: u32, value: u32| (#[trigger] s.store_byte(address, value)).regs
        == s.regs by {
        lemma_store_byte_keeps(s, address, (value % 0x100) as u8);
    }
}

proof fn lemma_branch_keeps_form(instruction: Instruction, s: CpuState)
    ensures
        s.keeps_form(instruction.branch_spec(s)),
{
    reveal(Instruction::branch_spec);
    lemma_with_reg_keeps_form(s);
    let target: u32 = s.operand((instruction.opcode.code as int / 8) % 16);
    let linked: CpuState = s.with_reg(14, (s.regs.pc + 1) as u32);
    lemma_bx_write_pc_keeps_form(s, target, USAGE_FAULT);
    lemma_bx_write_pc_keeps_form(linked, target, USAGE_FAULT);
    assert(s.keeps_form(linked));
}

/// POP keeps the form of the registers.
pub proof fn lemma_pop_keeps_form(s: CpuState, list: int, with_pc: bool)
    ensures
        s.keeps_form(s.pop(list, with_pc)),
{
    reveal(CpuState::pop);
    lemma_load_multiple_keeps_form(s, list, 0, s.regs.sp.current());
    let loaded = s.load_multiple(list, 0, s.regs.sp.current());
    match loaded.0.load_u32(loaded.1) {
        Ok(target) => {
            lemma_bx_write_pc_keeps_form(
                loaded.0.with_reg(13, loaded.1.wrapping_add(4)),
                target,
                HARD_FAULT,
            );
        },
        Err(_) => {},
    }
}

/// PUSH keeps the form of the registers.
pub proof fn lemma_push_keeps_form(s: CpuState, list: int, with_lr: bool)
    ensures
        s.keeps_form(s.push(list, with_lr)),
{
    reveal(CpuState::push);
    let count: int = count_from(list, 0) + if with_lr {
        1int
    } else {
        0int
    };
    let base: u32 = s.regs.sp.current().wrapping_sub((4 * count) as u32);
    lemma_store_multiple_same_registers(s, list, 0, base);
    let stored = s.store_multiple(list, 0, base);
    lemma_store_keeps(stored.0, stored.1, s.regs.lr);
}

proof fn lemma_multiple_keeps_form(instruction: Instruction, s: CpuState)
    ensures
        s.keeps_form(instruction.multiple_spec(s)),
{
    reveal(Instruction::multiple_spec);
    let code: int = instruction.opcode.code as int;
    let list: int = code % 0x100;
    let rd8: int = (code / 0x100) % 8;
    lemma_load_multiple_keeps_form(s, list, 0, s.regs.read(rd8));
    lemma_store_multiple_same_registers(s, list, 0, s.regs.read(rd8));
    lemma_pop_keeps_form(s, list, (code / 0x100) % 2 == 1);
    lemma_push_keeps_form(s, list, (code / 0x100) % 2 == 1);
}

proof fn lemma_system_keeps_form(instruction: Instruction, s: CpuState)
    ensures
        s.keeps_form(instruction.system_spec(s)),
{
    reveal(Instruction::system_spec);
}

/// Whatever instruction is executed in whatever state, bit 0 of the program
/// counter is clear afterwards; both stack pointers are multiples of four
/// afterwards if they were before; and each register answers to the number
/// it had.
pub proof fn lemma_execute_aligned(instruction: Instruction, pre: CpuState)
    ensures
        instruction.execute_spec(pre).regs.pc % 2 == 0,
        pre.regs.sp.msp % 4 == 0 && pre.regs.sp.psp % 4 == 0 ==> instruction.execute_spec(
            pre,
        ).regs.aligned(),
        instruction.execute_spec(pre).regs.numbers == pre.regs.numbers,
{
    let s = pre.advance();
    assert(s.regs.pc % 2 == 0 && s.regs.sp == pre.regs.sp);
    lemma_computing_keeps_form(instruction, s);
    lemma_data_keeps_form(instruction, s);
    lemma_load_keeps_form(instruction, s);
    lemma_store_same_registers(instruction, s);
    lemma_branch_keeps_form(instruction, s);
    lemma_multiple_keeps_form(instruction, s);
    lemma_system_keeps_form(instruction, s);
}

/// Taking an exception keeps the form of the registers.
pub proof fn lemma_take_exception_keeps_form(s: CpuState, e: u8)
    ensures
        s.keeps_form(s.take_exception(e)),
{
    lemma_store_words_keeps(s, s.frame_words(), 0, s.frame_pointer());
}

/// Whatever a step does, each register answers to the number it had; and
/// bit 0 of the program counter is clear afterwards and both stack pointers
/// are multiples of four, if that held before.
pub proof fn lemma_step_aligned(pre: CpuState)
    ensures
        pre.execute_instruction().regs.numbers == pre.regs.numbers,
        pre.step().regs.numbers == pre.regs.numbers,
        pre.regs.aligned() ==> pre.execute_instruction().regs.aligned(),
        pre.regs.aligned() ==> pre.step().regs.aligned(),
{
    match pre.load_u16(pre.regs.pc) {
        Ok(code) => {
            let opcode = OpCode { code, address: pre.regs.pc };
            let code2: u16 = match pre.load_u16(opcode.address.wrapping_add(2)) {
                Ok(code) => code,
                Err(_) => 0,
            };
            match decode_spec(code, code2) {
                Some(instruction) => {
                    lemma_execute_aligned(
                        Instruction {
                            opcode,
                            opcode_2: OpCode { code: code2, address: opcode.address.wrapping_add(2) },
                            instruction,
                        },
                        pre,
                    );
                },
                None => {},
            }
        },
        Err(_) => {},
    }
    let executed = pre.execute_instruction();
    match executed.best_pending(48) {
        Some(e) => lemma_take_exception_keeps_form(executed, e),
        None => {},
    }
}

} // verus!
