//! PUSH and POP undo each other.

use super::instructions::{Instruction, InstructionType};
use super::registers::{align_down, RegisterFile};
use super::semantics::{count_from, list_has};
use super::state::{CpuState, Mode};
use crate::memory::{byte_of, lemma_word_of_bytes, BusFault, MemoryMap};
use vstd::prelude::*;

verus! {

/// Whether `a` is one of the `n` addresses from `base` on. The addresses
/// wrap around at the end of the address space.
pub open spec fn within(a: u32, base: u32, n: int) -> bool {
    a.wrapping_sub(base) < n
}

impl CpuState {
    /// Each of the `n` addresses from `base` on is memory that takes a
    /// write, outside the private peripheral bus.
    pub open spec fn is_ram(self, base: u32, n: int) -> bool {
        forall|a: u32|
            within(a, base, n) ==> #[trigger] self.memory.writable.contains(a) && !Self::in_ppb(a)
    }

    /// The words that a PUSH of the registers of `list` from R`i` up leaves
    /// at `address` and above are in memory: each register of `regs` at its
    /// place.
    pub open spec fn stack_holds(self, list: int, i: int, address: u32, regs: RegisterFile) -> bool
        decreases 8 - i,
    {
        if i >= 8 {
            true
        } else if list_has(list, i) {
            self.load_u32(address) == Ok::<u32, BusFault>(regs.read(i)) && self.stack_holds(
                list,
                i + 1,
                address.wrapping_add(4),
                regs,
            )
        } else {
            self.stack_holds(list, i + 1, address, regs)
        }
    }
}

/// Whether two memories take the same writes and answer every read alike,
/// but for the `n` addresses from `base` on.
pub open spec fn same_outside(before: MemoryMap, after: MemoryMap, base: u32, n: int) -> bool {
    &&& after.writable == before.writable
    &&& forall|a: u32| !within(a, base, n) ==> #[trigger] after.read(a) == before.read(a)
}

/// A word read at a multiple of four outside the private peripheral bus
/// depends on the four bytes of memory behind it and on nothing else.
pub proof fn lemma_load_word_depends(s1: CpuState, s2: CpuState, address: u32)
    requires
        address % 4 == 0,
        forall|a: u32| within(a, address, 4) ==> !CpuState::in_ppb(a),
        forall|a: u32| within(a, address, 4) ==> #[trigger] s1.memory.read(a) == s2.memory.read(a),
    ensures
        s1.load_u32(address) == s2.load_u32(address),
{
    reveal(CpuState::load_u8);
    let a1: u32 = address.wrapping_add(1);
    let a2: u32 = address.wrapping_add(2);
    let a3: u32 = address.wrapping_add(3);
    assert(within(address, address, 4) && within(a1, address, 4) && within(a2, address, 4)
        && within(a3, address, 4));
    assert(s1.memory.read(address) == s2.memory.read(address));
    assert(s1.memory.read(a1) == s2.memory.read(a1));
    assert(s1.memory.read(a2) == s2.memory.read(a2));
    assert(s1.memory.read(a3) == s2.memory.read(a3));
}

/// A word stored in RAM at a multiple of four is taken, changes nothing but
/// its four bytes, and is read back as it was stored.
pub proof fn lemma_store_word(s: CpuState, address: u32, value: u32)
    requires
        address % 4 == 0,
        s.is_ram(address, 4),
    ensures
        ({
            let t = s.store_u32(address, value);
            &&& t.1 is Ok
            &&& t.0 == (CpuState { memory: t.0.memory, ..s })
            &&& same_outside(s.memory, t.0.memory, address, 4)
            &&& t.0.load_u32(address) == Ok::<u32, BusFault>(value)
        }),
{
    reveal(CpuState::load_u8);
    reveal(CpuState::store_u8);
    let a1: u32 = address.wrapping_add(1);
    let a2: u32 = address.wrapping_add(2);
    let a3: u32 = address.wrapping_add(3);
    assert(within(address, address, 4) && within(a1, address, 4) && within(a2, address, 4)
        && within(a3, address, 4));
    assert(s.memory.writable.contains(address) && !CpuState::in_ppb(address));
    assert(s.memory.writable.contains(a1) && !CpuState::in_ppb(a1));
    assert(s.memory.writable.contains(a2) && !CpuState::in_ppb(a2));
    assert(s.memory.writable.contains(a3) && !CpuState::in_ppb(a3));
    let first = s.store_u8(address, byte_of(value, 0));
    let second = first.0.store_u8(a1, byte_of(value, 1));
    let third = second.0.store_u8(a2, byte_of(value, 2));
    let fourth = third.0.store_u8(a3, byte_of(value, 3));
    assert(s.store_u32(address, value) == fourth);
    lemma_word_of_bytes(value);
    assert(fourth.0.load_u8(address) == Ok::<u8, BusFault>(byte_of(value, 0)));
    assert(fourth.0.load_u8(a1) == Ok::<u8, BusFault>(byte_of(value, 1)));
    assert(fourth.0.load_u8(a2) == Ok::<u8, BusFault>(byte_of(value, 2)));
    assert(fourth.0.load_u8(a3) == Ok::<u8, BusFault>(byte_of(value, 3)));
    assert forall|a: u32| !within(a, address, 4) implies #[trigger] fourth.0.memory.read(a)
        == s.memory.read(a) by {
        assert(a != address && a != a1 && a != a2 && a != a3);
    }
}

/// A write to a register does not change what a load reads.
pub proof fn lemma_load_ignores_registers(s: CpuState, i: int, value: u32, address: u32)
    ensures
        s.with_reg(i, value).load_u32(address) == s.load_u32(address),
{
    reveal(CpuState::load_u8);
}

/// There are at most eight registers in a list.
pub proof fn lemma_count_bounds(list: int, i: int)
    requires
        0 <= i <= 8,
    ensures
        0 <= count_from(list, i) <= 8 - i,
    decreases 8 - i,
{
    if i < 8 {
        lemma_count_bounds(list, i + 1);
    }
}

/// The addresses of a run of at most nine words: the first word, and the
/// words after it.
proof fn lemma_within_next(address: u32, n: int)
    requires
        address % 4 == 0,
        4 <= n <= 36,
    ensures
        address.wrapping_add(4) % 4 == 0,
        forall|a: u32|
            #[trigger] within(a, address, n) <==> within(a, address, 4) || within(
                a,
                address.wrapping_add(4),
                n - 4,
            ),
        forall|a: u32|
            !(#[trigger] within(a, address, 4) && within(a, address.wrapping_add(4), n - 4)),
{
}

/// What the stack holds depends on the bytes of the stack alone.
pub proof fn lemma_stack_holds_frame(
    s1: CpuState,
    s2: CpuState,
    list: int,
    i: int,
    address: u32,
    regs: RegisterFile,
)
    requires
        0 <= i <= 8,
        address % 4 == 0,
        s1.stack_holds(list, i, address, regs),
        forall|a: u32| within(a, address, 4 * count_from(list, i)) ==> !CpuState::in_ppb(a),
        forall|a: u32|
            within(a, address, 4 * count_from(list, i)) ==> #[trigger] s1.memory.read(a)
                == s2.memory.read(a),
    ensures
        s2.stack_holds(list, i, address, regs),
    decreases 8 - i,
{
    if i < 8 {
        lemma_count_bounds(list, i + 1);
        if list_has(list, i) {
            lemma_within_next(address, 4 * count_from(list, i));
            lemma_load_word_depends(s1, s2, address);
            lemma_stack_holds_frame(s1, s2, list, i + 1, address.wrapping_add(4), regs);
        } else {
            lemma_stack_holds_frame(s1, s2, list, i + 1, address, regs);
        }
    }
}

/// Storing the registers of a list in RAM succeeds, changes nothing but the
/// words it writes, and leaves the registers on the stack.
#[verifier::rlimit(30)]
pub proof fn lemma_store_multiple(s: CpuState, list: int, i: int, address: u32)
    requires
        0 <= i <= 8,
        address % 4 == 0,
        s.is_ram(address, 4 * count_from(list, i)),
    ensures
        ({
            let r = s.store_multiple(list, i, address);
            let n: int = 4 * count_from(list, i);
            &&& r.2
            &&& r.1 == address.wrapping_add(n as u32)
            &&& r.0 == (CpuState { memory: r.0.memory, ..s })
            &&& same_outside(s.memory, r.0.memory, address, n)
            &&& r.0.stack_holds(list, i, address, s.regs)
        }),
    decreases 8 - i,
{
    if i < 8 {
        lemma_count_bounds(list, i + 1);
        if list_has(list, i) {
            let n: int = 4 * count_from(list, i);
            let value: u32 = s.regs.read(i);
            let next: u32 = address.wrapping_add(4);
            lemma_within_next(address, n);
            assert(s.is_ram(address, 4)) by {
                assert forall|a: u32| within(a, address, 4) implies #[trigger] s.memory.writable.contains(
                    a,
                ) && !CpuState::in_ppb(a) by {
                    assert(within(a, address, n));
                    assert(s.memory.writable.contains(a));
                }
            }
            lemma_store_word(s, address, value);
            let t = s.store_u32(address, value);
            assert(t.0.is_ram(next, n - 4)) by {
                assert forall|a: u32| within(a, next, n - 4) implies #[trigger] t.0.memory.writable.contains(
                    a,
                ) && !CpuState::in_ppb(a) by {
                    assert(within(a, address, n));
                    assert(s.memory.writable.contains(a));
                }
            }
            lemma_store_multiple(t.0, list, i + 1, next);
            let r = t.0.store_multiple(list, i + 1, next);
            assert(s.store_multiple(list, i, address) == r);
            assert(same_outside(s.memory, r.0.memory, address, n)) by {
                assert forall|a: u32| !within(a, address, n) implies #[trigger] r.0.memory.read(a)
                    == s.memory.read(a) by {
                    assert(!within(a, next, n - 4) && !within(a, address, 4));
                    assert(r.0.memory.read(a) == t.0.memory.read(a));
                    assert(t.0.memory.read(a) == s.memory.read(a));
                }
            }
            assert(r.0.load_u32(address) == Ok::<u32, BusFault>(value)) by {
                assert forall|a: u32| within(a, address, 4) implies !CpuState::in_ppb(a) by {
                    assert(s.memory.writable.contains(a));
                }
                assert forall|a: u32| within(a, address, 4) implies #[trigger] t.0.memory.read(a)
                    == r.0.memory.read(a) by {
                    assert(!within(a, next, n - 4));
                    assert(r.0.memory.read(a) == t.0.memory.read(a));
                }
                lemma_load_word_depends(t.0, r.0, address);
            }
        } else {
            lemma_store_multiple(s, list, i + 1, address);
        }
    }
}

/// What the stack holds does not depend on the registers.
pub proof fn lemma_stack_survives_write(
    s: CpuState,
    register: int,
    value: u32,
    list: int,
    i: int,
    address: u32,
    regs: RegisterFile,
)
    requires
        s.stack_holds(list, i, address, regs),
    ensures
        s.with_reg(register, value).stack_holds(list, i, address, regs),
    decreases 8 - i,
{
    if i < 8 {
        if list_has(list, i) {
            lemma_load_ignores_registers(s, register, value, address);
            lemma_stack_survives_write(
                s,
                register,
                value,
                list,
                i + 1,
                address.wrapping_add(4),
                regs,
            );
        } else {
            lemma_stack_survives_write(s, register, value, list, i + 1, address, regs);
        }
    }
}

/// Loading the registers of a list from a stack that holds them succeeds,
/// gives each register of the list the value that the stack holds for it,
/// and changes no other register and nothing else.
pub proof fn lemma_load_multiple(m: CpuState, list: int, i: int, address: u32, regs: RegisterFile)
    requires
        0 <= i <= 8,
        m.stack_holds(list, i, address, regs),
        m.regs.wf(),
    ensures
        ({
            let r = m.load_multiple(list, i, address);
            &&& r.2
            &&& r.1 == address.wrapping_add((4 * count_from(list, i)) as u32)
            &&& r.0 == (CpuState { regs: RegisterFile { r: r.0.regs.r, ..m.regs }, ..m })
            &&& r.0.regs.wf()
            &&& forall|j: int|
                0 <= j < 13 ==> #[trigger] r.0.regs.r[j] == (if i <= j < 8 && list_has(list, j) {
                    regs.read(j)
                } else {
                    m.regs.r[j]
                })
        }),
    decreases 8 - i,
{
    if i < 8 {
        lemma_count_bounds(list, i + 1);
        if list_has(list, i) {
            let value: u32 = regs.read(i);
            let next: u32 = address.wrapping_add(4);
            let t = m.with_reg(i, value);
            lemma_stack_survives_write(m, i, value, list, i + 1, next, regs);
            assert(t.regs.wf());
            lemma_load_multiple(t, list, i + 1, next, regs);
            let r = t.load_multiple(list, i + 1, next);
            assert(m.load_u32(address) == Ok::<u32, BusFault>(value));
            assert(m.load_multiple(list, i, address) == r);
            assert(t.regs.r[i] == value);
            assert forall|j: int| 0 <= j < 13 implies #[trigger] r.0.regs.r[j] == (if i <= j < 8
                && list_has(list, j) {
                regs.read(j)
            } else {
                m.regs.r[j]
            }) by {
                if j != i {
                    assert(t.regs.r[j] == m.regs.r[j]);
                }
            }
        } else {
            lemma_load_multiple(m, list, i + 1, address, regs);
        }
    }
}

/// What PUSH leaves when the stack lies in RAM: the stack pointer has moved
/// down by four bytes for each register pushed, the registers of the list
/// are on the stack from there up, LR is above them if it was pushed, and
/// nothing but memory and the stack pointer has changed.
#[verifier::rlimit(30)]
pub proof fn lemma_push(s: CpuState, list: int, with_lr: bool)
    requires
        s.regs.sp.current() % 4 == 0,
        ({
            let count: int = count_from(list, 0) + if with_lr {
                1int
            } else {
                0int
            };
            s.is_ram(s.regs.sp.current().wrapping_sub((4 * count) as u32), 4 * count)
        }),
    ensures
        ({
            let count: int = count_from(list, 0) + if with_lr {
                1int
            } else {
                0int
            };
            let base: u32 = s.regs.sp.current().wrapping_sub((4 * count) as u32);
            let left = s.push(list, with_lr);
            &&& left.regs.sp.current() == base
            &&& left == (CpuState { memory: left.memory, ..s.with_reg(13, base) })
            &&& left.stack_holds(list, 0, base, s.regs)
            &&& with_lr ==> left.load_u32(base.wrapping_add((4 * count_from(list, 0)) as u32))
                == Ok::<u32, BusFault>(s.regs.lr)
        }),
{
    reveal(CpuState::push);
    let listed: int = 4 * count_from(list, 0);
    let count: int = count_from(list, 0) + if with_lr {
        1int
    } else {
        0int
    };
    lemma_count_bounds(list, 0);
    let sp: u32 = s.regs.sp.current();
    let base: u32 = sp.wrapping_sub((4 * count) as u32);
    let end: u32 = base.wrapping_add(listed as u32);
    assert(base % 4 == 0 && end % 4 == 0);
    assert(s.is_ram(base, listed)) by {
        assert forall|a: u32| within(a, base, listed) implies #[trigger] s.memory.writable.contains(
            a,
        ) && !CpuState::in_ppb(a) by {
            assert(within(a, base, 4 * count));
            assert(s.memory.writable.contains(a));
        }
    }
    lemma_store_multiple(s, list, 0, base);
    let stored = s.store_multiple(list, 0, base);
    if with_lr {
        assert forall|a: u32| within(a, end, 4) implies within(a, base, 4 * count) && !within(
            a,
            base,
            listed,
        ) by {}
        assert(stored.0.is_ram(end, 4)) by {
            assert forall|a: u32| within(a, end, 4) implies #[trigger] stored.0.memory.writable.contains(
                a,
            ) && !CpuState::in_ppb(a) by {
                assert(within(a, base, 4 * count));
                assert(s.memory.writable.contains(a));
            }
        }
        lemma_store_word(stored.0, end, s.regs.lr);
        let pushed = stored.0.store_u32(end, s.regs.lr).0;
        assert forall|a: u32| within(a, base, listed) implies !CpuState::in_ppb(a) by {
            assert(s.memory.writable.contains(a));
        }
        assert forall|a: u32| within(a, base, listed) implies #[trigger] stored.0.memory.read(a)
            == pushed.memory.read(a) by {
            assert(!within(a, end, 4));
            assert(pushed.memory.read(a) == stored.0.memory.read(a));
        }
        lemma_stack_holds_frame(stored.0, pushed, list, 0, base, s.regs);
        lemma_stack_survives_write(pushed, 13, base, list, 0, base, s.regs);
        lemma_load_ignores_registers(pushed, 13, base, end);
    } else {
        lemma_stack_survives_write(stored.0, 13, base, list, 0, base, s.regs);
    }
}

/// What POP does when the stack holds the registers of the list, and above
/// them the value for the program counter if it is popped: each register of
/// the list takes the value that the stack holds for it, the stack pointer
/// moves up past what was popped, and no other register from R0 to R12
/// changes. The program counter takes its value without bit 0, unless the
/// value asks for an exception return.
#[verifier::rlimit(30)]
pub proof fn lemma_pop(m: CpuState, list: int, with_pc: bool, regs: RegisterFile, target: u32)
    requires
        m.regs.wf(),
        m.regs.sp.current() % 4 == 0,
        m.stack_holds(list, 0, m.regs.sp.current(), regs),
        with_pc ==> m.load_u32(m.regs.sp.current().wrapping_add((4 * count_from(list, 0)) as u32))
            == Ok::<u32, BusFault>(target),
        !(with_pc && m.mode == Mode::Handler && target / 0x1000_0000 == 0xf),
    ensures
        ({
            let after = m.pop(list, with_pc);
            let count: int = count_from(list, 0) + if with_pc {
                1int
            } else {
                0int
            };
            &&& forall|j: int|
                0 <= j < 13 ==> #[trigger] after.regs.read(j) == (if j < 8 && list_has(list, j) {
                    regs.read(j)
                } else {
                    m.regs.read(j)
                })
            &&& after.regs.sp.current() == m.regs.sp.current().wrapping_add((4 * count) as u32)
            &&& with_pc ==> after.regs.pc == align_down(target, 2)
        }),
{
    reveal(CpuState::pop);
    lemma_count_bounds(list, 0);
    let sp: u32 = m.regs.sp.current();
    lemma_load_multiple(m, list, 0, sp, regs);
    let loaded = m.load_multiple(list, 0, sp);
    if with_pc {
        assert(loaded.0.load_u32(loaded.1) == m.load_u32(loaded.1)) by {
            reveal(CpuState::load_u8);
        }
    }
    let after = m.pop(list, with_pc);
    assert forall|j: int| 0 <= j < 13 implies #[trigger] after.regs.read(j) == (if j < 8
        && list_has(list, j) {
        regs.read(j)
    } else {
        m.regs.read(j)
    }) by {
        assert(after.regs.r[j] == loaded.0.regs.r[j]);
    }
}

/// What the instructions PUSH and POP do, in terms of the register list in
/// their low eight bits and of bit 8, which adds LR to a PUSH and the program
/// counter to a POP.
pub proof fn lemma_push_pop_instructions(instruction: Instruction, pre: CpuState)
    ensures
        instruction.instruction == InstructionType::PushT1 ==> instruction.execute_spec(pre)
            == pre.advance().push(
            instruction.opcode.code as int % 0x100,
            (instruction.opcode.code as int / 0x100) % 2 == 1,
        ),
        instruction.instruction == InstructionType::PopT1 ==> instruction.execute_spec(pre)
            == pre.advance().pop(
            instruction.opcode.code as int % 0x100,
            (instruction.opcode.code as int / 0x100) % 2 == 1,
        ),
{
    reveal(Instruction::multiple_spec);
}

/// PUSH followed by POP of the same register list gives the registers of
/// the list the values they had at the PUSH, and the stack pointer the value
/// it had. Where the list holds LR for the PUSH, and so PC for the POP, the
/// program counter takes what LR held, without bit 0.
///
/// `before` is the state at the PUSH. `between` is any state at the POP that
/// has the memory and the stack pointer that the PUSH left: whatever ran in
/// between may have changed the registers. The stack lies in RAM, and
/// where the program counter is popped, the POP is not an exception return.
#[verifier::rlimit(30)]
pub proof fn lemma_push_pop(
    push: Instruction,
    pop: Instruction,
    before: CpuState,
    between: CpuState,
)
    requires
        push.instruction == InstructionType::PushT1,
        pop.instruction == InstructionType::PopT1,
        pop.opcode.code % 0x200 == push.opcode.code % 0x200,
        before.regs.wf(),
        before.regs.aligned(),
        between.regs.wf(),
        ({
            let list: int = push.opcode.code as int % 0x100;
            let count: int = count_from(list, 0) + (push.opcode.code as int / 0x100) % 2;
            before.is_ram(before.regs.sp.current().wrapping_sub((4 * count) as u32), 4 * count)
        }),
        between.memory == push.execute_spec(before).memory,
        between.regs.sp == push.execute_spec(before).regs.sp,
        !((push.opcode.code as int / 0x100) % 2 == 1 && between.mode == Mode::Handler
            && before.regs.lr / 0x1000_0000 == 0xf),
    ensures
        ({
            let after = pop.execute_spec(between);
            let list: int = push.opcode.code as int % 0x100;
            &&& forall|j: int|
                0 <= j < 13 ==> #[trigger] after.regs.read(j) == (if j < 8 && list_has(list, j) {
                    before.regs.read(j)
                } else {
                    between.regs.read(j)
                })
            &&& after.regs.sp.current() == before.regs.sp.current()
            &&& (push.opcode.code as int / 0x100) % 2 == 1 ==> after.regs.pc == align_down(
                before.regs.lr,
                2,
            )
        }),
{
    lemma_push_pop_instructions(push, before);
    lemma_push_pop_instructions(pop, between);
    let code: int = push.opcode.code as int;
    let list: int = code % 0x100;
    let with_lr: bool = (code / 0x100) % 2 == 1;
    assert(pop.opcode.code as int % 0x100 == list);
    assert(((pop.opcode.code as int / 0x100) % 2 == 1) == with_lr);
    lemma_count_bounds(list, 0);
    let s = before.advance();
    let listed: int = 4 * count_from(list, 0);
    let count: int = count_from(list, 0) + if with_lr {
        1int
    } else {
        0int
    };
    assert(count == count_from(list, 0) + (code / 0x100) % 2);
    assert(s.memory == before.memory && s.regs.sp == before.regs.sp);
    let sp: u32 = s.regs.sp.current();
    let base: u32 = sp.wrapping_sub((4 * count) as u32);
    let end: u32 = base.wrapping_add(listed as u32);
    assert(s.is_ram(base, 4 * count));
    lemma_push(s, list, with_lr);
    let left = s.push(list, with_lr);
    let m = between.advance();
    assert(base % 4 == 0 && end % 4 == 0);
    assert(base.wrapping_add((4 * count) as u32) == sp);
    assert forall|a: u32| within(a, base, listed) implies !CpuState::in_ppb(a) by {
        assert(within(a, base, 4 * count));
        assert(before.memory.writable.contains(a));
    }
    assert forall|a: u32| within(a, base, listed) implies #[trigger] left.memory.read(a)
        == m.memory.read(a) by {}
    lemma_stack_holds_frame(left, m, list, 0, base, s.regs);
    if with_lr {
        assert forall|a: u32| within(a, end, 4) implies !CpuState::in_ppb(a) by {
            assert(within(a, base, 4 * count));
            assert(before.memory.writable.contains(a));
        }
        assert forall|a: u32| within(a, end, 4) implies #[trigger] left.memory.read(a)
            == m.memory.read(a) by {}
        lemma_load_word_depends(left, m, end);
    }
    lemma_pop(m, list, with_lr, s.regs, before.regs.lr);
}

} // verus!
