//! Exceptions: their numbers and priorities, the sets of those that are
//! active and pending, entry into a handler and the return from it.

use super::apsr::Ipsr;
use super::control::SpSel;
use super::laws::{lemma_active_priority, lemma_best_pending};
use super::nvic::Nvic;
use super::registers::{align_down, PcRegister, Register, SpMode};
use super::semantics::{Frame, EXC_RETURN_HANDLER, EXC_RETURN_THREAD_MSP, EXC_RETURN_THREAD_PSP};
use super::shpr::Shpr;
use super::state::{CortexM33, CpuState, Mode};
use crate::memory::MemoryInterface;
use std::collections::HashSet;
use vstd::prelude::*;
use vstd::set_lib::{lemma_int_range, lemma_set_subset_finite, set_int_range};

verus! {

broadcast use vstd::std_specs::hash::group_hash_axioms;

/// The exceptions whose priority software sets, apart from SVCall.
#[derive(Debug, Clone, Copy, PartialEq, Eq, Structural)]
pub enum InterruptException {
    PendSV,
    SysTick,
    ExternalInterrupt(u8),
}

/// The exceptions that have a name.
#[derive(Debug, Clone, Copy, PartialEq, Eq, Structural)]
pub enum Exception {
    Reset,
    NMI,
    HardFault,
    UsageFault,
    SVCall,
    Interrupt(InterruptException),
}

/// Lowest exception number.
pub const FIRST_EXCEPTION: u8 = 1;

/// Highest exception number.
pub const LAST_EXCEPTION: u8 = 48;

/// Number of the first external interrupt.
pub const FIRST_EXTERNAL: u8 = 16;

/// Number of the last external interrupt.
pub const LAST_EXTERNAL: u8 = 47;

/// Exception number of Reset.
pub const RESET: u8 = 1;

/// Exception number of the non-maskable interrupt.
pub const NMI: u8 = 2;

/// Exception number of HardFault.
pub const HARD_FAULT: u8 = 3;

/// Exception number of UsageFault.
pub const USAGE_FAULT: u8 = 6;

/// Exception number of SVCall.
pub const SVCALL: u8 = 11;

/// Exception number of PendSV.
pub const PENDSV: u8 = 14;

/// Exception number of SysTick.
pub const SYSTICK: u8 = 15;

impl Exception {
    /// There are 32 external interrupts.
    pub open spec fn wf(self) -> bool {
        self matches Exception::Interrupt(InterruptException::ExternalInterrupt(irq)) ==> irq < 32
    }

    /// The number of an exception; external interrupt `irq` has the number `16 + irq`.
    pub open spec fn number_spec(self) -> u8 {
        match self {
            Exception::Reset => 1,
            Exception::NMI => 2,
            Exception::HardFault => 3,
            Exception::UsageFault => 6,
            Exception::SVCall => 11,
            Exception::Interrupt(InterruptException::PendSV) => 14,
            Exception::Interrupt(InterruptException::SysTick) => 15,
            Exception::Interrupt(InterruptException::ExternalInterrupt(irq)) => (16 + irq) as u8,
        }
    }

    /// The exception that a number stands for, where it stands for one.
    pub open spec fn from_number_spec(n: u8) -> Option<Exception> {
        if n == 1 {
            Some(Exception::Reset)
        } else if n == 2 {
            Some(Exception::NMI)
        } else if n == 3 {
            Some(Exception::HardFault)
        } else if n == 6 {
            Some(Exception::UsageFault)
        } else if n == 11 {
            Some(Exception::SVCall)
        } else if n == 14 {
            Some(Exception::Interrupt(InterruptException::PendSV))
        } else if n == 15 {
            Some(Exception::Interrupt(InterruptException::SysTick))
        } else if 16 <= n <= 47 {
            Some(Exception::Interrupt(InterruptException::ExternalInterrupt((n - 16) as u8)))
        } else {
            None
        }
    }

    /// The number of the exception.
    pub fn number(&self) -> (r: u8)
        requires
            self.wf(),
        ensures
            r == self.number_spec(),
            1 <= r <= 47,
            Exception::from_number_spec(r) == Some(*self),
    {
        match self {
            Exception::Reset => 1,
            Exception::NMI => 2,
            Exception::HardFault => 3,
            Exception::UsageFault => 6,
            Exception::SVCall => 11,
            Exception::Interrupt(interrupt) => match interrupt {
                InterruptException::PendSV => 14,
                InterruptException::SysTick => 15,
                InterruptException::ExternalInterrupt(irq) => 16 + *irq,
            },
        }
    }

    /// The exception that a number stands for, where it stands for one.
    pub fn from_number(n: u8) -> (r: Option<Exception>)
        ensures
            r == Exception::from_number_spec(n),
            r matches Some(e) ==> e.wf() && e.number_spec() == n,
    {
        if n == 1 {
            Some(Exception::Reset)
        } else if n == 2 {
            Some(Exception::NMI)
        } else if n == 3 {
            Some(Exception::HardFault)
        } else if n == 6 {
            Some(Exception::UsageFault)
        } else if n == 11 {
            Some(Exception::SVCall)
        } else if n == 14 {
            Some(Exception::Interrupt(InterruptException::PendSV))
        } else if n == 15 {
            Some(Exception::Interrupt(InterruptException::SysTick))
        } else if 16 <= n && n <= 47 {
            Some(Exception::Interrupt(InterruptException::ExternalInterrupt(n - 16)))
        } else {
            None
        }
    }
}

/// The priority of exception `n`: Reset, NMI and HardFault are fixed at -3,
/// -2 and -1; SVCall, PendSV and SysTick have theirs in SHPR; an external
/// interrupt has its in the interrupt controller; any other number has the
/// lowest priority, 4. A lower number is a higher priority.
pub open spec fn priority_spec(shpr: Shpr, nvic: Nvic, n: u8) -> int {
    if n == 1 {
        -3
    } else if n == 2 {
        -2
    } else if n == 3 {
        -1
    } else if n == 11 {
        shpr.pri_11_spec() as int
    } else if n == 14 {
        shpr.pri_14_spec() as int
    } else if n == 15 {
        shpr.pri_15_spec() as int
    } else if 16 <= n <= 47 {
        nvic.priority_spec(n - 16) as int
    } else {
        4
    }
}

/// The priority of exception `n`, computed from the two register banks.
pub fn priority_of(shpr: &Shpr, nvic: &Nvic, n: u8) -> (r: i8)
    requires
        1 <= n <= 48,
    ensures
        r == priority_spec(*shpr, *nvic, n),
        -3 <= r <= 4,
{
    if n == 1 {
        -3
    } else if n == 2 {
        -2
    } else if n == 3 {
        -1
    } else if n == 11 {
        shpr.pri_11() as i8
    } else if n == 14 {
        shpr.pri_14() as i8
    } else if n == 15 {
        shpr.pri_15() as i8
    } else if n >= 16 && n <= 47 {
        nvic.priority(n - 16) as i8
    } else {
        4
    }
}

/// The exceptions in flight: those whose handler has been entered and has
/// not returned, and those waiting to be taken.
pub struct Exceptions {
    pub active: HashSet<u8>,
    pub pending: HashSet<u8>,
}

impl Exceptions {
    /// Nothing active, nothing pending.
    pub fn new() -> (r: Self)
        ensures
            r.active@ == Set::<u8>::empty(),
            r.pending@ == Set::<u8>::empty(),
    {
        Self { active: HashSet::new(), pending: HashSet::new() }
    }

    /// Marks exception `n` as waiting to be taken.
    pub fn pend(&mut self, n: u8)
        ensures
            final(self).pending@ == old(self).pending@.insert(n),
            final(self).active@ == old(self).active@,
    {
        self.pending.insert(n);
    }

    /// The priority of exception `n` on the processor given.
    pub fn priority<M: MemoryInterface>(cortex: &CortexM33<M>, n: u8) -> (r: i8)
        requires
            1 <= n <= 48,
        ensures
            r == cortex@.priority(n),
            -3 <= r <= 4,
    {
        priority_of(&cortex.shpr, &cortex.nvic, n)
    }
}

/// A set of exception numbers is finite: there are 256 numbers.
pub proof fn lemma_numbers_finite(s: Set<u8>)
    ensures
        s.finite(),
{
    let all: Set<int> = set_int_range(0, 256);
    let number = |i: int| i as u8;
    lemma_int_range(0, 256);
    all.lemma_map_finite(number);
    assert forall|x: u8| s.contains(x) implies all.map(number).contains(x) by {
        assert(all.contains(x as int) && number(x as int) == x);
    }
    lemma_set_subset_finite(all.map(number), s);
}

/// How many exceptions are active.
pub fn exception_active_bit_count(exceptions: &Exceptions) -> (r: usize)
    ensures
        r == exceptions.active@.len(),
        exceptions.active@.finite(),
{
    proof {
        lemma_numbers_finite(exceptions.active@);
    }
    exceptions.active.len()
}

/// Takes exception `returning_exception_number` out of the active set.
pub fn deactivate<M: MemoryInterface>(cortex: &mut CortexM33<M>, returning_exception_number: u8)
    ensures
        final(cortex)@ == (CpuState {
            active: old(cortex)@.active.remove(returning_exception_number),
            ..old(cortex)@
        }),
{
    cortex.exceptions.active.remove(&returning_exception_number);
}

/// Sets the program counter; bit 0 of the address is dropped.
pub fn branch_to<M: MemoryInterface>(cortex: &mut CortexM33<M>, address: u32)
    ensures
        final(cortex)@ == old(cortex)@.with_reg(15, address),
{
    cortex.write_register(15, address);
}

/// Sets the program counter; bit 0 of the address is dropped.
pub fn branch_write_pc(pc: &mut PcRegister, address: u32)
    ensures
        final(pc).value() == align_down(address, 2),
        final(pc).index() == old(pc).index(),
{
    pc.set(address);
}

/// Reads the eight words of the frame at `frameptr`.
pub fn read_frame<M: MemoryInterface>(cortex: &CortexM33<M>, frameptr: u32) -> (r: Option<Frame>)
    ensures
        r == cortex@.frame_at(frameptr),
{
    let r0: u32 = match cortex.read_u32(frameptr) {
        Ok(v) => v,
        Err(_) => { return None; },
    };
    let r1: u32 = match cortex.read_u32(frameptr.wrapping_add(0x04)) {
        Ok(v) => v,
        Err(_) => { return None; },
    };
    let r2: u32 = match cortex.read_u32(frameptr.wrapping_add(0x08)) {
        Ok(v) => v,
        Err(_) => { return None; },
    };
    let r3: u32 = match cortex.read_u32(frameptr.wrapping_add(0x0c)) {
        Ok(v) => v,
        Err(_) => { return None; },
    };
    let r12: u32 = match cortex.read_u32(frameptr.wrapping_add(0x10)) {
        Ok(v) => v,
        Err(_) => { return None; },
    };
    let lr: u32 = match cortex.read_u32(frameptr.wrapping_add(0x14)) {
        Ok(v) => v,
        Err(_) => { return None; },
    };
    let return_address: u32 = match cortex.read_u32(frameptr.wrapping_add(0x18)) {
        Ok(v) => v,
        Err(_) => { return None; },
    };
    let xpsr: u32 = match cortex.read_u32(frameptr.wrapping_add(0x1c)) {
        Ok(v) => v,
        Err(_) => { return None; },
    };
    Some(Frame { r0, r1, r2, r3, r12, lr, return_address, xpsr })
}

/// Unstacks a frame that was read from `frameptr`: the registers R0 to R3,
/// R12, LR, the return address and the status word, and moves the stack
/// pointer that the link value names past the frame.
pub fn popstack<M: MemoryInterface>(
    cortex: &mut CortexM33<M>,
    frame: Frame,
    frameptr: u32,
    exc_return: u32,
)
    ensures
        final(cortex)@ == old(cortex)@.popstack(frame, frameptr, exc_return),
{
    let padding: u32 = if (frame.xpsr / 0x200) % 2 == 1 {
        4
    } else {
        0
    };
    let sp_value: u32 = frameptr.wrapping_add(0x20).wrapping_add(padding);
    cortex.registers.write(0, frame.r0);
    cortex.registers.write(1, frame.r1);
    cortex.registers.write(2, frame.r2);
    cortex.registers.write(3, frame.r3);
    cortex.registers.write(12, frame.r12);
    cortex.registers.write(14, frame.lr);
    cortex.registers.write(15, frame.return_address);
    if exc_return % 16 == 13 {
        cortex.registers.sp.set_psp(sp_value);
        cortex.registers.sp.set_mode(SpMode::Process);
    } else {
        cortex.registers.sp.set_msp(sp_value);
        cortex.registers.sp.set_mode(SpMode::Main);
    }
    cortex.xpsr.set_from_u32(frame.xpsr - ((frame.xpsr / 0x200) % 2) * 0x200);
    assert(cortex@.regs.r =~= old(cortex)@.popstack(frame, frameptr, exc_return).regs.r);
}

/// Records an exception return that cannot be carried out.
pub fn illegal_return<M: MemoryInterface>(cortex: &mut CortexM33<M>)
    ensures
        final(cortex)@ == old(cortex)@.illegal_return(),
{
    cortex.pend(HARD_FAULT);
    cortex.unpredictable = true;
}

/// Returns from the exception that IPSR names, as the link value
/// `exc_return` asks.
pub fn exception_return<M: MemoryInterface>(cortex: &mut CortexM33<M>, exc_return: u32)
    ensures
        final(cortex)@ == old(cortex)@.exception_return(exc_return),
{
    proof {
        reveal(CpuState::exception_return);
    }
    let selector: u32 = exc_return % 16;
    let number: u16 = cortex.xpsr.ipsr.0;
    let nested_activation: usize = exception_active_bit_count(&cortex.exceptions);
    let legal: bool = (exc_return / 16) % 0x100_0000 == 0xff_ffff && number < 256
        && cortex.exceptions.active.contains(&(number as u8)) && ((selector == 1
        && nested_activation > 1) || ((selector == 9 || selector == 13) && nested_activation == 1));
    if !legal {
        illegal_return(cortex);
        return ;
    }
    let returning: u8 = number as u8;
    let frameptr: u32 = if selector == 13 {
        cortex.registers.sp.get_psp()
    } else {
        cortex.registers.sp.get_msp()
    };
    let frame: Frame = match read_frame(cortex, frameptr) {
        Some(frame) => frame,
        None => {
            illegal_return(cortex);
            return ;
        },
    };
    let stacked: u32 = frame.xpsr % 0x200;
    let fits: bool = if selector == 1 {
        0 < stacked && stacked < 256 && stacked as u8 != returning
            && cortex.exceptions.active.contains(&(stacked as u8))
    } else {
        stacked == 0
    };
    if !fits {
        illegal_return(cortex);
        return ;
    }
    deactivate(cortex, returning);
    popstack(cortex, frame, frameptr, exc_return);
    cortex.mode = if selector == 1 {
        Mode::Handler
    } else {
        Mode::Thread
    };
    cortex.control.spsel = if selector == 13 {
        SpSel::SpProcess
    } else {
        SpSel::SpMain
    };
}

/// Loads a value into the program counter for BX, BLX or POP: an exception
/// return where Handler mode loads a link value, a branch otherwise, which
/// makes `fault` pending where bit 0 of the value is clear.
pub fn bx_write_pc<M: MemoryInterface>(cortex: &mut CortexM33<M>, target: u32, fault: u8)
    ensures
        final(cortex)@ == old(cortex)@.bx_write_pc(target, fault),
{
    if cortex.mode == Mode::Handler && target / 0x1000_0000 == 0xf {
        exception_return(cortex, target);
    } else {
        cortex.write_register(15, target);
        if target % 2 == 0 {
            cortex.pend(fault);
        }
    }
}

/// The priority that the processor runs at: no active exception numbered
/// from 1 to 48 has a higher one.
pub fn execution_priority<M: MemoryInterface>(cortex: &CortexM33<M>) -> (r: i8)
    ensures
        r == cortex@.execution_priority(),
        -3 <= r <= 5,
        forall|a: u8|
            1 <= a <= 48 && cortex@.active.contains(a) ==> r <= #[trigger] cortex@.priority(a),
{
    proof {
        lemma_active_priority(cortex@, 48);
    }
    let mut best: i8 = 5;
    let mut n: u8 = 1;
    while n <= 48
        invariant
            1 <= n <= 49,
            best == cortex@.active_priority(n - 1),
            -3 <= best <= 5,
        decreases 49 - n,
    {
        if cortex.exceptions.active.contains(&n) {
            let priority: i8 = Exceptions::priority(cortex, n);
            if priority < best {
                best = priority;
            }
        }
        n = n + 1;
    }
    if cortex.primask && best > 0 {
        0
    } else {
        best
    }
}

/// The exception to take now, if there is one: of those that can be taken,
/// the one of the highest priority, and of those the one with the lowest
/// number.
pub fn next_exception<M: MemoryInterface>(cortex: &CortexM33<M>) -> (r: Option<u8>)
    ensures
        r == cortex@.best_pending(48),
        match r {
            Some(e) => {
                &&& cortex@.can_take(e)
                &&& forall|m: u8| #[trigger]
                    cortex@.can_take(m) ==> cortex@.priority(e) < cortex@.priority(m) || (
                    cortex@.priority(e) == cortex@.priority(m) && e <= m)
            },
            None => forall|m: u8| !#[trigger] cortex@.can_take(m),
        },
{
    proof {
        lemma_best_pending(cortex@, 48);
    }
    let running: i8 = execution_priority(cortex);
    let mut best: Option<u8> = None;
    let mut best_priority: i8 = 5;
    let mut n: u8 = 1;
    while n <= 48
        invariant
            1 <= n <= 49,
            running == cortex@.execution_priority(),
            best == cortex@.best_pending(n - 1),
            best matches Some(m) ==> 1 <= m <= 48 && best_priority == cortex@.priority(m),
        decreases 49 - n,
    {
        if cortex.exceptions.pending.contains(&n) && (n < 16 || n > 47 || cortex.nvic.is_enabled(
            n - 16,
        )) {
            let priority: i8 = Exceptions::priority(cortex, n);
            if priority < running && (best.is_none() || priority < best_priority) {
                best = Some(n);
                best_priority = priority;
            }
        }
        n = n + 1;
    }
    best
}

/// Stores the words of a frame at ascending addresses; says whether every
/// store was taken.
pub fn push_frame<M: MemoryInterface>(
    cortex: &mut CortexM33<M>,
    words: [u32; 8],
    address: u32,
) -> (r: bool)
    ensures
        (final(cortex)@, r) == old(cortex)@.store_words(words@, 0, address),
{
    let mut at: u32 = address;
    let mut i: usize = 0;
    while i < 8
        invariant
            i <= 8,
            words@.len() == 8,
            cortex@.store_words(words@, i as int, at) == old(cortex)@.store_words(
                words@,
                0,
                address,
            ),
        decreases 8 - i,
    {
        match cortex.write_u32(at, words[i]) {
            Ok(()) => {},
            Err(_) => {
                return false;
            },
        }
        at = at.wrapping_add(4);
        i = i + 1;
    }
    true
}

/// Records that exception `e` could not be taken.
pub fn fail_to_take<M: MemoryInterface>(cortex: &mut CortexM33<M>, e: u8)
    ensures
        final(cortex)@ == old(cortex)@.fail_to_take(e),
{
    if e == HARD_FAULT || cortex.exceptions.active.contains(&HARD_FAULT) {
        cortex.lockup = true;
    } else {
        cortex.pend(HARD_FAULT);
    }
}

/// Enters the handler of exception `e`, whose frame is on the stack at
/// `frameptr`.
pub fn enter_handler<M: MemoryInterface>(
    cortex: &mut CortexM33<M>,
    e: u8,
    frameptr: u32,
    link: u32,
    vector: u32,
)
    ensures
        final(cortex)@ == old(cortex)@.enter_handler(e, frameptr, link, vector),
{
    cortex.registers.sp.set(frameptr);
    cortex.registers.sp.set_mode(SpMode::Main);
    cortex.registers.lr.set(link);
    cortex.registers.pc.set(vector);
    cortex.xpsr.ipsr = Ipsr(e as u16);
    cortex.mode = Mode::Handler;
    cortex.control.spsel = SpSel::SpMain;
    cortex.exceptions.active.insert(e);
    cortex.exceptions.pending.remove(&e);
    assert(cortex@.regs.r =~= old(cortex)@.regs.r);
}

/// Takes exception `e`.
pub fn take_exception<M: MemoryInterface>(cortex: &mut CortexM33<M>, e: u8)
    ensures
        final(cortex)@ == old(cortex)@.take_exception(e),
{
    let vector: u32 = match cortex.read_u32(cortex.vtor.wrapping_add(4 * (e as u32))) {
        Ok(vector) => vector,
        Err(_) => {
            fail_to_take(cortex, e);
            return ;
        },
    };
    if vector % 2 == 0 {
        fail_to_take(cortex, e);
        return ;
    }
    let lowered: u32 = cortex.registers.sp.get().wrapping_sub(0x20);
    let frameptr: u32 = lowered - lowered % 8;
    let image: u32 = cortex.xpsr.into_u32();
    let status: u32 = image - ((image / 0x200) % 2) * 0x200 + if lowered % 8 != 0 {
        0x200
    } else {
        0
    };
    let words: [u32; 8] = [
        cortex.registers.read(0),
        cortex.registers.read(1),
        cortex.registers.read(2),
        cortex.registers.read(3),
        cortex.registers.read(12),
        cortex.registers.lr.get(),
        cortex.registers.pc.get(),
        status,
    ];
    assert(words@ =~= cortex@.frame_words());
    let link: u32 = if cortex.mode == Mode::Handler {
        EXC_RETURN_HANDLER
    } else if cortex.control.spsel == SpSel::SpProcess {
        EXC_RETURN_THREAD_PSP
    } else {
        EXC_RETURN_THREAD_MSP
    };
    if !push_frame(cortex, words, frameptr) {
        fail_to_take(cortex, e);
        return ;
    }
    enter_handler(cortex, e, frameptr, link, vector);
}

/// What happens between two instructions.
pub fn service<M: MemoryInterface>(cortex: &mut CortexM33<M>)
    ensures
        final(cortex)@ == old(cortex)@.service(),
{
    if cortex.lockup {
        return ;
    }
    if cortex.exceptions.pending.contains(&HARD_FAULT) && cortex.exceptions.active.contains(
        &HARD_FAULT,
    ) {
        cortex.lockup = true;
        return ;
    }
    match next_exception(cortex) {
        Some(e) => take_exception(cortex, e),
        None => {},
    }
}

} // verus!
