use rp2350_sim::cortex_m33::control::SpSel;
use rp2350_sim::cortex_m33::exception::{
    exception_active_bit_count, execution_priority, next_exception, priority_of, Exception,
    Exceptions, InterruptException,
};
use rp2350_sim::cortex_m33::instructions::{Run, Stop};
use rp2350_sim::cortex_m33::registers::{Register, SpMode};
use rp2350_sim::cortex_m33::state::Mode;
use rp2350_sim::{MemoryInterface, RAM_START_ADDRESS, RP2350};

const CODE: u32 = RAM_START_ADDRESS;
const VECTORS: u32 = RAM_START_ADDRESS + 0x400;
const HANDLERS: u32 = RAM_START_ADDRESS + 0x800;
const STACK: u32 = RAM_START_ADDRESS + 0x2000;
const PROCESS_STACK: u32 = RAM_START_ADDRESS + 0x3000;
const HARD_FAULT: u8 = 3;
const USAGE_FAULT: u8 = 6;
const SVCALL: u8 = 11;
const PENDSV: u8 = 14;
const SYSTICK: u8 = 15;

/// A machine with a vector table in SRAM: the handler of exception `n` is at
/// `HANDLERS + 0x10 * n` and holds `bx lr`; the program is `nop`s.
fn machine() -> RP2350 {
    let mut rp2350 = RP2350::new();
    rp2350.cortex_m33.vtor = VECTORS;
    for n in 1..=48u32 {
        let handler = HANDLERS + 0x10 * n;
        rp2350.cortex_m33.memory.write_u32(VECTORS + 4 * n, handler | 1).unwrap();
        rp2350.cortex_m33.memory.write_u16(handler, 0x4770).unwrap();
    }
    for i in 0..16 {
        rp2350.cortex_m33.memory.write_u16(CODE + 2 * i, 0xbf00).unwrap();
    }
    rp2350.set_pc(CODE);
    rp2350.cortex_m33.registers.sp.set_msp(STACK);
    rp2350.cortex_m33.registers.sp.set_psp(PROCESS_STACK);
    rp2350
}

fn handler(n: u8) -> u32 {
    HANDLERS + 0x10 * n as u32
}

fn pc(rp2350: &RP2350) -> u32 {
    rp2350.cortex_m33.registers.pc.get()
}

fn word(rp2350: &RP2350, address: u32) -> u32 {
    rp2350.cortex_m33.memory.read_u32(address).unwrap()
}

fn consistent(rp2350: &RP2350) -> bool {
    (rp2350.cortex_m33.mode == Mode::Handler) == !rp2350.cortex_m33.exceptions.active.is_empty()
}

#[test]
fn exception_numbers() {
    assert_eq!(Exception::Reset.number(), 1);
    assert_eq!(Exception::NMI.number(), 2);
    assert_eq!(Exception::HardFault.number(), 3);
    assert_eq!(Exception::UsageFault.number(), 6);
    assert_eq!(Exception::SVCall.number(), 11);
    assert_eq!(Exception::Interrupt(InterruptException::PendSV).number(), 14);
    assert_eq!(Exception::Interrupt(InterruptException::SysTick).number(), 15);
    assert_eq!(Exception::Interrupt(InterruptException::ExternalInterrupt(0)).number(), 16);
    assert_eq!(Exception::Interrupt(InterruptException::ExternalInterrupt(31)).number(), 47);
    for n in 0..=255u8 {
        match Exception::from_number(n) {
            Some(exception) => assert_eq!(exception.number(), n),
            None => assert!(n == 0 || (4..=5).contains(&n) || (7..=10).contains(&n) || n == 12
                || n == 13 || n >= 48),
        }
    }
}

#[test]
fn priorities() {
    let mut rp2350 = RP2350::new();
    assert_eq!(Exceptions::priority(&rp2350.cortex_m33, 1), -3);
    assert_eq!(Exceptions::priority(&rp2350.cortex_m33, 2), -2);
    assert_eq!(Exceptions::priority(&rp2350.cortex_m33, 3), -1);
    for n in [4u8, 5, 6, 7, 8, 9, 10, 12, 13, 48] {
        assert_eq!(Exceptions::priority(&rp2350.cortex_m33, n), 4);
    }
    for n in [11u8, 14, 15, 16, 31, 47] {
        assert_eq!(Exceptions::priority(&rp2350.cortex_m33, n), 0);
    }
    rp2350.cortex_m33.shpr.shpr2 = 0x8000_0000;
    rp2350.cortex_m33.shpr.shpr3 = 0xc040_0000;
    assert_eq!(Exceptions::priority(&rp2350.cortex_m33, SVCALL), 2);
    assert_eq!(Exceptions::priority(&rp2350.cortex_m33, PENDSV), 1);
    assert_eq!(Exceptions::priority(&rp2350.cortex_m33, SYSTICK), 3);
    // interrupt 5 is exception 21: byte 1 of IPR1
    *rp2350.cortex_m33.nvic.index_mut(1) = 0x0000_c000;
    assert_eq!(Exceptions::priority(&rp2350.cortex_m33, 21), 3);
    assert_eq!(Exceptions::priority(&rp2350.cortex_m33, 20), 0);
    assert_eq!(priority_of(&rp2350.cortex_m33.shpr, &rp2350.cortex_m33.nvic, 21), 3);
    // interrupt 31 is exception 47: byte 3 of IPR7
    *rp2350.cortex_m33.nvic.index_mut(7) = 0x4000_0000;
    assert_eq!(Exceptions::priority(&rp2350.cortex_m33, 47), 1);
}

#[test]
fn taking_an_exception() {
    let mut rp2350 = machine();
    // svc #7
    rp2350.cortex_m33.memory.write_u16(CODE, 0xdf07).unwrap();
    for i in 0..13u16 {
        rp2350.cortex_m33.write_register(i, 0x100 + i as u32);
    }
    rp2350.cortex_m33.registers.lr.set(0x1234_5679);
    rp2350.cortex_m33.xpsr.apsr.set_c(true);
    rp2350.step();
    assert_eq!(rp2350.cortex_m33.mode, Mode::Handler);
    assert_eq!(pc(&rp2350), handler(SVCALL));
    assert_eq!(rp2350.cortex_m33.registers.lr.get(), 0xffff_fff9);
    assert_eq!(rp2350.cortex_m33.registers.sp.get(), STACK - 0x20);
    assert_eq!(rp2350.cortex_m33.xpsr.ipsr.0, 11);
    assert!(rp2350.cortex_m33.exceptions.active.contains(&SVCALL));
    assert!(!rp2350.cortex_m33.exceptions.pending.contains(&SVCALL));
    assert_eq!(exception_active_bit_count(&rp2350.cortex_m33.exceptions), 1);
    assert_eq!(rp2350.cortex_m33.svc_number, 7);
    // the frame
    let frame = STACK - 0x20;
    assert_eq!(word(&rp2350, frame), 0x100);
    assert_eq!(word(&rp2350, frame + 0x04), 0x101);
    assert_eq!(word(&rp2350, frame + 0x08), 0x102);
    assert_eq!(word(&rp2350, frame + 0x0c), 0x103);
    assert_eq!(word(&rp2350, frame + 0x10), 0x10c);
    assert_eq!(word(&rp2350, frame + 0x14), 0x1234_5679);
    assert_eq!(word(&rp2350, frame + 0x18), CODE + 2);
    assert_eq!(word(&rp2350, frame + 0x1c), 0x2100_0000);
    assert!(consistent(&rp2350));
}

#[test]
fn returning_from_an_exception() {
    let mut rp2350 = machine();
    rp2350.cortex_m33.memory.write_u16(CODE, 0xdf07).unwrap();
    for i in 0..13u16 {
        rp2350.cortex_m33.write_register(i, 0x100 + i as u32);
    }
    rp2350.cortex_m33.registers.lr.set(0x1234_5679);
    rp2350.cortex_m33.xpsr.apsr.set_n(true);
    rp2350.step();
    // the handler runs with other values in the registers
    for i in 0..13u16 {
        rp2350.cortex_m33.write_register(i, 0xdead_0000);
    }
    rp2350.cortex_m33.xpsr.apsr.set_n(false);
    rp2350.cortex_m33.xpsr.apsr.set_z(true);
    // bx lr
    rp2350.step();
    assert_eq!(rp2350.cortex_m33.mode, Mode::Thread);
    assert_eq!(pc(&rp2350), CODE + 2);
    assert_eq!(rp2350.cortex_m33.registers.sp.get(), STACK);
    assert_eq!(rp2350.cortex_m33.registers.lr.get(), 0x1234_5679);
    for i in [0u16, 1, 2, 3, 12] {
        assert_eq!(rp2350.cortex_m33.read_register(i), 0x100 + i as u32);
    }
    for i in 4..12u16 {
        assert_eq!(rp2350.cortex_m33.read_register(i), 0xdead_0000);
    }
    assert!(rp2350.cortex_m33.xpsr.apsr.n());
    assert!(!rp2350.cortex_m33.xpsr.apsr.z());
    assert_eq!(rp2350.cortex_m33.xpsr.ipsr.0, 0);
    assert!(rp2350.cortex_m33.exceptions.active.is_empty());
    assert!(!rp2350.cortex_m33.unpredictable);
    assert!(!rp2350.cortex_m33.exceptions.pending.contains(&HARD_FAULT));
    assert!(consistent(&rp2350));
}

#[test]
fn an_exception_from_the_process_stack() {
    let mut rp2350 = machine();
    rp2350.cortex_m33.control.spsel = SpSel::SpProcess;
    rp2350.cortex_m33.registers.sp.set_mode(SpMode::Process);
    assert!(rp2350.pend_interrupt(SYSTICK));
    rp2350.step();
    assert_eq!(rp2350.cortex_m33.mode, Mode::Handler);
    assert_eq!(pc(&rp2350), handler(SYSTICK));
    assert_eq!(rp2350.cortex_m33.registers.lr.get(), 0xffff_fffd);
    assert_eq!(rp2350.cortex_m33.control.spsel, SpSel::SpMain);
    assert_eq!(rp2350.cortex_m33.registers.sp.get_mode(), SpMode::Main);
    assert_eq!(rp2350.cortex_m33.registers.sp.get_psp(), PROCESS_STACK - 0x20);
    assert_eq!(rp2350.cortex_m33.registers.sp.get_msp(), STACK);
    assert_eq!(word(&rp2350, PROCESS_STACK - 0x20 + 0x18), CODE + 2);
    rp2350.step();
    assert_eq!(rp2350.cortex_m33.mode, Mode::Thread);
    assert_eq!(rp2350.cortex_m33.control.spsel, SpSel::SpProcess);
    assert_eq!(rp2350.cortex_m33.registers.sp.get_mode(), SpMode::Process);
    assert_eq!(rp2350.cortex_m33.registers.sp.get(), PROCESS_STACK);
    assert_eq!(pc(&rp2350), CODE + 2);
    assert!(consistent(&rp2350));
}

#[test]
fn the_frame_is_aligned_to_eight_bytes() {
    let mut rp2350 = machine();
    rp2350.cortex_m33.registers.sp.set_msp(STACK + 4);
    assert!(rp2350.pend_interrupt(PENDSV));
    rp2350.step();
    assert_eq!(rp2350.cortex_m33.registers.sp.get(), STACK - 0x20);
    assert_eq!(word(&rp2350, STACK - 0x20 + 0x1c), 0x0100_0200);
    rp2350.step();
    assert_eq!(rp2350.cortex_m33.registers.sp.get(), STACK + 4);
    assert_eq!(rp2350.cortex_m33.xpsr.into_u32(), 0x0100_0000);
}

#[test]
fn a_pending_exception_waits_for_a_lower_priority_to_end() {
    let mut rp2350 = machine();
    // every priority is zero: SVCall is taken, PendSV waits
    assert!(rp2350.pend_interrupt(PENDSV));
    assert!(rp2350.pend_interrupt(SVCALL));
    assert_eq!(next_exception(&rp2350.cortex_m33), Some(SVCALL));
    assert_eq!(execution_priority(&rp2350.cortex_m33), 5);
    rp2350.step();
    assert_eq!(pc(&rp2350), handler(SVCALL));
    assert_eq!(execution_priority(&rp2350.cortex_m33), 0);
    assert_eq!(next_exception(&rp2350.cortex_m33), None);
    assert!(rp2350.cortex_m33.exceptions.pending.contains(&PENDSV));
    // the return from SVCall, and PendSV at once
    rp2350.step();
    assert_eq!(pc(&rp2350), handler(PENDSV));
    assert_eq!(rp2350.cortex_m33.mode, Mode::Handler);
    assert_eq!(rp2350.cortex_m33.xpsr.ipsr.0, 14);
    assert_eq!(word(&rp2350, STACK - 0x20 + 0x18), CODE + 2);
    rp2350.step();
    assert_eq!(rp2350.cortex_m33.mode, Mode::Thread);
    assert_eq!(pc(&rp2350), CODE + 2);
    assert!(consistent(&rp2350));
}

#[test]
fn a_higher_priority_preempts_a_handler() {
    let mut rp2350 = machine();
    // SVCall at priority 2, SysTick at priority 1
    rp2350.cortex_m33.shpr.shpr2 = 0x8000_0000;
    rp2350.cortex_m33.shpr.shpr3 = 0x4000_0000;
    // the SVCall handler starts with a nop
    rp2350.cortex_m33.memory.write_u16(handler(SVCALL), 0xbf00).unwrap();
    rp2350.cortex_m33.memory.write_u16(handler(SVCALL) + 2, 0x4770).unwrap();
    assert!(rp2350.pend_interrupt(SVCALL));
    rp2350.step();
    assert_eq!(pc(&rp2350), handler(SVCALL));
    assert!(rp2350.pend_interrupt(SYSTICK));
    rp2350.step();
    assert_eq!(pc(&rp2350), handler(SYSTICK));
    assert_eq!(rp2350.cortex_m33.registers.lr.get(), 0xffff_fff1);
    assert_eq!(exception_active_bit_count(&rp2350.cortex_m33.exceptions), 2);
    assert_eq!(rp2350.cortex_m33.registers.sp.get(), STACK - 0x40);
    assert_eq!(word(&rp2350, STACK - 0x40 + 0x18), handler(SVCALL) + 2);
    assert_eq!(word(&rp2350, STACK - 0x40 + 0x1c) & 0x1ff, 11);
    assert_eq!(execution_priority(&rp2350.cortex_m33), 1);
    // back into the SVCall handler
    rp2350.step();
    assert_eq!(rp2350.cortex_m33.mode, Mode::Handler);
    assert_eq!(pc(&rp2350), handler(SVCALL) + 2);
    assert_eq!(rp2350.cortex_m33.xpsr.ipsr.0, 11);
    assert_eq!(rp2350.cortex_m33.registers.lr.get(), 0xffff_fff9);
    assert!(consistent(&rp2350));
    // and back into the program
    rp2350.step();
    assert_eq!(rp2350.cortex_m33.mode, Mode::Thread);
    assert_eq!(pc(&rp2350), CODE + 2);
    assert_eq!(rp2350.cortex_m33.registers.sp.get(), STACK);
    assert!(consistent(&rp2350));
}

#[test]
fn of_equal_priorities_the_lower_number_goes_first() {
    let mut rp2350 = machine();
    rp2350.cortex_m33.nvic.enabled = 0xffff_ffff;
    assert!(rp2350.pend_interrupt(40));
    assert!(rp2350.pend_interrupt(17));
    assert!(rp2350.pend_interrupt(SYSTICK));
    assert_eq!(next_exception(&rp2350.cortex_m33), Some(SYSTICK));
    rp2350.cortex_m33.shpr.shpr3 = 0x4000_0000;
    assert_eq!(next_exception(&rp2350.cortex_m33), Some(17));
    *rp2350.cortex_m33.nvic.index_mut(0) = 0x0000_4000;
    assert_eq!(next_exception(&rp2350.cortex_m33), Some(40));
    assert!(rp2350.pend_interrupt(HARD_FAULT));
    assert_eq!(next_exception(&rp2350.cortex_m33), Some(HARD_FAULT));
}

#[test]
fn an_external_interrupt_is_taken_only_when_enabled() {
    let mut rp2350 = machine();
    assert!(rp2350.pend_interrupt(16 + 9));
    rp2350.step();
    assert_eq!(rp2350.cortex_m33.mode, Mode::Thread);
    assert_eq!(pc(&rp2350), CODE + 2);
    assert!(rp2350.cortex_m33.exceptions.pending.contains(&25));
    rp2350.cortex_m33.nvic.enabled = 1 << 9;
    rp2350.step();
    assert_eq!(rp2350.cortex_m33.mode, Mode::Handler);
    assert_eq!(pc(&rp2350), handler(25));
    assert_eq!(rp2350.cortex_m33.xpsr.ipsr.0, 25);
}

#[test]
fn primask_holds_back_what_can_be_masked() {
    let mut rp2350 = machine();
    rp2350.cortex_m33.primask = true;
    assert!(rp2350.pend_interrupt(SVCALL));
    assert_eq!(execution_priority(&rp2350.cortex_m33), 0);
    rp2350.step();
    assert_eq!(rp2350.cortex_m33.mode, Mode::Thread);
    assert!(rp2350.cortex_m33.exceptions.pending.contains(&SVCALL));
    // NMI is not held back
    assert!(rp2350.pend_interrupt(2));
    rp2350.step();
    assert_eq!(pc(&rp2350), handler(2));
    assert_eq!(execution_priority(&rp2350.cortex_m33), -2);
    // nor is the SVCall once PRIMASK is clear and NMI has returned
    rp2350.cortex_m33.primask = false;
    rp2350.step();
    assert_eq!(pc(&rp2350), handler(SVCALL));
}

#[test]
fn only_numbers_from_1_to_48_can_be_pended() {
    let mut rp2350 = machine();
    assert!(!rp2350.pend_interrupt(0));
    assert!(!rp2350.pend_interrupt(49));
    assert!(!rp2350.pend_interrupt(255));
    assert!(rp2350.cortex_m33.exceptions.pending.is_empty());
    assert!(rp2350.pend_interrupt(1));
    assert!(rp2350.pend_interrupt(48));
    assert_eq!(rp2350.cortex_m33.exceptions.pending.len(), 2);
}

#[test]
fn an_exception_whose_vector_is_not_a_thumb_address_becomes_a_hardfault() {
    let mut rp2350 = machine();
    rp2350.cortex_m33.memory.write_u32(VECTORS + 4 * 11, handler(SVCALL)).unwrap();
    assert!(rp2350.pend_interrupt(SVCALL));
    rp2350.step();
    assert_eq!(rp2350.cortex_m33.mode, Mode::Thread);
    assert!(rp2350.cortex_m33.exceptions.pending.contains(&HARD_FAULT));
    assert!(rp2350.cortex_m33.exceptions.pending.contains(&SVCALL));
    assert_eq!(rp2350.cortex_m33.registers.sp.get(), STACK);
    assert!(!rp2350.cortex_m33.lockup);
    // the HardFault is taken at the next boundary
    rp2350.step();
    assert_eq!(rp2350.cortex_m33.mode, Mode::Handler);
    assert_eq!(pc(&rp2350), handler(HARD_FAULT));
}

#[test]
fn an_exception_whose_frame_cannot_be_written_becomes_a_hardfault() {
    let mut rp2350 = machine();
    rp2350.cortex_m33.registers.sp.set_msp(0x1000_0100);
    assert!(rp2350.pend_interrupt(SVCALL));
    rp2350.step();
    assert_eq!(rp2350.cortex_m33.mode, Mode::Thread);
    assert!(rp2350.cortex_m33.exceptions.pending.contains(&HARD_FAULT));
    assert_eq!(rp2350.cortex_m33.registers.sp.get(), 0x1000_0100);
    // the HardFault cannot be taken either: the processor locks up
    rp2350.step();
    assert!(rp2350.cortex_m33.lockup);
    let before = pc(&rp2350);
    rp2350.step();
    rp2350.step();
    assert_eq!(pc(&rp2350), before);
    assert!(consistent(&rp2350));
}

#[test]
fn a_hardfault_inside_the_hardfault_handler_locks_up() {
    let mut rp2350 = machine();
    // the HardFault handler executes udf, which needs a HardFault again once
    // the UsageFault cannot preempt: here it loads from nowhere
    rp2350.cortex_m33.memory.write_u16(handler(HARD_FAULT), 0x6808).unwrap();
    rp2350.cortex_m33.write_register(1, 0x1800_0000);
    assert!(rp2350.pend_interrupt(HARD_FAULT));
    rp2350.step();
    assert_eq!(pc(&rp2350), handler(HARD_FAULT));
    assert!(!rp2350.cortex_m33.lockup);
    rp2350.step();
    assert!(rp2350.cortex_m33.lockup);
    assert_eq!(rp2350.cortex_m33.mode, Mode::Handler);
}

#[test]
fn a_link_value_that_is_not_legal_is_recorded() {
    // bits 27:4 are not all ones
    let mut rp2350 = machine();
    assert!(rp2350.pend_interrupt(SVCALL));
    rp2350.step();
    rp2350.cortex_m33.registers.lr.set(0xf000_0009);
    rp2350.step();
    assert!(rp2350.cortex_m33.unpredictable);
    assert_eq!(rp2350.cortex_m33.mode, Mode::Handler);
    assert!(rp2350.cortex_m33.exceptions.active.contains(&SVCALL));
    assert!(rp2350.cortex_m33.exceptions.active.contains(&HARD_FAULT));
    assert_eq!(pc(&rp2350), handler(HARD_FAULT));
    // a return to Handler mode when no other exception is active
    let mut rp2350 = machine();
    assert!(rp2350.pend_interrupt(SVCALL));
    rp2350.step();
    rp2350.cortex_m33.registers.lr.set(0xffff_fff1);
    rp2350.execute_instruction();
    assert!(rp2350.cortex_m33.unpredictable);
    assert!(rp2350.cortex_m33.exceptions.pending.contains(&HARD_FAULT));
    assert_eq!(pc(&rp2350), handler(SVCALL) + 2);
    assert_eq!(rp2350.cortex_m33.registers.sp.get(), STACK - 0x20);
    // a selector that names nothing
    let mut rp2350 = machine();
    assert!(rp2350.pend_interrupt(SVCALL));
    rp2350.step();
    rp2350.cortex_m33.registers.lr.set(0xffff_fff5);
    rp2350.execute_instruction();
    assert!(rp2350.cortex_m33.unpredictable);
    // a frame whose status word names an exception on a return to Thread mode
    let mut rp2350 = machine();
    assert!(rp2350.pend_interrupt(SVCALL));
    rp2350.step();
    rp2350.cortex_m33.memory.write_u32(STACK - 0x20 + 0x1c, 0x0100_000b).unwrap();
    rp2350.execute_instruction();
    assert!(rp2350.cortex_m33.unpredictable);
    assert_eq!(rp2350.cortex_m33.mode, Mode::Handler);
    assert!(consistent(&rp2350));
}

#[test]
fn pop_can_return_from_an_exception() {
    let mut rp2350 = machine();
    // the handler: push {r4, lr}; pop {r4, pc}
    rp2350.cortex_m33.memory.write_u16(handler(SVCALL), 0xb510).unwrap();
    rp2350.cortex_m33.memory.write_u16(handler(SVCALL) + 2, 0xbd10).unwrap();
    rp2350.cortex_m33.write_register(4, 0x4444);
    assert!(rp2350.pend_interrupt(SVCALL));
    rp2350.step();
    rp2350.step();
    assert_eq!(rp2350.cortex_m33.registers.sp.get(), STACK - 0x28);
    rp2350.step();
    assert_eq!(rp2350.cortex_m33.mode, Mode::Thread);
    assert_eq!(pc(&rp2350), CODE + 2);
    assert_eq!(rp2350.cortex_m33.registers.sp.get(), STACK);
    assert_eq!(rp2350.cortex_m33.read_register(4), 0x4444);
    assert!(!rp2350.cortex_m33.unpredictable);
}

#[test]
fn usage_fault_has_the_lowest_priority() {
    let mut rp2350 = machine();
    // udf in the program
    rp2350.cortex_m33.memory.write_u16(CODE, 0xde00).unwrap();
    rp2350.step();
    assert_eq!(rp2350.cortex_m33.mode, Mode::Handler);
    assert_eq!(pc(&rp2350), handler(USAGE_FAULT));
    assert_eq!(execution_priority(&rp2350.cortex_m33), 4);
    // anything of a configurable priority preempts its handler
    assert!(rp2350.pend_interrupt(SYSTICK));
    assert_eq!(next_exception(&rp2350.cortex_m33), Some(SYSTICK));
}

#[test]
fn starting_an_image_takes_the_stack_and_the_entry_from_the_vector_table() {
    let mut rp2350 = RP2350::new();
    // the vector table at the start of flash
    let image = ":020000041000EA\n:080000000010002001010010B6\n:00000001FF\n";
    assert_eq!(rp2350.load_hex(image), Ok(0));
    assert_eq!(rp2350.boot(), Ok(()));
    assert_eq!(rp2350.cortex_m33.vtor, 0x1000_0000);
    assert_eq!(rp2350.cortex_m33.registers.sp.get_msp(), 0x2000_1000);
    assert_eq!(pc(&rp2350), 0x1000_0100);
    // a table that cannot be read changes nothing
    let mut rp2350 = machine();
    assert_eq!(
        rp2350.cortex_m33.start(0x13ff_fffc),
        Err(rp2350_sim::BusFault { address: 0x1400_0000 })
    );
    assert_eq!(rp2350.cortex_m33.vtor, VECTORS);
    assert_eq!(pc(&rp2350), CODE);
    assert_eq!(rp2350.cortex_m33.registers.sp.get_msp(), STACK);
}

#[test]
fn run_until_the_predicate_holds() {
    let mut rp2350 = machine();
    let run = rp2350.run_until(|cortex| cortex.registers.pc.get() == CODE + 10, 100);
    assert_eq!(run, Run { steps: 5, stop: Stop::Predicate });
    assert_eq!(pc(&rp2350), CODE + 10);
    // it holds at once
    let run = rp2350.run_until(|_| true, 100);
    assert_eq!(run, Run { steps: 0, stop: Stop::Predicate });
}

#[test]
fn run_until_the_steps_are_used_up() {
    let mut rp2350 = machine();
    // b .
    rp2350.cortex_m33.memory.write_u16(CODE, 0xe7fe).unwrap();
    let run = rp2350.run_until(|_| false, 1000);
    assert_eq!(run, Run { steps: 1000, stop: Stop::Budget });
    assert_eq!(pc(&rp2350), CODE);
    let run = rp2350.run_until(|_| false, 0);
    assert_eq!(run, Run { steps: 0, stop: Stop::Budget });
}

#[test]
fn run_until_a_stop_is_requested() {
    let mut rp2350 = machine();
    rp2350.request_stop();
    let run = rp2350.run_until(|_| true, 10);
    assert_eq!(run, Run { steps: 0, stop: Stop::Requested });
    assert_eq!(pc(&rp2350), CODE);
    rp2350.cortex_m33.stop_requested = false;
    let run = rp2350.cortex_m33.run_until(|cortex| cortex.registers.pc.get() == CODE + 4, 10);
    assert_eq!(run, Run { steps: 2, stop: Stop::Predicate });
}

#[test]
fn run_until_a_fault_is_raised() {
    let mut rp2350 = machine();
    // nop; nop; ldr r0, [r1] from nowhere
    rp2350.cortex_m33.memory.write_u16(CODE + 4, 0x6808).unwrap();
    rp2350.cortex_m33.write_register(1, 0x1800_0000);
    let run = rp2350.run_until(|_| false, 100);
    assert_eq!(run, Run { steps: 3, stop: Stop::Fault });
    assert!(rp2350.cortex_m33.faulted());
    assert_eq!(rp2350.cortex_m33.mode, Mode::Handler);
    assert_eq!(pc(&rp2350), handler(HARD_FAULT));
}
