use rp2350_sim::cortex_m33::opcodes::{
    AdcT1, AddRegisterT2, AddSpPlusImmediateT1, AddSpPlusImmediateT2, AddsRegisterT1, AddsT1,
    AddsT2, AdrT1, AndRegisterT1, AsrImmediateT1, AsrRegisterT1, BlT1, BlxT1, DmbT1Sy, DsbT1Sy,
    IsbT1Sy, LdmiaT1, MovRegisterT1, PushT1, Registers, Rev16T1, RevT1, StmiaT1,
    SubSpMinusImmediateT1, UxtbT1, UxthT1, YieldT1, BT1, BT2,
};
use rp2350_sim::cortex_m33::registers::Register;
use rp2350_sim::{MemoryInterface, RAM_START_ADDRESS, RP2350};

fn write_u16(rp2350: &mut RP2350, address: u32, value: u16) {
    rp2350.cortex_m33.memory.write_u16(address, value).unwrap();
}

fn write_u32(rp2350: &mut RP2350, address: u32, value: u32) {
    rp2350.cortex_m33.memory.write_u32(address, value).unwrap();
}

// should execute `adcs r5, r4` instruction
#[test]
fn instructions_adcs() {
    let mut rp2350: RP2350 = RP2350::new();
    rp2350.cortex_m33.registers.pc.set(RAM_START_ADDRESS);

    let opcode = AdcT1::opcode(&rp2350.cortex_m33.registers.r5, &rp2350.cortex_m33.registers.r4);
    write_u16(&mut rp2350, RAM_START_ADDRESS, opcode);
    rp2350.cortex_m33.registers.r4.set(55);
    rp2350.cortex_m33.registers.r5.set(66);
    rp2350.cortex_m33.xpsr.apsr.set_c(true);

    rp2350.execute_instruction();

    assert_eq!(rp2350.cortex_m33.registers.r5.get(), 122);
    assert_eq!(rp2350.cortex_m33.xpsr.apsr.n(), false);
    assert_eq!(rp2350.cortex_m33.xpsr.apsr.z(), false);
    assert_eq!(rp2350.cortex_m33.xpsr.apsr.c(), false);
    assert_eq!(rp2350.cortex_m33.xpsr.apsr.v(), false);
}

// should execute `adcs r5, r4` instruction and set negative/overflow flags
#[test]
fn instructions_adcs_2() {
    let mut rp2350: RP2350 = RP2350::new();
    rp2350.cortex_m33.registers.pc.set(RAM_START_ADDRESS);

    let opcode = AdcT1::opcode(&rp2350.cortex_m33.registers.r5, &rp2350.cortex_m33.registers.r4);
    write_u16(&mut rp2350, RAM_START_ADDRESS, opcode);
    rp2350.cortex_m33.registers.r4.set(0x7fffffff);
    rp2350.cortex_m33.registers.r5.set(0);
    rp2350.cortex_m33.xpsr.apsr.set_c(true);

    rp2350.execute_instruction();

    assert_eq!(rp2350.cortex_m33.registers.r5.get(), 0x80000000);
    assert_eq!(rp2350.cortex_m33.xpsr.apsr.n(), true);
    assert_eq!(rp2350.cortex_m33.xpsr.apsr.z(), false);
    assert_eq!(rp2350.cortex_m33.xpsr.apsr.c(), false);
    assert_eq!(rp2350.cortex_m33.xpsr.apsr.v(), true);
}

// should not set the overflow flag when executing `adcs r3, r2` adding 0 to 0 with carry
#[test]
fn instructions_adcs_3() {
    let mut rp2350: RP2350 = RP2350::new();
    rp2350.cortex_m33.registers.pc.set(RAM_START_ADDRESS);

    let opcode = AdcT1::opcode(&rp2350.cortex_m33.registers.r3, &rp2350.cortex_m33.registers.r2);
    write_u16(&mut rp2350, RAM_START_ADDRESS, opcode);
    rp2350.cortex_m33.registers.r2.set(0);
    rp2350.cortex_m33.registers.r3.set(0);
    rp2350.cortex_m33.xpsr.apsr.set_c(true);
    rp2350.cortex_m33.xpsr.apsr.set_z(true);

    rp2350.execute_instruction();

    assert_eq!(rp2350.cortex_m33.registers.r3.get(), 1);
    assert_eq!(rp2350.cortex_m33.xpsr.apsr.n(), false);
    assert_eq!(rp2350.cortex_m33.xpsr.apsr.z(), false);
    assert_eq!(rp2350.cortex_m33.xpsr.apsr.c(), false);
    assert_eq!(rp2350.cortex_m33.xpsr.apsr.v(), false);
}

// should set the zero, carry and overflow flag when executing `adcs r0, r0` adding 0x80000000 to 0x80000000
#[test]
fn instructions_adcs_4() {
    let mut rp2350: RP2350 = RP2350::new();
    rp2350.cortex_m33.registers.pc.set(RAM_START_ADDRESS);

    let opcode = AdcT1::opcode(&rp2350.cortex_m33.registers.r0, &rp2350.cortex_m33.registers.r0);
    write_u16(&mut rp2350, RAM_START_ADDRESS, opcode);
    rp2350.cortex_m33.registers.r0.set(0x80000000);
    rp2350.cortex_m33.xpsr.apsr.set_c(false);

    rp2350.execute_instruction();

    assert_eq!(rp2350.cortex_m33.registers.r0.get(), 0);
    assert_eq!(rp2350.cortex_m33.xpsr.apsr.n(), false);
    assert_eq!(rp2350.cortex_m33.xpsr.apsr.z(), true);
    assert_eq!(rp2350.cortex_m33.xpsr.apsr.c(), true);
    assert_eq!(rp2350.cortex_m33.xpsr.apsr.v(), true);
}

// should execute a `add sp, 0x10` instruction
#[test]
fn instructions_add_sp_plus_immediate() {
    let mut rp2350: RP2350 = RP2350::new();
    rp2350.cortex_m33.registers.pc.set(RAM_START_ADDRESS);
    rp2350.cortex_m33.registers.sp.set(0x10000040);

    write_u16(&mut rp2350, RAM_START_ADDRESS, AddSpPlusImmediateT2::opcode(0x10));
    rp2350.execute_instruction();

    assert_eq!(rp2350.cortex_m33.registers.sp.get(), 0x10000050)
}

// should execute a `add r1, sp, #4` instruction
#[test]
fn instructions_add_register_sp_plus_immediate() {
    let mut rp2350: RP2350 = RP2350::new();
    rp2350.cortex_m33.registers.pc.set(RAM_START_ADDRESS);
    rp2350.cortex_m33.registers.sp.set(0x54);

    let opcode = AddSpPlusImmediateT1::opcode(&rp2350.cortex_m33.registers.r1, 0x10);
    write_u16(&mut rp2350, RAM_START_ADDRESS, opcode);
    rp2350.cortex_m33.registers.r1.set(0);
    rp2350.execute_instruction();

    assert_eq!(rp2350.cortex_m33.registers.sp.get(), 0x54);
    assert_eq!(rp2350.cortex_m33.registers.r1.get(), 0x64);
}

// should execute `adds r1, r2, #3` instruction
#[test]
fn instructions_adds_t1() {
    let mut rp2350: RP2350 = RP2350::new();
    rp2350.cortex_m33.registers.pc.set(RAM_START_ADDRESS);

    let opcode = AddsT1::opcode(&rp2350.cortex_m33.registers.r1, &rp2350.cortex_m33.registers.r2, 3);
    write_u16(&mut rp2350, RAM_START_ADDRESS, opcode);
    rp2350.cortex_m33.registers.r2.set(2);
    rp2350.execute_instruction();

    assert_eq!(rp2350.cortex_m33.registers.r1.get(), 5);
    assert_eq!(rp2350.cortex_m33.xpsr.apsr.n(), false);
    assert_eq!(rp2350.cortex_m33.xpsr.apsr.z(), false);
    assert_eq!(rp2350.cortex_m33.xpsr.apsr.c(), false);
    assert_eq!(rp2350.cortex_m33.xpsr.apsr.v(), false);
}

// should execute `adds r1, #1` instruction
#[test]
fn instructions_adds_t2() {
    let mut rp2350: RP2350 = RP2350::new();
    rp2350.cortex_m33.registers.pc.set(RAM_START_ADDRESS);

    let opcode = AddsT2::opcode(&rp2350.cortex_m33.registers.r1, 1);
    write_u16(&mut rp2350, RAM_START_ADDRESS, opcode);
    rp2350.cortex_m33.registers.r1.set(0xffffffff);
    rp2350.execute_instruction();

    println!("opcode: {:#x}", AddsT2::opcode(&rp2350.cortex_m33.registers.r1, 1));
    println!("apsr: {:?}", rp2350.cortex_m33.xpsr.apsr);

    assert_eq!(rp2350.cortex_m33.registers.r1.get(), 0);
    assert_eq!(rp2350.cortex_m33.xpsr.apsr.n(), false);
    assert_eq!(rp2350.cortex_m33.xpsr.apsr.z(), true);
    assert_eq!(rp2350.cortex_m33.xpsr.apsr.c(), true);
    assert_eq!(rp2350.cortex_m33.xpsr.apsr.v(), false);
}

// should execute `adds r1, r2, r7` instruction
#[test]
fn instructions_adds_register() {
    let mut rp2350: RP2350 = RP2350::new();
    rp2350.cortex_m33.registers.pc.set(RAM_START_ADDRESS);

    let opcode = AddsRegisterT1::opcode(&rp2350.cortex_m33.registers.r1, &rp2350.cortex_m33.registers.r2, &rp2350.cortex_m33.registers.r7);
    write_u16(&mut rp2350, RAM_START_ADDRESS, opcode);
    rp2350.cortex_m33.registers.r2.set(2);
    rp2350.cortex_m33.registers.r7.set(27);

    rp2350.execute_instruction();

    assert_eq!(rp2350.cortex_m33.registers.r1.get(), 29);
    assert_eq!(rp2350.cortex_m33.xpsr.apsr.n(), false);
    assert_eq!(rp2350.cortex_m33.xpsr.apsr.z(), false);
    assert_eq!(rp2350.cortex_m33.xpsr.apsr.c(), false);
    assert_eq!(rp2350.cortex_m33.xpsr.apsr.v(), false);
}

// should execute `adds r4, r4, r2` instruction
#[test]
fn instructions_adds_register_2() {
    let mut rp2350: RP2350 = RP2350::new();
    rp2350.cortex_m33.registers.pc.set(RAM_START_ADDRESS);

    let opcode = AddsRegisterT1::opcode(&rp2350.cortex_m33.registers.r4, &rp2350.cortex_m33.registers.r4, &rp2350.cortex_m33.registers.r2);
    write_u16(&mut rp2350, RAM_START_ADDRESS, opcode);
    rp2350.cortex_m33.registers.r2.set(0x74bc8000);
    rp2350.cortex_m33.registers.r4.set(0x43740000);

    rp2350.execute_instruction();

    assert_eq!(rp2350.cortex_m33.registers.r4.get(), 0xb8308000);
    assert_eq!(rp2350.cortex_m33.xpsr.apsr.n(), true);
    assert_eq!(rp2350.cortex_m33.xpsr.apsr.z(), false);
    assert_eq!(rp2350.cortex_m33.xpsr.apsr.c(), false);
    assert_eq!(rp2350.cortex_m33.xpsr.apsr.v(), true);
}

// should execute `adds r1, r1, r1` instruction
#[test]
fn instructions_adds_register_3() {
    let mut rp2350: RP2350 = RP2350::new();
    rp2350.cortex_m33.registers.pc.set(RAM_START_ADDRESS);

    let opcode = AddsRegisterT1::opcode(&rp2350.cortex_m33.registers.r1, &rp2350.cortex_m33.registers.r1, &rp2350.cortex_m33.registers.r1);
    write_u16(&mut rp2350, RAM_START_ADDRESS, opcode);
    rp2350.cortex_m33.registers.r1.set(0xbf8d1424);
    rp2350.cortex_m33.xpsr.apsr.set_c(true);

    rp2350.execute_instruction();

    assert_eq!(rp2350.cortex_m33.registers.r1.get(), 0x7f1a2848);
    assert_eq!(rp2350.cortex_m33.xpsr.apsr.n(), false);
    assert_eq!(rp2350.cortex_m33.xpsr.apsr.z(), false);
    assert_eq!(rp2350.cortex_m33.xpsr.apsr.c(), true);
    assert_eq!(rp2350.cortex_m33.xpsr.apsr.v(), true);
}

// should execute `add r1, ip` instruction
#[test]
fn instructions_add_register() {
    let mut rp2350: RP2350 = RP2350::new();
    rp2350.cortex_m33.registers.pc.set(RAM_START_ADDRESS);

    let opcode = AddRegisterT2::opcode(&rp2350.cortex_m33.registers.r1, &rp2350.cortex_m33.registers.r12);
    write_u16(&mut rp2350, RAM_START_ADDRESS, opcode);
    rp2350.cortex_m33.registers.r1.set(66);
    rp2350.cortex_m33.registers.r12.set(44);

    rp2350.execute_instruction();

    assert_eq!(rp2350.cortex_m33.registers.r1.get(), 110);
}

// should execute `adr r4, #0x50` instruction
#[test]
fn instructions_adr() {
    let mut rp2350: RP2350 = RP2350::new();
    rp2350.cortex_m33.registers.pc.set(RAM_START_ADDRESS);

    let opcode = AdrT1::opcode(&rp2350.cortex_m33.registers.r4, 0x50);
    write_u16(&mut rp2350, RAM_START_ADDRESS, opcode);
    rp2350.execute_instruction();

    assert_eq!(rp2350.cortex_m33.registers.r4.get(), 0x20000054);
}

// should execute `ands r5, r0` instruction
#[test]
fn instructions_ands_t1() {
    let mut rp2350: RP2350 = RP2350::new();
    rp2350.cortex_m33.registers.pc.set(RAM_START_ADDRESS);

    let opcode = AndRegisterT1::opcode(&rp2350.cortex_m33.registers.r5, &rp2350.cortex_m33.registers.r0);
    write_u16(&mut rp2350, RAM_START_ADDRESS, opcode);
    rp2350.cortex_m33.registers.r5.set(0xffff0000);
    rp2350.cortex_m33.registers.r0.set(0xf00fffff);
    rp2350.execute_instruction();

    assert_eq!(rp2350.cortex_m33.registers.r5.get(), 0xf00f0000);
    assert_eq!(rp2350.cortex_m33.xpsr.apsr.n(), true);
    assert_eq!(rp2350.cortex_m33.xpsr.apsr.z(), false);
}

// should execute a `b.n .-20` instruction
#[test]
fn instructions_bt2() {
    let mut rp2350: RP2350 = RP2350::new();
    rp2350.cortex_m33.registers.pc.set(RAM_START_ADDRESS + 9 * 2);

    write_u16(&mut rp2350, RAM_START_ADDRESS + 9 * 2, BT2::opcode(0xfec));
    rp2350.execute_instruction();

    assert_eq!(rp2350.cortex_m33.registers.pc.get(), 0x20000002);
}

// should execute `bl 0x34` instruction
#[test]
fn instructions_bl() {
    let mut rp2350: RP2350 = RP2350::new();
    rp2350.cortex_m33.registers.pc.set(RAM_START_ADDRESS);

    write_u32(&mut rp2350, RAM_START_ADDRESS, BlT1::opcode(0x34));

    rp2350.execute_instruction();

    assert_eq!(rp2350.cortex_m33.registers.pc.get(), 0x20000038);
    assert_eq!(rp2350.cortex_m33.registers.lr.get(), 0x20000005);
}

// should execute `bl -0x10` instruction
#[test]
fn instructions_bl2() {
    let mut rp2350: RP2350 = RP2350::new();
    rp2350.cortex_m33.registers.pc.set(RAM_START_ADDRESS);

    write_u32(&mut rp2350, RAM_START_ADDRESS, BlT1::opcode(-0x10));

    rp2350.execute_instruction();

    assert_eq!(rp2350.cortex_m33.registers.pc.get(), 0x20000004 - 0x10);
    assert_eq!(rp2350.cortex_m33.registers.lr.get(), 0x20000005);
}

// should execute `bl -3242` instruction
#[test]
fn instructions_bl3() {
    let mut rp2350: RP2350 = RP2350::new();
    rp2350.cortex_m33.registers.pc.set(RAM_START_ADDRESS);

    write_u32(&mut rp2350, RAM_START_ADDRESS, BlT1::opcode(-3242));

    rp2350.execute_instruction();

    assert_eq!(rp2350.cortex_m33.registers.pc.get(), 0x20000004 - 3242);
    assert_eq!(rp2350.cortex_m33.registers.lr.get(), 0x20000005);
}

// should execute `blx r3` instruction
#[test]
fn blx() {
    let mut rp2350: RP2350 = RP2350::new();
    rp2350.cortex_m33.registers.pc.set(RAM_START_ADDRESS);
    rp2350.cortex_m33.registers.r3.set(0x20000201);

    let opcode = BlxT1::opcode(&rp2350.cortex_m33.registers.r3);
    write_u16(&mut rp2350, RAM_START_ADDRESS, opcode);

    rp2350.execute_instruction();

    assert_eq!(rp2350.cortex_m33.registers.pc.get(), 0x20000200);
    assert_eq!(rp2350.cortex_m33.registers.lr.get(), 0x20000003);
}

// should correctly decode a `dmb sy` instruction
#[test]
fn instructions_dmb_sy() {
    let mut rp2350: RP2350 = RP2350::new();
    rp2350.cortex_m33.registers.pc.set(RAM_START_ADDRESS);

    write_u32(&mut rp2350, RAM_START_ADDRESS, DmbT1Sy::opcode());
    rp2350.execute_instruction();

    assert_eq!(rp2350.cortex_m33.registers.pc.get(), 0x20000004);
}

// should correctly decode a `dsb sy` instruction
#[test]
fn instructions_dsb_sy() {
    let mut rp2350: RP2350 = RP2350::new();
    rp2350.cortex_m33.registers.pc.set(RAM_START_ADDRESS);

    write_u32(&mut rp2350, RAM_START_ADDRESS, DsbT1Sy::opcode());
    rp2350.execute_instruction();

    assert_eq!(rp2350.cortex_m33.registers.pc.get(), 0x20000004);
}

// should correctly decode a `isb sy` instruction
#[test]
fn isb_sy() {
    let mut rp2350: RP2350 = RP2350::new();
    rp2350.cortex_m33.registers.pc.set(RAM_START_ADDRESS);

    write_u32(&mut rp2350, RAM_START_ADDRESS, IsbT1Sy::opcode());
    rp2350.execute_instruction();

    assert_eq!(rp2350.cortex_m33.registers.pc.get(), 0x20000004);
}

// should execute a `ldmia r0!, {r1, r2}` instruction
#[test]
fn instructions_ldmia() {
    let mut rp2350: RP2350 = RP2350::new();
    rp2350.cortex_m33.registers.pc.set(RAM_START_ADDRESS);

    let registers = Registers::new().with(&rp2350.cortex_m33.registers.r1).with(&rp2350.cortex_m33.registers.r2);
    let opcode = LdmiaT1::opcode(&rp2350.cortex_m33.registers.r0, &registers);
    write_u16(&mut rp2350, RAM_START_ADDRESS, opcode);
    rp2350.cortex_m33.registers.r0.set(0x20000010);

    write_u32(&mut rp2350, 0x20000010, 0xf00df00d);
    write_u16(&mut rp2350, 0x20000014, 0x4242);

    rp2350.execute_instruction();

    assert_eq!(rp2350.cortex_m33.registers.pc.get(), 0x20000002);
    assert_eq!(rp2350.cortex_m33.registers.r0.get(), 0x20000018);
    assert_eq!(rp2350.cortex_m33.registers.r1.get(), 0xf00df00d);
    assert_eq!(rp2350.cortex_m33.registers.r2.get(), 0x4242);
}

// should execute a `mov r3, r8` instruction
#[test]
fn instructions_mov() {
    let mut rp2350: RP2350 = RP2350::new();
    rp2350.cortex_m33.registers.pc.set(RAM_START_ADDRESS);

    let opcode = MovRegisterT1::opcode(&rp2350.cortex_m33.registers.r3, &rp2350.cortex_m33.registers.r8);
    write_u16(&mut rp2350, RAM_START_ADDRESS, opcode);
    rp2350.cortex_m33.registers.r8.set(55);
    rp2350.execute_instruction();

    assert_eq!(rp2350.cortex_m33.registers.r3.get(), 55);
}

// should execute a `mov r3, pc` instruction
#[test]
fn instructions_mov_pc() {
    let mut rp2350: RP2350 = RP2350::new();
    rp2350.cortex_m33.registers.pc.set(RAM_START_ADDRESS);

    let opcode = MovRegisterT1::opcode(&rp2350.cortex_m33.registers.r3, &rp2350.cortex_m33.registers.pc);
    write_u16(&mut rp2350, RAM_START_ADDRESS, opcode);
    rp2350.execute_instruction();

    assert_eq!(rp2350.cortex_m33.registers.r3.get(), 0x20000004);
}

// should execute a `push {r4, r5, r6, lr}` instruction
#[test]
fn instructions_push_instruction() {
    let mut rp2350: RP2350 = RP2350::new();
    rp2350.cortex_m33.registers.pc.set(RAM_START_ADDRESS);
    rp2350.cortex_m33.registers.sp.set(RAM_START_ADDRESS + 0x100);

    let registers = Registers::new()
        .with(&rp2350.cortex_m33.registers.r4)
        .with(&rp2350.cortex_m33.registers.r5)
        .with(&rp2350.cortex_m33.registers.r6);
    let binary = PushT1::opcode(true, &registers);

    write_u16(&mut rp2350, RAM_START_ADDRESS, binary);

    rp2350.cortex_m33.registers.r4.set(0x40);
    rp2350.cortex_m33.registers.r5.set(0x50);
    rp2350.cortex_m33.registers.r6.set(0x60);
    rp2350.cortex_m33.registers.lr.set(0x42);

    rp2350.execute_instruction();

    assert_eq!(rp2350.cortex_m33.registers.sp.get(), RAM_START_ADDRESS + 0xf0);
    assert_eq!(rp2350.cortex_m33.memory.sram[0xf0], 0x40);
    assert_eq!(rp2350.cortex_m33.memory.sram[0xf4], 0x50);
    assert_eq!(rp2350.cortex_m33.memory.sram[0xf8], 0x60);
    assert_eq!(rp2350.cortex_m33.memory.sram[0xfc], 0x42);
}

// should execute a `rev r2, r3` instruction
#[test]
fn instructions_rev() {
    let mut rp2350: RP2350 = RP2350::new();
    rp2350.cortex_m33.registers.pc.set(RAM_START_ADDRESS);

    let opcode = RevT1::opcode(&rp2350.cortex_m33.registers.r2, &rp2350.cortex_m33.registers.r3);
    write_u16(&mut rp2350, RAM_START_ADDRESS, opcode);

    rp2350.cortex_m33.registers.r3.set(0x11223344);

    rp2350.execute_instruction();

    assert_eq!(rp2350.cortex_m33.registers.r2.get(), 0x44332211);
}

// should execute a `rev16 r0, r5` instruction
#[test]
fn instructions_rev16() {
    let mut rp2350: RP2350 = RP2350::new();
    rp2350.cortex_m33.registers.pc.set(RAM_START_ADDRESS);

    let opcode = Rev16T1::opcode(&rp2350.cortex_m33.registers.r0, &rp2350.cortex_m33.registers.r5);
    write_u16(&mut rp2350, RAM_START_ADDRESS, opcode);

    rp2350.cortex_m33.registers.r5.set(0x11223344);

    rp2350.execute_instruction();

    assert_eq!(rp2350.cortex_m33.registers.r0.get(), 0x22114433);
}

// should execute a `stmia r0!, {r1, r2}` instruction
#[test]
fn instructions_stmia() {
    let mut rp2350: RP2350 = RP2350::new();
    rp2350.cortex_m33.registers.pc.set(RAM_START_ADDRESS);

    let registers = Registers::new().with(&rp2350.cortex_m33.registers.r1).with(&rp2350.cortex_m33.registers.r2);
    let opcode = StmiaT1::opcode(&rp2350.cortex_m33.registers.r0, &registers);
    write_u16(&mut rp2350, RAM_START_ADDRESS, opcode);

    rp2350.cortex_m33.registers.r0.set(0x20000010);
    rp2350.cortex_m33.registers.r1.set(0xf00df00d);
    rp2350.cortex_m33.registers.r2.set(0x4242);

    rp2350.execute_instruction();

    assert_eq!(rp2350.cortex_m33.registers.pc.get(), 0x20000002);
    assert_eq!(rp2350.cortex_m33.registers.r0.get(), 0x20000018);

    assert_eq!(rp2350.cortex_m33.memory.read_u32(0x20000010), Ok(0xf00df00d));
    assert_eq!(rp2350.cortex_m33.memory.read_u32(0x20000014), Ok(0x4242));
}

// should execute a `sub sp, 0x10` instruction
#[test]
fn instructions_sub_sp_minus_immediate() {
    let mut rp2350: RP2350 = RP2350::new();
    rp2350.cortex_m33.registers.pc.set(RAM_START_ADDRESS);

    write_u16(&mut rp2350, RAM_START_ADDRESS, SubSpMinusImmediateT1::opcode(0x10));

    rp2350.cortex_m33.registers.sp.set(0x10000040);

    rp2350.execute_instruction();

    assert_eq!(rp2350.cortex_m33.registers.sp.get(), 0x10000030);
}

// should execute an `uxtb r5, r3` instruction
#[test]
fn instructions_uxtb() {
    let mut rp2350: RP2350 = RP2350::new();
    rp2350.cortex_m33.registers.pc.set(RAM_START_ADDRESS);

    let opcode = UxtbT1::opcode(&rp2350.cortex_m33.registers.r5, &rp2350.cortex_m33.registers.r3);
    write_u16(&mut rp2350, RAM_START_ADDRESS, opcode);

    rp2350.cortex_m33.registers.r3.set(0x12345678);

    rp2350.execute_instruction();

    assert_eq!(rp2350.cortex_m33.registers.r5.get(), 0x78);
}

// should execute an `uxth r3, r1` instruction
#[test]
fn instructions_uxth() {
    let mut rp2350: RP2350 = RP2350::new();
    rp2350.cortex_m33.registers.pc.set(RAM_START_ADDRESS);

    let opcode = UxthT1::opcode(&rp2350.cortex_m33.registers.r3, &rp2350.cortex_m33.registers.r1);
    write_u16(&mut rp2350, RAM_START_ADDRESS, opcode);

    rp2350.cortex_m33.registers.r1.set(0x12345678);

    rp2350.execute_instruction();

    assert_eq!(rp2350.cortex_m33.registers.r3.get(), 0x5678);
}

// should execute a `yield` instruction
#[test]
fn instructions_yield() {
    let mut rp2350: RP2350 = RP2350::new();
    rp2350.cortex_m33.registers.pc.set(RAM_START_ADDRESS);

    write_u16(&mut rp2350, RAM_START_ADDRESS, YieldT1::opcode());

    rp2350.execute_instruction();

    assert_eq!(rp2350.cortex_m33.registers.pc.get(), 0x20000002);
}
