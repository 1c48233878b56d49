use rp2350_sim::cortex_m33::state::CortexM33;
use rp2350_sim::{
    BusFault, MemoryInterface, RP2350Memory, APB_START_ADDRESS, FLASH_END_ADDRESS,
    FLASH_START_ADDRESS, RAM_START_ADDRESS, SIO_START_ADDRESS,
};

const SRAM_SIZE: u32 = 520 * 1024;
const FLASH_SIZE: u32 = 4 * 1024 * 1024;

#[test]
fn memory_starts_with_sram_zeroed_and_flash_erased() {
    let memory = RP2350Memory::new();
    assert_eq!(memory.sram.len(), SRAM_SIZE as usize);
    assert_eq!(memory.flash.len(), FLASH_SIZE as usize);
    assert_eq!(memory.read(RAM_START_ADDRESS), Ok(0));
    assert_eq!(memory.read(RAM_START_ADDRESS + SRAM_SIZE - 1), Ok(0));
    assert_eq!(memory.read(FLASH_START_ADDRESS), Ok(0xff));
    assert_eq!(memory.read(FLASH_START_ADDRESS + FLASH_SIZE - 1), Ok(0xff));
}

#[test]
fn what_is_not_modeled_reads_as_zero() {
    let memory = RP2350Memory::new();
    // boot ROM
    assert_eq!(memory.read(0), Ok(0));
    assert_eq!(memory.read(FLASH_START_ADDRESS - 1), Ok(0));
    // the XIP window past the flash that is modeled
    assert_eq!(memory.read(FLASH_START_ADDRESS + FLASH_SIZE), Ok(0));
    assert_eq!(memory.read(FLASH_END_ADDRESS - 1), Ok(0));
    // the SRAM window past the SRAM that is modeled
    assert_eq!(memory.read(RAM_START_ADDRESS + SRAM_SIZE), Ok(0));
    assert_eq!(memory.read(APB_START_ADDRESS - 1), Ok(0));
    // peripherals
    assert_eq!(memory.read(APB_START_ADDRESS), Ok(0));
    assert_eq!(memory.read(0x5000_0000), Ok(0));
    assert_eq!(memory.read(0x5fff_ffff), Ok(0));
    assert_eq!(memory.read(SIO_START_ADDRESS), Ok(0));
    assert_eq!(memory.read(0xe00f_ffff), Ok(0));
}

#[test]
fn an_address_in_no_window_faults() {
    let mut memory = RP2350Memory::new();
    for address in [FLASH_END_ADDRESS, 0x1fff_ffff, 0x6000_0000, 0xcfff_ffff, 0xe010_0000, 0xffff_ffff]
    {
        assert_eq!(memory.read(address), Err(BusFault { address }));
        assert_eq!(memory.write(address, 1), Err(BusFault { address }));
    }
}

#[test]
fn only_sram_takes_a_write() {
    let mut memory = RP2350Memory::new();
    assert_eq!(memory.write(RAM_START_ADDRESS + 5, 0xab), Ok(()));
    assert_eq!(memory.read(RAM_START_ADDRESS + 5), Ok(0xab));
    assert_eq!(memory.sram[5], 0xab);
    for address in [
        0,
        FLASH_START_ADDRESS,
        FLASH_START_ADDRESS + FLASH_SIZE,
        RAM_START_ADDRESS + SRAM_SIZE,
        APB_START_ADDRESS,
        SIO_START_ADDRESS,
        0xe000_ed08,
    ] {
        assert_eq!(memory.write(address, 0x55), Err(BusFault { address }));
    }
    assert_eq!(memory.read(FLASH_START_ADDRESS), Ok(0xff));
}

#[test]
fn halfwords_and_words_are_little_endian() {
    let mut memory = RP2350Memory::new();
    let base = RAM_START_ADDRESS + 0x40;
    memory.write(base, 0x0d).unwrap();
    memory.write(base + 1, 0xf0).unwrap();
    memory.write(base + 2, 0xad).unwrap();
    memory.write(base + 3, 0xde).unwrap();
    assert_eq!(memory.read_u16(base), Ok(0xf00d));
    assert_eq!(memory.read_u16(base + 2), Ok(0xdead));
    assert_eq!(memory.read_u32(base), Ok(0xdead_f00d));
    // not aligned
    assert_eq!(memory.read_u16(base + 1), Ok(0xadf0));
    assert_eq!(memory.read_u32(base + 1), Ok(0x00de_adf0));
}

#[test]
fn writes_of_halfwords_and_words_go_byte_by_byte() {
    let mut memory = RP2350Memory::new();
    let base = RAM_START_ADDRESS + 0x80;
    assert_eq!(memory.write_u32(base, 0x1122_3344), Ok(()));
    assert_eq!(memory.sram[0x80..0x84], [0x44, 0x33, 0x22, 0x11]);
    assert_eq!(memory.write_u16(base + 4, 0xbeef), Ok(()));
    assert_eq!(memory.sram[0x84..0x86], [0xef, 0xbe]);
    assert_eq!(memory.read_u32(base + 2), Ok(0xbeef_1122));
}

#[test]
fn a_write_that_faults_half_way_keeps_the_bytes_before() {
    let mut memory = RP2350Memory::new();
    let last = RAM_START_ADDRESS + SRAM_SIZE - 2;
    assert_eq!(
        memory.write_u32(last, 0x1122_3344),
        Err(BusFault { address: RAM_START_ADDRESS + SRAM_SIZE })
    );
    assert_eq!(memory.read(last), Ok(0x44));
    assert_eq!(memory.read(last + 1), Ok(0x33));
    assert_eq!(
        memory.write_u16(RAM_START_ADDRESS + SRAM_SIZE - 1, 0xaabb),
        Err(BusFault { address: RAM_START_ADDRESS + SRAM_SIZE })
    );
    assert_eq!(memory.read(RAM_START_ADDRESS + SRAM_SIZE - 1), Ok(0xbb));
}

#[test]
fn a_read_that_faults_names_the_first_byte_that_faults() {
    let memory = RP2350Memory::new();
    assert_eq!(memory.read_u32(FLASH_END_ADDRESS - 2), Err(BusFault { address: FLASH_END_ADDRESS }));
    assert_eq!(memory.read_u16(FLASH_END_ADDRESS - 1), Err(BusFault { address: FLASH_END_ADDRESS }));
    assert_eq!(memory.read_u16(0xffff_ffff), Err(BusFault { address: 0xffff_ffff }));
}

#[test]
fn the_bus_reaches_memory() {
    let mut cortex = CortexM33::new(RP2350Memory::new());
    assert_eq!(cortex.write_u32(RAM_START_ADDRESS + 0x10, 0xcafe_babe), Ok(()));
    assert_eq!(cortex.read_u32(RAM_START_ADDRESS + 0x10), Ok(0xcafe_babe));
    assert_eq!(cortex.read_u16(RAM_START_ADDRESS + 0x12), Ok(0xcafe));
    assert_eq!(cortex.read_u8(RAM_START_ADDRESS + 0x13), Ok(0xca));
    assert_eq!(cortex.write_u16(RAM_START_ADDRESS + 0x10, 0x1234), Ok(()));
    assert_eq!(cortex.write_u8(RAM_START_ADDRESS + 0x13, 0x99), Ok(()));
    assert_eq!(cortex.read_u32(RAM_START_ADDRESS + 0x10), Ok(0x99fe_1234));
    assert_eq!(cortex.memory.sram[0x10], 0x34);
    assert_eq!(
        cortex.write_u8(FLASH_START_ADDRESS, 0),
        Err(BusFault { address: FLASH_START_ADDRESS })
    );
    assert_eq!(cortex.read_u8(0x1800_0000), Err(BusFault { address: 0x1800_0000 }));
}

#[test]
fn the_private_peripheral_bus_is_backed_by_registers() {
    let mut cortex = CortexM33::new(RP2350Memory::new());
    // SHPR3: SysTick priority in bits 31:30, PendSV in bits 23:22
    assert_eq!(cortex.write_u32(0xe000_ed20, 0xc080_0000), Ok(()));
    assert_eq!(cortex.shpr.shpr3, 0xc080_0000);
    assert_eq!(cortex.shpr.pri_15(), 3);
    assert_eq!(cortex.shpr.pri_14(), 2);
    assert_eq!(cortex.read_u32(0xe000_ed20), Ok(0xc080_0000));
    // SHPR2: SVCall priority in bits 31:30, written as one byte
    assert_eq!(cortex.write_u8(0xe000_ed1f, 0x40), Ok(()));
    assert_eq!(cortex.shpr.shpr2, 0x4000_0000);
    assert_eq!(cortex.shpr.pri_11(), 1);
    // VTOR
    assert_eq!(cortex.write_u32(0xe000_ed08, 0x1000_0100), Ok(()));
    assert_eq!(cortex.vtor, 0x1000_0100);
    assert_eq!(cortex.read_u16(0xe000_ed0a), Ok(0x1000));
    // interrupt enables and priorities
    assert_eq!(cortex.write_u32(0xe000_e100, 0x0000_0005), Ok(()));
    assert_eq!(cortex.nvic.enabled, 5);
    assert!(cortex.nvic.is_enabled(0));
    assert!(!cortex.nvic.is_enabled(1));
    assert!(cortex.nvic.is_enabled(2));
    assert_eq!(cortex.write_u8(0xe000_e400 + 5, 0x80), Ok(()));
    assert_eq!(cortex.nvic.index(1), 0x0000_8000);
    assert_eq!(cortex.nvic.priority(5), 2);
    assert_eq!(cortex.nvic.priority(4), 0);
    assert_eq!(cortex.write_u32(0xe000_e41c, 0xc000_0040), Ok(()));
    assert_eq!(cortex.nvic.index(7), 0xc000_0040);
    assert_eq!(cortex.nvic.priority(31), 3);
    assert_eq!(cortex.nvic.priority(28), 1);
    assert_eq!(cortex.read_u8(0xe000_e41f), Ok(0xc0));
}

#[test]
fn a_word_of_the_private_peripheral_bus_with_no_register_keeps_nothing() {
    let mut cortex = CortexM33::new(RP2350Memory::new());
    assert_eq!(cortex.write_u32(0xe000_e010, 0xffff_ffff), Ok(()));
    assert_eq!(cortex.read_u32(0xe000_e010), Ok(0));
    assert_eq!(cortex.read_u32(0xe00f_fffc), Ok(0));
    // past the window the memory decides
    assert_eq!(cortex.read_u8(0xe010_0000), Err(BusFault { address: 0xe010_0000 }));
}

#[test]
fn nvic_priority_registers_by_index() {
    let mut cortex = CortexM33::new(RP2350Memory::new());
    for index in 0..8usize {
        *cortex.nvic.index_mut(index) = 0x1000 + index as u32;
    }
    for index in 0..8usize {
        assert_eq!(cortex.nvic.index(index), 0x1000 + index as u32);
    }
}
