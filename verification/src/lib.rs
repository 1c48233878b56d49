//! An instruction-level model of the Cortex-M33 application core of the
//! RP2350: register file, program status register, memory map, exception
//! plumbing, Thumb decoder and executor, each with a machine-checked contract.

pub mod cortex_m33;
pub mod hex;
pub mod memory;
pub mod rp2350;

pub use memory::{install_peripheral, BusFault, MemoryInterface, MemoryMap, Peripheral};
pub use hex::LoaderError;
pub use rp2350::{
    Flag, RP2350Memory, APB_START_ADDRESS, DPRAM_START_ADDRESS, FLASH_END_ADDRESS,
    FLASH_START_ADDRESS, RAM_START_ADDRESS, RP2350, SIO_START_ADDRESS,
};
