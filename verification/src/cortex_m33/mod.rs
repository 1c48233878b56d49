pub mod apsr;
pub mod control;
pub mod exception;
pub mod executor;
pub mod instructions;
pub mod laws;
pub mod nvic;
pub mod opcodes;
pub mod operation;
pub mod registers;
pub mod semantics;
pub mod shpr;
pub mod stack;
pub mod state;

pub use instructions::OpCode;
pub use state::{CortexM33, CpuState, Mode};
