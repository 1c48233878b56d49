//! The priorities of SVCall, PendSV and SysTick.

use vstd::prelude::*;

verus! {

/// The system handler priority registers SHPR2 and SHPR3.
#[derive(Debug, Clone, Copy, PartialEq, Eq, Structural)]
pub struct Shpr {
    pub shpr2: u32,
    pub shpr3: u32,
}

impl Shpr {
    pub fn new() -> (r: Self)
        ensures
            r == (Shpr { shpr2: 0, shpr3: 0 }),
    {
        Self { shpr2: 0, shpr3: 0 }
    }

    /// Priority of SVCall: bits 31:30 of SHPR2.
    pub open spec fn pri_11_spec(self) -> u8 {
        (self.shpr2 / 0x4000_0000) as u8
    }

    /// Priority of SysTick: bits 31:30 of SHPR3.
    pub open spec fn pri_15_spec(self) -> u8 {
        (self.shpr3 / 0x4000_0000) as u8
    }

    /// Priority of PendSV: bits 23:22 of SHPR3.
    pub open spec fn pri_14_spec(self) -> u8 {
        ((self.shpr3 / 0x40_0000) % 4) as u8
    }

    /// Priority of SVCall.
    pub fn pri_11(&self) -> (r: u8)
        ensures
            r == self.pri_11_spec(),
            r < 4,
    {
        (self.shpr2 / 0x4000_0000) as u8
    }

    /// Priority of SysTick.
    pub fn pri_15(&self) -> (r: u8)
        ensures
            r == self.pri_15_spec(),
            r < 4,
    {
        (self.shpr3 / 0x4000_0000) as u8
    }

    /// Priority of PendSV.
    pub fn pri_14(&self) -> (r: u8)
        ensures
            r == self.pri_14_spec(),
            r < 4,
    {
        ((self.shpr3 / 0x40_0000) % 4) as u8
    }
}

} // verus!
