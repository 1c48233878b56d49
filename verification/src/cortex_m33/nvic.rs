//! The interrupt controller: enable bits and priorities of the external
//! interrupts.

use vstd::prelude::*;

verus! {

/// The interrupt controller: the enable bit of each of the 32 external
/// interrupts, and the priority registers IPR0 to IPR7, which hold one byte
/// for each interrupt, four to a register.
#[derive(Debug, Clone, Copy, PartialEq, Eq, Structural)]
pub struct Nvic {
    pub enabled: u32,
    pub ipr0: u32,
    pub ipr1: u32,
    pub ipr2: u32,
    pub ipr3: u32,
    pub ipr4: u32,
    pub ipr5: u32,
    pub ipr6: u32,
    pub ipr7: u32,
}

impl Nvic {
    /// Nothing enabled, every priority zero.
    pub open spec fn new_spec() -> Nvic {
        Nvic {
            enabled: 0,
            ipr0: 0,
            ipr1: 0,
            ipr2: 0,
            ipr3: 0,
            ipr4: 0,
            ipr5: 0,
            ipr6: 0,
            ipr7: 0,
        }
    }

    pub fn new() -> (r: Self)
        ensures
            r == Nvic::new_spec(),
    {
        Self {
            enabled: 0,
            ipr0: 0,
            ipr1: 0,
            ipr2: 0,
            ipr3: 0,
            ipr4: 0,
            ipr5: 0,
            ipr6: 0,
            ipr7: 0,
        }
    }

    /// The priority register of the given index.
    pub open spec fn ipr(self, index: int) -> u32 {
        if index == 0 {
            self.ipr0
        } else if index == 1 {
            self.ipr1
        } else if index == 2 {
            self.ipr2
        } else if index == 3 {
            self.ipr3
        } else if index == 4 {
            self.ipr4
        } else if index == 5 {
            self.ipr5
        } else if index == 6 {
            self.ipr6
        } else {
            self.ipr7
        }
    }

    /// This controller with one priority register replaced.
    pub open spec fn with_ipr(self, index: int, value: u32) -> Nvic {
        if index == 0 {
            Nvic { ipr0: value, ..self }
        } else if index == 1 {
            Nvic { ipr1: value, ..self }
        } else if index == 2 {
            Nvic { ipr2: value, ..self }
        } else if index == 3 {
            Nvic { ipr3: value, ..self }
        } else if index == 4 {
            Nvic { ipr4: value, ..self }
        } else if index == 5 {
            Nvic { ipr5: value, ..self }
        } else if index == 6 {
            Nvic { ipr6: value, ..self }
        } else {
            Nvic { ipr7: value, ..self }
        }
    }

    /// Reads the priority register of the given index.
    pub fn index(&self, index: usize) -> (r: u32)
        requires
            index < 8,
        ensures
            r == self.ipr(index as int),
    {
        match index {
            0 => self.ipr0,
            1 => self.ipr1,
            2 => self.ipr2,
            3 => self.ipr3,
            4 => self.ipr4,
            5 => self.ipr5,
            6 => self.ipr6,
            _ => self.ipr7,
        }
    }

    /// The priority register of the given index, to be written through the
    /// reference.
    pub fn index_mut(&mut self, index: usize) -> (r: &mut u32)
        requires
            index < 8,
        ensures
            *r == old(self).ipr(index as int),
            *final(self) == old(self).with_ipr(index as int, *final(r)),
    {
        match index {
            0 => &mut self.ipr0,
            1 => &mut self.ipr1,
            2 => &mut self.ipr2,
            3 => &mut self.ipr3,
            4 => &mut self.ipr4,
            5 => &mut self.ipr5,
            6 => &mut self.ipr6,
            _ => &mut self.ipr7,
        }
    }

    /// The two priority bits of external interrupt `irq`: the top two bits of
    /// its byte.
    pub open spec fn priority_spec(self, irq: int) -> u8 {
        let word: u32 = self.ipr(irq / 4);
        let lane: int = irq % 4;
        (if lane == 0 {
            (word / 0x40) % 4
        } else if lane == 1 {
            (word / 0x4000) % 4
        } else if lane == 2 {
            (word / 0x40_0000) % 4
        } else {
            word / 0x4000_0000
        }) as u8
    }

    /// The priority of external interrupt `irq`.
    pub fn priority(&self, irq: u8) -> (r: u8)
        requires
            irq < 32,
        ensures
            r == self.priority_spec(irq as int),
            r < 4,
    {
        let word: u32 = self.index((irq / 4) as usize);
        match irq % 4 {
            0 => ((word / 0x40) % 4) as u8,
            1 => ((word / 0x4000) % 4) as u8,
            2 => ((word / 0x40_0000) % 4) as u8,
            _ => (word / 0x4000_0000) as u8,
        }
    }

    /// Whether external interrupt `irq` is enabled: bit `irq` of the enable
    /// word.
    pub open spec fn is_enabled_spec(self, irq: int) -> bool {
        (self.enabled >> (irq as u32)) & 1 == 1
    }

    /// Whether external interrupt `irq` is enabled.
    pub fn is_enabled(&self, irq: u8) -> (r: bool)
        requires
            irq < 32,
        ensures
            r == self.is_enabled_spec(irq as int),
    {
        (self.enabled >> (irq as u32)) & 1 == 1
    }
}

} // verus!
