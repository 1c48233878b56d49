//! The CONTROL word: the privilege of Thread mode and its stack pointer.

use vstd::prelude::*;

verus! {

/// CONTROL.nPRIV: the privilege of Thread mode.
#[derive(Debug, Clone, Copy, PartialEq, Eq, Structural)]
pub enum NPriv {
    ThreadModePrivileged,
    ThreadModeUnprivileged,
}

/// CONTROL.SPSEL: the stack pointer that Thread mode uses.
#[derive(Debug, Clone, Copy, PartialEq, Eq, Structural)]
pub enum SpSel {
    SpMain,
    SpProcess,
}

/// The CONTROL word.
#[derive(Debug, Clone, Copy, PartialEq, Eq, Structural)]
pub struct Control {
    pub npriv: NPriv,
    pub spsel: SpSel,
}

impl Control {
    /// Privileged Thread mode on the main stack.
    pub open spec fn new_spec() -> Control {
        Control { npriv: NPriv::ThreadModePrivileged, spsel: SpSel::SpMain }
    }

    pub fn new() -> (r: Self)
        ensures
            r == Control::new_spec(),
    {
        Self { npriv: NPriv::ThreadModePrivileged, spsel: SpSel::SpMain }
    }

    /// CONTROL as a word: nPRIV in bit 0, SPSEL in bit 1.
    pub open spec fn pack(self) -> u32 {
        ((if self.npriv == NPriv::ThreadModeUnprivileged {
            1int
        } else {
            0int
        }) + (if self.spsel == SpSel::SpProcess {
            2int
        } else {
            0int
        })) as u32
    }

    /// The CONTROL that the two low bits of a word stand for.
    pub open spec fn unpack(value: u32) -> Control {
        Control {
            npriv: if value % 2 == 1 {
                NPriv::ThreadModeUnprivileged
            } else {
                NPriv::ThreadModePrivileged
            },
            spsel: if (value / 2) % 2 == 1 {
                SpSel::SpProcess
            } else {
                SpSel::SpMain
            },
        }
    }

    pub fn into_u32(&self) -> (r: u32)
        ensures
            r == self.pack(),
    {
        let low: u32 = match self.npriv {
            NPriv::ThreadModeUnprivileged => 1,
            NPriv::ThreadModePrivileged => 0,
        };
        let high: u32 = match self.spsel {
            SpSel::SpProcess => 2,
            SpSel::SpMain => 0,
        };
        low + high
    }

    pub fn from_u32(value: u32) -> (r: Self)
        ensures
            r == Control::unpack(value),
    {
        Control {
            npriv: if value % 2 == 1 {
                NPriv::ThreadModeUnprivileged
            } else {
                NPriv::ThreadModePrivileged
            },
            spsel: if (value / 2) % 2 == 1 {
                SpSel::SpProcess
            } else {
                SpSel::SpMain
            },
        }
    }
}

} // verus!
