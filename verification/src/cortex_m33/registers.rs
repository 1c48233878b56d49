//! The sixteen registers. The stack pointer is banked and keeps multiples of
//! four; the program counter keeps even numbers.

use vstd::prelude::*;

verus! {

/// The four kinds of registers.
#[derive(Debug, PartialEq, Eq, Structural, Copy, Clone)]
pub enum RegisterKind {
    General,
    StackPointer,
    Link,
    ProgramCounter,
}

/// What the sixteen registers share. `stored` is what a write keeps of the
/// value it is given: a general register and the link register keep it
/// whole, the stack pointer drops the two low bits and the program counter
/// the lowest.
pub trait Register {
    spec fn value(&self) -> u32;

    spec fn index(&self) -> u16;

    spec fn kind() -> RegisterKind;

    spec fn stored(value: u32) -> u32;

    fn get(&self) -> (r: u32)
        ensures
            r == self.value(),
    ;

    fn set(&mut self, value: u32)
        ensures
            final(self).value() == Self::stored(value),
            final(self).index() == old(self).index(),
    ;

    fn number(&self) -> (r: u16)
        ensures
            r == self.index(),
    ;

    fn is_lr(&self) -> (r: bool)
        ensures
            r == (Self::kind() == RegisterKind::Link),
    ;

    fn is_pc(&self) -> (r: bool)
        ensures
            r == (Self::kind() == RegisterKind::ProgramCounter),
    ;

    fn is_sp(&self) -> (r: bool)
        ensures
            r == (Self::kind() == RegisterKind::StackPointer),
    ;

    fn is_general_register(&self) -> (r: bool)
        ensures
            r == (Self::kind() == RegisterKind::General),
    ;
}

/// `value` with its low bits cleared down to a multiple of `unit`.
pub open spec fn align_down(value: u32, unit: u32) -> u32 {
    (value - value % unit) as u32
}

/// One of R0 to R12.
#[derive(Debug, PartialEq, Copy, Clone)]
pub struct GeneralRegister(u16, u32);

impl Register for GeneralRegister {
    closed spec fn value(&self) -> u32 {
        self.1
    }

    closed spec fn index(&self) -> u16 {
        self.0
    }

    open spec fn kind() -> RegisterKind {
        RegisterKind::General
    }

    open spec fn stored(value: u32) -> u32 {
        value
    }

    fn get(&self) -> u32 {
        self.1
    }

    fn set(&mut self, value: u32) {
        self.1 = value;
    }

    fn number(&self) -> u16 {
        self.0
    }


    fn is_lr(&self) -> bool {
        false
    }

    fn is_pc(&self) -> bool {
        false
    }

    fn is_sp(&self) -> bool {
        false
    }

    fn is_general_register(&self) -> bool {
        true
    }
}

/// Which of the two banked stack pointers is in use.
#[derive(Debug, PartialEq, Eq, Structural, Copy, Clone)]
pub enum SpMode {
    Main,
    Process,
}

/// The banked stack pointer as a plain record: both words and the selector.
/// Its constructor and its write keep multiples of four.
#[derive(Debug, PartialEq, Eq, Structural, Copy, Clone)]
pub struct Sp {
    pub msp: u32,
    pub psp: u32,
    pub mode: SpMode,
}

impl Sp {
    /// Both words without their two low bits, the main one selected.
    pub fn new(msp: u32, psp: u32) -> (r: Self)
        ensures
            r == (Sp { msp: align_down(msp, 4), psp: align_down(psp, 4), mode: SpMode::Main }),
            r.aligned(),
    {
        Self { msp: msp - msp % 4, psp: psp - psp % 4, mode: SpMode::Main }
    }

    /// Both words are multiples of four.
    pub open spec fn aligned(self) -> bool {
        self.msp % 4 == 0 && self.psp % 4 == 0
    }

    /// The selected word.
    pub open spec fn current(self) -> u32 {
        match self.mode {
            SpMode::Main => self.msp,
            SpMode::Process => self.psp,
        }
    }

    /// This record with the selected word replaced.
    pub open spec fn with_current(self, value: u32) -> Sp {
        match self.mode {
            SpMode::Main => Sp { msp: value, ..self },
            SpMode::Process => Sp { psp: value, ..self },
        }
    }

    /// Selects the other word.
    pub fn change_mode(&mut self)
        ensures
            *final(self) == (Sp {
                mode: match old(self).mode {
                    SpMode::Main => SpMode::Process,
                    SpMode::Process => SpMode::Main,
                },
                ..*old(self)
            }),
    {
        match self.mode {
            SpMode::Main => self.mode = SpMode::Process,
            SpMode::Process => self.mode = SpMode::Main,
        }
    }

    /// Reads the selected word.
    pub fn get(&self) -> (r: u32)
        ensures
            r == self.current(),
    {
        match self.mode {
            SpMode::Main => self.msp,
            SpMode::Process => self.psp,
        }
    }

    /// Writes the selected word; the two low bits are dropped. The other
    /// word and the selector stay.
    pub fn set(&mut self, value: u32)
        ensures
            *final(self) == old(self).with_current(align_down(value, 4)),
            final(self).current() % 4 == 0,
            old(self).aligned() ==> final(self).aligned(),
    {
        match self.mode {
            SpMode::Main => self.msp = value - value % 4,
            SpMode::Process => self.psp = value - value % 4,
        }
    }
}

/// R13. Both banked words are multiples of four at all times: every write
/// drops the two low bits.
#[derive(Debug, PartialEq, Copy, Clone)]
pub struct SPRegister(u16, Sp);

impl SPRegister {
    /// The banked record behind the register.
    pub closed spec fn bank(self) -> Sp {
        self.1
    }

    /// Both banked words are multiples of four.
    #[verifier::type_invariant]
    pub open spec fn aligned(self) -> bool {
        self.bank().aligned()
    }

    /// The main stack pointer.
    pub fn get_msp(&self) -> (r: u32)
        ensures
            r == self.bank().msp,
            r % 4 == 0,
    {
        proof {
            use_type_invariant(self);
        }
        self.1.msp
    }

    /// The process stack pointer.
    pub fn get_psp(&self) -> (r: u32)
        ensures
            r == self.bank().psp,
            r % 4 == 0,
    {
        proof {
            use_type_invariant(self);
        }
        self.1.psp
    }

    /// Writes the main stack pointer; the two low bits are dropped.
    pub fn set_msp(&mut self, value: u32)
        ensures
            final(self).bank() == (Sp { msp: align_down(value, 4), ..old(self).bank() }),
            final(self).index() == old(self).index(),
    {
        proof {
            use_type_invariant(&*self);
        }
        self.1.msp = value - value % 4;
    }

    /// Writes the process stack pointer; the two low bits are dropped.
    pub fn set_psp(&mut self, value: u32)
        ensures
            final(self).bank() == (Sp { psp: align_down(value, 4), ..old(self).bank() }),
            final(self).index() == old(self).index(),
    {
        proof {
            use_type_invariant(&*self);
        }
        self.1.psp = value - value % 4;
    }

    /// Selects one of the two stack pointers.
    pub fn set_mode(&mut self, mode: SpMode)
        ensures
            final(self).bank() == (Sp { mode, ..old(self).bank() }),
            final(self).index() == old(self).index(),
    {
        proof {
            use_type_invariant(&*self);
        }
        self.1.mode = mode;
    }

    /// Which of the two stack pointers is selected.
    pub fn get_mode(&self) -> (r: SpMode)
        ensures
            r == self.bank().mode,
    {
        self.1.mode
    }
}

impl Register for SPRegister {
    open spec fn value(&self) -> u32 {
        self.bank().current()
    }

    closed spec fn index(&self) -> u16 {
        self.0
    }

    open spec fn kind() -> RegisterKind {
        RegisterKind::StackPointer
    }

    open spec fn stored(value: u32) -> u32 {
        align_down(value, 4)
    }

    fn get(&self) -> (r: u32)
        ensures
            r % 4 == 0,
    {
        proof {
            use_type_invariant(self);
        }
        match self.1.mode {
            SpMode::Main => self.1.msp,
            SpMode::Process => self.1.psp,
        }
    }

    fn set(&mut self, value: u32)
        ensures
            final(self).bank() == old(self).bank().with_current(align_down(value, 4)),
    {
        proof {
            use_type_invariant(&*self);
        }
        match self.1.mode {
            SpMode::Main => self.1.msp = value - value % 4,
            SpMode::Process => self.1.psp = value - value % 4,
        }
    }

    fn number(&self) -> u16 {
        self.0
    }


    fn is_lr(&self) -> bool {
        false
    }

    fn is_pc(&self) -> bool {
        false
    }

    fn is_sp(&self) -> bool {
        true
    }

    fn is_general_register(&self) -> bool {
        false
    }
}

/// R14, the link register.
#[derive(Debug, PartialEq, Copy, Clone)]
pub struct LrRegister(u16, u32);

impl Register for LrRegister {
    closed spec fn value(&self) -> u32 {
        self.1
    }

    closed spec fn index(&self) -> u16 {
        self.0
    }

    open spec fn kind() -> RegisterKind {
        RegisterKind::Link
    }

    open spec fn stored(value: u32) -> u32 {
        value
    }

    fn get(&self) -> u32 {
        self.1
    }

    fn set(&mut self, value: u32) {
        self.1 = value;
    }

    fn number(&self) -> u16 {
        self.0
    }


    fn is_lr(&self) -> bool {
        true
    }

    fn is_pc(&self) -> bool {
        false
    }

    fn is_sp(&self) -> bool {
        false
    }

    fn is_general_register(&self) -> bool {
        false
    }
}

/// R15, the program counter. It is even at all times: every write drops
/// bit 0.
#[derive(Debug, PartialEq, Copy, Clone)]
pub struct PcRegister(u16, u32);

impl PcRegister {
    /// The value held is even.
    #[verifier::type_invariant]
    pub open spec fn even(self) -> bool {
        self.value() % 2 == 0
    }
}

impl Register for PcRegister {
    closed spec fn value(&self) -> u32 {
        self.1
    }

    closed spec fn index(&self) -> u16 {
        self.0
    }

    open spec fn kind() -> RegisterKind {
        RegisterKind::ProgramCounter
    }

    open spec fn stored(value: u32) -> u32 {
        align_down(value, 2)
    }

    fn get(&self) -> (r: u32)
        ensures
            r % 2 == 0,
    {
        proof {
            use_type_invariant(self);
        }
        self.1
    }

    fn set(&mut self, value: u32) {
        self.1 = value - value % 2;
    }

    fn number(&self) -> u16 {
        self.0
    }


    fn is_lr(&self) -> bool {
        false
    }

    fn is_pc(&self) -> bool {
        true
    }

    fn is_sp(&self) -> bool {
        false
    }

    fn is_general_register(&self) -> bool {
        false
    }
}

/// The register file as plain values: R0 to R12 in order, the banked stack
/// pointer, LR and PC, and the number that each of the sixteen registers
/// answers to, in the order of their places.
pub struct RegisterFile {
    pub r: Seq<u32>,
    pub sp: Sp,
    pub lr: u32,
    pub pc: u32,
    pub numbers: Seq<u16>,
}

impl RegisterFile {
    /// There are thirteen general registers.
    pub open spec fn wf(self) -> bool {
        self.r.len() == 13
    }

    /// Bit 0 of the program counter is clear, and so are the two low bits of
    /// both stack pointers.
    pub open spec fn aligned(self) -> bool {
        self.pc % 2 == 0 && self.sp.msp % 4 == 0 && self.sp.psp % 4 == 0
    }

    /// What a read of register `i` returns.
    pub open spec fn read(self, i: int) -> u32 {
        if 0 <= i < 13 {
            self.r[i]
        } else if i == 13 {
            self.sp.current()
        } else if i == 14 {
            self.lr
        } else {
            self.pc
        }
    }

    /// The file after a write of `value` to register `i`. A write to R13
    /// keeps a multiple of four, a write to R15 an even number.
    pub open spec fn write(self, i: int, value: u32) -> RegisterFile {
        if 0 <= i < 13 {
            RegisterFile { r: self.r.update(i, value), ..self }
        } else if i == 13 {
            RegisterFile { sp: self.sp.with_current(align_down(value, 4)), ..self }
        } else if i == 14 {
            RegisterFile { lr: value, ..self }
        } else {
            RegisterFile { pc: align_down(value, 2), ..self }
        }
    }
}

/// The sixteen architectural registers.
#[derive(Debug, PartialEq, Copy, Clone)]
pub struct CortexM33Registers {
    pub r0: GeneralRegister,
    pub r1: GeneralRegister,
    pub r2: GeneralRegister,
    pub r3: GeneralRegister,
    pub r4: GeneralRegister,
    pub r5: GeneralRegister,
    pub r6: GeneralRegister,
    pub r7: GeneralRegister,
    pub r8: GeneralRegister,
    pub r9: GeneralRegister,
    pub r10: GeneralRegister,
    pub r11: GeneralRegister,
    pub r12: GeneralRegister,
    pub sp: SPRegister,
    pub lr: LrRegister,
    pub pc: PcRegister,
}

/// The registers as plain values: what each register holds, as it is
/// stored, and its number.
impl View for CortexM33Registers {
    type V = RegisterFile;

    open spec fn view(&self) -> RegisterFile {
        RegisterFile {
            r: seq![
                self.r0.value(),
                self.r1.value(),
                self.r2.value(),
                self.r3.value(),
                self.r4.value(),
                self.r5.value(),
                self.r6.value(),
                self.r7.value(),
                self.r8.value(),
                self.r9.value(),
                self.r10.value(),
                self.r11.value(),
                self.r12.value(),
            ],
            sp: self.sp.bank(),
            lr: self.lr.value(),
            pc: self.pc.value(),
            numbers: seq![
                self.r0.index(),
                self.r1.index(),
                self.r2.index(),
                self.r3.index(),
                self.r4.index(),
                self.r5.index(),
                self.r6.index(),
                self.r7.index(),
                self.r8.index(),
                self.r9.index(),
                self.r10.index(),
                self.r11.index(),
                self.r12.index(),
                self.sp.index(),
                self.lr.index(),
                self.pc.index(),
            ],
        }
    }
}

impl CortexM33Registers {
    /// Each register carries the number of its place.
    pub open spec fn numbered(self) -> bool {
        self@.numbers =~= Seq::new(16, |i: int| i as u16)
    }

    /// All registers zero, the main stack pointer selected, each register
    /// numbered by its place.
    pub open spec fn new_spec() -> RegisterFile {
        RegisterFile {
            r: Seq::new(13, |i: int| 0u32),
            sp: Sp { msp: 0, psp: 0, mode: SpMode::Main },
            lr: 0,
            pc: 0,
            numbers: Seq::new(16, |i: int| i as u16),
        }
    }

    /// All registers zero, the main stack pointer selected, each register
    /// numbered by its place.
    pub fn new() -> (r: Self)
        ensures
            r@ == Self::new_spec(),
            r.numbered(),
    {
        let r = Self {
            r0: GeneralRegister(0, 0),
            r1: GeneralRegister(1, 0),
            r2: GeneralRegister(2, 0),
            r3: GeneralRegister(3, 0),
            r4: GeneralRegister(4, 0),
            r5: GeneralRegister(5, 0),
            r6: GeneralRegister(6, 0),
            r7: GeneralRegister(7, 0),
            r8: GeneralRegister(8, 0),
            r9: GeneralRegister(9, 0),
            r10: GeneralRegister(10, 0),
            r11: GeneralRegister(11, 0),
            r12: GeneralRegister(12, 0),
            sp: SPRegister(13, Sp::new(0, 0)),
            lr: LrRegister(14, 0),
            pc: PcRegister(15, 0),
        };
        assert(r@.r =~= Seq::new(13, |i: int| 0u32));
        assert(r@.numbers =~= Seq::new(16, |i: int| i as u16));
        r
    }

    /// The general register of the given index, from R0 to R12.
    pub fn index(&self, index: usize) -> (r: u32)
        requires
            index < 13,
        ensures
            r == self@.r[index as int],
    {
        match index {
            0 => self.r0.1,
            1 => self.r1.1,
            2 => self.r2.1,
            3 => self.r3.1,
            4 => self.r4.1,
            5 => self.r5.1,
            6 => self.r6.1,
            7 => self.r7.1,
            8 => self.r8.1,
            9 => self.r9.1,
            10 => self.r10.1,
            11 => self.r11.1,
            _ => self.r12.1,
        }
    }

    /// The general register of the given index, from R0 to R12, to be
    /// written through the reference.
    pub fn index_mut(&mut self, index: usize) -> (r: &mut u32)
        requires
            index < 13,
        ensures
            *r == old(self)@.r[index as int],
            final(self)@ == (RegisterFile {
                r: old(self)@.r.update(index as int, *final(r)),
                ..old(self)@
            }),
            final(self)@.numbers == old(self)@.numbers,
    {
        let ghost before: Seq<u32> = self@.r;
        let r: &mut u32 = match index {
            0 => &mut self.r0.1,
            1 => &mut self.r1.1,
            2 => &mut self.r2.1,
            3 => &mut self.r3.1,
            4 => &mut self.r4.1,
            5 => &mut self.r5.1,
            6 => &mut self.r6.1,
            7 => &mut self.r7.1,
            8 => &mut self.r8.1,
            9 => &mut self.r9.1,
            10 => &mut self.r10.1,
            11 => &mut self.r11.1,
            _ => &mut self.r12.1,
        };
        assert(after_borrow(self)@.r =~= before.update(index as int, *final(r)));
        r
    }

    /// Reads register `i`.
    pub fn read(&self, i: u16) -> (r: u32)
        requires
            i < 16,
        ensures
            r == self@.read(i as int),
            i == 13 ==> r % 4 == 0,
            i == 15 ==> r % 2 == 0,
    {
        match i {
            0 => self.r0.get(),
            1 => self.r1.get(),
            2 => self.r2.get(),
            3 => self.r3.get(),
            4 => self.r4.get(),
            5 => self.r5.get(),
            6 => self.r6.get(),
            7 => self.r7.get(),
            8 => self.r8.get(),
            9 => self.r9.get(),
            10 => self.r10.get(),
            11 => self.r11.get(),
            12 => self.r12.get(),
            13 => self.sp.get(),
            14 => self.lr.get(),
            _ => self.pc.get(),
        }
    }

    /// Writes register `i`.
    pub fn write(&mut self, i: u16, value: u32)
        requires
            i < 16,
        ensures
            final(self)@ == old(self)@.write(i as int, value),
            final(self)@.numbers == old(self)@.numbers,
            final(self)@.aligned(),
    {
        match i {
            0 => self.r0.set(value),
            1 => self.r1.set(value),
            2 => self.r2.set(value),
            3 => self.r3.set(value),
            4 => self.r4.set(value),
            5 => self.r5.set(value),
            6 => self.r6.set(value),
            7 => self.r7.set(value),
            8 => self.r8.set(value),
            9 => self.r9.set(value),
            10 => self.r10.set(value),
            11 => self.r11.set(value),
            12 => self.r12.set(value),
            13 => self.sp.set(value),
            14 => self.lr.set(value),
            _ => self.pc.set(value),
        }
        assert(self@.r =~= old(self)@.write(i as int, value).r);
        proof {
            use_type_invariant(&self.sp);
            use_type_invariant(&self.pc);
        }
    }
}

} // verus!
