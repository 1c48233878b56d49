//! The decoder, which tells the encoding variants apart, and the executor,
//! which runs one instruction or many.

use super::exception::{bx_write_pc, service, HARD_FAULT, SVCALL, USAGE_FAULT};
use super::executor::list_holds;
use super::laws::{lemma_execute_aligned, lemma_execute_fits, lemma_step_aligned, lemma_step_fits};
use super::operation::{
    condition_passed, decode_imm_shift, rev, rev16, revsh, shift_c, sxtb, sxth, uxtb, uxth, SRType,
};
use super::registers::Register;
use super::semantics::{bl_offset, branch_offset, decode_spec, rearranged, InstructionClass};
use super::state::{CortexM33, CpuState};
use crate::memory::{BusFault, MemoryInterface};
use vstd::prelude::*;

verus! {

/// A halfword fetched from memory, with the address it was fetched from.
#[derive(Debug, Clone, Copy, PartialEq, Eq, Structural)]
pub struct OpCode {
    pub code: u16,
    pub address: u32,
}

impl OpCode {
    /// Fetches the halfword at `address`.
    pub fn from_address<M: MemoryInterface>(cortex: &CortexM33<M>, address: u32) -> (r: Result<
        Self,
        BusFault,
    >)
        ensures
            r == (match cortex@.load_u16(address) {
                Ok(code) => Ok(OpCode { code, address }),
                Err(e) => Err(e),
            }),
    {
        match cortex.read_u16(address) {
            Ok(code) => Ok(Self { address, code }),
            Err(e) => Err(e),
        }
    }

    /// Decodes the halfword together with the one that follows it in memory
    /// and executes the instruction; an encoding that is not recognised
    /// makes UsageFault pending and is stepped over.
    pub fn execute<M: MemoryInterface>(&self, cortex: &mut CortexM33<M>)
        ensures
            final(cortex)@ == self.execute_spec(old(cortex)@),
    {
        let second: u32 = self.address.wrapping_add(2);
        let code2: u16 = match cortex.read_u16(second) {
            Ok(code) => code,
            Err(_) => 0,
        };
        let op_code_2: OpCode = OpCode { code: code2, address: second };
        match Instruction::new(self, &op_code_2) {
            Some(instruction) => instruction.execute(cortex),
            None => {
                cortex.advance();
                cortex.pend(USAGE_FAULT);
            },
        }
    }
}

impl<M: MemoryInterface> CortexM33<M> {
    /// Starts the program whose vector table is at `table`: loads the main
    /// stack pointer from the first word of the table and the program
    /// counter from the second.
    pub fn start(&mut self, table: u32) -> (r: Result<(), BusFault>)
        ensures
            (final(self)@, r) == old(self)@.start(table),
    {
        let stack: u32 = match self.read_u32(table) {
            Ok(word) => word,
            Err(e) => {
                return Err(e);
            },
        };
        let entry: u32 = match self.read_u32(table.wrapping_add(4)) {
            Ok(word) => word,
            Err(e) => {
                return Err(e);
            },
        };
        self.registers.sp.set_msp(stack);
        self.registers.pc.set(entry);
        self.vtor = table;
        assert(self@.regs.r =~= old(self)@.regs.r);
        Ok(())
    }

    /// Executes the instruction at the program counter. Each register
    /// answers to the number it had.
    pub fn execute_instruction(&mut self)
        ensures
            final(self)@ == old(self)@.execute_instruction(),
            final(self)@.regs.numbers == old(self)@.regs.numbers,
    {
        proof {
            lemma_step_aligned(self@);
        }
        let address: u32 = self.registers.pc.get();
        match OpCode::from_address(self, address) {
            Ok(opcode) => opcode.execute(self),
            Err(_) => self.pend(HARD_FAULT),
        }
    }

    /// One step: an instruction, then the exception to take, if any. A
    /// processor that has locked up does nothing. Afterwards bit 0 of the
    /// program counter is clear and both stack pointers are multiples of
    /// four; each register answers to the number it had; and the processor
    /// is in Handler mode exactly when an exception is active, if that held
    /// before.
    pub fn step(&mut self)
        ensures
            final(self)@ == old(self)@.step(),
            final(self)@.regs.aligned(),
            final(self)@.regs.numbers == old(self)@.regs.numbers,
            old(self)@.mode_fits_active() ==> final(self)@.mode_fits_active(),
    {
        proof {
            lemma_step_aligned(self@);
            use_type_invariant(&self.registers.sp);
            use_type_invariant(&self.registers.pc);
            if self@.mode_fits_active() {
                lemma_step_fits(self@);
            }
        }
        if self.lockup {
            return ;
        }
        self.execute_instruction();
        service(self);
        proof {
            use_type_invariant(&self.registers.sp);
            use_type_invariant(&self.registers.pc);
        }
    }
}

/// Why a run ended.
#[derive(Debug, Clone, Copy, PartialEq, Eq, Structural)]
pub enum Stop {
    /// A stop had been requested.
    Requested,
    /// A fault was raised.
    Fault,
    /// The predicate held.
    Predicate,
    /// The number of steps allowed was used up.
    Budget,
}

/// How a run ended, and after how many steps.
#[derive(Debug, Clone, Copy, PartialEq, Eq, Structural)]
pub struct Run {
    pub steps: u64,
    pub stop: Stop,
}

impl<M: MemoryInterface> CortexM33<M> {
    /// Whether a fault has been raised.
    pub fn faulted(&self) -> (r: bool)
        ensures
            r == self@.faulted(),
    {
        self.lockup || self.exceptions.pending.contains(&HARD_FAULT)
            || self.exceptions.active.contains(&HARD_FAULT)
    }

    /// Whether the predicate was asked about a processor in the state given
    /// and did not hold.
    pub open spec fn rejected<F: Fn(&Self) -> bool>(predicate: F, state: CpuState) -> bool {
        exists|cortex: Self| cortex@ == state && call_ensures(predicate, (&cortex,), false)
    }

    /// Steps until a stop has been requested, a fault has been raised, the
    /// predicate holds of the processor, or `max_steps` steps have been
    /// made, whichever comes first; the four are looked at in this order
    /// before each step. No state before the last had a stop requested or a
    /// fault raised, and of each of them the predicate did not hold.
    #[verifier::rlimit(40)]
    pub fn run_until<F: Fn(&Self) -> bool>(&mut self, predicate: F, max_steps: u64) -> (r: Run)
        requires
            forall|cortex: &Self| call_requires(predicate, (cortex,)),
        ensures
            r.steps <= max_steps,
            final(self)@ == old(self)@.steps(r.steps as nat),
            forall|k: nat|
                k < r.steps ==> !(#[trigger] old(self)@.steps(k)).stop_requested && !old(
                    self,
                )@.steps(k).faulted() && Self::rejected(predicate, old(self)@.steps(k)),
            match r.stop {
                Stop::Requested => final(self)@.stop_requested,
                Stop::Fault => !final(self)@.stop_requested && final(self)@.faulted(),
                Stop::Predicate => !final(self)@.stop_requested && !final(self)@.faulted()
                    && call_ensures(predicate, (final(self),), true),
                Stop::Budget => !final(self)@.stop_requested && !final(self)@.faulted()
                    && Self::rejected(predicate, final(self)@) && r.steps == max_steps,
            },
    {
        let mut steps: u64 = 0;
        loop
            invariant
                steps <= max_steps,
                self@ == old(self)@.steps(steps as nat),
                forall|cortex: &Self| call_requires(predicate, (cortex,)),
                forall|k: nat|
                    k < steps ==> !(#[trigger] old(self)@.steps(k)).stop_requested && !old(
                        self,
                    )@.steps(k).faulted() && Self::rejected(predicate, old(self)@.steps(k)),
            decreases max_steps - steps,
        {
            if self.stop_requested {
                return Run { steps, stop: Stop::Requested };
            }
            if self.faulted() {
                return Run { steps, stop: Stop::Fault };
            }
            if predicate(&*self) {
                return Run { steps, stop: Stop::Predicate };
            }
            assert(Self::rejected(predicate, self@)) by {
                assert(self@ == self@ && call_ensures(predicate, (&*self,), false));
            }
            if steps == max_steps {
                return Run { steps, stop: Stop::Budget };
            }
            self.step();
            steps = steps + 1;
        }
    }
}

/// The encoding variants that the decoder tells apart.
#[derive(Debug, Clone, Copy, PartialEq, Eq, Structural)]
pub enum InstructionType {
    /// `ADCS Rdn, Rm`
    AdcT1,
    /// `ADD Rd, SP, #imm8`
    AddSpPlusImmediateT1,
    /// `ADD SP, SP, #imm7`
    AddSpPlusImmediateT2,
    /// `ADDS Rd, Rn, #imm3`
    AddsT1,
    /// `ADDS Rdn, #imm8`
    AddsT2,
    /// `ADDS Rd, Rn, Rm`
    AddRegisterT1,
    /// `ADD Rdn, Rm`
    AddRegisterT2,
    /// `ADR Rd, label`
    AdrT1,
    /// `ANDS Rdn, Rm`
    AndRegisterT1,
    /// `ASRS Rd, Rm, #imm5`
    AsrImmediateT1,
    /// `ASRS Rdn, Rm`
    AsrRegisterT1,
    /// `B<cond> label`
    BT1,
    /// `B label`
    BT2,
    /// `BICS Rdn, Rm`
    BicRegisterT1,
    /// `BKPT #imm8`
    BkptT1,
    /// `BL label`
    BlT1,
    /// `BLX Rm`
    BlxT1,
    /// `BX Rm`
    BxT1,
    /// `CMN Rn, Rm`
    CmnRegisterT1,
    /// `CMP Rn, #imm8`
    CmpImmediateT1,
    /// `CMP Rn, Rm (low registers)`
    CmpRegisterT1,
    /// `CMP Rn, Rm (high registers)`
    CmpRegisterT2,
    /// `CPSID i`
    CpsT1Id,
    /// `CPSIE i`
    CpsT1Ie,
    /// `DMB`
    DmbT1Sy,
    /// `DSB`
    DsbT1Sy,
    /// `EORS Rdn, Rm`
    EorRegisterT1,
    /// `ISB`
    IsbT1Sy,
    /// `LDMIA Rn!, {list}`
    LdmiaT1,
    /// `LDR Rt, [Rn, #imm5]`
    LdrImmediateT1,
    /// `LDR Rt, [SP, #imm8]`
    LdrImmediateT2,
    /// `LDR Rt, label`
    LdrLiteralT1,
    /// `LDR Rt, [Rn, Rm]`
    LdrRegisterT1,
    /// `LDRB Rt, [Rn, #imm5]`
    LdrbImmediateT1,
    /// `LDRB Rt, [Rn, Rm]`
    LdrbRegisterT1,
    /// `LDRH Rt, [Rn, #imm5]`
    LdrhImmediateT1,
    /// `LDRH Rt, [Rn, Rm]`
    LdrhRegisterT1,
    /// `LDRSB Rt, [Rn, Rm]`
    LdrsbRegisterT1,
    /// `LDRSH Rt, [Rn, Rm]`
    LdrshRegisterT1,
    /// `LSLS Rd, Rm, #imm5`
    LslImmediateT1,
    /// `LSLS Rdn, Rm`
    LslRegisterT1,
    /// `LSRS Rd, Rm, #imm5`
    LsrImmediateT1,
    /// `LSRS Rdn, Rm`
    LsrRegisterT1,
    /// `MOV Rd, Rm`
    MovRegisterT1,
    /// `MOVS Rd, #imm8`
    MovImmediateT1,
    /// `MRS Rd, spec_reg`
    MrsT1,
    /// `MSR spec_reg, Rn`
    MsrT1,
    /// `MULS Rdm, Rn, Rdm`
    MulT1,
    /// `MVNS Rd, Rm`
    MvnT1,
    /// `ORRS Rdn, Rm`
    OrrRegisterT1,
    /// `POP {list, PC}`
    PopT1,
    /// `PUSH {list, LR}`
    PushT1,
    /// `REV Rd, Rm`
    RevT1,
    /// `REV16 Rd, Rm`
    Rev16T1,
    /// `REVSH Rd, Rm`
    RevshT1,
    /// `RORS Rdn, Rm`
    RorRegisterT1,
    /// `RSBS Rd, Rn, #0`
    RsbImmediateT1,
    /// `NOP`
    NopT1,
    /// `SBCS Rdn, Rm`
    SbcRegisterT1,
    /// `SEV`
    SevT1,
    /// `STMIA Rn!, {list}`
    StmiaT1,
    /// `STR Rt, [Rn, #imm5]`
    StrImmediateT1,
    /// `STR Rt, [SP, #imm8]`
    StrImmediateT2,
    /// `STR Rt, [Rn, Rm]`
    StrRegisterT1,
    /// `STRB Rt, [Rn, #imm5]`
    StrbImmediateT1,
    /// `STRB Rt, [Rn, Rm]`
    StrbRegisterT1,
    /// `STRH Rt, [Rn, #imm5]`
    StrhImmediateT1,
    /// `STRH Rt, [Rn, Rm]`
    StrhRegisterT1,
    /// `SUB SP, SP, #imm7`
    SubSpMinusImmediateT1,
    /// `SUBS Rd, Rn, #imm3`
    SubT1,
    /// `SUBS Rdn, #imm8`
    SubT2,
    /// `SUBS Rd, Rn, Rm`
    SubRegisterT1,
    /// `SVC #imm8`
    SvcT1,
    /// `SXTB Rd, Rm`
    SxtbT1,
    /// `SXTH Rd, Rm`
    SxthT1,
    /// `TST Rn, Rm`
    TstRegisterT1,
    /// `UDF #imm8`
    UdfT1,
    /// `UDF.W #imm16`
    UdfT2,
    /// `UXTB Rd, Rm`
    UxtbT1,
    /// `UXTH Rd, Rm`
    UxthT1,
    /// `WFE`
    WfeT1,
    /// `WFI`
    WfiT1,
    /// `YIELD`
    YieldT1,
}

impl InstructionType {
    /// Whether the halfword `code`, followed in memory by `code2`, is an
    /// encoding of this variant. A field of a halfword is written as a
    /// quotient and a remainder by powers of two: `code / 0x40` is bits 15:6.
    pub open spec fn matches(self, code: u16, code2: u16) -> bool {
        match self {
            InstructionType::AdcT1 => code / 0x40 == 0b0100_0001_01,
            InstructionType::AddSpPlusImmediateT1 => code / 0x800 == 0b10101,
            InstructionType::AddSpPlusImmediateT2 => code / 0x80 == 0b1011_0000_0,
            InstructionType::AddsT1 => code / 0x200 == 0b0001_110,
            InstructionType::AddsT2 => code / 0x800 == 0b00110,
            InstructionType::AddRegisterT1 => code / 0x200 == 0b0001_100,
            InstructionType::AddRegisterT2 => code / 0x100 == 0b0100_0100,
            InstructionType::AdrT1 => code / 0x800 == 0b10100,
            InstructionType::AndRegisterT1 => code / 0x40 == 0b0100_0000_00,
            InstructionType::AsrImmediateT1 => code / 0x800 == 0b00010,
            InstructionType::AsrRegisterT1 => code / 0x40 == 0b0100_0001_00,
            InstructionType::BT1 => code / 0x1000 == 0b1101 && (code / 0x200) % 8 != 0b111,
            InstructionType::BT2 => code / 0x800 == 0b11100,
            InstructionType::BicRegisterT1 => code / 0x40 == 0b0100_0011_10,
            InstructionType::BkptT1 => code / 0x100 == 0b1011_1110,
            InstructionType::BlT1 => code / 0x800 == 0b11110 && code2 / 0x4000 == 0b11 && (code2
                / 0x1000) % 2 == 1,
            InstructionType::BlxT1 => code / 0x80 == 0b0100_0111_1 && code % 8 == 0,
            InstructionType::BxT1 => code / 0x80 == 0b0100_0111_0 && code % 8 == 0,
            InstructionType::CmnRegisterT1 => code / 0x40 == 0b0100_0010_11,
            InstructionType::CmpImmediateT1 => code / 0x800 == 0b00101,
            InstructionType::CmpRegisterT1 => code / 0x40 == 0b0100_0010_10,
            InstructionType::CmpRegisterT2 => code / 0x100 == 0b0100_0101,
            InstructionType::CpsT1Id => code == 0xb672,
            InstructionType::CpsT1Ie => code == 0xb662,
            InstructionType::DmbT1Sy => code == 0xf3bf && code2 / 0x10 == 0x8f5,
            InstructionType::DsbT1Sy => code == 0xf3bf && code2 / 0x10 == 0x8f4,
            InstructionType::EorRegisterT1 => code / 0x40 == 0b0100_0000_01,
            InstructionType::IsbT1Sy => code == 0xf3bf && code2 / 0x10 == 0x8f6,
            InstructionType::LdmiaT1 => code / 0x800 == 0b11001,
            InstructionType::LdrImmediateT1 => code / 0x800 == 0b01101,
            InstructionType::LdrImmediateT2 => code / 0x800 == 0b10011,
            InstructionType::LdrLiteralT1 => code / 0x800 == 0b01001,
            InstructionType::LdrRegisterT1 => code / 0x200 == 0b0101_100,
            InstructionType::LdrbImmediateT1 => code / 0x800 == 0b01111,
            InstructionType::LdrbRegisterT1 => code / 0x200 == 0b0101_110,
            InstructionType::LdrhImmediateT1 => code / 0x800 == 0b10001,
            InstructionType::LdrhRegisterT1 => code / 0x200 == 0b0101_101,
            InstructionType::LdrsbRegisterT1 => code / 0x200 == 0b0101_011,
            InstructionType::LdrshRegisterT1 => code / 0x200 == 0b0101_111,
            InstructionType::LslImmediateT1 => code / 0x800 == 0b00000,
            InstructionType::LslRegisterT1 => code / 0x40 == 0b0100_0000_10,
            InstructionType::LsrImmediateT1 => code / 0x800 == 0b00001,
            InstructionType::LsrRegisterT1 => code / 0x40 == 0b0100_0000_11,
            InstructionType::MovRegisterT1 => code / 0x100 == 0b0100_0110,
            InstructionType::MovImmediateT1 => code / 0x800 == 0b00100,
            InstructionType::MrsT1 => code == 0xf3ef && code2 / 0x1000 == 0b1000,
            InstructionType::MsrT1 => code / 0x10 == 0xf38 && code2 / 0x100 == 0x88,
            InstructionType::MulT1 => code / 0x40 == 0b0100_0011_01,
            InstructionType::MvnT1 => code / 0x40 == 0b0100_0011_11,
            InstructionType::OrrRegisterT1 => code / 0x40 == 0b0100_0011_00,
            InstructionType::PopT1 => code / 0x200 == 0b1011_110,
            InstructionType::PushT1 => code / 0x200 == 0b1011_010,
            InstructionType::RevT1 => code / 0x40 == 0b1011_1010_00,
            InstructionType::Rev16T1 => code / 0x40 == 0b1011_1010_01,
            InstructionType::RevshT1 => code / 0x40 == 0b1011_1010_11,
            InstructionType::RorRegisterT1 => code / 0x40 == 0b0100_0001_11,
            InstructionType::RsbImmediateT1 => code / 0x40 == 0b0100_0010_01,
            InstructionType::NopT1 => code == 0xbf00,
            InstructionType::SbcRegisterT1 => code / 0x40 == 0b0100_0001_10,
            InstructionType::SevT1 => code == 0xbf40,
            InstructionType::StmiaT1 => code / 0x800 == 0b11000,
            InstructionType::StrImmediateT1 => code / 0x800 == 0b01100,
            InstructionType::StrImmediateT2 => code / 0x800 == 0b10010,
            InstructionType::StrRegisterT1 => code / 0x200 == 0b0101_000,
            InstructionType::StrbImmediateT1 => code / 0x800 == 0b01110,
            InstructionType::StrbRegisterT1 => code / 0x200 == 0b0101_010,
            InstructionType::StrhImmediateT1 => code / 0x800 == 0b10000,
            InstructionType::StrhRegisterT1 => code / 0x200 == 0b0101_001,
            InstructionType::SubSpMinusImmediateT1 => code / 0x80 == 0b1011_0000_1,
            InstructionType::SubT1 => code / 0x200 == 0b0001_111,
            InstructionType::SubT2 => code / 0x800 == 0b00111,
            InstructionType::SubRegisterT1 => code / 0x200 == 0b0001_101,
            InstructionType::SvcT1 => code / 0x100 == 0b1101_1111,
            InstructionType::SxtbT1 => code / 0x40 == 0b1011_0010_01,
            InstructionType::SxthT1 => code / 0x40 == 0b1011_0010_00,
            InstructionType::TstRegisterT1 => code / 0x40 == 0b0100_0010_00,
            InstructionType::UdfT1 => code / 0x100 == 0b1101_1110,
            InstructionType::UdfT2 => code / 0x10 == 0xf7f && code2 / 0x1000 == 0b1010,
            InstructionType::UxtbT1 => code / 0x40 == 0b1011_0010_11,
            InstructionType::UxthT1 => code / 0x40 == 0b1011_0010_10,
            InstructionType::WfeT1 => code == 0xbf20,
            InstructionType::WfiT1 => code == 0xbf30,
            InstructionType::YieldT1 => code == 0xbf10,
        }
    }

    /// The encodings of two halfwords.
    pub open spec fn is_wide(self) -> bool {
        match self {
            InstructionType::BlT1
            | InstructionType::DmbT1Sy
            | InstructionType::DsbT1Sy
            | InstructionType::IsbT1Sy
            | InstructionType::MrsT1
            | InstructionType::MsrT1
            | InstructionType::UdfT2 => true,
            _ => false,
        }
    }

    /// Whether the variant is encoded in two halfwords.
    pub fn wide(self) -> (r: bool)
        ensures
            r == self.is_wide(),
    {
        match self {
            InstructionType::BlT1
            | InstructionType::DmbT1Sy
            | InstructionType::DsbT1Sy
            | InstructionType::IsbT1Sy
            | InstructionType::MrsT1
            | InstructionType::MsrT1
            | InstructionType::UdfT2 => true,
            _ => false,
        }
    }

    /// Classifies a halfword and the one that follows it. No two variants
    /// match the same pair, so the result is the one variant that matches,
    /// and `None` exactly when none does.
    pub fn decode(code: u16, code2: u16) -> (r: Option<InstructionType>)
        ensures
            match r {
                Some(t) => t.matches(code, code2),
                None => true,
            },
            forall|t: InstructionType| #[trigger] t.matches(code, code2) ==> r == Some(t),
            r == decode_spec(code, code2),
    {
        Self::classify(code, code2)
    }

    fn classify(code: u16, code2: u16) -> (r: Option<InstructionType>)
        ensures
            match r {
                Some(t) => t.matches(code, code2),
                None => true,
            },
            forall|t: InstructionType| #[trigger] t.matches(code, code2) ==> r == Some(t),
    {
        if code / 0x40 == 0b0100_0001_01 {
            Some(InstructionType::AdcT1)
        } else if code / 0x800 == 0b10101 {
            Some(InstructionType::AddSpPlusImmediateT1)
        } else if code / 0x80 == 0b1011_0000_0 {
            Some(InstructionType::AddSpPlusImmediateT2)
        } else if code / 0x200 == 0b0001_110 {
            Some(InstructionType::AddsT1)
        } else if code / 0x800 == 0b00110 {
            Some(InstructionType::AddsT2)
        } else if code / 0x200 == 0b0001_100 {
            Some(InstructionType::AddRegisterT1)
        } else if code / 0x100 == 0b0100_0100 {
            Some(InstructionType::AddRegisterT2)
        } else if code / 0x800 == 0b10100 {
            Some(InstructionType::AdrT1)
        } else if code / 0x40 == 0b0100_0000_00 {
            Some(InstructionType::AndRegisterT1)
        } else if code / 0x800 == 0b00010 {
            Some(InstructionType::AsrImmediateT1)
        } else if code / 0x40 == 0b0100_0001_00 {
            Some(InstructionType::AsrRegisterT1)
        } else if code / 0x1000 == 0b1101 && (code / 0x200) % 8 != 0b111 {
            Some(InstructionType::BT1)
        } else if code / 0x800 == 0b11100 {
            Some(InstructionType::BT2)
        } else if code / 0x40 == 0b0100_0011_10 {
            Some(InstructionType::BicRegisterT1)
        } else if code / 0x100 == 0b1011_1110 {
            Some(InstructionType::BkptT1)
        } else if code / 0x800 == 0b11110 && code2 / 0x4000 == 0b11 && (code2 / 0x1000) % 2 == 1 {
            Some(InstructionType::BlT1)
        } else if code / 0x80 == 0b0100_0111_1 && code % 8 == 0 {
            Some(InstructionType::BlxT1)
        } else if code / 0x80 == 0b0100_0111_0 && code % 8 == 0 {
            Some(InstructionType::BxT1)
        } else if code / 0x40 == 0b0100_0010_11 {
            Some(InstructionType::CmnRegisterT1)
        } else if code / 0x800 == 0b00101 {
            Some(InstructionType::CmpImmediateT1)
        } else if code / 0x40 == 0b0100_0010_10 {
            Some(InstructionType::CmpRegisterT1)
        } else if code / 0x100 == 0b0100_0101 {
            Some(InstructionType::CmpRegisterT2)
        } else if code == 0xb672 {
            Some(InstructionType::CpsT1Id)
        } else if code == 0xb662 {
            Some(InstructionType::CpsT1Ie)
        } else if code == 0xf3bf && code2 / 0x10 == 0x8f5 {
            Some(InstructionType::DmbT1Sy)
        } else if code == 0xf3bf && code2 / 0x10 == 0x8f4 {
            Some(InstructionType::DsbT1Sy)
        } else if code / 0x40 == 0b0100_0000_01 {
            Some(InstructionType::EorRegisterT1)
        } else if code == 0xf3bf && code2 / 0x10 == 0x8f6 {
            Some(InstructionType::IsbT1Sy)
        } else if code / 0x800 == 0b11001 {
            Some(InstructionType::LdmiaT1)
        } else if code / 0x800 == 0b01101 {
            Some(InstructionType::LdrImmediateT1)
        } else if code / 0x800 == 0b10011 {
            Some(InstructionType::LdrImmediateT2)
        } else if code / 0x800 == 0b01001 {
            Some(InstructionType::LdrLiteralT1)
        } else if code / 0x200 == 0b0101_100 {
            Some(InstructionType::LdrRegisterT1)
        } else if code / 0x800 == 0b01111 {
            Some(InstructionType::LdrbImmediateT1)
        } else if code / 0x200 == 0b0101_110 {
            Some(InstructionType::LdrbRegisterT1)
        } else if code / 0x800 == 0b10001 {
            Some(InstructionType::LdrhImmediateT1)
        } else if code / 0x200 == 0b0101_101 {
            Some(InstructionType::LdrhRegisterT1)
        } else if code / 0x200 == 0b0101_011 {
            Some(InstructionType::LdrsbRegisterT1)
        } else if code / 0x200 == 0b0101_111 {
            Some(InstructionType::LdrshRegisterT1)
        } else if code / 0x800 == 0b00000 {
            Some(InstructionType::LslImmediateT1)
        } else if code / 0x40 == 0b0100_0000_10 {
            Some(InstructionType::LslRegisterT1)
        } else if code / 0x800 == 0b00001 {
            Some(InstructionType::LsrImmediateT1)
        } else if code / 0x40 == 0b0100_0000_11 {
            Some(InstructionType::LsrRegisterT1)
        } else if code / 0x100 == 0b0100_0110 {
            Some(InstructionType::MovRegisterT1)
        } else if code / 0x800 == 0b00100 {
            Some(InstructionType::MovImmediateT1)
        } else if code == 0xf3ef && code2 / 0x1000 == 0b1000 {
            Some(InstructionType::MrsT1)
        } else if code / 0x10 == 0xf38 && code2 / 0x100 == 0x88 {
            Some(InstructionType::MsrT1)
        } else if code / 0x40 == 0b0100_0011_01 {
            Some(InstructionType::MulT1)
        } else if code / 0x40 == 0b0100_0011_11 {
            Some(InstructionType::MvnT1)
        } else if code / 0x40 == 0b0100_0011_00 {
            Some(InstructionType::OrrRegisterT1)
        } else if code / 0x200 == 0b1011_110 {
            Some(InstructionType::PopT1)
        } else if code / 0x200 == 0b1011_010 {
            Some(InstructionType::PushT1)
        } else if code / 0x40 == 0b1011_1010_00 {
            Some(InstructionType::RevT1)
        } else if code / 0x40 == 0b1011_1010_01 {
            Some(InstructionType::Rev16T1)
        } else if code / 0x40 == 0b1011_1010_11 {
            Some(InstructionType::RevshT1)
        } else if code / 0x40 == 0b0100_0001_11 {
            Some(InstructionType::RorRegisterT1)
        } else if code / 0x40 == 0b0100_0010_01 {
            Some(InstructionType::RsbImmediateT1)
        } else if code == 0xbf00 {
            Some(InstructionType::NopT1)
        } else if code / 0x40 == 0b0100_0001_10 {
            Some(InstructionType::SbcRegisterT1)
        } else if code == 0xbf40 {
            Some(InstructionType::SevT1)
        } else if code / 0x800 == 0b11000 {
            Some(InstructionType::StmiaT1)
        } else if code / 0x800 == 0b01100 {
            Some(InstructionType::StrImmediateT1)
        } else if code / 0x800 == 0b10010 {
            Some(InstructionType::StrImmediateT2)
        } else if code / 0x200 == 0b0101_000 {
            Some(InstructionType::StrRegisterT1)
        } else if code / 0x800 == 0b01110 {
            Some(InstructionType::StrbImmediateT1)
        } else if code / 0x200 == 0b0101_010 {
            Some(InstructionType::StrbRegisterT1)
        } else if code / 0x800 == 0b10000 {
            Some(InstructionType::StrhImmediateT1)
        } else if code / 0x200 == 0b0101_001 {
            Some(InstructionType::StrhRegisterT1)
        } else if code / 0x80 == 0b1011_0000_1 {
            Some(InstructionType::SubSpMinusImmediateT1)
        } else if code / 0x200 == 0b0001_111 {
            Some(InstructionType::SubT1)
        } else if code / 0x800 == 0b00111 {
            Some(InstructionType::SubT2)
        } else if code / 0x200 == 0b0001_101 {
            Some(InstructionType::SubRegisterT1)
        } else if code / 0x100 == 0b1101_1111 {
            Some(InstructionType::SvcT1)
        } else if code / 0x40 == 0b1011_0010_01 {
            Some(InstructionType::SxtbT1)
        } else if code / 0x40 == 0b1011_0010_00 {
            Some(InstructionType::SxthT1)
        } else if code / 0x40 == 0b0100_0010_00 {
            Some(InstructionType::TstRegisterT1)
        } else if code / 0x100 == 0b1101_1110 {
            Some(InstructionType::UdfT1)
        } else if code / 0x10 == 0xf7f && code2 / 0x1000 == 0b1010 {
            Some(InstructionType::UdfT2)
        } else if code / 0x40 == 0b1011_0010_11 {
            Some(InstructionType::UxtbT1)
        } else if code / 0x40 == 0b1011_0010_10 {
            Some(InstructionType::UxthT1)
        } else if code == 0xbf20 {
            Some(InstructionType::WfeT1)
        } else if code == 0xbf30 {
            Some(InstructionType::WfiT1)
        } else if code == 0xbf10 {
            Some(InstructionType::YieldT1)
        } else {
            None
        }
    }
}

/// A decoded instruction: the halfword at the program counter, the halfword
/// after it, and the variant they encode.
#[derive(Debug, Clone, Copy, PartialEq, Eq, Structural)]
pub struct Instruction {
    pub opcode: OpCode,
    pub opcode_2: OpCode,
    pub instruction: InstructionType,
}

impl Instruction {
    /// Decodes `opcode`; `opcode_2` is the halfword that follows it and is
    /// looked at only for the encodings of two halfwords. `None` stands for
    /// an encoding that the decoder does not recognise.
    pub fn new(opcode: &OpCode, opcode_2: &OpCode) -> (r: Option<Self>)
        ensures
            match r {
                Some(i) => i.opcode == *opcode && i.opcode_2 == *opcode_2 && i.instruction.matches(
                    opcode.code,
                    opcode_2.code,
                ),
                None => forall|t: InstructionType|
                    !#[trigger] t.matches(opcode.code, opcode_2.code),
            },
            forall|t: InstructionType| #[trigger]
                t.matches(opcode.code, opcode_2.code) ==> r == Some(
                    Instruction { opcode: *opcode, opcode_2: *opcode_2, instruction: t },
                ),
            r == (match decode_spec(opcode.code, opcode_2.code) {
                Some(instruction) => Some(
                    Instruction { opcode: *opcode, opcode_2: *opcode_2, instruction },
                ),
                None => None,
            }),
    {
        match InstructionType::decode(opcode.code, opcode_2.code) {
            Some(instruction) => Some(
                Instruction { opcode: *opcode, opcode_2: *opcode_2, instruction },
            ),
            None => None,
        }
    }
}

/// What the instructions that reverse bytes or extend a byte or a halfword
/// make of a word.
pub fn rearrange(instruction: InstructionType, value: u32) -> (r: u32)
    ensures
        r == rearranged(instruction, value),
{
    match instruction {
        InstructionType::RevT1 => rev(value),
        InstructionType::Rev16T1 => rev16(value),
        InstructionType::RevshT1 => revsh(value),
        InstructionType::SxtbT1 => sxtb(value),
        InstructionType::SxthT1 => sxth(value),
        InstructionType::UxtbT1 => uxtb(value),
        _ => uxth(value),
    }
}

/// The offset of a conditional branch from its eight-bit immediate.
pub fn branch_offset_8(imm8: u16) -> (r: u32)
    requires
        imm8 < 0x100,
    ensures
        r == branch_offset(imm8 as int, 8),
{
    if imm8 >= 0x80 {
        imm8 as u32 * 2 + 0xffff_fe00
    } else {
        imm8 as u32 * 2
    }
}

/// The offset of an unconditional branch from its eleven-bit immediate.
pub fn branch_offset_11(imm11: u16) -> (r: u32)
    requires
        imm11 < 0x800,
    ensures
        r == branch_offset(imm11 as int, 11),
{
    if imm11 >= 0x400 {
        imm11 as u32 * 2 + 0xffff_f000
    } else {
        imm11 as u32 * 2
    }
}

/// The offset of BL from its two halfwords.
pub fn bl_branch_offset(code: u16, code2: u16) -> (r: u32)
    ensures
        r == bl_offset(code, code2),
{
    let imm10: u32 = (code % 0x400) as u32;
    let s: u32 = ((code / 0x400) % 2) as u32;
    let imm11: u32 = (code2 % 0x800) as u32;
    let j2: u32 = ((code2 / 0x800) % 2) as u32;
    let j1: u32 = ((code2 / 0x2000) % 2) as u32;
    let i1: u32 = if j1 == s {
        1
    } else {
        0
    };
    let i2: u32 = if j2 == s {
        1
    } else {
        0
    };
    s * 0xff00_0000 + i1 * 0x80_0000 + i2 * 0x40_0000 + imm10 * 0x1000 + imm11 * 2
}

impl Instruction {
    fn read_arithmetic_operands<M: MemoryInterface>(&self, cortex_m33: &CortexM33<M>) -> (r: (
        u32,
        u32,
        bool,
    ))
        ensures
            r == self.arithmetic_operands(cortex_m33@),
    {
        let code: u16 = self.opcode.code;
        let carry: bool = cortex_m33.xpsr.apsr.c();
        let rd0: u16 = code % 8;
        let rm3: u16 = (code / 8) % 8;
        let rm6: u16 = (code / 0x40) % 8;
        let rd8: u16 = (code / 0x100) % 8;
        let rm4: u16 = (code / 8) % 16;
        let rdn4: u16 = ((code / 0x80) % 2) * 8 + code % 8;
        let imm8: u16 = code % 0x100;
        match self.instruction {
            InstructionType::AdcT1 => (
                cortex_m33.read_register(rd0),
                cortex_m33.read_register(rm3),
                carry,
            ),
            InstructionType::AddsT1 => (cortex_m33.read_register(rm3), rm6 as u32, false),
            InstructionType::AddsT2 => (cortex_m33.read_register(rd8), imm8 as u32, false),
            InstructionType::AddRegisterT1 => (
                cortex_m33.read_register(rm3),
                cortex_m33.read_register(rm6),
                false,
            ),
            InstructionType::CmnRegisterT1 => (
                cortex_m33.read_register(rd0),
                cortex_m33.read_register(rm3),
                false,
            ),
            InstructionType::CmpImmediateT1 => (
                cortex_m33.read_register(rd8),
                !(imm8 as u32),
                true,
            ),
            InstructionType::CmpRegisterT1 => (
                cortex_m33.read_register(rd0),
                !cortex_m33.read_register(rm3),
                true,
            ),
            InstructionType::CmpRegisterT2 => (
                cortex_m33.operand(rdn4),
                !cortex_m33.operand(rm4),
                true,
            ),
            InstructionType::RsbImmediateT1 => (!cortex_m33.read_register(rm3), 0, true),
            InstructionType::SbcRegisterT1 => (
                cortex_m33.read_register(rd0),
                !cortex_m33.read_register(rm3),
                carry,
            ),
            InstructionType::SubT1 => (cortex_m33.read_register(rm3), !(rm6 as u32), true),
            InstructionType::SubT2 => (cortex_m33.read_register(rd8), !(imm8 as u32), true),
            _ => (cortex_m33.read_register(rm3), !cortex_m33.read_register(rm6), true),
        }
    }

    fn execute_arithmetic<M: MemoryInterface>(&self, cortex_m33: &mut CortexM33<M>)
        ensures
            final(cortex_m33)@ == self.arithmetic_spec(old(cortex_m33)@),
    {
        proof {
            reveal(Instruction::arithmetic_spec);
        }
        let code: u16 = self.opcode.code;
        let (x, y, carry) = self.read_arithmetic_operands(cortex_m33);
        match self.instruction {
            InstructionType::CmnRegisterT1
            | InstructionType::CmpImmediateT1
            | InstructionType::CmpRegisterT1
            | InstructionType::CmpRegisterT2 => cortex_m33.compare(x, y, carry),
            InstructionType::AddsT2 | InstructionType::SubT2 => cortex_m33.add_to(
                (code / 0x100) % 8,
                x,
                y,
                carry,
            ),
            _ => cortex_m33.add_to(code % 8, x, y, carry),
        }
    }

    fn execute_logical<M: MemoryInterface>(&self, cortex_m33: &mut CortexM33<M>)
        ensures
            final(cortex_m33)@ == self.logical_spec(old(cortex_m33)@),
    {
        proof {
            reveal(Instruction::logical_spec);
        }
        let code: u16 = self.opcode.code;
        let carry: bool = cortex_m33.xpsr.apsr.c();
        let rd0: u16 = code % 8;
        let rm3: u16 = (code / 8) % 8;
        let rd8: u16 = (code / 0x100) % 8;
        let imm8: u16 = code % 0x100;
        match self.instruction {
            InstructionType::AndRegisterT1 => {
                let x: u32 = cortex_m33.read_register(rd0);
                let y: u32 = cortex_m33.read_register(rm3);
                cortex_m33.move_to(rd0, (x & y, carry));
            },
            InstructionType::BicRegisterT1 => {
                let x: u32 = cortex_m33.read_register(rd0);
                let y: u32 = cortex_m33.read_register(rm3);
                cortex_m33.move_to(rd0, (x & !y, carry));
            },
            InstructionType::EorRegisterT1 => {
                let x: u32 = cortex_m33.read_register(rd0);
                let y: u32 = cortex_m33.read_register(rm3);
                cortex_m33.move_to(rd0, (x ^ y, carry));
            },
            InstructionType::MovImmediateT1 => {
                cortex_m33.move_to(rd8, (imm8 as u32, carry));
            },
            InstructionType::MulT1 => {
                let x: u32 = cortex_m33.read_register(rm3);
                let y: u32 = cortex_m33.read_register(rd0);
                let product: u32 = x.wrapping_mul(y);
                cortex_m33.write_register(rd0, product);
                cortex_m33.set_nz(product);
            },
            InstructionType::MvnT1 => {
                let y: u32 = cortex_m33.read_register(rm3);
                cortex_m33.move_to(rd0, (!y, carry));
            },
            InstructionType::OrrRegisterT1 => {
                let x: u32 = cortex_m33.read_register(rd0);
                let y: u32 = cortex_m33.read_register(rm3);
                cortex_m33.move_to(rd0, (x | y, carry));
            },
            InstructionType::TstRegisterT1 => {
                let x: u32 = cortex_m33.read_register(rd0);
                let y: u32 = cortex_m33.read_register(rm3);
                cortex_m33.set_nzc(x & y, carry);
            },
            _ => {},
        }
    }

    fn execute_shift<M: MemoryInterface>(&self, cortex_m33: &mut CortexM33<M>)
        ensures
            final(cortex_m33)@ == self.shift_spec(old(cortex_m33)@),
    {
        proof {
            reveal(Instruction::shift_spec);
        }
        let code: u16 = self.opcode.code;
        let carry: bool = cortex_m33.xpsr.apsr.c();
        let rd0: u16 = code % 8;
        let rm3: u16 = (code / 8) % 8;
        let imm5: u16 = (code / 0x40) % 32;
        match self.instruction {
            InstructionType::AsrImmediateT1 => {
                let (_, shift_n) = decode_imm_shift(2, imm5);
                let x: u32 = cortex_m33.read_register(rm3);
                cortex_m33.move_to(rd0, shift_c(x, SRType::Asr, shift_n, carry));
            },
            InstructionType::AsrRegisterT1 => {
                let x: u32 = cortex_m33.read_register(rd0);
                let shift_n: u16 = (cortex_m33.read_register(rm3) % 0x100) as u16;
                cortex_m33.move_to(rd0, shift_c(x, SRType::Asr, shift_n, carry));
            },
            InstructionType::LslImmediateT1 => {
                let (_, shift_n) = decode_imm_shift(0, imm5);
                let x: u32 = cortex_m33.read_register(rm3);
                cortex_m33.move_to(rd0, shift_c(x, SRType::Lsl, shift_n, carry));
            },
            InstructionType::LslRegisterT1 => {
                let x: u32 = cortex_m33.read_register(rd0);
                let shift_n: u16 = (cortex_m33.read_register(rm3) % 0x100) as u16;
                cortex_m33.move_to(rd0, shift_c(x, SRType::Lsl, shift_n, carry));
            },
            InstructionType::LsrImmediateT1 => {
                let (_, shift_n) = decode_imm_shift(1, imm5);
                let x: u32 = cortex_m33.read_register(rm3);
                cortex_m33.move_to(rd0, shift_c(x, SRType::Lsr, shift_n, carry));
            },
            InstructionType::LsrRegisterT1 => {
                let x: u32 = cortex_m33.read_register(rd0);
                let shift_n: u16 = (cortex_m33.read_register(rm3) % 0x100) as u16;
                cortex_m33.move_to(rd0, shift_c(x, SRType::Lsr, shift_n, carry));
            },
            InstructionType::RorRegisterT1 => {
                let x: u32 = cortex_m33.read_register(rd0);
                let shift_n: u16 = (cortex_m33.read_register(rm3) % 0x100) as u16;
                cortex_m33.move_to(rd0, shift_c(x, SRType::Ror, shift_n, carry));
            },
            _ => {},
        }
    }

    fn execute_data<M: MemoryInterface>(&self, cortex_m33: &mut CortexM33<M>)
        ensures
            final(cortex_m33)@ == self.data_spec(old(cortex_m33)@),
    {
        proof {
            reveal(Instruction::data_spec);
        }
        let code: u16 = self.opcode.code;
        let rd0: u16 = code % 8;
        let rm3: u16 = (code / 8) % 8;
        let rd8: u16 = (code / 0x100) % 8;
        let rm4: u16 = (code / 8) % 16;
        let rdn4: u16 = ((code / 0x80) % 2) * 8 + code % 8;
        let imm8: u16 = code % 0x100;
        match self.instruction {
            InstructionType::AddSpPlusImmediateT1 => {
                let sp: u32 = cortex_m33.registers.sp.get();
                cortex_m33.write_register(rd8, sp.wrapping_add(imm8 as u32 * 4));
            },
            InstructionType::AddSpPlusImmediateT2 => {
                let sp: u32 = cortex_m33.registers.sp.get();
                cortex_m33.write_register(13, sp.wrapping_add((code % 0x80) as u32 * 4));
            },
            InstructionType::AddRegisterT2 => {
                let x: u32 = cortex_m33.operand(rdn4);
                let y: u32 = cortex_m33.operand(rm4);
                cortex_m33.write_register(rdn4, x.wrapping_add(y));
            },
            InstructionType::AdrT1 => {
                let address: u32 = cortex_m33.literal_address(imm8);
                cortex_m33.write_register(rd8, address);
            },
            InstructionType::MovRegisterT1 => {
                let value: u32 = cortex_m33.operand(rm4);
                cortex_m33.write_register(rdn4, value);
            },
            InstructionType::SubSpMinusImmediateT1 => {
                let sp: u32 = cortex_m33.registers.sp.get();
                cortex_m33.write_register(13, sp.wrapping_sub((code % 0x80) as u32 * 4));
            },
            InstructionType::RevT1
            | InstructionType::Rev16T1
            | InstructionType::RevshT1
            | InstructionType::SxtbT1
            | InstructionType::SxthT1
            | InstructionType::UxtbT1
            | InstructionType::UxthT1 => {
                let value: u32 = cortex_m33.read_register(rm3);
                cortex_m33.write_register(rd0, rearrange(self.instruction, value));
            },
            _ => {},
        }
    }

    fn execute_branch<M: MemoryInterface>(&self, cortex_m33: &mut CortexM33<M>)
        ensures
            final(cortex_m33)@ == self.branch_spec(old(cortex_m33)@),
    {
        proof {
            reveal(Instruction::branch_spec);
        }
        let code: u16 = self.opcode.code;
        let code2: u16 = self.opcode_2.code;
        let rm4: u16 = (code / 8) % 16;
        let imm8: u16 = code % 0x100;
        match self.instruction {
            InstructionType::BT1 => {
                if condition_passed(&cortex_m33.xpsr.apsr, (code / 0x100) % 16) {
                    cortex_m33.branch_by(branch_offset_8(imm8));
                }
            },
            InstructionType::BT2 => {
                cortex_m33.branch_by(branch_offset_11(code % 0x800));
            },
            InstructionType::BlT1 => {
                cortex_m33.branch_link(bl_branch_offset(code, code2));
            },
            InstructionType::BlxT1 => {
                let target: u32 = cortex_m33.operand(rm4);
                cortex_m33.branch_link_exchange(target);
            },
            InstructionType::BxT1 => {
                let target: u32 = cortex_m33.operand(rm4);
                bx_write_pc(cortex_m33, target, USAGE_FAULT);
            },
            _ => {},
        }
    }

    fn execute_load<M: MemoryInterface>(&self, cortex_m33: &mut CortexM33<M>)
        ensures
            final(cortex_m33)@ == self.load_spec(old(cortex_m33)@),
    {
        proof {
            reveal(Instruction::load_spec);
        }
        let code: u16 = self.opcode.code;
        let rd0: u16 = code % 8;
        let rm3: u16 = (code / 8) % 8;
        let rm6: u16 = (code / 0x40) % 8;
        let rd8: u16 = (code / 0x100) % 8;
        let imm5: u16 = (code / 0x40) % 32;
        let imm8: u16 = code % 0x100;
        match self.instruction {
            InstructionType::LdrImmediateT1 => {
                let base: u32 = cortex_m33.read_register(rm3);
                cortex_m33.load_word_to(rd0, base.wrapping_add(imm5 as u32 * 4));
            },
            InstructionType::LdrImmediateT2 => {
                let base: u32 = cortex_m33.registers.sp.get();
                cortex_m33.load_word_to(rd8, base.wrapping_add(imm8 as u32 * 4));
            },
            InstructionType::LdrLiteralT1 => {
                let address: u32 = cortex_m33.literal_address(imm8);
                cortex_m33.load_word_to(rd8, address);
            },
            InstructionType::LdrRegisterT1 => {
                let base: u32 = cortex_m33.read_register(rm3);
                let offset: u32 = cortex_m33.read_register(rm6);
                cortex_m33.load_word_to(rd0, base.wrapping_add(offset));
            },
            InstructionType::LdrbImmediateT1 => {
                let base: u32 = cortex_m33.read_register(rm3);
                cortex_m33.load_byte_to(rd0, base.wrapping_add(imm5 as u32), false);
            },
            InstructionType::LdrbRegisterT1 => {
                let base: u32 = cortex_m33.read_register(rm3);
                let offset: u32 = cortex_m33.read_register(rm6);
                cortex_m33.load_byte_to(rd0, base.wrapping_add(offset), false);
            },
            InstructionType::LdrhImmediateT1 => {
                let base: u32 = cortex_m33.read_register(rm3);
                cortex_m33.load_half_to(rd0, base.wrapping_add(imm5 as u32 * 2), false);
            },
            InstructionType::LdrhRegisterT1 => {
                let base: u32 = cortex_m33.read_register(rm3);
                let offset: u32 = cortex_m33.read_register(rm6);
                cortex_m33.load_half_to(rd0, base.wrapping_add(offset), false);
            },
            InstructionType::LdrsbRegisterT1 => {
                let base: u32 = cortex_m33.read_register(rm3);
                let offset: u32 = cortex_m33.read_register(rm6);
                cortex_m33.load_byte_to(rd0, base.wrapping_add(offset), true);
            },
            InstructionType::LdrshRegisterT1 => {
                let base: u32 = cortex_m33.read_register(rm3);
                let offset: u32 = cortex_m33.read_register(rm6);
                cortex_m33.load_half_to(rd0, base.wrapping_add(offset), true);
            },
            _ => {},
        }
    }

    fn execute_store<M: MemoryInterface>(&self, cortex_m33: &mut CortexM33<M>)
        ensures
            final(cortex_m33)@ == self.store_spec(old(cortex_m33)@),
    {
        proof {
            reveal(Instruction::store_spec);
        }
        let code: u16 = self.opcode.code;
        let rd0: u16 = code % 8;
        let rm3: u16 = (code / 8) % 8;
        let rm6: u16 = (code / 0x40) % 8;
        let rd8: u16 = (code / 0x100) % 8;
        let imm5: u16 = (code / 0x40) % 32;
        let imm8: u16 = code % 0x100;
        match self.instruction {
            InstructionType::StrImmediateT1 => {
                let base: u32 = cortex_m33.read_register(rm3);
                let value: u32 = cortex_m33.read_register(rd0);
                cortex_m33.store_word(base.wrapping_add(imm5 as u32 * 4), value);
            },
            InstructionType::StrImmediateT2 => {
                let base: u32 = cortex_m33.registers.sp.get();
                let value: u32 = cortex_m33.read_register(rd8);
                cortex_m33.store_word(base.wrapping_add(imm8 as u32 * 4), value);
            },
            InstructionType::StrRegisterT1 => {
                let base: u32 = cortex_m33.read_register(rm3);
                let offset: u32 = cortex_m33.read_register(rm6);
                let value: u32 = cortex_m33.read_register(rd0);
                cortex_m33.store_word(base.wrapping_add(offset), value);
            },
            InstructionType::StrbImmediateT1 => {
                let base: u32 = cortex_m33.read_register(rm3);
                let value: u32 = cortex_m33.read_register(rd0);
                cortex_m33.store_byte(base.wrapping_add(imm5 as u32), value);
            },
            InstructionType::StrbRegisterT1 => {
                let base: u32 = cortex_m33.read_register(rm3);
                let offset: u32 = cortex_m33.read_register(rm6);
                let value: u32 = cortex_m33.read_register(rd0);
                cortex_m33.store_byte(base.wrapping_add(offset), value);
            },
            InstructionType::StrhImmediateT1 => {
                let base: u32 = cortex_m33.read_register(rm3);
                let value: u32 = cortex_m33.read_register(rd0);
                cortex_m33.store_half(base.wrapping_add(imm5 as u32 * 2), value);
            },
            InstructionType::StrhRegisterT1 => {
                let base: u32 = cortex_m33.read_register(rm3);
                let offset: u32 = cortex_m33.read_register(rm6);
                let value: u32 = cortex_m33.read_register(rd0);
                cortex_m33.store_half(base.wrapping_add(offset), value);
            },
            _ => {},
        }
    }

    fn execute_multiple<M: MemoryInterface>(&self, cortex_m33: &mut CortexM33<M>)
        ensures
            final(cortex_m33)@ == self.multiple_spec(old(cortex_m33)@),
    {
        proof {
            reveal(Instruction::multiple_spec);
        }
        let code: u16 = self.opcode.code;
        let rd8: u16 = (code / 0x100) % 8;
        let list: u16 = code % 0x100;
        match self.instruction {
            InstructionType::LdmiaT1 => {
                let base: u32 = cortex_m33.read_register(rd8);
                let (end, complete) = cortex_m33.load_multiple(list, base);
                if !complete {
                    cortex_m33.pend(HARD_FAULT);
                } else if !list_holds(list, rd8) {
                    cortex_m33.write_register(rd8, end);
                }
            },
            InstructionType::StmiaT1 => {
                let base: u32 = cortex_m33.read_register(rd8);
                let (end, complete) = cortex_m33.store_multiple(list, base);
                if !complete {
                    cortex_m33.pend(HARD_FAULT);
                } else {
                    cortex_m33.write_register(rd8, end);
                }
            },
            InstructionType::PopT1 => cortex_m33.pop(list, (code / 0x100) % 2 == 1),
            InstructionType::PushT1 => cortex_m33.push(list, (code / 0x100) % 2 == 1),
            _ => {},
        }
    }

    fn execute_system<M: MemoryInterface>(&self, cortex_m33: &mut CortexM33<M>)
        ensures
            final(cortex_m33)@ == self.system_spec(old(cortex_m33)@),
    {
        proof {
            reveal(Instruction::system_spec);
        }
        let code: u16 = self.opcode.code;
        let code2: u16 = self.opcode_2.code;
        let imm8: u16 = code % 0x100;
        match self.instruction {
            InstructionType::BkptT1 => {
                cortex_m33.pend(HARD_FAULT);
            },
            InstructionType::CpsT1Id => {
                if cortex_m33.privileged() {
                    cortex_m33.primask = true;
                }
            },
            InstructionType::CpsT1Ie => {
                if cortex_m33.privileged() {
                    cortex_m33.primask = false;
                }
            },
            InstructionType::DmbT1Sy | InstructionType::DsbT1Sy | InstructionType::IsbT1Sy => {
                cortex_m33.advance();
            },
            InstructionType::MrsT1 => {
                let value: u32 = cortex_m33.special_register(code2 % 0x100);
                cortex_m33.advance();
                cortex_m33.write_register((code2 / 0x100) % 16, value);
            },
            InstructionType::MsrT1 => {
                let value: u32 = cortex_m33.read_register(code % 16);
                cortex_m33.advance();
                cortex_m33.write_special_register(code2 % 0x100, value);
            },
            InstructionType::NopT1
            | InstructionType::SevT1
            | InstructionType::WfeT1
            | InstructionType::WfiT1
            | InstructionType::YieldT1 => {},
            InstructionType::SvcT1 => {
                cortex_m33.svc_number = imm8 as u8;
                cortex_m33.pend(SVCALL);
            },
            InstructionType::UdfT1 => {
                cortex_m33.pend(USAGE_FAULT);
            },
            InstructionType::UdfT2 => {
                cortex_m33.advance();
                cortex_m33.pend(USAGE_FAULT);
            },
            _ => {},
        }
    }

    /// Executes the instruction on the processor. Afterwards bit 0 of the
    /// program counter is clear and both stack pointers are multiples of
    /// four; each register answers to the number it had; and the processor
    /// is in Handler mode exactly when an exception is active, if that held
    /// before.
    pub fn execute<M: MemoryInterface>(&self, cortex_m33: &mut CortexM33<M>)
        ensures
            final(cortex_m33)@ == self.execute_spec(old(cortex_m33)@),
            final(cortex_m33)@.regs.aligned(),
            final(cortex_m33)@.regs.numbers == old(cortex_m33)@.regs.numbers,
            old(cortex_m33)@.mode_fits_active() ==> final(cortex_m33)@.mode_fits_active(),
    {
        proof {
            lemma_execute_aligned(*self, cortex_m33@);
            if cortex_m33@.mode_fits_active() {
                lemma_execute_fits(*self, cortex_m33@);
            }
        }
        cortex_m33.advance();
        match self.instruction.class() {
            InstructionClass::Arithmetic => self.execute_arithmetic(cortex_m33),
            InstructionClass::Logical => self.execute_logical(cortex_m33),
            InstructionClass::Shift => self.execute_shift(cortex_m33),
            InstructionClass::Data => self.execute_data(cortex_m33),
            InstructionClass::Branch => self.execute_branch(cortex_m33),
            InstructionClass::Load => self.execute_load(cortex_m33),
            InstructionClass::Store => self.execute_store(cortex_m33),
            InstructionClass::Multiple => self.execute_multiple(cortex_m33),
            InstructionClass::System => self.execute_system(cortex_m33),
        }
        proof {
            use_type_invariant(&cortex_m33.registers.sp);
            use_type_invariant(&cortex_m33.registers.pc);
        }
    }
}

} // verus!
