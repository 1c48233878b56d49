//! Encoders: the halfwords that the decoder takes back apart.

use super::instructions::InstructionType;
use super::registers::Register;
use vstd::prelude::*;

verus! {

/// The weight of bit `i` of a halfword.
pub open spec fn bit_weight(i: int) -> int {
    if i == 0 {
        0x1
    } else if i == 1 {
        0x2
    } else if i == 2 {
        0x4
    } else if i == 3 {
        0x8
    } else if i == 4 {
        0x10
    } else if i == 5 {
        0x20
    } else if i == 6 {
        0x40
    } else if i == 7 {
        0x80
    } else if i == 8 {
        0x100
    } else if i == 9 {
        0x200
    } else if i == 10 {
        0x400
    } else if i == 11 {
        0x800
    } else if i == 12 {
        0x1000
    } else if i == 13 {
        0x2000
    } else if i == 14 {
        0x4000
    } else {
        0x8000
    }
}

/// The halfword with bit `i` set for each `i` below `n` among `numbers`.
pub open spec fn list_mask(numbers: Seq<u16>, n: int) -> int
    decreases n,
{
    if n <= 0 {
        0
    } else {
        list_mask(numbers, n - 1) + if numbers.contains((n - 1) as u16) {
            bit_weight(n - 1)
        } else {
            0
        }
    }
}

/// A mask of `n` bits is below two to the power `n`.
pub proof fn lemma_list_mask_bound(numbers: Seq<u16>, n: int)
    requires
        0 <= n <= 16,
    ensures
        0 <= list_mask(numbers, n) < bit_weight(n) || (n == 16 && 0 <= list_mask(numbers, n)
            < 0x1_0000),
    decreases n,
{
    if n > 0 {
        lemma_list_mask_bound(numbers, n - 1);
    }
}

/// A list of registers, by their numbers.
pub struct Registers {
    pub register_numbers: Vec<u16>,
}

impl Registers {
    /// The empty list.
    pub fn new() -> (r: Self)
        ensures
            r.register_numbers@ == Seq::<u16>::empty(),
    {
        Registers { register_numbers: Vec::new() }
    }

    /// This list with one more register.
    pub fn with<T: Register>(self, register: &T) -> (r: Self)
        ensures
            r.register_numbers@ == self.register_numbers@.push(register.index()),
    {
        let mut numbers: Vec<u16> = self.register_numbers;
        numbers.push(register.number());
        Registers { register_numbers: numbers }
    }

    fn holds(&self, number: u16) -> (r: bool)
        ensures
            r == self.register_numbers@.contains(number),
    {
        let mut i: usize = 0;
        while i < self.register_numbers.len()
            invariant
                i <= self.register_numbers@.len(),
                forall|j: int| 0 <= j < i ==> self.register_numbers@[j] != number,
            decreases self.register_numbers@.len() - i,
        {
            if self.register_numbers[i] == number {
                return true;
            }
            i = i + 1;
        }
        false
    }

    /// The list as a bit mask: bit `i` is set where register `i` is in the
    /// list. Numbers from 16 on have no bit.
    pub fn binary(&self) -> (r: u16)
        ensures
            r == list_mask(self.register_numbers@, 16),
    {
        let weights: [u16; 16] = [
            0x1,
            0x2,
            0x4,
            0x8,
            0x10,
            0x20,
            0x40,
            0x80,
            0x100,
            0x200,
            0x400,
            0x800,
            0x1000,
            0x2000,
            0x4000,
            0x8000,
        ];
        let mut binary: u16 = 0;
        let mut i: u16 = 0;
        while i < 16
            invariant
                i <= 16,
                binary == list_mask(self.register_numbers@, i as int),
                forall|k: int| 0 <= k < 16 ==> weights@[k] == bit_weight(k),
            decreases 16 - i,
        {
            proof {
                lemma_list_mask_bound(self.register_numbers@, i as int);
            }
            if self.holds(i) {
                binary = binary + weights[i as usize];
            }
            i = i + 1;
        }
        binary
    }
}

/// `PUSH {list}` or `PUSH {list, LR}`
pub struct PushT1;

impl PushT1 {
    pub fn opcode(push_to_lr: bool, registers: &Registers) -> (r: u16)
        ensures
            r == 0xb400 + (if push_to_lr {
                0x100int
            } else {
                0int
            }) + list_mask(registers.register_numbers@, 16) % 0x100,
            forall|next: u16| InstructionType::PushT1.matches(r, next),
    {
        let lr: u16 = if push_to_lr {
            0x100
        } else {
            0
        };
        0xb400 + lr + registers.binary() % 0x100
    }
}

/// `ADCS Rdn, Rm`
pub struct AdcT1;

impl AdcT1 {
    pub fn opcode<T: Register, U: Register>(rdn: &T, rm: &U) -> (r: u16)
        ensures
            r == 0x4140 + (rm.index() % 8) * 8 + rdn.index() % 8,
            forall|next: u16| InstructionType::AdcT1.matches(r, next),
    {
        0x4140 + (rm.number() % 8) * 8 + rdn.number() % 8
    }
}

/// `ADD SP, SP, #imm, with `imm` in bytes`
pub struct AddSpPlusImmediateT2;

impl AddSpPlusImmediateT2 {
    pub fn opcode(imm: u16) -> (r: u16)
        ensures
            r == 0xb000 + (imm / 4) % 0x80,
            forall|next: u16| InstructionType::AddSpPlusImmediateT2.matches(r, next),
    {
        0xb000 + (imm / 4) % 0x80
    }
}

/// `ADD Rd, SP, #imm8, with `imm8` in bytes`
pub struct AddSpPlusImmediateT1;

impl AddSpPlusImmediateT1 {
    pub fn opcode<T: Register>(rd: &T, imm8: u16) -> (r: u16)
        ensures
            r == 0xa800 + (rd.index() % 8) * 0x100 + (imm8 / 4) % 0x100,
            forall|next: u16| InstructionType::AddSpPlusImmediateT1.matches(r, next),
    {
        0xa800 + (rd.number() % 8) * 0x100 + (imm8 / 4) % 0x100
    }
}

/// `ADDS Rd, Rn, #imm3`
pub struct AddsT1;

impl AddsT1 {
    pub fn opcode<T: Register, U: Register>(rd: &T, rn: &U, imm3: u16) -> (r: u16)
        ensures
            r == 0x1c00 + (imm3 % 8) * 0x40 + (rn.index() % 8) * 8 + rd.index() % 8,
            forall|next: u16| InstructionType::AddsT1.matches(r, next),
    {
        0x1c00 + (imm3 % 8) * 0x40 + (rn.number() % 8) * 8 + rd.number() % 8
    }
}

/// `ADDS Rdn, #imm8`
pub struct AddsT2;

impl AddsT2 {
    pub fn opcode<T: Register>(rdn: &T, imm8: u16) -> (r: u16)
        ensures
            r == 0x3000 + (rdn.index() % 8) * 0x100 + imm8 % 0x100,
            forall|next: u16| InstructionType::AddsT2.matches(r, next),
    {
        0x3000 + (rdn.number() % 8) * 0x100 + imm8 % 0x100
    }
}

/// `ADDS Rd, Rn, Rm`
pub struct AddsRegisterT1;

impl AddsRegisterT1 {
    pub fn opcode<T: Register, U: Register, V: Register>(rd: &T, rn: &U, rm: &V) -> (r: u16)
        ensures
            r == 0x1800 + (rm.index() % 8) * 0x40 + (rn.index() % 8) * 8 + rd.index() % 8,
            forall|next: u16| InstructionType::AddRegisterT1.matches(r, next),
    {
        0x1800 + (rm.number() % 8) * 0x40 + (rn.number() % 8) * 8 + rd.number() % 8
    }
}

/// `ADD Rdn, Rm, for any two registers`
pub struct AddRegisterT2;

impl AddRegisterT2 {
    pub fn opcode<T: Register, U: Register>(rdn: &T, rm: &U) -> (r: u16)
        ensures
            r == 0x4400 + ((rdn.index() / 8) % 2) * 0x80 + (rm.index() % 16) * 8 + rdn.index() % 8,
            forall|next: u16| InstructionType::AddRegisterT2.matches(r, next),
    {
        0x4400 + ((rdn.number() / 8) % 2) * 0x80 + (rm.number() % 16) * 8 + rdn.number() % 8
    }
}

/// `ADR Rd, label, with `imm8` in bytes`
pub struct AdrT1;

impl AdrT1 {
    pub fn opcode<T: Register>(rd: &T, imm8: u16) -> (r: u16)
        ensures
            r == 0xa000 + (rd.index() % 8) * 0x100 + (imm8 / 4) % 0x100,
            forall|next: u16| InstructionType::AdrT1.matches(r, next),
    {
        0xa000 + (rd.number() % 8) * 0x100 + (imm8 / 4) % 0x100
    }
}

/// `ANDS Rn, Rm`
pub struct AndRegisterT1;

impl AndRegisterT1 {
    pub fn opcode<T: Register, U: Register>(rn: &T, rm: &U) -> (r: u16)
        ensures
            r == 0x4000 + (rm.index() % 8) * 8 + rn.index() % 8,
            forall|next: u16| InstructionType::AndRegisterT1.matches(r, next),
    {
        0x4000 + (rm.number() % 8) * 8 + rn.number() % 8
    }
}

/// `B label, with `imm11` the offset in bytes as a 12-bit two's complement number`
pub struct BT2;

impl BT2 {
    pub fn opcode(imm11: u16) -> (r: u16)
        ensures
            r == 0xe000 + (imm11 / 2) % 0x800,
            forall|next: u16| InstructionType::BT2.matches(r, next),
    {
        0xe000 + (imm11 / 2) % 0x800
    }
}

/// `B<cond> label`, with `imm8` the offset in bytes as a 9-bit two's
/// complement number
pub struct BT1;

impl BT1 {
    pub fn opcode(cond: u16, imm8: u16) -> (r: u16)
        ensures
            r == 0xd000 + (cond % 16) * 0x100 + (imm8 / 2) % 0x100,
            cond % 16 < 14 ==> forall|next: u16| InstructionType::BT1.matches(r, next),
    {
        0xd000 + (cond % 16) * 0x100 + (imm8 / 2) % 0x100
    }
}

/// `DMB SY`: the first halfword in the low half of the word
pub struct DmbT1Sy;

impl DmbT1Sy {
    pub fn opcode() -> (r: u32)
        ensures
            r == 0x8f50_f3bf,
            InstructionType::DmbT1Sy.matches((r % 0x1_0000) as u16, (r / 0x1_0000) as u16),
    {
        0x8f50_f3bf
    }
}

/// `DSB SY`: the first halfword in the low half of the word
pub struct DsbT1Sy;

impl DsbT1Sy {
    pub fn opcode() -> (r: u32)
        ensures
            r == 0x8f4f_f3bf,
            InstructionType::DsbT1Sy.matches((r % 0x1_0000) as u16, (r / 0x1_0000) as u16),
    {
        0x8f4f_f3bf
    }
}

/// `ISB SY`: the first halfword in the low half of the word
pub struct IsbT1Sy;

impl IsbT1Sy {
    pub fn opcode() -> (r: u32)
        ensures
            r == 0x8f6f_f3bf,
            InstructionType::IsbT1Sy.matches((r % 0x1_0000) as u16, (r / 0x1_0000) as u16),
    {
        0x8f6f_f3bf
    }
}

/// `MOV Rd, Rm`
pub struct MovRegisterT1;

impl MovRegisterT1 {
    pub fn opcode<T: Register, U: Register>(rd: &T, rm: &U) -> (r: u16)
        ensures
            r == 0x4600 + ((rd.index() / 8) % 2) * 0x80 + (rm.index() % 16) * 8 + rd.index() % 8,
            forall|next: u16| InstructionType::MovRegisterT1.matches(r, next),
    {
        0x4600 + ((rd.number() / 8) % 2) * 0x80 + (rm.number() % 16) * 8 + rd.number() % 8
    }
}

/// `LDMIA Rn!, {list}`
pub struct LdmiaT1;

impl LdmiaT1 {
    pub fn opcode<T: Register>(rn: &T, registers: &Registers) -> (r: u16)
        ensures
            r == 0xc800 + (rn.index() % 8) * 0x100 + list_mask(registers.register_numbers@, 16)
                % 0x100,
            forall|next: u16| InstructionType::LdmiaT1.matches(r, next),
    {
        0xc800 + (rn.number() % 8) * 0x100 + registers.binary() % 0x100
    }
}

/// `REV Rd, Rn`
pub struct RevT1;

impl RevT1 {
    pub fn opcode<T: Register, U: Register>(rd: &T, rn: &U) -> (r: u16)
        ensures
            r == 0xba00 + (rn.index() % 8) * 8 + rd.index() % 8,
            forall|next: u16| InstructionType::RevT1.matches(r, next),
    {
        0xba00 + (rn.number() % 8) * 8 + rd.number() % 8
    }
}

/// `REV16 Rd, Rn`
pub struct Rev16T1;

impl Rev16T1 {
    pub fn opcode<T: Register, U: Register>(rd: &T, rn: &U) -> (r: u16)
        ensures
            r == 0xba40 + (rn.index() % 8) * 8 + rd.index() % 8,
            forall|next: u16| InstructionType::Rev16T1.matches(r, next),
    {
        0xba40 + (rn.number() % 8) * 8 + rd.number() % 8
    }
}

/// `STMIA Rn!, {list}`
pub struct StmiaT1;

impl StmiaT1 {
    pub fn opcode<T: Register>(rn: &T, registers: &Registers) -> (r: u16)
        ensures
            r == 0xc000 + (rn.index() % 8) * 0x100 + list_mask(registers.register_numbers@, 16)
                % 0x100,
            forall|next: u16| InstructionType::StmiaT1.matches(r, next),
    {
        0xc000 + (rn.number() % 8) * 0x100 + registers.binary() % 0x100
    }
}

/// `SUB SP, SP, #imm, with `imm` in bytes`
pub struct SubSpMinusImmediateT1;

impl SubSpMinusImmediateT1 {
    pub fn opcode(imm: u16) -> (r: u16)
        ensures
            r == 0xb080 + (imm / 4) % 0x80,
            forall|next: u16| InstructionType::SubSpMinusImmediateT1.matches(r, next),
    {
        0xb080 + (imm / 4) % 0x80
    }
}

/// `UXTB Rd, Rm`
pub struct UxtbT1;

impl UxtbT1 {
    pub fn opcode<T: Register, U: Register>(rd: &T, rm: &U) -> (r: u16)
        ensures
            r == 0xb2c0 + (rm.index() % 8) * 8 + rd.index() % 8,
            forall|next: u16| InstructionType::UxtbT1.matches(r, next),
    {
        0xb2c0 + (rm.number() % 8) * 8 + rd.number() % 8
    }
}

/// `UXTH Rd, Rm`
pub struct UxthT1;

impl UxthT1 {
    pub fn opcode<T: Register, U: Register>(rd: &T, rm: &U) -> (r: u16)
        ensures
            r == 0xb280 + (rm.index() % 8) * 8 + rd.index() % 8,
            forall|next: u16| InstructionType::UxthT1.matches(r, next),
    {
        0xb280 + (rm.number() % 8) * 8 + rd.number() % 8
    }
}

/// `YIELD`
pub struct YieldT1;

impl YieldT1 {
    pub fn opcode() -> (r: u16)
        ensures
            r == 0xbf10,
            forall|next: u16| InstructionType::YieldT1.matches(r, next),
    {
        0xbf10
    }
}

/// The word that encodes `BL` with the offset `imm`, a two's complement
/// number: the first halfword in the low half of the word.
pub open spec fn bl_encoding(imm: i32) -> u32 {
    let word: int = if imm < 0 {
        imm + 0x1_0000_0000
    } else {
        imm as int
    };
    let imm11: int = (word / 2) % 0x800;
    let imm10: int = (word / 0x1000) % 0x400;
    let s: int = word / 0x8000_0000;
    let i2: int = (word / 0x40_0000) % 2;
    let i1: int = (word / 0x80_0000) % 2;
    let j2: int = if i2 == s {
        1
    } else {
        0
    };
    let j1: int = if i1 == s {
        1
    } else {
        0
    };
    let first: int = 0xf000 + s * 0x400 + imm10;
    let second: int = 0xd000 + j1 * 0x2000 + j2 * 0x800 + imm11;
    (second * 0x1_0000 + first) as u32
}

/// `BL label`
pub struct BlT1;

impl BlT1 {
    pub fn opcode(imm: i32) -> (r: u32)
        ensures
            r == bl_encoding(imm),
            InstructionType::BlT1.matches((r % 0x1_0000) as u16, (r / 0x1_0000) as u16),
    {
        let offset: u32 = if imm < 0 {
            (imm as i64 + 0x1_0000_0000) as u32
        } else {
            imm as u32
        };
        let imm11: u32 = (offset / 2) % 0x800;
        let imm10: u32 = (offset / 0x1000) % 0x400;
        let s: u32 = offset / 0x8000_0000;
        let i2: u32 = (offset / 0x40_0000) % 2;
        let i1: u32 = (offset / 0x80_0000) % 2;
        let j2: u32 = if i2 == s {
            1
        } else {
            0
        };
        let j1: u32 = if i1 == s {
            1
        } else {
            0
        };
        let first: u32 = 0xf000 + s * 0x400 + imm10;
        let second: u32 = 0xd000 + j1 * 0x2000 + j2 * 0x800 + imm11;
        assert(first / 0x800 == 0b11110);
        assert(second / 0x4000 == 0b11 && (second / 0x1000) % 2 == 1);
        let word: u32 = second * 0x1_0000 + first;
        assert(word % 0x1_0000 == first && word / 0x1_0000 == second);
        word
    }
}

/// `BLX Rm`
pub struct BlxT1;

impl BlxT1 {
    pub fn opcode<T: Register>(rm: &T) -> (r: u16)
        ensures
            r == 0x4780 + (rm.index() % 16) * 8,
            forall|next: u16| InstructionType::BlxT1.matches(r, next),
    {
        0x4780 + (rm.number() % 16) * 8
    }
}

/// `ASRS Rd, Rm, #imm5`
pub struct AsrImmediateT1;

impl AsrImmediateT1 {
    pub fn opcode<T: Register, U: Register>(rd: &T, rm: &U, imm5: u16) -> (r: u16)
        ensures
            r == 0x1000 + (imm5 % 32) * 0x40 + (rm.index() % 8) * 8 + rd.index() % 8,
            forall|next: u16| InstructionType::AsrImmediateT1.matches(r, next),
    {
        0x1000 + (imm5 % 32) * 0x40 + (rm.number() % 8) * 8 + rd.number() % 8
    }
}

/// `ASRS Rdn, Rm`
pub struct AsrRegisterT1;

impl AsrRegisterT1 {
    pub fn opcode<T: Register, U: Register>(rdn: &T, rm: &U) -> (r: u16)
        ensures
            r == 0x4100 + (rm.index() % 8) * 8 + rdn.index() % 8,
            forall|next: u16| InstructionType::AsrRegisterT1.matches(r, next),
    {
        0x4100 + (rm.number() % 8) * 8 + rdn.number() % 8
    }
}

} // verus!
