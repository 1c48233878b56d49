//! The program status register: the flags, the exception number and the
//! execution state, and the 32-bit image that packs all three.

use vstd::prelude::*;

verus! {

/// Bits of the 32-bit xPSR image that belong to no architectural field.
pub const XPSR_RESERVED: u32 = 0x00f0_c000;

/// Application flags: N, Z, C, V, Q and the four GE bits.
#[derive(Debug, Clone, Copy, PartialEq, Eq, Structural)]
pub struct Apsr {
    pub n: bool,
    pub z: bool,
    pub c: bool,
    pub v: bool,
    pub q: bool,
    pub ge: u8,
}

/// One for a flag that is set, zero for one that is clear.
pub open spec fn bit_of(b: bool) -> u32 {
    if b {
        1
    } else {
        0
    }
}

/// One for a flag that is set, zero for one that is clear.
pub fn bit_value(b: bool) -> (r: u32)
    ensures
        r == bit_of(b),
{
    if b {
        1
    } else {
        0
    }
}

impl Apsr {
    /// GE holds four bits.
    pub open spec fn wf(self) -> bool {
        self.ge < 16
    }

    /// The flags as they stand in bits 31:27 and 19:16 of the xPSR image.
    pub open spec fn pack(self) -> u32 {
        (bit_of(self.n) << 31) | (bit_of(self.z) << 30) | (bit_of(self.c) << 29) | (bit_of(self.v)
            << 28) | (bit_of(self.q) << 27) | (((self.ge as u32) & 0xf) << 16)
    }

    /// The flags that an xPSR image carries.
    pub open spec fn unpack(value: u32) -> Apsr {
        Apsr {
            n: (value >> 31) & 1 == 1,
            z: (value >> 30) & 1 == 1,
            c: (value >> 29) & 1 == 1,
            v: (value >> 28) & 1 == 1,
            q: (value >> 27) & 1 == 1,
            ge: ((value >> 16) & 0xf) as u8,
        }
    }

    pub fn new() -> (r: Self)
        ensures
            r == (Apsr { n: false, z: false, c: false, v: false, q: false, ge: 0 }),
    {
        Apsr { n: false, z: false, c: false, v: false, q: false, ge: 0 }
    }

    /// Negative flag: bit 31 of the last flag-setting result.
    pub fn n(&self) -> (r: bool)
        ensures
            r == self.n,
    {
        self.n
    }

    /// Zero flag: the last flag-setting result was zero.
    pub fn z(&self) -> (r: bool)
        ensures
            r == self.z,
    {
        self.z
    }

    /// Carry flag: unsigned overflow, or the last bit shifted out.
    pub fn c(&self) -> (r: bool)
        ensures
            r == self.c,
    {
        self.c
    }

    /// Overflow flag: signed overflow.
    pub fn v(&self) -> (r: bool)
        ensures
            r == self.v,
    {
        self.v
    }

    /// Sticky saturation flag.
    pub fn q(&self) -> (r: bool)
        ensures
            r == self.q,
    {
        self.q
    }

    /// Greater-than-or-equal flags.
    pub fn ge(&self) -> (r: u8)
        ensures
            r == self.ge,
    {
        self.ge
    }

    pub fn set_n(&mut self, value: bool)
        ensures
            *final(self) == (Apsr { n: value, ..*old(self) }),
    {
        self.n = value
    }

    pub fn set_z(&mut self, value: bool)
        ensures
            *final(self) == (Apsr { z: value, ..*old(self) }),
    {
        self.z = value
    }

    pub fn set_c(&mut self, value: bool)
        ensures
            *final(self) == (Apsr { c: value, ..*old(self) }),
    {
        self.c = value
    }

    pub fn set_v(&mut self, value: bool)
        ensures
            *final(self) == (Apsr { v: value, ..*old(self) }),
    {
        self.v = value
    }

    pub fn set_q(&mut self, value: bool)
        ensures
            *final(self) == (Apsr { q: value, ..*old(self) }),
    {
        self.q = value
    }

    /// Stores the low four bits of `value`.
    pub fn set_ge(&mut self, value: u8)
        ensures
            *final(self) == (Apsr { ge: ((value as u32) & 0xf) as u8, ..*old(self) }),
            final(self).wf(),
    {
        proof {
            lemma_field_bounds(value as u32);
        }
        self.ge = ((value as u32) & 0xf) as u8
    }

    pub fn set_from_u32(&mut self, value: u32)
        ensures
            *final(self) == Apsr::unpack(value),
            final(self).wf(),
    {
        proof {
            lemma_field_bounds(value >> 16);
        }
        self.n = (value >> 31) & 1 == 1;
        self.z = (value >> 30) & 1 == 1;
        self.c = (value >> 29) & 1 == 1;
        self.v = (value >> 28) & 1 == 1;
        self.q = (value >> 27) & 1 == 1;
        self.ge = ((value >> 16) & 0xf) as u8;
    }

    pub fn into_u32(&self) -> (r: u32)
        ensures
            r == self.pack(),
    {
        (bit_value(self.n) << 31) | (bit_value(self.z) << 30) | (bit_value(self.c) << 29) | (
        bit_value(self.v) << 28) | (bit_value(self.q) << 27) | (((self.ge as u32) & 0xf) << 16)
    }
}



/// The exception number: bits 8:0 of the xPSR image, zero in Thread mode.
#[derive(Debug, Clone, Copy, PartialEq, Eq, Structural)]
pub struct Ipsr(pub u16);

impl Ipsr {
    /// The number holds nine bits.
    pub open spec fn wf(self) -> bool {
        self.0 < 512
    }

    /// The number as it stands in bits 8:0 of the xPSR image.
    pub open spec fn pack(self) -> u32 {
        (self.0 as u32) & 0x1ff
    }

    /// The number that an xPSR image carries.
    pub open spec fn unpack(value: u32) -> Ipsr {
        Ipsr((value & 0x1ff) as u16)
    }

    pub fn new() -> (r: Self)
        ensures
            r == Ipsr(0),
    {
        Ipsr(0)
    }

    pub fn set_from_u32(&mut self, value: u32)
        ensures
            *final(self) == Ipsr::unpack(value),
            final(self).wf(),
    {
        proof {
            lemma_field_bounds(value);
        }
        self.0 = (value & 0x1ff) as u16;
    }

    pub fn into_u32(&self) -> (r: u32)
        ensures
            r == self.pack(),
    {
        (self.0 as u32) & 0x1ff
    }
}

/// Execution state: the Thumb bit (bit 24) and the interrupt-continuation
/// bits, which are stored and nothing more: two at bits 26:25 and five at
/// bits 13:9.
#[derive(Debug, Clone, Copy, PartialEq, Eq, Structural)]
pub struct Epsr {
    pub ici_0: u8,
    pub t: bool,
    pub ici_1: u8,
}

impl Epsr {
    /// The two stored fields hold two and five bits.
    pub open spec fn wf(self) -> bool {
        self.ici_0 < 4 && self.ici_1 < 32
    }

    /// The execution state as it stands in the xPSR image.
    pub open spec fn pack(self) -> u32 {
        (((self.ici_0 as u32) & 0x3) << 25) | (bit_of(self.t) << 24) | (((self.ici_1 as u32)
            & 0x1f) << 9)
    }

    /// The execution state that an xPSR image carries.
    pub open spec fn unpack(value: u32) -> Epsr {
        Epsr {
            ici_0: ((value >> 25) & 0x3) as u8,
            t: (value >> 24) & 1 == 1,
            ici_1: ((value >> 9) & 0x1f) as u8,
        }
    }

    /// The core runs Thumb code only: the T bit starts set.
    pub fn new() -> (r: Self)
        ensures
            r == (Epsr { ici_0: 0, t: true, ici_1: 0 }),
    {
        Epsr { ici_0: 0, t: true, ici_1: 0 }
    }

    pub fn set_t(&mut self, value: bool)
        ensures
            *final(self) == (Epsr { t: value, ..*old(self) }),
    {
        self.t = value;
    }

    pub fn t(&self) -> (r: bool)
        ensures
            r == self.t,
    {
        self.t
    }

    pub fn set_from_u32(&mut self, value: u32)
        ensures
            *final(self) == Epsr::unpack(value),
            final(self).wf(),
    {
        proof {
            lemma_field_bounds(value >> 25);
            lemma_field_bounds(value >> 9);
        }
        self.ici_0 = ((value >> 25) & 0x3) as u8;
        self.t = (value >> 24) & 1 == 1;
        self.ici_1 = ((value >> 9) & 0x1f) as u8;
    }

    pub fn into_u32(&self) -> (r: u32)
        ensures
            r == self.pack(),
    {
        (((self.ici_0 as u32) & 0x3) << 25) | (bit_value(self.t) << 24) | (((self.ici_1 as u32)
            & 0x1f) << 9)
    }
}

/// The program status register: one record behind the three views APSR,
/// IPSR and EPSR, which share no bit.
#[derive(Debug, Clone, Copy, PartialEq, Eq, Structural)]
pub struct Xpsr {
    pub apsr: Apsr,
    pub ipsr: Ipsr,
    pub epsr: Epsr,
}

impl Xpsr {
    /// Every field is within its width.
    pub open spec fn wf(self) -> bool {
        self.apsr.wf() && self.ipsr.wf() && self.epsr.wf()
    }

    /// The 32-bit image of the register.
    pub open spec fn pack(self) -> u32 {
        self.apsr.pack() | self.ipsr.pack() | self.epsr.pack()
    }

    /// The register that a 32-bit image stands for.
    pub open spec fn unpack(value: u32) -> Xpsr {
        Xpsr {
            apsr: Apsr::unpack(value),
            ipsr: Ipsr::unpack(value),
            epsr: Epsr::unpack(value),
        }
    }

    /// No flag set, no exception number, the Thumb bit set.
    pub open spec fn new_spec() -> Xpsr {
        Xpsr {
            apsr: Apsr { n: false, z: false, c: false, v: false, q: false, ge: 0 },
            ipsr: Ipsr(0),
            epsr: Epsr { ici_0: 0, t: true, ici_1: 0 },
        }
    }

    pub fn new() -> (r: Self)
        ensures
            r == Xpsr::new_spec(),
            r.wf(),
    {
        Xpsr { apsr: Apsr::new(), ipsr: Ipsr::new(), epsr: Epsr::new() }
    }

    /// Takes every field from the image; the reserved bits of the image are
    /// dropped.
    pub fn set_from_u32(&mut self, value: u32)
        ensures
            *final(self) == Xpsr::unpack(value),
            final(self).wf(),
            final(self).pack() == value & !XPSR_RESERVED,
    {
        proof {
            lemma_unpack_pack(value);
        }
        self.apsr.set_from_u32(value);
        self.ipsr.set_from_u32(value);
        self.epsr.set_from_u32(value);
    }

    /// The image never shows a reserved bit.
    pub fn into_u32(&self) -> (r: u32)
        ensures
            r == self.pack(),
            r & XPSR_RESERVED == 0,
    {
        proof {
            lemma_reserved_bits_read_zero(*self);
        }
        self.apsr.into_u32() | self.ipsr.into_u32() | self.epsr.into_u32()
    }
}

/// A field taken with a mask is no larger than the mask.
pub proof fn lemma_field_bounds(x: u32)
    by (bit_vector)
    ensures
        x & 0x1 <= 0x1,
        x & 0x3 <= 0x3,
        x & 0xf <= 0xf,
        x & 0x1f <= 0x1f,
        x & 0xff <= 0xff,
        x & 0x1ff <= 0x1ff,
{
}

proof fn lemma_image_fields(
    n: u32,
    z: u32,
    c: u32,
    v: u32,
    q: u32,
    ge: u32,
    number: u32,
    ici_0: u32,
    t: u32,
    ici_1: u32,
)
    by (bit_vector)
    requires
        n <= 1,
        z <= 1,
        c <= 1,
        v <= 1,
        q <= 1,
        t <= 1,
    ensures
        ({
            let image: u32 = ((n << 31) | (z << 30) | (c << 29) | (v << 28) | (q << 27) | ((ge
                & 0xf) << 16)) | (number & 0x1ff) | (((ici_0 & 0x3) << 25) | (t << 24) | ((ici_1
                & 0x1f) << 9));
            &&& image & 0x00f0_c000 == 0
            &&& (image >> 31) & 1 == n
            &&& (image >> 30) & 1 == z
            &&& (image >> 29) & 1 == c
            &&& (image >> 28) & 1 == v
            &&& (image >> 27) & 1 == q
            &&& (image >> 16) & 0xf == ge & 0xf
            &&& image & 0x1ff == number & 0x1ff
            &&& (image >> 25) & 0x3 == ici_0 & 0x3
            &&& (image >> 24) & 1 == t
            &&& (image >> 9) & 0x1f == ici_1 & 0x1f
        }),
{
}

proof fn lemma_small_fields(ge: u32, number: u32, ici_0: u32, ici_1: u32)
    by (bit_vector)
    ensures
        ge < 16 ==> ge & 0xf == ge,
        number < 512 ==> number & 0x1ff == number,
        ici_0 < 4 ==> ici_0 & 0x3 == ici_0,
        ici_1 < 32 ==> ici_1 & 0x1f == ici_1,
{
}

proof fn lemma_image_of(x: Xpsr)
    ensures
        x.pack() & XPSR_RESERVED == 0,
        x.wf() ==> Xpsr::unpack(x.pack()) == x,
{
    lemma_image_fields(
        bit_of(x.apsr.n),
        bit_of(x.apsr.z),
        bit_of(x.apsr.c),
        bit_of(x.apsr.v),
        bit_of(x.apsr.q),
        x.apsr.ge as u32,
        x.ipsr.0 as u32,
        x.epsr.ici_0 as u32,
        bit_of(x.epsr.t),
        x.epsr.ici_1 as u32,
    );
    lemma_small_fields(
        x.apsr.ge as u32,
        x.ipsr.0 as u32,
        x.epsr.ici_0 as u32,
        x.epsr.ici_1 as u32,
    );
}

/// Whatever the register holds, the reserved bits of its image are zero.
pub proof fn lemma_reserved_bits_read_zero(x: Xpsr)
    ensures
        x.pack() & XPSR_RESERVED == 0,
{
    lemma_image_of(x);
}

proof fn lemma_image_parts(value: u32)
    by (bit_vector)
    ensures
        ({
            let n: u32 = (value >> 31) & 1;
            let z: u32 = (value >> 30) & 1;
            let c: u32 = (value >> 29) & 1;
            let v: u32 = (value >> 28) & 1;
            let q: u32 = (value >> 27) & 1;
            let ge: u32 = (value >> 16) & 0xf;
            let number: u32 = value & 0x1ff;
            let ici_0: u32 = (value >> 25) & 0x3;
            let t: u32 = (value >> 24) & 1;
            let ici_1: u32 = (value >> 9) & 0x1f;
            ((n << 31) | (z << 30) | (c << 29) | (v << 28) | (q << 27) | ((ge & 0xf) << 16)) | (
            number & 0x1ff) | (((ici_0 & 0x3) << 25) | (t << 24) | ((ici_1 & 0x1f) << 9)) == value
                & !0x00f0_c000u32
        }),
{
}

/// An image that is written to the register and read back is the image
/// without its reserved bits: every bit of a field comes back as it was
/// given.
pub proof fn lemma_unpack_pack(value: u32)
    ensures
        Xpsr::unpack(value).pack() == value & !XPSR_RESERVED,
{
    lemma_image_parts(value);
    lemma_field_bounds(value >> 31);
    lemma_field_bounds(value >> 30);
    lemma_field_bounds(value >> 29);
    lemma_field_bounds(value >> 28);
    lemma_field_bounds(value >> 27);
    lemma_field_bounds(value >> 16);
    lemma_field_bounds(value);
    lemma_field_bounds(value >> 25);
    lemma_field_bounds(value >> 24);
    lemma_field_bounds(value >> 9);
}

/// Packing a register and unpacking the image gives the register back, every
/// field of it.
pub proof fn lemma_pack_unpack(x: Xpsr)
    requires
        x.wf(),
    ensures
        Xpsr::unpack(x.pack()) == x,
{
    lemma_image_of(x);
}

} // verus!
