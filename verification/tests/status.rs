use rp2350_sim::cortex_m33::apsr::{Apsr, Epsr, Ipsr, Xpsr, XPSR_RESERVED};
use rp2350_sim::cortex_m33::control::{Control, NPriv, SpSel};

#[test]
fn apsr_starts_clear() {
    let apsr = Apsr::new();
    assert!(!apsr.n() && !apsr.z() && !apsr.c() && !apsr.v() && !apsr.q());
    assert_eq!(apsr.ge(), 0);
    assert_eq!(apsr.into_u32(), 0);
}

#[test]
fn apsr_flags_sit_in_the_top_bits() {
    let mut apsr = Apsr::new();
    apsr.set_n(true);
    assert_eq!(apsr.into_u32(), 0x8000_0000);
    apsr.set_z(true);
    assert_eq!(apsr.into_u32(), 0xc000_0000);
    apsr.set_c(true);
    assert_eq!(apsr.into_u32(), 0xe000_0000);
    apsr.set_v(true);
    assert_eq!(apsr.into_u32(), 0xf000_0000);
    apsr.set_q(true);
    assert_eq!(apsr.into_u32(), 0xf800_0000);
    apsr.set_ge(0xf);
    assert_eq!(apsr.into_u32(), 0xf80f_0000);
    apsr.set_n(false);
    assert_eq!(apsr.into_u32(), 0x780f_0000);
}

#[test]
fn apsr_ge_keeps_four_bits() {
    let mut apsr = Apsr::new();
    apsr.set_ge(0xfa);
    assert_eq!(apsr.ge(), 0xa);
    assert_eq!(apsr.into_u32(), 0x000a_0000);
}

#[test]
fn apsr_unpacks_an_image() {
    let mut apsr = Apsr::new();
    apsr.set_from_u32(0xa005_1234);
    assert!(apsr.n());
    assert!(!apsr.z());
    assert!(apsr.c());
    assert!(!apsr.v());
    assert!(!apsr.q());
    assert_eq!(apsr.ge(), 5);
}

#[test]
fn ipsr_holds_nine_bits() {
    let mut ipsr = Ipsr::new();
    assert_eq!(ipsr.into_u32(), 0);
    ipsr.set_from_u32(0xffff_ffff);
    assert_eq!(ipsr.into_u32(), 0x1ff);
    ipsr.set_from_u32(0x1234_560b);
    assert_eq!(ipsr.into_u32(), 0x00b);
}

#[test]
fn epsr_starts_in_thumb_state() {
    let epsr = Epsr::new();
    assert!(epsr.t());
    assert_eq!(epsr.into_u32(), 0x0100_0000);
}

#[test]
fn epsr_fields() {
    let mut epsr = Epsr::new();
    epsr.set_from_u32(0xffff_ffff);
    assert!(epsr.t());
    assert_eq!(epsr.ici_0, 3);
    assert_eq!(epsr.ici_1, 31);
    assert_eq!(epsr.into_u32(), 0x0700_3e00);
    epsr.set_t(false);
    assert_eq!(epsr.into_u32(), 0x0600_3e00);
}

#[test]
fn bits_20_to_23_belong_to_no_field() {
    let mut xpsr = Xpsr::new();
    for image in [0x0020_0000u32, 0x0010_0000, 0x0040_0000, 0x0080_0000, 0x00f0_0000] {
        xpsr.set_from_u32(image);
        assert_eq!(xpsr.into_u32(), 0);
    }
    xpsr.set_from_u32(0xffff_ffff);
    assert_eq!(xpsr.into_u32(), 0xff0f_3fff);
    assert_eq!(xpsr.into_u32() & 0xf80f_0000, 0xf80f_0000);
    let mut epsr = Epsr::new();
    epsr.set_from_u32(0x0020_0000);
    assert_eq!(epsr.into_u32(), 0);
}

#[test]
fn reserved_bits_read_as_zero() {
    let mut xpsr = Xpsr::new();
    for image in [0xffff_ffffu32, 0x00f0_c000, 0x1234_5678, 0xdead_beef, 0] {
        xpsr.set_from_u32(image);
        assert_eq!(xpsr.into_u32() & XPSR_RESERVED, 0);
        assert_eq!(xpsr.into_u32(), image & !XPSR_RESERVED);
    }
}

#[test]
fn reserved_bits_read_as_zero_whatever_the_fields_hold() {
    let xpsr = Xpsr {
        apsr: Apsr { n: true, z: true, c: true, v: true, q: true, ge: 0xff },
        ipsr: Ipsr(0xffff),
        epsr: Epsr { ici_0: 0xff, t: true, ici_1: 0xff },
    };
    assert_eq!(xpsr.into_u32(), 0xffff_ffff & !XPSR_RESERVED);
}

#[test]
fn pack_then_unpack_keeps_every_field() {
    let xpsr = Xpsr {
        apsr: Apsr { n: true, z: false, c: true, v: false, q: true, ge: 0x9 },
        ipsr: Ipsr(0x10b),
        epsr: Epsr { ici_0: 2, t: true, ici_1: 0x15 },
    };
    let mut back = Xpsr::new();
    back.set_from_u32(xpsr.into_u32());
    assert_eq!(back, xpsr);
}

#[test]
fn control_as_a_word() {
    let control = Control::new();
    assert_eq!(control.npriv, NPriv::ThreadModePrivileged);
    assert_eq!(control.spsel, SpSel::SpMain);
    assert_eq!(control.into_u32(), 0);
    assert_eq!(
        Control { npriv: NPriv::ThreadModeUnprivileged, spsel: SpSel::SpMain }.into_u32(),
        1
    );
    assert_eq!(
        Control { npriv: NPriv::ThreadModePrivileged, spsel: SpSel::SpProcess }.into_u32(),
        2
    );
    assert_eq!(
        Control::from_u32(0xffff_ffff),
        Control { npriv: NPriv::ThreadModeUnprivileged, spsel: SpSel::SpProcess }
    );
    assert_eq!(Control::from_u32(0xffff_fffc), Control::new());
}
