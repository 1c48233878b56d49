use rp2350_sim::{LoaderError, MemoryInterface, FLASH_START_ADDRESS, RP2350};

const BASE: &str = ":020000041000EA\n";

#[test]
fn loads_data_records_into_flash() {
    let mut rp2350 = RP2350::new();
    let image = ":020000041000EA\n:0400000001020304F2\n:02001000AABB89\n:00000001FF\n";
    assert_eq!(rp2350.load_hex(image), Ok(0));
    assert_eq!(rp2350.cortex_m33.memory.flash[0..4], [1, 2, 3, 4]);
    assert_eq!(rp2350.cortex_m33.memory.flash[4], 0xff);
    assert_eq!(rp2350.cortex_m33.memory.flash[0x10..0x12], [0xaa, 0xbb]);
    assert_eq!(rp2350.cortex_m33.memory.read_u32(FLASH_START_ADDRESS), Ok(0x0403_0201));
}

#[test]
fn takes_carriage_returns_empty_lines_and_lower_case() {
    let mut rp2350 = RP2350::new();
    let image = ":020000041000ea\r\n\r\n:0400000001020304f2\r\n\n:00000001ff\r\n";
    assert_eq!(rp2350.load_hex(image), Ok(0));
    assert_eq!(rp2350.cortex_m33.memory.flash[0..4], [1, 2, 3, 4]);
}

#[test]
fn an_image_need_not_end_with_a_line_feed_or_an_end_record() {
    let mut rp2350 = RP2350::new();
    assert_eq!(rp2350.load_hex(":020000041000EA\n:010005007783"), Ok(0));
    assert_eq!(rp2350.cortex_m33.memory.flash[5], 0x77);
    assert_eq!(rp2350.load_hex(""), Ok(0));
}

#[test]
fn nothing_after_the_end_record_is_looked_at() {
    let mut rp2350 = RP2350::new();
    let image = ":020000041000EA\n:00000001FF\n:0100000042BD\nthis is not a record\n";
    assert_eq!(rp2350.load_hex(image), Ok(0));
    assert_eq!(rp2350.cortex_m33.memory.flash[0], 0xff);
}

#[test]
fn the_address_base_moves_with_each_extended_record() {
    let mut rp2350 = RP2350::new();
    // 0x1001_0000 + 0x0002, then back to 0x1000_0000 + 0x0002
    let image = ":020000041001E9\n:0100020011EC\n:020000041000EA\n:0100020022DB\n";
    assert_eq!(rp2350.load_hex(image), Ok(0));
    assert_eq!(rp2350.cortex_m33.memory.flash[0x1_0002], 0x11);
    assert_eq!(rp2350.cortex_m33.memory.flash[0x0_0002], 0x22);
}

#[test]
fn records_of_the_other_defined_types_are_skipped_and_counted() {
    let mut rp2350 = RP2350::new();
    let image =
        ":020000041000EA\n:0400000300000000F9\n:020000021000EC\n:0400000500000000F7\n:0100000042BD\n";
    assert_eq!(rp2350.load_hex(image), Ok(3));
    assert_eq!(rp2350.cortex_m33.memory.flash[0], 0x42);
}

#[test]
fn a_record_type_that_the_format_does_not_define_is_refused() {
    let mut rp2350 = RP2350::new();
    assert_eq!(
        rp2350.load_hex(":020000041000EA\n:00000006FA\n"),
        Err(LoaderError::UnknownRecordType { line: 2, kind: 6 })
    );
    assert_eq!(rp2350.load_hex(":00000080"), Err(LoaderError::MalformedLine { line: 1 }));
    assert_eq!(
        rp2350.load_hex(":000000FF01\n"),
        Err(LoaderError::UnknownRecordType { line: 1, kind: 0xff })
    );
}

#[test]
fn a_bad_checksum_is_refused() {
    let mut rp2350 = RP2350::new();
    let image = ":020000041000EA\n:0400000001020304F3\n";
    assert_eq!(rp2350.load_hex(image), Err(LoaderError::BadChecksum { line: 2 }));
    assert_eq!(rp2350.cortex_m33.memory.flash[0], 0xff);
}

#[test]
fn malformed_lines_are_refused() {
    for line in [
        "0400000001020304F2",
        ":0400000001020304F",
        ":0400000001020304F2A",
        ":04000000010203G4F2",
        ":0400000001020304 F2",
        ":0500000001020304F1",
        ":0300000001020304F3",
        ":",
        ":00",
        ":0000000",
        " :00000001FF",
        ":00000001FF ",
    ] {
        let mut rp2350 = RP2350::new();
        let image = format!("{}{}\n", BASE, line);
        assert_eq!(
            rp2350.load_hex(&image),
            Err(LoaderError::MalformedLine { line: 2 }),
            "line {:?}",
            line
        );
    }
}

#[test]
fn an_extended_address_record_has_two_data_bytes() {
    let mut rp2350 = RP2350::new();
    assert_eq!(rp2350.load_hex(":0100000410EB\n"), Err(LoaderError::MalformedLine { line: 1 }));
    assert_eq!(
        rp2350.load_hex(":03000004100000E9\n"),
        Err(LoaderError::MalformedLine { line: 1 })
    );
}

#[test]
fn data_outside_the_flash_is_refused() {
    let mut rp2350 = RP2350::new();
    // no address base: the record is for address 0
    assert_eq!(
        rp2350.load_hex(":0100000000FF\n"),
        Err(LoaderError::AddressOutOfRange { line: 1, address: 0 })
    );
    // past the 4 MB that are modeled
    assert_eq!(
        rp2350.load_hex(":020000041040AA\n:0100000000FF\n"),
        Err(LoaderError::AddressOutOfRange { line: 2, address: 0x1040_0000 })
    );
    // the last byte would not fit
    assert_eq!(
        rp2350.load_hex(":02000004103FAB\n:02FFFF00000000\n"),
        Err(LoaderError::AddressOutOfRange { line: 2, address: 0x103f_ffff })
    );
    // the last byte of flash is still inside
    assert_eq!(rp2350.load_hex(":02000004103FAB\n:01FFFF005AA7\n"), Ok(0));
    assert_eq!(rp2350.cortex_m33.memory.flash[0x3f_ffff], 0x5a);
    // SRAM is not flash
    assert_eq!(
        rp2350.load_hex(":020000042000DA\n:0100000000FF\n"),
        Err(LoaderError::AddressOutOfRange { line: 2, address: 0x2000_0000 })
    );
}

#[test]
fn what_was_loaded_before_an_error_stays() {
    let mut rp2350 = RP2350::new();
    let image = ":020000041000EA\n:0400000001020304F2\n:04000400050607080X\n";
    assert_eq!(rp2350.load_hex(image), Err(LoaderError::MalformedLine { line: 3 }));
    assert_eq!(rp2350.cortex_m33.memory.flash[0..4], [1, 2, 3, 4]);
    assert_eq!(rp2350.cortex_m33.memory.flash[4], 0xff);
}

#[test]
fn loading_changes_nothing_but_flash() {
    let mut rp2350 = RP2350::new();
    rp2350.cortex_m33.memory.write(0x2000_0000, 7).unwrap();
    rp2350.set_pc(0x2000_0000);
    assert_eq!(rp2350.load_hex(":020000041000EA\n:0100000042BD\n"), Ok(0));
    assert_eq!(rp2350.cortex_m33.memory.read(0x2000_0000), Ok(7));
    assert_eq!(rp2350.inspect_register(15), Some(0x2000_0000));
    assert_eq!(rp2350.cortex_m33.memory.read(FLASH_START_ADDRESS), Ok(0x42));
}
