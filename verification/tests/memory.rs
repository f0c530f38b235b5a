use risc_emulator::errors::BusError;
use risc_emulator::framebuffer::Damage;
use risc_emulator::machine::Machine;
use risc_emulator::ram::Ram;
use risc_emulator::rom::Rom;

#[test]
fn ram_write_then_read_round_trip() {
    let mut ram = Ram::new(64);
    for a in [0u32, 4, 20, 60] {
        ram.write_word_le(a, 0xA5B6_C7D8).unwrap();
        assert_eq!(ram.read_word_le(a).unwrap(), 0xA5B6_C7D8);
    }
    // little-endian byte order
    ram.write_word_le(0, 0x0102_0304).unwrap();
    assert_eq!(ram.read_word_le(0).unwrap(), 0x0102_0304);
}

#[test]
fn ram_out_of_bounds() {
    let mut ram = Ram::new(8);
    assert_eq!(ram.len(), 8);
    assert!(matches!(ram.read_word_le(6), Err(BusError::AddressOutOfBounds(6))));
    assert!(matches!(ram.write_word_le(8, 1), Err(BusError::AddressOutOfBounds(8))));
    assert!(ram.read_word_le(4).is_ok());
}

#[test]
fn rom_contains_and_read() {
    let rom = Rom::new(0x1000, vec![0xAA, 0xBB, 0xCC]);
    assert!(rom.contains(0x1000));
    assert!(rom.contains(0x100B));
    assert!(!rom.contains(0x100C));
    assert!(!rom.contains(0xFFF));
    assert_eq!(rom.read_word(0x1004).unwrap(), 0xBB);
    // unaligned addresses read the enclosing word
    assert_eq!(rom.read_word(0x1006).unwrap(), 0xBB);
    assert!(matches!(rom.read_word(0x2000), Err(BusError::Unmapped(_))));
}

#[test]
fn damage_cleared_and_update() {
    let mut d = Damage::cleared(8, 8);
    assert_eq!((d.x1, d.y1, d.x2, d.y2), (8, 8, 0, 0));

    // word 10 of an 8-wide framebuffer is row 1, column 2
    d.update_word_index(8, 8, 10);
    assert_eq!((d.x1, d.y1, d.x2, d.y2), (2, 1, 2, 1));

    // growing the box in both directions
    d.update_word_index(8, 8, 33); // row 4, column 1
    assert_eq!((d.x1, d.y1, d.x2, d.y2), (1, 1, 2, 4));

    // a row at or past the height is ignored
    d.update_word_index(8, 8, 8 * 8);
    assert_eq!((d.x1, d.y1, d.x2, d.y2), (1, 1, 2, 4));
}

#[test]
fn damage_full_covers_everything() {
    let d = Damage::full(8, 4);
    assert_eq!((d.x1, d.y1, d.x2, d.y2), (0, 0, 7, 3));
}

#[test]
fn system_bus_peek_regions() {
    let m = Machine::new_for_tests(vec![0x1234_5678], 0x400, 0x400, 1, 0);
    // fresh RAM reads zero
    assert_eq!(m.bus.peek_word_le(0).unwrap(), 0);
    // ROM word
    assert_eq!(m.bus.peek_word_le(risc_emulator::machine::ROM_START).unwrap(), 0x1234_5678);
    // I/O never peeks: unmapped
    assert!(matches!(
        m.bus.peek_word_le(risc_emulator::machine::IO_START),
        Err(BusError::Unmapped(_))
    ));
    // past RAM, before ROM
    assert!(matches!(m.bus.peek_word_le(0x8000), Err(BusError::Unmapped(_))));
}

#[test]
fn framebuffer_snapshot_and_dimensions() {
    let mut m = Machine::new_for_tests(vec![], 0x400, 0x200, 8, 8);
    m.bus.write_word(0x200, 0xFFFF_FFFF).unwrap();
    m.bus.write_word(0x204, 0x0000_00FF).unwrap();
    let words = m.bus.framebuffer_words_copy();
    assert_eq!(words.len(), 64);
    assert_eq!(words[0], 0xFFFF_FFFF);
    assert_eq!(words[1], 0x0000_00FF);
    assert_eq!(words[2], 0);
    assert_eq!(m.bus.fb_width_px(), 256);
    assert_eq!(m.bus.fb_height_px(), 8);
}
