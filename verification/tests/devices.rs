use risc_emulator::clipboard::ClipboardDevice;
use risc_emulator::disk::Disk;
use risc_emulator::errors::BusError;
use risc_emulator::input::Input;
use risc_emulator::machine::{Machine, IO_START};
use risc_emulator::switches::Switches;
use risc_emulator::timer::Timer;

#[test]
fn input_mouse_packing() {
    let mut inp = Input::new();
    inp.mouse_moved(100, 200);
    assert_eq!(inp.mouse & 0xFFF, 100);
    assert_eq!((inp.mouse >> 12) & 0xFFF, 200);
    // out-of-range axes are clamped into [0, 4096)
    inp.mouse_moved(5000, 300);
    assert_eq!(inp.mouse & 0xFFF, 4095);
    assert_eq!((inp.mouse >> 12) & 0xFFF, 300);
    inp.mouse_moved(-17, 4096);
    assert_eq!(inp.mouse & 0xFFF, 0);
    assert_eq!((inp.mouse >> 12) & 0xFFF, 4095);
    inp.mouse_moved(100, 200);
    // buttons 1..3 map to bits 26..24
    inp.mouse_button(1, true);
    assert_eq!(inp.mouse & (1 << 26), 1 << 26);
    inp.mouse_button(3, true);
    assert_eq!(inp.mouse & (1 << 24), 1 << 24);
    inp.mouse_button(1, false);
    assert_eq!(inp.mouse & (1 << 26), 0);
    // button 0 and 4 do nothing
    let before = inp.mouse;
    inp.mouse_button(0, true);
    inp.mouse_button(4, true);
    assert_eq!(inp.mouse, before);
}

#[test]
fn input_keyboard_fifo_and_overflow() {
    let mut inp = Input::new();
    inp.keyboard_input(&[1, 2, 3]).unwrap();
    assert_eq!(inp.read_mouse_and_kb_status() & 0x1000_0000, 0x1000_0000);
    assert_eq!(inp.read_keyboard_data(), 1);
    assert_eq!(inp.read_keyboard_data(), 2);
    assert_eq!(inp.read_keyboard_data(), 3);
    assert_eq!(inp.read_keyboard_data(), 0);
    assert_eq!(inp.read_mouse_and_kb_status() & 0x1000_0000, 0);

    // 17 scancodes cannot fit the 16-byte FIFO
    let err = inp.keyboard_input(&[0u8; 17]);
    assert!(matches!(err, Err(BusError::Device(_))));
    assert_eq!(inp.read_keyboard_data(), 0);
}

#[test]
fn timer_and_switches_offsets() {
    let mut t = Timer::new();
    t.current_tick = 42;
    assert_eq!(t.read(0).unwrap(), 42);
    assert_eq!(t.read(4).unwrap(), 0);
    let mut s = Switches::new();
    s.value = 7;
    assert_eq!(s.read(4).unwrap(), 7);
    assert_eq!(s.read(0).unwrap(), 0);
}

#[test]
fn clipboard_put_then_get_round_trip() {
    // PUT three bytes containing a CR; the device stores LF in its buffer.
    let mut dev = ClipboardDevice::new();
    dev.write_control(3);
    dev.write_data('a' as u32);
    dev.write_data(0x0D); // CR
    assert_eq!(dev.data[0], b'a');
    assert_eq!(dev.data[1], b'\n'); // CR stored as LF, the host convention
    dev.write_data('b' as u32); // buffer full: committed and reset
    assert_eq!(dev.data.len(), 0);
    assert_eq!(dev.ptr, 0);

    // GET over the same bytes (the host medium): LF comes back as CR.
    let mut dev2 = ClipboardDevice::new();
    let n = dev2.begin_get(vec![b'a', b'\n', b'b']);
    assert_eq!(n, 3);
    assert_eq!(dev2.read_data(), 'a' as u32);
    assert_eq!(dev2.read_data(), 0x0D); // the CR survived the round trip
    assert_eq!(dev2.read_data(), 'b' as u32);
    // exhausted: device is idle again and further reads give 0
    assert_eq!(dev2.read_data(), 0);
}

#[test]
fn clipboard_control_reset() {
    let mut dev = ClipboardDevice::new();
    dev.write_control(5);
    dev.write_data('x' as u32);
    dev.write_control(0xFFFF_FFFF); // the all-ones value resets the device
    assert_eq!(dev.data.len(), 0);
    dev.write_data('y' as u32); // discarded outside PUT
    assert_eq!(dev.data.len(), 0);
}

#[test]
fn clipboard_empty_get_reads_zero() {
    let mut dev = ClipboardDevice::new();
    let n = dev.begin_get(Vec::new());
    assert_eq!(n, 0);
    assert_eq!(dev.read_data(), 0);
}

fn disk_command(d: &mut Disk, frame: [u32; 6]) {
    for b in frame {
        d.write_data(b).unwrap();
    }
}

/// Transfers one byte on the half-duplex SPI bus: write, then read.
fn spi_xfer(d: &mut Disk, out: u32) -> u32 {
    d.write_data(out).unwrap();
    d.read_data().unwrap()
}

#[test]
fn disk_read_sector_with_prelude() {
    // Two sectors of recognizable words.
    let mut image = Vec::new();
    for i in 0..256u32 {
        image.push(0x1000 + i);
    }
    let mut d = Disk::new(Some(image));
    assert_eq!(d.offset, 0); // no filesystem magic

    // READ sector 1: opcode 81, big-endian argument, one dummy byte.
    disk_command(&mut d, [81, 0, 0, 0, 1, 0]);
    assert_eq!(spi_xfer(&mut d, 0xFF), 0); // prelude word 0
    assert_eq!(spi_xfer(&mut d, 0xFF), 254); // prelude word 254
    for i in 0..128u32 {
        assert_eq!(spi_xfer(&mut d, 0xFF), 0x1000 + 128 + i);
    }
}

#[test]
fn disk_write_then_read_round_trip() {
    // Start from an empty image: the write grows it.
    let mut d = Disk::new(Some(Vec::new()));

    // WRITE sector 2: opcode 88, then the 254 data token, 128 words and
    // two trailing bytes standing in for the CRC.
    disk_command(&mut d, [88, 0, 0, 0, 2, 0]);
    d.write_data(254).unwrap();
    for i in 0..128u32 {
        d.write_data(0xCAFE_0000 + i).unwrap();
    }
    d.write_data(0).unwrap();
    d.write_data(0).unwrap();
    // done: the status byte 5 is queued
    assert_eq!(spi_xfer(&mut d, 0xFF), 5);

    // READ the same sector back.
    disk_command(&mut d, [81, 0, 0, 0, 2, 0]);
    assert_eq!(spi_xfer(&mut d, 0xFF), 0);
    assert_eq!(spi_xfer(&mut d, 0xFF), 254);
    for i in 0..128u32 {
        assert_eq!(spi_xfer(&mut d, 0xFF), 0xCAFE_0000 + i);
    }
}

#[test]
fn disk_filesystem_magic_sets_offset() {
    let mut image = vec![0u32; 128];
    image[0] = 0x9B1E_A38D;
    let d = Disk::new(Some(image));
    assert_eq!(d.offset, 0x80002);

    let d2 = Disk::new(None);
    assert_eq!(d2.offset, 0);
}

#[test]
fn disk_read_past_end_is_device_error() {
    let mut d = Disk::new(Some(vec![0u32; 128])); // one sector only
    for b in [81u32, 0, 0, 0, 9] {
        d.write_data(b).unwrap();
    }
    // the 6th byte completes the frame; the dispatch fails
    let r = d.write_data(0);
    assert!(matches!(r, Err(BusError::Device(_))));
}

#[test]
fn disk_unknown_opcode_acknowledged() {
    let mut d = Disk::new(None);
    disk_command(&mut d, [99, 0, 0, 0, 0, 0]);
    assert_eq!(spi_xfer(&mut d, 0xFF), 0); // single-byte acknowledgment
    assert_eq!(spi_xfer(&mut d, 0xFF), 255); // then idle bytes
}

#[test]
fn disk_idle_bytes_ignored_before_command() {
    let mut d = Disk::new(None);
    // leading 0xFF idle bytes are ignored while the frame is empty
    d.write_data(0xFF).unwrap();
    d.write_data(0xFF).unwrap();
    disk_command(&mut d, [99, 0, 0, 0, 0, 0]);
    assert_eq!(d.read_data().unwrap(), 255); // index still at -1
    assert_eq!(spi_xfer(&mut d, 0xFF), 0);
}

#[test]
fn machine_attach_eject_disk() {
    let mut m = Machine::new_for_tests(vec![0xE7FF_FFFF], 0x400, 0x400, 1, 0);
    let mut image = vec![0u32; 128];
    image[5] = 0xDEAD_BEEF;
    m.attach_disk(1, image).unwrap();

    // invalid slots are a device fault
    assert!(matches!(m.attach_disk(0, Vec::new()), Err(BusError::Device(_))));
    assert!(matches!(m.attach_disk(4, Vec::new()), Err(BusError::Device(_))));

    let d = m.eject_disk(1).unwrap().expect("a disk was attached");
    assert_eq!(d.image.as_ref().unwrap()[5], 0xDEAD_BEEF);
    assert!(m.eject_disk(1).unwrap().is_none());
}

#[test]
fn io_bus_dispatch_reads() {
    let mut m = Machine::new_for_tests(vec![], 0x400, 0x400, 1, 0);
    let mut p = 20u32;

    // offset 0: timer, costs one tick of progress
    m.bus.io.timer.current_tick = 99;
    assert_eq!(m.bus.io.read_word_with_progress(IO_START, &mut p).unwrap(), 99);
    assert_eq!(p, 19);

    // offset 4: switches, no progress cost
    m.bus.io.switches.value = 5;
    assert_eq!(m.bus.io.read_word_with_progress(IO_START + 4, &mut p).unwrap(), 5);
    assert_eq!(p, 19);

    // offset 20: SPI status always ready
    assert_eq!(m.bus.io.read_word_with_progress(IO_START + 20, &mut p).unwrap(), 1);

    // offset 16 with no device: idle byte
    assert_eq!(m.bus.io.read_word_with_progress(IO_START + 16, &mut p).unwrap(), 255);

    // offset 24 with no scancode waiting also costs progress
    let before = p;
    let v = m.bus.io.read_word_with_progress(IO_START + 24, &mut p).unwrap();
    assert_eq!(v & 0x1000_0000, 0);
    assert_eq!(p, before - 1);

    // unmapped low address
    assert!(matches!(
        m.bus.io.read_word_with_progress(IO_START - 8, &mut p),
        Err(BusError::Unmapped(_))
    ));

    // unused offsets read as zero
    assert_eq!(m.bus.io.read_word_with_progress(IO_START + 36, &mut p).unwrap(), 0);
}

#[test]
fn io_bus_spi_select_and_write() {
    let mut m = Machine::new_for_tests(vec![], 0x400, 0x400, 1, 0);
    m.attach_disk(1, vec![7u32; 128]).unwrap();
    let mut p = 20u32;

    // select slot 1, send a READ command for sector 0 through the bus
    m.bus.io.write_word(IO_START + 20, 1).unwrap();
    for b in [81u32, 0, 0, 0, 0, 0] {
        m.bus.io.write_word(IO_START + 16, b).unwrap();
    }
    m.bus.io.write_word(IO_START + 16, 0xFF).unwrap();
    assert_eq!(m.bus.io.read_word_with_progress(IO_START + 16, &mut p).unwrap(), 0);
    m.bus.io.write_word(IO_START + 16, 0xFF).unwrap();
    assert_eq!(m.bus.io.read_word_with_progress(IO_START + 16, &mut p).unwrap(), 254);
    m.bus.io.write_word(IO_START + 16, 0xFF).unwrap();
    assert_eq!(m.bus.io.read_word_with_progress(IO_START + 16, &mut p).unwrap(), 7);
}

#[test]
fn write_to_rom_is_device_error() {
    let mut m = Machine::new_for_tests(vec![0, 0, 0, 0], 0x400, 0x400, 1, 0);
    let r = m.bus.write_word(risc_emulator::machine::ROM_START, 1);
    assert!(matches!(r, Err(BusError::Device(_))));
}
