use risc_emulator::machine::{Machine, IO_START, ROM_START};

fn reg(op: u32, a: u32, b: u32, c: u32, q: bool, u: bool, v: bool, imm16: u32) -> u32 {
    let mut ir = 0u32;
    if q {
        ir |= 0x4000_0000;
    }
    if u {
        ir |= 0x2000_0000;
    }
    if v {
        ir |= 0x1000_0000;
    }
    ir |= (a & 0xF) << 24;
    ir |= (b & 0xF) << 20;
    ir |= (op & 0xF) << 16;
    ir |= imm16 & 0xFFFF;
    ir |= c & 0xF;
    ir
}

fn mem(a: u32, b: u32, off20: i32, store: bool, byte: bool) -> u32 {
    let mut ir = 0x8000_0000u32;
    if store {
        ir |= 0x2000_0000;
    }
    if byte {
        ir |= 0x1000_0000;
    }
    ir |= (a & 0xF) << 24;
    ir |= (b & 0xF) << 20;
    let off = off20 & 0x000F_FFFF;
    ir |= off as u32;
    ir
}

const MOV: u32 = 0;
const IOR: u32 = 6;

#[test]
fn e2e_framebuffer_write_updates_damage() {
    // Small memory map so the framebuffer starts early:
    // mem_size = 0x400, display_start = 0x200, 8x8 framebuffer words
    let display_start = 0x200;
    let mem_size = 0x400;

    let prog = vec![
        reg(MOV, 1, 0, 0, true, false, false, display_start as u32),
        reg(MOV, 2, 0, 0, true, true, false, 0xABCD),
        mem(2, 1, 0, true, false),
        // Branch always, relative -1 word: loops on itself, keeping the
        // program counter inside the ROM.
        0xE7FF_FFFF,
    ];

    let mut m = Machine::new_for_tests(prog, mem_size, display_start, 8, 8);

    m.cpu.progress = 1000;
    m.cpu.run(&mut m.bus, 10).unwrap();

    let dmg = m.bus.reset_damage();
    // At least one framebuffer word was written, so the rectangle is a
    // real bounding box.
    assert!(dmg.x2 >= dmg.x1);
    assert!(dmg.y2 >= dmg.y1);

    assert!(ROM_START > mem_size);
    assert!(IO_START > ROM_START);
}

#[test]
fn e2e_damage_degenerate_until_next_write() {
    let display_start = 0x200;
    let mem_size = 0x400;
    let prog = vec![
        reg(MOV, 1, 0, 0, true, false, false, display_start as u32),
        reg(MOV, 2, 0, 0, true, true, false, 0xABCD),
        mem(2, 1, 0, true, false),
    ];
    let mut m = Machine::new_for_tests(prog, mem_size, display_start, 8, 8);
    m.cpu.progress = 1000;

    // Consume the construction-time "full" rectangle; with no write since,
    // the next rectangle is degenerate.
    let _ = m.bus.reset_damage();
    let empty = m.bus.reset_damage();
    assert!(empty.x1 > empty.x2);
    assert!(empty.y1 > empty.y2);

    // One store into the framebuffer makes it a real box again.
    for _ in 0..3 {
        m.cpu.step(&mut m.bus).unwrap();
    }
    let dmg = m.bus.reset_damage();
    assert_eq!((dmg.x1, dmg.y1, dmg.x2, dmg.y2), (0, 0, 0, 0));
}

#[test]
fn e2e_keyboard_status_and_scancode() {
    // LDW R0, [R1] with R1 = IO_START+24 reads the input status; then
    // [R1+4] consumes the scancode; then status again.
    let status_addr = IO_START + 24; // 0xFFFFFFD8
    let prog = vec![
        reg(MOV, 1, 0, 0, true, true, false, (status_addr >> 16) & 0xFFFF),
        reg(IOR, 1, 1, 0, true, false, false, status_addr & 0xFFFF),
        mem(2, 1, 0, false, false), // R2 = status
        mem(3, 1, 4, false, false), // R3 = scancode
        mem(4, 1, 0, false, false), // R4 = status again
    ];
    let mut m = Machine::new_for_tests(prog, 0x400, 0x400, 1, 0);
    m.keyboard_ps2(&[0x1C]);
    m.cpu.progress = 1000;
    for _ in 0..5 {
        m.cpu.step(&mut m.bus).unwrap();
    }
    assert_eq!(m.cpu.r[2] & 0x1000_0000, 0x1000_0000);
    assert_eq!(m.cpu.r[3], 0x1C);
    assert_eq!(m.cpu.r[4] & 0x1000_0000, 0);
}

#[test]
fn e2e_timer_read_decrements_progress() {
    // A tight loop polling the millisecond counter runs out of progress
    // long before the cycle budget, ending the run slice early.
    let timer_addr = IO_START; // offset 0
    let prog = vec![
        reg(MOV, 1, 0, 0, true, true, false, (timer_addr >> 16) & 0xFFFF),
        reg(IOR, 1, 1, 0, true, false, false, timer_addr & 0xFFFF),
        mem(2, 1, 0, false, false), // R2 = ms counter
        0xE7FF_FFFE,                // branch always, -2 words: back to the load
    ];
    let mut m = Machine::new_for_tests(prog, 0x400, 0x400, 1, 0);
    m.cpu.run(&mut m.bus, 1_000_000).unwrap();
    assert_eq!(m.cpu.progress, 0);
}
