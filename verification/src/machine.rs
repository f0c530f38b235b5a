//! The machine façade: wires CPU, memory and devices together and exposes
//! input injection, disk attachment and the debug surface to the shell.
use vstd::prelude::*;

use crate::clipboard::ClipboardDevice;
use crate::cpu::Cpu;
use crate::disk::{img_view, Disk, FS_ONLY_MAGIC};
use crate::errors::{BusError, BusResult};
use crate::framebuffer::Damage;
use crate::input::Input;
use crate::io_bus::{frame_except_input, frame_except_spi, spi_slot, IoBus};
use crate::ram::Ram;
use crate::rom::Rom;
use crate::switches::Switches;
use crate::system_bus::SystemBus;
use crate::timer::Timer;

verus! {

pub const DEFAULT_MEM_SIZE: u32 = 0x0010_0000;

pub const DEFAULT_DISPLAY_START: u32 = 0x000E_7F00;

pub const IO_START: u32 = 0xFFFF_FFC0;

pub const ROM_START: u32 = 0xFFFF_F800;

/// A complete workstation: processor plus memory system.
pub struct Machine {
    pub cpu: Cpu,
    pub bus: SystemBus,
}

impl Machine {
    pub open spec fn wf(&self) -> bool {
        self.bus.wf()
    }

    /// A machine with the default memory map, the given boot ROM, a
    /// framebuffer of `fb_width_px` by `fb_height` pixels, and a host
    /// clipboard bridge; the CPU is reset to the ROM.
    pub fn new(fb_width_px: i32, fb_height: i32, boot: Vec<u32>) -> (m: Machine)
        requires
            32 <= fb_width_px,
            1 <= fb_height,
            4 * (fb_width_px as int / 32) * fb_height <= DEFAULT_MEM_SIZE
                - DEFAULT_DISPLAY_START,
            ROM_START as int + 4 * boot@.len() <= 0x1_0000_0000,
        ensures
            m.wf(),
            m.cpu.pc == ROM_START,
            forall|i: int| 0 <= i < 16 ==> m.cpu.r@[i] == 0u32,
            !m.cpu.z && !m.cpu.n && !m.cpu.c && !m.cpu.v,
            m.bus.mem_size == DEFAULT_MEM_SIZE,
            m.bus.display_start == DEFAULT_DISPLAY_START,
            m.bus.fb_width_words == fb_width_px as int / 32,
            m.bus.fb_height == fb_height,
            m.bus.rom@ == boot@,
            m.bus.rom.spec_start() == ROM_START,
            m.bus.io.io_start == IO_START,
            m.bus.io.clipboard is Some,
            forall|i: int| 0 <= i < m.bus.ram@.len() ==> m.bus.ram@[i] == 0u8,
    {
        let fb_width_words = fb_width_px / 32;
        proof {
            assert(fb_width_words >= 1);
            assert(4 * (fb_width_words as int) * (fb_height as int) <= DEFAULT_MEM_SIZE
                - DEFAULT_DISPLAY_START);
            assert(fb_width_words <= 0x0100_0000) by (nonlinear_arith)
                requires
                    4 * (fb_width_words as int) * (fb_height as int) <= 0x18100 && fb_height >= 1
                        && fb_width_words >= 1,
            ;
        }
        let ram = Ram::new(DEFAULT_MEM_SIZE);
        let rom = Rom::new(ROM_START, boot);
        let timer = Timer::new();
        let switches = Switches::new();
        let input = Input::new();
        let mut io = IoBus::new(IO_START, timer, switches, input);
        io.clipboard = Some(ClipboardDevice::new());
        let damage = Damage::full(fb_width_words, fb_height);
        let bus = SystemBus::new(
            DEFAULT_MEM_SIZE,
            DEFAULT_DISPLAY_START,
            fb_width_words,
            fb_height,
            damage,
            ram,
            rom,
            io,
        );
        let mut cpu = Cpu::new();
        cpu.reset();
        Machine { cpu, bus }
    }

    /// A machine with an explicit memory map and boot ROM and no host
    /// clipboard, for deterministic harnesses.
    pub fn new_for_tests(
        boot_rom_words: Vec<u32>,
        mem_size: u32,
        display_start: u32,
        fb_width_words: i32,
        fb_height: i32,
    ) -> (m: Machine)
        requires
            display_start <= mem_size,
            0 < fb_width_words <= 0x0100_0000,
            0 <= fb_height,
            display_start + 4 * fb_width_words * fb_height <= mem_size,
            ROM_START as int + 4 * boot_rom_words@.len() <= 0x1_0000_0000,
        ensures
            m.wf(),
            m.cpu.pc == ROM_START,
            forall|i: int| 0 <= i < 16 ==> m.cpu.r@[i] == 0u32,
            !m.cpu.z && !m.cpu.n && !m.cpu.c && !m.cpu.v,
            m.bus.mem_size == mem_size,
            m.bus.display_start == display_start,
            m.bus.fb_width_words == fb_width_words,
            m.bus.fb_height == fb_height,
            m.bus.rom@ == boot_rom_words@,
            m.bus.rom.spec_start() == ROM_START,
            m.bus.io.io_start == IO_START,
            m.bus.io.clipboard is None,
            m.bus.io.spi1 is None,
            forall|i: int| 0 <= i < m.bus.ram@.len() ==> m.bus.ram@[i] == 0u8,
    {
        let ram = Ram::new(mem_size);
        let rom = Rom::new(ROM_START, boot_rom_words);
        let timer = Timer::new();
        let switches = Switches::new();
        let input = Input::new();
        let io = IoBus::new(IO_START, timer, switches, input);
        let damage = Damage::full(fb_width_words, fb_height);
        let bus = SystemBus::new(
            mem_size,
            display_start,
            fb_width_words,
            fb_height,
            damage,
            ram,
            rom,
            io,
        );
        let mut cpu = Cpu::new();
        cpu.reset();
        Machine { cpu, bus }
    }

    /// Feeds a mouse move to the input device: both coordinates are
    /// clamped into `[0, 4096)` and packed into their 12-bit fields.
    pub fn mouse_moved(&mut self, x: i32, y: i32)
        ensures
            final(self).cpu == old(self).cpu,
            crate::system_bus::frame_except_io(old(self).bus, final(self).bus),
            frame_except_input(old(self).bus.io, final(self).bus.io),
            final(self).bus.io.input.key_buf == old(self).bus.io.input.key_buf,
            final(self).bus.io.input.mouse == ((old(self).bus.io.input.mouse & !0x00FF_FFFFu32)
                | Input::clamp_coord(x) | (Input::clamp_coord(y) << 12)),
    {
        self.bus.io.input.mouse_moved(x, y);
    }

    /// Feeds a mouse button change to the input device.
    pub fn mouse_button(&mut self, button: u32, down: bool)
        ensures
            final(self).cpu == old(self).cpu,
            crate::system_bus::frame_except_io(old(self).bus, final(self).bus),
            frame_except_input(old(self).bus.io, final(self).bus.io),
            final(self).bus.io.input.key_buf == old(self).bus.io.input.key_buf,
            final(self).bus.io.input.mouse == (if 1 <= button < 4 {
                if down {
                    old(self).bus.io.input.mouse | (1u32 << (27 - button) as u32)
                } else {
                    old(self).bus.io.input.mouse & !(1u32 << (27 - button) as u32)
                }
            } else {
                old(self).bus.io.input.mouse
            }),
    {
        self.bus.io.input.mouse_button(button, down);
    }

    /// Appends scancodes to the keyboard FIFO; scancodes that do not fit
    /// are dropped, as the original hardware would drop them.
    pub fn keyboard_ps2(&mut self, bytes: &[u8])
        requires
            old(self).wf(),
        ensures
            final(self).wf(),
            final(self).cpu == old(self).cpu,
            crate::system_bus::frame_except_io(old(self).bus, final(self).bus),
            frame_except_input(old(self).bus.io, final(self).bus.io),
            final(self).bus.io.input.mouse == old(self).bus.io.input.mouse,
            old(self).bus.io.input.key_buf@.len() + bytes@.len() <= crate::input::KEY_FIFO_CAP
                ==> final(self).bus.io.input.key_buf@ == old(self).bus.io.input.key_buf@ + bytes@,
            old(self).bus.io.input.key_buf@.len() + bytes@.len() > crate::input::KEY_FIFO_CAP
                ==> final(self).bus.io.input.key_buf == old(self).bus.io.input.key_buf,
    {
        let _ = self.bus.io.input.keyboard_input(bytes);
    }

    /// Attaches a disk over `image` at SPI slot 1, 2 or 3; other slots are
    /// a device fault. The filesystem-offset autodetection happens here.
    pub fn attach_disk(&mut self, slot: u32, image: Vec<u32>) -> (r: BusResult<()>)
        requires
            old(self).wf(),
        ensures
            final(self).wf(),
            final(self).cpu == old(self).cpu,
            1 <= slot <= 3 ==> {
                &&& r is Ok
                &&& crate::system_bus::frame_except_io(old(self).bus, final(self).bus)
                &&& frame_except_spi(old(self).bus.io, final(self).bus.io, slot)
                &&& (spi_slot(final(self).bus.io, slot) matches Some(d) && {
                    &&& d.state is DiskCommand
                    &&& img_view(d.image) == Some(image@)
                    &&& d.offset == (if image@.len() > 0 && image@[0] == FS_ONLY_MAGIC {
                        0x80002u32
                    } else {
                        0u32
                    })
                })
            },
            !(1 <= slot <= 3) ==> *final(self) == *old(self),
            !(1 <= slot <= 3) ==> (r matches Err(e) && e is Device),
    {
        if slot < 1 || slot > 3 {
            return Err(BusError::Device("no such SPI slot".to_string()));
        }
        let disk = Disk::new(Some(image));
        self.bus.io.set_spi(slot, Some(disk))
    }

    /// Empties SPI slot 1, 2 or 3, handing back whatever disk was there
    /// so its image can be persisted; other slots are a device fault.
    pub fn eject_disk(&mut self, slot: u32) -> (r: BusResult<Option<Disk>>)
        requires
            old(self).wf(),
        ensures
            final(self).wf(),
            final(self).cpu == old(self).cpu,
            1 <= slot <= 3 ==> {
                &&& crate::system_bus::frame_except_io(old(self).bus, final(self).bus)
                &&& frame_except_spi(old(self).bus.io, final(self).bus.io, slot)
                &&& spi_slot(final(self).bus.io, slot) is None
                &&& (r matches Ok(d) && d == spi_slot(old(self).bus.io, slot))
            },
            !(1 <= slot <= 3) ==> *final(self) == *old(self),
            !(1 <= slot <= 3) ==> (r matches Err(e) && e is Device),
    {
        match slot {
            1 => Ok(self.bus.io.spi1.take()),
            2 => Ok(self.bus.io.spi2.take()),
            3 => Ok(self.bus.io.spi3.take()),
            _ => Err(BusError::Device("no such SPI slot".to_string())),
        }
    }
}

} // verus!
