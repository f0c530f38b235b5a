//! The system bus: address decode between RAM, boot ROM and the I/O
//! registers, with framebuffer damage tagging on RAM writes into the
//! display region.
use vstd::prelude::*;

use crate::errors::{BusError, BusResult};
use crate::framebuffer::Damage;
use crate::io_bus::{io_read_post, io_write_post, IoBus};
use crate::ram::{store_word_le, word_le_at, Ram};
use crate::rom::{rom_contains, Rom};

verus! {

/// Everything but the I/O bank is unchanged.
pub open spec fn frame_except_io(pre: SystemBus, post: SystemBus) -> bool {
    &&& post.mem_size == pre.mem_size
    &&& post.display_start == pre.display_start
    &&& post.fb_width_words == pre.fb_width_words
    &&& post.fb_height == pre.fb_height
    &&& post.damage == pre.damage
    &&& post.ram == pre.ram
    &&& post.rom == pre.rom
}

/// Everything but the RAM and the damage rectangle is unchanged.
pub open spec fn frame_except_ram(pre: SystemBus, post: SystemBus) -> bool {
    &&& post.mem_size == pre.mem_size
    &&& post.display_start == pre.display_start
    &&& post.fb_width_words == pre.fb_width_words
    &&& post.fb_height == pre.fb_height
    &&& post.rom == pre.rom
    &&& post.io == pre.io
}

/// What a CPU read at `addr` does: the address is word-aligned by
/// masking, then decoded to RAM, ROM or the I/O bank; only I/O reads can
/// move the progress counter (from `p0` to `p1`) or change device state.
#[verifier::opaque]
pub open spec fn bus_read_rel(
    pre: SystemBus,
    post: SystemBus,
    addr: u32,
    p0: u32,
    p1: u32,
    r: BusResult<u32>,
) -> bool {
    let a = addr & !3u32;
    &&& pre.in_ram(a) ==> post == pre && p1 == p0 && (if a + 4 <= pre.ram@.len() {
        r matches Ok(w) && w == word_le_at(pre.ram@, a as int)
    } else {
        r matches Err(e) && e matches BusError::AddressOutOfBounds(b) && b == a
    })
    &&& !pre.in_ram(a) && rom_contains(pre.rom.spec_start(), pre.rom@.len(), a) ==> post == pre
        && p1 == p0 && (r matches Ok(w) && w == pre.rom@[(a - pre.rom.spec_start()) as int / 4])
    &&& !pre.in_ram(a) && !rom_contains(pre.rom.spec_start(), pre.rom@.len(), a)
        ==> frame_except_io(pre, post) && io_read_post(pre.io, post.io, a, p0, p1, r)
}

/// What a CPU write at `addr` does: masked, then decoded. A RAM write
/// inside the framebuffer region additionally absorbs the touched word
/// into the damage rectangle; a ROM write is a device fault; anything
/// else goes to the I/O bank.
#[verifier::opaque]
pub open spec fn bus_write_rel(
    pre: SystemBus,
    post: SystemBus,
    addr: u32,
    value: u32,
    r: BusResult<()>,
) -> bool {
    let a = addr & !3u32;
    &&& pre.in_ram(a) && a + 4 <= pre.ram@.len() ==> {
        &&& r is Ok
        &&& frame_except_ram(pre, post)
        &&& post.ram@ == store_word_le(pre.ram@, a as int, value)
        &&& post.damage == (if pre.in_fb(a) {
            pre.damage.after_update(
                pre.fb_width_words as int,
                pre.fb_height as int,
                (a - pre.display_start) as int / 4,
            )
        } else {
            pre.damage
        })
        &&& pre.in_fb(a) && ((a - pre.display_start) as int / 4) / (pre.fb_width_words as int)
            < pre.fb_height ==> post.damage.covers(
            ((a - pre.display_start) as int / 4) % (pre.fb_width_words as int),
            ((a - pre.display_start) as int / 4) / (pre.fb_width_words as int),
        )
    }
    &&& pre.in_ram(a) && a + 4 > pre.ram@.len() ==> post == pre && (r matches Err(e)
        && e matches BusError::AddressOutOfBounds(b) && b == a)
    &&& !pre.in_ram(a) && rom_contains(pre.rom.spec_start(), pre.rom@.len(), a) ==> post == pre && (
    r matches Err(e) && e is Device)
    &&& !pre.in_ram(a) && !rom_contains(pre.rom.spec_start(), pre.rom@.len(), a)
        ==> frame_except_io(pre, post) && io_write_post(pre.io, post.io, a, value, r)
}

/// The memory system as the CPU sees it.
pub struct SystemBus {
    pub mem_size: u32,
    pub display_start: u32,
    pub fb_width_words: i32,
    pub fb_height: i32,
    pub damage: Damage,
    pub ram: Ram,
    pub rom: Rom,
    pub io: IoBus,
}

impl SystemBus {
    /// Geometry and device invariants: the RAM matches the configured
    /// size, the framebuffer region lies inside it, and its dimensions
    /// are positive and small enough for pixel arithmetic.
    pub open spec fn wf(&self) -> bool {
        &&& self.ram@.len() == self.mem_size
        &&& self.display_start <= self.mem_size
        &&& 0 < self.fb_width_words <= 0x0100_0000
        &&& 0 <= self.fb_height
        &&& self.display_start + 4 * self.fb_width_words * self.fb_height <= self.mem_size
        &&& self.io.wf()
    }

    /// Whether `addr` decodes to RAM.
    pub open spec fn in_ram(&self, addr: u32) -> bool {
        addr < self.mem_size
    }

    /// Whether `addr` decodes to the framebuffer region of RAM.
    pub open spec fn in_fb(&self, addr: u32) -> bool {
        self.display_start <= addr < self.mem_size
    }

    pub fn new(
        mem_size: u32,
        display_start: u32,
        fb_width_words: i32,
        fb_height: i32,
        damage: Damage,
        ram: Ram,
        rom: Rom,
        io: IoBus,
    ) -> (r: SystemBus)
        requires
            ram@.len() == mem_size,
            display_start <= mem_size,
            0 < fb_width_words <= 0x0100_0000,
            0 <= fb_height,
            display_start + 4 * fb_width_words * fb_height <= mem_size,
            io.wf(),
        ensures
            r.wf(),
            r == (SystemBus { mem_size, display_start, fb_width_words, fb_height, damage, ram, rom, io }),
    {
        SystemBus { mem_size, display_start, fb_width_words, fb_height, damage, ram, rom, io }
    }

    /// Hands out the accumulated damage rectangle and clears it; the
    /// cleared state stays degenerate until the next framebuffer write.
    pub fn reset_damage(&mut self) -> (dmg: Damage)
        ensures
            dmg == old(self).damage,
            final(self).damage.is_cleared(
                old(self).fb_width_words as int,
                old(self).fb_height as int,
            ),
            old(self).fb_width_words > 0 ==> (forall|c: int, r: int| !final(self).damage.covers(
                c,
                r,
            )),
            frame_except_ram(*old(self), *final(self)),
            final(self).ram == old(self).ram,
    {
        let dmg = self.damage;
        self.damage = Damage::cleared(self.fb_width_words, self.fb_height);
        dmg
    }

    /// A CPU read: the address is word-aligned by masking, then decoded
    /// to RAM, ROM or the I/O bank; only I/O reads can move the progress
    /// counter or change device state.
    pub fn read_word_for_cpu(&mut self, addr: u32, progress: &mut u32) -> (r: BusResult<u32>)
        requires
            old(self).wf(),
        ensures
            final(self).wf(),
            bus_read_rel(*old(self), *final(self), addr, *old(progress), *final(progress), r),
    {
        proof {
            reveal(bus_read_rel);
        }
        let a = addr & !3;
        if a < self.mem_size {
            return self.ram.read_word_le(a);
        }
        if self.rom.contains(a) {
            return self.rom.read_word(a);
        }
        self.io.read_word_with_progress(a, progress)
    }

    /// A CPU write: masked, then decoded. A RAM write inside the
    /// framebuffer region additionally absorbs the touched word into the
    /// damage rectangle; a ROM write is a device fault; anything else
    /// goes to the I/O bank.
    pub fn write_word(&mut self, addr: u32, value: u32) -> (r: BusResult<()>)
        requires
            old(self).wf(),
        ensures
            final(self).wf(),
            bus_write_rel(*old(self), *final(self), addr, value, r),
    {
        proof {
            reveal(bus_write_rel);
        }
        let a = addr & !3;

        if a < self.mem_size {
            match self.ram.write_word_le(a, value) {
                Ok(()) => {},
                Err(e) => {
                    return Err(e);
                },
            }
            if a >= self.display_start {
                let fb_word_index = ((a - self.display_start) / 4) as i32;
                let w = self.fb_width_words;
                let h = self.fb_height;
                self.damage.update_word_index(w, h, fb_word_index);
            }
            return Ok(());
        }

        if self.rom.contains(a) {
            return Err(BusError::Device("write to ROM".to_string()));
        }

        self.io.write_word(a, value)
    }

    /// A snapshot of the framebuffer words, read out of RAM starting at
    /// `display_start`.
    pub fn framebuffer_words_copy(&self) -> (out: Vec<u32>)
        requires
            self.wf(),
        ensures
            out@.len() == self.fb_width_words * self.fb_height,
            forall|i: int| #![trigger out@[i]]
                0 <= i < out@.len() ==> out@[i] == word_le_at(
                    self.ram@,
                    self.display_start + 4 * i,
                ),
    {
        proof {
            let w = self.fb_width_words as int;
            let h = self.fb_height as int;
            assert(w * h <= 0x4000_0000 && 4 * (w * h) == 4 * w * h) by (nonlinear_arith)
                requires
                    4 * w * h <= 0x1_0000_0000int && w >= 0 && h >= 0,
            ;
        }
        let words = (self.fb_width_words as usize) * (self.fb_height as usize);
        let mut out: Vec<u32> = Vec::new();
        let mut i: usize = 0;
        while i < words
            invariant
                self.wf(),
                i <= words,
                words == self.fb_width_words * self.fb_height,
                self.display_start + 4 * words <= self.mem_size,
                out@.len() == i,
                forall|j: int| #![trigger out@[j]]
                    0 <= j < i ==> out@[j] == word_le_at(self.ram@, self.display_start + 4 * j),
            decreases words - i,
        {
            let addr = self.display_start + (i as u32) * 4;
            let w = match self.ram.read_word_le(addr) {
                Ok(w) => w,
                Err(_) => 0,
            };
            out.push(w);
            i = i + 1;
        }
        out
    }

    /// The framebuffer width in pixels (32 per word).
    pub fn fb_width_px(&self) -> (r: usize)
        requires
            self.wf(),
        ensures
            r == self.fb_width_words * 32,
    {
        (self.fb_width_words as usize) * 32
    }

    /// The framebuffer height in pixels.
    pub fn fb_height_px(&self) -> (r: usize)
        requires
            self.wf(),
        ensures
            r == self.fb_height,
    {
        self.fb_height as usize
    }

    /// A side-effect-free read for the debug surface: RAM and ROM decode
    /// as for the CPU (though unaligned addresses are not masked here);
    /// I/O is never touched and reads as unmapped.
    pub fn peek_word_le(&self, addr: u32) -> (r: BusResult<u32>)
        requires
            self.wf(),
        ensures
            self.in_ram(addr) && addr + 4 <= self.ram@.len() ==> (r matches Ok(w) && w
                == word_le_at(self.ram@, addr as int)),
            self.in_ram(addr) && addr + 4 > self.ram@.len() ==> (r matches Err(e)
                && e matches BusError::AddressOutOfBounds(b) && b == addr),
            !self.in_ram(addr) && rom_contains(self.rom.spec_start(), self.rom@.len(), addr) ==> (
            r matches Ok(w) && w == self.rom@[(addr - self.rom.spec_start()) as int / 4]),
            !self.in_ram(addr) && !rom_contains(self.rom.spec_start(), self.rom@.len(), addr) ==> (
            r matches Err(e) && e matches BusError::Unmapped(a) && a == addr),
    {
        if addr < self.mem_size {
            return self.ram.read_word_le(addr);
        }
        if self.rom.contains(addr) {
            return self.rom.read_word(addr);
        }
        Err(BusError::Unmapped(addr))
    }
}

} // verus!
