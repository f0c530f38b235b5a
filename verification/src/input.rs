use vstd::prelude::*;

use crate::errors::{BusError, BusResult};

verus! {

/// Capacity of the keyboard scancode FIFO.
pub const KEY_FIFO_CAP: usize = 16;

/// The mouse/keyboard device.
///
/// `mouse` packs X in bits 0..11, Y in bits 12..23 and the buttons in bits
/// 24..26 (button 1 is bit 26, 2 is bit 25, 3 is bit 24). Reads at offset
/// 24 expose this register with bit 28 set while the scancode FIFO is
/// non-empty; reads at offset 28 consume one scancode.
#[derive(Debug)]
pub struct Input {
    pub mouse: u32,
    pub key_buf: Vec<u8>,
}

impl Input {
    /// The FIFO never holds more than its capacity.
    pub open spec fn wf(&self) -> bool {
        self.key_buf@.len() <= KEY_FIFO_CAP
    }

    pub fn new() -> (r: Input)
        ensures
            r.wf(),
            r.mouse == 0,
            r.key_buf@.len() == 0,
    {
        Input { mouse: 0, key_buf: Vec::new() }
    }

    /// Clamps `v` into the 12-bit coordinate range `[0, 4096)`.
    pub open spec fn clamp_coord(v: i32) -> u32 {
        if v < 0 {
            0u32
        } else if v >= 4096 {
            4095u32
        } else {
            v as u32
        }
    }

    /// Updates the packed mouse coordinates: each axis is clamped into
    /// `[0, 4096)` and written to its 12-bit field; the button and
    /// keyboard-flag bits are untouched.
    pub fn mouse_moved(&mut self, mouse_x: i32, mouse_y: i32)
        ensures
            final(self).key_buf == old(self).key_buf,
            final(self).mouse == ((old(self).mouse & !0x00FF_FFFFu32) | Self::clamp_coord(mouse_x)
                | (Self::clamp_coord(mouse_y) << 12)),
    {
        let cx: u32 = if mouse_x < 0 {
            0
        } else if mouse_x >= 4096 {
            4095
        } else {
            mouse_x as u32
        };
        let cy: u32 = if mouse_y < 0 {
            0
        } else if mouse_y >= 4096 {
            4095
        } else {
            mouse_y as u32
        };
        self.mouse = (self.mouse & !0x00FF_FFFFu32) | cx | (cy << 12);
    }

    /// Sets or clears the bit of `button` (1, 2 or 3); other button numbers
    /// are ignored.
    pub fn mouse_button(&mut self, button: u32, down: bool)
        ensures
            final(self).key_buf == old(self).key_buf,
            final(self).mouse == (if 1 <= button < 4 {
                if down {
                    old(self).mouse | (1u32 << (27 - button) as u32)
                } else {
                    old(self).mouse & !(1u32 << (27 - button) as u32)
                }
            } else {
                old(self).mouse
            }),
    {
        if 1 <= button && button < 4 {
            let bit = 1u32 << (27 - button);
            if down {
                self.mouse = self.mouse | bit;
            } else {
                self.mouse = self.mouse & !bit;
            }
        }
    }

    /// Appends scancodes to the FIFO; if they do not all fit, fails with a
    /// device error and changes nothing.
    pub fn keyboard_input(&mut self, bytes: &[u8]) -> (r: BusResult<()>)
        requires
            old(self).wf(),
        ensures
            final(self).wf(),
            final(self).mouse == old(self).mouse,
            old(self).key_buf@.len() + bytes@.len() <= KEY_FIFO_CAP ==> (r is Ok
                && final(self).key_buf@ == old(self).key_buf@ + bytes@),
            old(self).key_buf@.len() + bytes@.len() > KEY_FIFO_CAP ==> final(self).key_buf == old(
                self,
            ).key_buf,
            old(self).key_buf@.len() + bytes@.len() > KEY_FIFO_CAP ==> (r matches Err(e)
                && e is Device),
    {
        if bytes.len() > KEY_FIFO_CAP - self.key_buf.len() {
            return Err(BusError::Device("keyboard buffer full".to_string()));
        }
        let mut i: usize = 0;
        while i < bytes.len()
            invariant
                i <= bytes@.len(),
                self.key_buf@ == old(self).key_buf@ + bytes@.subrange(0, i as int),
                self.mouse == old(self).mouse,
                old(self).key_buf@.len() + bytes@.len() <= KEY_FIFO_CAP,
            decreases bytes@.len() - i,
        {
            self.key_buf.push(bytes[i]);
            i = i + 1;
        }
        proof {
            assert(bytes@.subrange(0, bytes@.len() as int) == bytes@);
        }
        Ok(())
    }

    /// The packed mouse register, with bit 28 set while a scancode waits.
    pub fn read_mouse_and_kb_status(&self) -> (r: u32)
        ensures
            r == (if self.key_buf@.len() > 0 {
                self.mouse | 0x1000_0000u32
            } else {
                self.mouse
            }),
    {
        let mut m = self.mouse;
        if self.key_buf.len() > 0 {
            m = m | 0x1000_0000;
        }
        m
    }

    /// Pops the head scancode, or reads 0 when the FIFO is empty.
    pub fn read_keyboard_data(&mut self) -> (r: u32)
        requires
            old(self).wf(),
        ensures
            final(self).wf(),
            final(self).mouse == old(self).mouse,
            old(self).key_buf@.len() == 0 ==> r == 0 && final(self).key_buf == old(self).key_buf,
            old(self).key_buf@.len() > 0 ==> r == old(self).key_buf@[0] && final(self).key_buf@
                == old(self).key_buf@.subrange(1, old(self).key_buf@.len() as int),
    {
        if self.key_buf.len() == 0 {
            return 0;
        }
        let sc = self.key_buf.remove(0);
        sc as u32
    }

    /// Offset 24 reads the status register, offset 28 consumes a scancode;
    /// other offsets read as 0.
    pub fn read(&mut self, offset: u32) -> (r: BusResult<u32>)
        requires
            old(self).wf(),
        ensures
            final(self).wf(),
            final(self).mouse == old(self).mouse,
            offset == 24 ==> (r matches Ok(v) && v == (if old(self).key_buf@.len() > 0 {
                old(self).mouse | 0x1000_0000u32
            } else {
                old(self).mouse
            }) && final(self).key_buf == old(self).key_buf),
            offset == 28 ==> (r matches Ok(v) && (if old(self).key_buf@.len() == 0 {
                v == 0 && final(self).key_buf == old(self).key_buf
            } else {
                v == old(self).key_buf@[0] && final(self).key_buf@ == old(self).key_buf@.subrange(
                    1,
                    old(self).key_buf@.len() as int,
                )
            })),
            offset != 24 && offset != 28 ==> (r matches Ok(v) && v == 0 && final(self).key_buf
                == old(self).key_buf),
    {
        match offset {
            24 => Ok(self.read_mouse_and_kb_status()),
            28 => Ok(self.read_keyboard_data()),
            _ => Ok(0),
        }
    }

    /// All writes are ignored.
    pub fn write(&mut self, offset: u32, value: u32) -> (r: BusResult<()>)
        ensures
            *final(self) == *old(self),
            r is Ok,
    {
        let _ = offset;
        let _ = value;
        Ok(())
    }
}

} // verus!
