//! The memory-mapped I/O bus: offset dispatch to the devices, and the
//! progress-counter side effects that keep the guest's polling loops
//! cooperative with the host scheduler.
use vstd::prelude::*;

use crate::clipboard::ClipboardDevice;
use crate::disk::{write_data_post, Disk};
use crate::errors::{BusError, BusResult};
use crate::input::Input;
use crate::switches::Switches;
use crate::timer::Timer;

verus! {

/// The I/O register bank.
pub struct IoBus {
    pub io_start: u32,
    pub timer: Timer,
    pub switches: Switches,
    pub input: Input,
    /// Host clipboard bridge, when one is wired.
    pub clipboard: Option<ClipboardDevice>,
    /// The four SPI slots; the disk normally sits in slot 1.
    pub spi0: Option<Disk>,
    pub spi1: Option<Disk>,
    pub spi2: Option<Disk>,
    pub spi3: Option<Disk>,
    /// Low two bits select the SPI slot spoken to at offset 16.
    pub spi_selected: u32,
}

/// The disk in SPI slot `idx`.
pub open spec fn spi_slot(b: IoBus, idx: u32) -> Option<Disk> {
    if idx == 0 {
        b.spi0
    } else if idx == 1 {
        b.spi1
    } else if idx == 2 {
        b.spi2
    } else {
        b.spi3
    }
}

/// Everything but the input device is unchanged.
pub open spec fn frame_except_input(pre: IoBus, post: IoBus) -> bool {
    &&& post.io_start == pre.io_start
    &&& post.timer == pre.timer
    &&& post.switches == pre.switches
    &&& post.clipboard == pre.clipboard
    &&& post.spi0 == pre.spi0
    &&& post.spi1 == pre.spi1
    &&& post.spi2 == pre.spi2
    &&& post.spi3 == pre.spi3
    &&& post.spi_selected == pre.spi_selected
}

/// Everything but the clipboard bridge is unchanged.
pub open spec fn frame_except_clipboard(pre: IoBus, post: IoBus) -> bool {
    &&& post.io_start == pre.io_start
    &&& post.timer == pre.timer
    &&& post.switches == pre.switches
    &&& post.input == pre.input
    &&& post.spi0 == pre.spi0
    &&& post.spi1 == pre.spi1
    &&& post.spi2 == pre.spi2
    &&& post.spi3 == pre.spi3
    &&& post.spi_selected == pre.spi_selected
}

/// Everything but SPI slot `idx` is unchanged.
pub open spec fn frame_except_spi(pre: IoBus, post: IoBus, idx: u32) -> bool {
    &&& post.io_start == pre.io_start
    &&& post.timer == pre.timer
    &&& post.switches == pre.switches
    &&& post.input == pre.input
    &&& post.clipboard == pre.clipboard
    &&& post.spi_selected == pre.spi_selected
    &&& idx != 0 ==> post.spi0 == pre.spi0
    &&& idx != 1 ==> post.spi1 == pre.spi1
    &&& idx != 2 ==> post.spi2 == pre.spi2
    &&& idx != 3 ==> post.spi3 == pre.spi3
}

/// What the clipboard control read promises, lifted over the optional
/// device (no device reads as 0).
pub open spec fn clip_control_read_post(
    pre: Option<ClipboardDevice>,
    post: Option<ClipboardDevice>,
    v: u32,
) -> bool {
    match pre {
        Option::None => post == pre && v == 0,
        Option::Some(c0) => match post {
            Option::None => false,
            Option::Some(c1) => {
                &&& c1.ptr == 0
                &&& c1.state is Idle || c1.state is Get
                &&& c1.state is Idle ==> v == 0 && c1.data@.len() == 0
                &&& c1.state is Get ==> ({
                    let n = c1.data@.len();
                    n > 0 && v == (if n > u32::MAX {
                        u32::MAX
                    } else {
                        n as u32
                    })
                })
            },
        },
    }
}

impl IoBus {
    /// Devices hold their own invariants.
    pub open spec fn wf(&self) -> bool {
        &&& self.input.wf()
        &&& (self.spi0 matches Option::Some(d) ==> d.wf())
        &&& (self.spi1 matches Option::Some(d) ==> d.wf())
        &&& (self.spi2 matches Option::Some(d) ==> d.wf())
        &&& (self.spi3 matches Option::Some(d) ==> d.wf())
    }

    /// A bus at `io_start` with the basic devices, no clipboard and empty
    /// SPI slots.
    pub fn new(io_start: u32, timer: Timer, switches: Switches, input: Input) -> (r: IoBus)
        requires
            input.wf(),
        ensures
            r.wf(),
            r.io_start == io_start,
            r.timer == timer,
            r.switches == switches,
            r.input == input,
            r.clipboard is None,
            r.spi0 is None && r.spi1 is None && r.spi2 is None && r.spi3 is None,
            r.spi_selected == 0,
    {
        IoBus {
            io_start,
            timer,
            switches,
            input,
            clipboard: None,
            spi0: None,
            spi1: None,
            spi2: None,
            spi3: None,
            spi_selected: 0,
        }
    }

    /// Puts `disk` into SPI slot `slot` (or empties it with `None`);
    /// slots past 3 are a device fault.
    pub fn set_spi(&mut self, slot: u32, disk: Option<Disk>) -> (r: BusResult<()>)
        requires
            old(self).wf(),
            disk matches Option::Some(d) ==> d.wf(),
        ensures
            final(self).wf(),
            slot <= 3 ==> (r is Ok && frame_except_spi(*old(self), *final(self), slot) && spi_slot(
                *final(self),
                slot,
            ) == disk),
            slot > 3 ==> *final(self) == *old(self),
            slot > 3 ==> (r matches Err(e) && e is Device),
    {
        match slot {
            0 => {
                self.spi0 = disk;
                Ok(())
            },
            1 => {
                self.spi1 = disk;
                Ok(())
            },
            2 => {
                self.spi2 = disk;
                Ok(())
            },
            3 => {
                self.spi3 = disk;
                Ok(())
            },
            _ => Err(BusError::Device("no such SPI slot".to_string())),
        }
    }

    /// One tick off the progress counter, stopping at zero.
    pub fn progress_dec(progress: u32) -> (r: u32)
        ensures
            r == (if progress > 0 {
                (progress - 1) as u32
            } else {
                0u32
            }),
    {
        if progress > 0 {
            progress - 1
        } else {
            0
        }
    }

    /// A CPU read of the I/O word at `addr`. Reading the millisecond
    /// counter, or the input status while no scancode waits, costs one
    /// tick of progress; every other outcome leaves progress alone.
    pub fn read_word_with_progress(&mut self, addr: u32, progress: &mut u32) -> (r: BusResult<u32>)
        requires
            old(self).wf(),
        ensures
            final(self).wf(),
            io_read_post(*old(self), *final(self), addr, *old(progress), *final(progress), r),
    {
        if addr < self.io_start {
            return Err(BusError::Unmapped(addr));
        }
        let off = addr - self.io_start;

        match off {
            0 => {
                *progress = Self::progress_dec(*progress);
                self.timer.read(0)
            },
            4 => self.switches.read(4),
            8 => Ok(0),
            12 => Ok(0),
            16 => {
                let sel = self.spi_selected;
                let idx = sel & 3;
                assert(idx <= 3) by (bit_vector)
                    requires
                        idx == sel & 3,
                ;
                match idx {
                    0 => match &mut self.spi0 {
                        Some(d) => d.read_data(),
                        None => Ok(255),
                    },
                    1 => match &mut self.spi1 {
                        Some(d) => d.read_data(),
                        None => Ok(255),
                    },
                    2 => match &mut self.spi2 {
                        Some(d) => d.read_data(),
                        None => Ok(255),
                    },
                    _ => match &mut self.spi3 {
                        Some(d) => d.read_data(),
                        None => Ok(255),
                    },
                }
            },
            20 => Ok(1),
            24 => {
                let v = self.input.read_mouse_and_kb_status();
                if (v & 0x1000_0000) == 0 {
                    *progress = Self::progress_dec(*progress);
                }
                Ok(v)
            },
            28 => Ok(self.input.read_keyboard_data()),
            40 => match &mut self.clipboard {
                Some(c) => Ok(c.read_control()),
                None => Ok(0),
            },
            44 => match &mut self.clipboard {
                Some(c) => Ok(c.read_data()),
                None => Ok(0),
            },
            _ => Ok(0),
        }
    }
}

/// What a CPU read of the I/O word at `addr` does: the result, the device
/// effects, and how the progress counter moves from `p0` to `p1`.
pub open spec fn io_read_post(
    pre: IoBus,
    post: IoBus,
    addr: u32,
    p0: u32,
    p1: u32,
    r: BusResult<u32>,
) -> bool {
    &&& addr < pre.io_start ==> post == pre && p1 == p0 && (r matches Err(e)
        && e matches BusError::Unmapped(a) && a == addr)
    &&& addr >= pre.io_start ==> ({
                let off = addr - pre.io_start;
                &&& off == 0 ==> post == pre && (r matches Ok(v) && v == pre.timer.current_tick)
                    && p1 == (if p0 > 0 {
                    (p0 - 1) as u32
                } else {
                    0u32
                })
                &&& off == 4 ==> post == pre && (r matches Ok(v) && v == pre.switches.value)
                    && p1 == p0
                &&& (off == 8 || off == 12) ==> post == pre && (r matches Ok(v) && v == 0)
                    && p1 == p0
                &&& off == 16 ==> post == pre && p1 == p0 && (
                r matches Ok(v) && v == (match spi_slot(pre, pre.spi_selected & 3) {
                    Option::None => 255u32,
                    Option::Some(d) => if 0 <= d.tx_idx < d.tx_cnt {
                        d.tx_buf@[d.tx_idx as int]
                    } else {
                        255u32
                    },
                }))
                &&& off == 20 ==> post == pre && (r matches Ok(v) && v == 1) && p1 == p0
                &&& off == 24 ==> ({
                    let v0 = if pre.input.key_buf@.len() > 0 {
                        pre.input.mouse | 0x1000_0000u32
                    } else {
                        pre.input.mouse
                    };
                    &&& post == pre
                    &&& (r matches Ok(v) && v == v0)
                    &&& p1 == (if v0 & 0x1000_0000 == 0 {
                        if p0 > 0 {
                            (p0 - 1) as u32
                        } else {
                            0u32
                        }
                    } else {
                        p0
                    })
                })
                &&& off == 28 ==> frame_except_input(pre, post) && p1 == p0
                    && post.input.mouse == pre.input.mouse && (r matches Ok(v) && (if pre
                    .input
                    .key_buf@
                    .len() == 0 {
                    v == 0 && post.input.key_buf == pre.input.key_buf
                } else {
                    v == pre.input.key_buf@[0] && post.input.key_buf@
                        == pre.input.key_buf@.subrange(1, pre.input.key_buf@.len() as int)
                }))
                &&& off == 40 ==> frame_except_clipboard(pre, post) && p1 == p0 && (
                r matches Ok(v) && clip_control_read_post(pre.clipboard, post.clipboard, v))
                &&& off == 44 ==> frame_except_clipboard(pre, post) && p1 == p0 && (
                r matches Ok(v) && (match pre.clipboard {
                    Option::None => v == 0 && post.clipboard == pre.clipboard,
                    Option::Some(c0) => post.clipboard matches Option::Some(c1) && (if !(c0
                        .state is Get) || c0.ptr >= c0.data@.len() {
                        v == 0 && c1 == c0
                    } else {
                        v == crate::clipboard::get_translate(c0.data@[c0.ptr as int]) as u32 && (
                        if c0.ptr + 1 >= c0.data@.len() {
                            c1.state is Idle && c1.data@.len() == 0 && c1.ptr == 0
                        } else {
                            c1.state == c0.state && c1.data == c0.data && c1.ptr == c0.ptr + 1
                        })
                    }),
                }))
                &&& !(off == 0 || off == 4 || off == 8 || off == 12 || off == 16 || off == 20
                    || off == 24 || off == 28 || off == 40 || off == 44) ==> post == pre && (
                r matches Ok(v) && v == 0) && p1 == p0
            })
}

/// What a CPU write of the I/O word at `addr` does: offset 16 feeds the
/// selected SPI device, offset 20 selects one, offsets 40/44 drive the
/// clipboard; writes anywhere else are accepted and ignored.
pub open spec fn io_write_post(pre: IoBus, post: IoBus, addr: u32, value: u32, r: BusResult<
    ()>) -> bool {
    &&& addr < pre.io_start ==> post == pre && (r matches Err(e)
        && e matches BusError::Unmapped(a) && a == addr)
    &&& addr >= pre.io_start ==> ({
        let off = addr - pre.io_start;

                &&& off == 16 ==> ({
                    let idx = pre.spi_selected & 3;
                    &&& frame_except_spi(pre, post, idx)
                    &&& (match spi_slot(pre, idx) {
                        Option::None => spi_slot(post, idx) is None && r is Ok,
                        Option::Some(d0) => spi_slot(post, idx) matches Option::Some(d1)
                            && write_data_post(d0, d1, value, r),
                    })
                })
                &&& off == 20 ==> r is Ok && post == (IoBus {
                    spi_selected: value & 3,
                    ..pre
                })
                &&& off == 40 ==> r is Ok && frame_except_clipboard(pre, post) && (match pre
                    .clipboard {
                    Option::None => post.clipboard is None,
                    Option::Some(c0) => post.clipboard matches Option::Some(c1) && c1.ptr == 0
                        && c1.cb == c0.cb && (if value == u32::MAX {
                        c1.state is Idle && c1.data@.len() == 0
                    } else {
                        c1.state is Put && c1.data@ == Seq::new(value as nat, |i: int| 0u8)
                    }),
                })
                &&& off == 44 ==> r is Ok && frame_except_clipboard(pre, post) && (match pre
                    .clipboard {
                    Option::None => post.clipboard is None,
                    Option::Some(c0) => post.clipboard matches Option::Some(c1) && (if !(c0
                        .state is Put) || c0.ptr >= c0.data@.len() {
                        c1 == c0
                    } else {
                        let stored = crate::clipboard::put_translate((value & 0xFF) as u8);
                        if c0.ptr + 1 >= c0.data@.len() {
                            c1.state is Idle && c1.data@.len() == 0 && c1.ptr == 0
                        } else {
                            c1.state == c0.state && c1.data@ == c0.data@.update(
                                c0.ptr as int,
                                stored,
                            ) && c1.ptr == c0.ptr + 1 && c1.cb == c0.cb
                        }
                    }),
                })
                &&& !(off == 16 || off == 20 || off == 40 || off == 44) ==> r is Ok && post == pre
    })
}

impl IoBus {
    /// A CPU write of the I/O word at `addr`; see [`io_write_post`].
    pub fn write_word(&mut self, addr: u32, value: u32) -> (r: BusResult<()>)
        requires
            old(self).wf(),
        ensures
            final(self).wf(),
            io_write_post(*old(self), *final(self), addr, value, r),
    {
        if addr < self.io_start {
            return Err(BusError::Unmapped(addr));
        }
        let off = addr - self.io_start;

        match off {
            16 => {
                let sel = self.spi_selected;
                let idx = sel & 3;
                assert(idx <= 3) by (bit_vector)
                    requires
                        idx == sel & 3,
                ;
                match idx {
                    0 => match &mut self.spi0 {
                        Some(d) => d.write_data(value),
                        None => Ok(()),
                    },
                    1 => match &mut self.spi1 {
                        Some(d) => d.write_data(value),
                        None => Ok(()),
                    },
                    2 => match &mut self.spi2 {
                        Some(d) => d.write_data(value),
                        None => Ok(()),
                    },
                    _ => match &mut self.spi3 {
                        Some(d) => d.write_data(value),
                        None => Ok(()),
                    },
                }
            },
            20 => {
                self.spi_selected = value & 3;
                Ok(())
            },
            40 => {
                match &mut self.clipboard {
                    Some(c) => c.write_control(value),
                    None => {},
                }
                Ok(())
            },
            44 => {
                match &mut self.clipboard {
                    Some(c) => c.write_data(value),
                    None => {},
                }
                Ok(())
            },
            _ => Ok(()),
        }
    }
}

} // verus!
