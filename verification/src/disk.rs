//! The SPI disk: a sector-addressable block device spoken through 5-byte
//! command frames, backed by an in-memory word image.
//!
//! The host shell loads a disk file into words before attaching it and is
//! free to write the image back when it is ejected; the protocol, sector
//! arithmetic and filesystem-offset autodetection all live here.
use vstd::prelude::*;
use vstd::slice::SliceAdditionalExecFns;

use crate::errors::{BusError, BusResult};

verus! {

/// Words a backing image may grow to when the guest writes past its end
/// (a 512 MiB capacity).
pub const MAX_IMAGE_WORDS: usize = 0x0200_0000;

/// Magic first word of a filesystem-only image; such an image starts
/// directly at sector 1, and guest sector numbers are offset by 0x80002.
pub const FS_ONLY_MAGIC: u32 = 0x9B1E_A38D;

/// Protocol phase of the disk state machine.
#[derive(Debug, Clone, Copy, PartialEq, Eq, Structural)]
pub enum DiskState {
    DiskCommand,
    DiskRead,
    DiskWrite,
    DiskWriting,
}

/// The disk device.
#[derive(Debug)]
pub struct Disk {
    /// Protocol phase.
    pub state: DiskState,
    /// The backing image, 128 words per sector; `None` reads as zeros and
    /// discards writes.
    pub image: Option<Vec<u32>>,
    /// Sector offset subtracted from guest sector numbers.
    pub offset: u32,
    /// The sector the last READ or WRITE command seeked to.
    pub seek_sec: u32,
    /// 128-word receive buffer.
    pub rx_buf: Vec<u32>,
    pub rx_idx: usize,
    /// 130-word transmit buffer (two prelude words and a sector).
    pub tx_buf: Vec<u32>,
    pub tx_cnt: usize,
    /// Transmit read index; -1 means the next read yields `tx_buf[0]`.
    pub tx_idx: i32,
}

/// The image contents as a sequence, when one is attached.
pub open spec fn img_view(i: Option<Vec<u32>>) -> Option<Seq<u32>> {
    match i {
        Option::None => Option::None,
        Option::Some(v) => Option::Some(v@),
    }
}

/// The 32-bit big-endian argument of a command frame.
pub open spec fn cmd_arg(rx: Seq<u32>) -> u32 {
    (rx[1] << 24) | (rx[2] << 16) | (rx[3] << 8) | rx[4]
}

/// Whether sector `sec` can be read: a detached image reads as zeros, an
/// attached one must contain the whole sector.
pub open spec fn img_read_ok(img: Option<Seq<u32>>, sec: u32) -> bool {
    match img {
        Option::None => true,
        Option::Some(s) => 128 * (sec as int) + 128 <= s.len(),
    }
}

/// The 128 words of sector `sec`; a detached image reads as zeros.
pub open spec fn img_sector(img: Option<Seq<u32>>, sec: u32) -> Seq<u32> {
    match img {
        Option::None => Seq::new(128, |i: int| 0u32),
        Option::Some(s) => s.subrange(128 * (sec as int), 128 * (sec as int) + 128),
    }
}

/// Whether sector `sec` can be written: the image may grow up to the fixed
/// capacity; writes to a detached image are discarded.
pub open spec fn img_write_ok(img: Option<Seq<u32>>, sec: u32) -> bool {
    match img {
        Option::None => true,
        Option::Some(s) => 128 * (sec as int) + 128 <= MAX_IMAGE_WORDS,
    }
}

/// The image after writing `data` to sector `sec`: zero-padded out to the
/// end of the sector if it was shorter, with the sector replaced.
pub open spec fn img_after_write(img: Option<Seq<u32>>, sec: u32, data: Seq<u32>) -> Option<
    Seq<u32>,
> {
    match img {
        Option::None => Option::None,
        Option::Some(s) => {
            let start = 128 * (sec as int);
            let padded = if s.len() >= start + 128 {
                s
            } else {
                s + Seq::new((start + 128 - s.len()) as nat, |i: int| 0u32)
            };
            Option::Some(
                padded.subrange(0, start) + data + padded.subrange(
                    start + 128,
                    padded.len() as int,
                ),
            )
        },
    }
}

/// What a command dispatch does, given the receive buffer `rx` and the
/// pre-dispatch transmit state: opcode 81 seeks and loads a sector behind
/// two prelude words, opcode 88 seeks and acknowledges a write, anything
/// else is acknowledged with a single byte.
pub open spec fn run_command_rel(
    rx: Seq<u32>,
    offset: u32,
    pre_img: Option<Seq<u32>>,
    pre_tx: Seq<u32>,
    pre_tx_cnt: usize,
    pre_tx_idx: i32,
    pre_seek: u32,
    post: Disk,
    r: BusResult<()>,
) -> bool {
    let cmd = rx[0];
    let arg = cmd_arg(rx);
    let sec = arg.wrapping_sub(offset);
    &&& img_view(post.image) == pre_img
    &&& post.offset == offset
    &&& if cmd == 81 {
        &&& post.seek_sec == sec
        &&& if img_read_ok(pre_img, sec) {
            &&& r is Ok
            &&& post.state is DiskRead
            &&& post.tx_buf@ == seq![0u32, 254u32] + img_sector(pre_img, sec)
            &&& post.tx_cnt == 130
            &&& post.tx_idx == -1
        } else {
            &&& (r matches Err(e) && e is Device)
            &&& post.state is DiskRead
            &&& post.tx_buf@ == pre_tx.update(0, 0u32).update(1, 254u32)
            &&& post.tx_cnt == pre_tx_cnt
            &&& post.tx_idx == pre_tx_idx
        }
    } else if cmd == 88 {
        &&& r is Ok
        &&& post.state is DiskWrite
        &&& post.seek_sec == sec
        &&& post.tx_buf@ == pre_tx.update(0, 0u32)
        &&& post.tx_cnt == 1
        &&& post.tx_idx == -1
    } else {
        &&& r is Ok
        &&& post.state is DiskCommand
        &&& post.seek_sec == pre_seek
        &&& post.tx_buf@ == pre_tx.update(0, 0u32)
        &&& post.tx_cnt == 1
        &&& post.tx_idx == -1
    }
}

/// What one byte written to the device does, per protocol phase.
pub open spec fn write_data_post(pre: Disk, post: Disk, value: u32, r: BusResult<()>) -> bool {
    let ti = pre.tx_idx.wrapping_add(1);
    match pre.state {
        DiskState::DiskCommand => {
            if (value as u8) != 0xFF || pre.rx_idx != 0 {
                let rx1 = pre.rx_buf@.update(pre.rx_idx as int, value);
                if pre.rx_idx + 1 == 6 {
                    &&& run_command_rel(
                        rx1,
                        pre.offset,
                        img_view(pre.image),
                        pre.tx_buf@,
                        pre.tx_cnt,
                        ti,
                        pre.seek_sec,
                        post,
                        r,
                    )
                    &&& post.rx_buf@ == rx1
                    &&& post.rx_idx == 0
                } else {
                    &&& r is Ok
                    &&& post == (Disk {
                        rx_buf: post.rx_buf,
                        rx_idx: (pre.rx_idx + 1) as usize,
                        tx_idx: ti,
                        ..pre
                    })
                    &&& post.rx_buf@ == rx1
                }
            } else {
                &&& r is Ok
                &&& post == (Disk { tx_idx: ti, ..pre })
            }
        },
        DiskState::DiskRead => {
            &&& r is Ok
            &&& if ti >= pre.tx_cnt {
                post == (Disk { state: DiskState::DiskCommand, tx_cnt: 0usize, tx_idx: 0i32, ..pre })
            } else {
                post == (Disk { tx_idx: ti, ..pre })
            }
        },
        DiskState::DiskWrite => {
            &&& r is Ok
            &&& if value == 254 {
                post == (Disk { state: DiskState::DiskWriting, tx_idx: ti, ..pre })
            } else {
                post == (Disk { tx_idx: ti, ..pre })
            }
        },
        DiskState::DiskWriting => {
            let rx1 = if pre.rx_idx < 128 {
                pre.rx_buf@.update(pre.rx_idx as int, value)
            } else {
                pre.rx_buf@
            };
            let ri1 = (pre.rx_idx + 1) as usize;
            &&& post.rx_buf@ == rx1
            &&& post.offset == pre.offset
            &&& post.seek_sec == pre.seek_sec
            &&& if ri1 == 128 {
                if img_write_ok(img_view(pre.image), pre.seek_sec) {
                    &&& r is Ok
                    &&& img_view(post.image) == img_after_write(
                        img_view(pre.image),
                        pre.seek_sec,
                        rx1,
                    )
                    &&& post.state is DiskWriting
                    &&& post.rx_idx == ri1
                    &&& post.tx_buf@ == pre.tx_buf@
                    &&& post.tx_cnt == pre.tx_cnt
                    &&& post.tx_idx == ti
                } else {
                    &&& (r matches Err(e) && e is Device)
                    &&& img_view(post.image) == img_view(pre.image)
                    &&& post.state is DiskWriting
                    &&& post.rx_idx == ri1
                    &&& post.tx_buf@ == pre.tx_buf@
                    &&& post.tx_cnt == pre.tx_cnt
                    &&& post.tx_idx == ti
                }
            } else if ri1 == 130 {
                &&& r is Ok
                &&& img_view(post.image) == img_view(pre.image)
                &&& post.state is DiskCommand
                &&& post.rx_idx == 0
                &&& post.tx_buf@ == pre.tx_buf@.update(0, 5u32)
                &&& post.tx_cnt == 1
                &&& post.tx_idx == -1
            } else {
                &&& r is Ok
                &&& img_view(post.image) == img_view(pre.image)
                &&& post.state is DiskWriting
                &&& post.rx_idx == ri1
                &&& post.tx_buf@ == pre.tx_buf@
                &&& post.tx_cnt == pre.tx_cnt
                &&& post.tx_idx == ti
            }
        },
    }
}

impl Disk {
    /// Buffer sizes and index bounds the protocol relies on.
    pub open spec fn wf(&self) -> bool {
        &&& self.rx_buf@.len() == 128
        &&& self.tx_buf@.len() == 130
        &&& self.tx_cnt <= 130
        &&& self.rx_idx <= 129
        &&& self.state is DiskCommand ==> self.rx_idx < 6
        &&& (self.state is DiskRead || self.state is DiskWrite) ==> self.rx_idx == 0
    }

    /// A disk over `image`, 128 words per sector. If the first word is the
    /// filesystem-only magic, guest sector numbers are offset by 0x80002.
    pub fn new(image: Option<Vec<u32>>) -> (r: Disk)
        ensures
            r.wf(),
            r.state is DiskCommand,
            img_view(r.image) == img_view(image),
            r.offset == (match img_view(image) {
                Option::Some(s) => if s.len() > 0 && s[0] == FS_ONLY_MAGIC {
                    0x80002u32
                } else {
                    0u32
                },
                Option::None => 0u32,
            }),
            r.seek_sec == 0 && r.rx_idx == 0 && r.tx_cnt == 0 && r.tx_idx == 0,
    {
        let mut offset: u32 = 0;
        let image = match image {
            Option::Some(img) => {
                if img.len() > 0 && img[0] == FS_ONLY_MAGIC {
                    offset = 0x80002;
                }
                Option::Some(img)
            },
            Option::None => Option::None,
        };
        Disk {
            state: DiskState::DiskCommand,
            image,
            offset,
            seek_sec: 0,
            rx_buf: vec![0u32; 128],
            rx_idx: 0,
            tx_buf: vec![0u32; 130],
            tx_cnt: 0,
            tx_idx: 0,
        }
    }

    /// Reads sector `sec` of the image; a detached image reads as zeros,
    /// and a sector past the end of an attached one is a device fault.
    fn read_sector_words(&self, sec: u32) -> (r: BusResult<Vec<u32>>)
        ensures
            img_read_ok(img_view(self.image), sec) ==> (r matches Ok(v) && v@ == img_sector(
                img_view(self.image),
                sec,
            )),
            !img_read_ok(img_view(self.image), sec) ==> (r matches Err(e) && e is Device),
    {
        match &self.image {
            Option::None => {
                let mut out: Vec<u32> = Vec::new();
                let mut i: usize = 0;
                while i < 128
                    invariant
                        i <= 128,
                        out@.len() == i,
                        forall|j: int| 0 <= j < i ==> out@[j] == 0u32,
                    decreases 128 - i,
                {
                    out.push(0);
                    i = i + 1;
                }
                proof {
                    assert(out@ =~= Seq::new(128, |i: int| 0u32));
                }
                Ok(out)
            },
            Option::Some(img) => {
                if (sec as u64) * 128 + 128 > img.len() as u64 {
                    return Err(BusError::Device("disk read past end of image".to_string()));
                }
                let start = (sec as usize) * 128;
                let mut out: Vec<u32> = Vec::new();
                let mut i: usize = 0;
                while i < 128
                    invariant
                        i <= 128,
                        out@.len() == i,
                        start == 128 * (sec as int),
                        start + 128 <= img@.len(),
                        forall|j: int| 0 <= j < i ==> out@[j] == img@[start + j],
                    decreases 128 - i,
                {
                    out.push(img[start + i]);
                    i = i + 1;
                }
                proof {
                    assert(out@ =~= img_sector(img_view(self.image), sec));
                }
                Ok(out)
            },
        }
    }

    /// Writes the receive buffer to sector `sec`, padding the image with
    /// zeros if it ends before the sector; growing past the capacity is a
    /// device fault, and a detached image discards the write.
    fn write_sector_words(&mut self, sec: u32) -> (r: BusResult<()>)
        requires
            old(self).rx_buf@.len() == 128,
        ensures
            final(self).state == old(self).state,
            final(self).offset == old(self).offset,
            final(self).seek_sec == old(self).seek_sec,
            final(self).rx_buf == old(self).rx_buf,
            final(self).rx_idx == old(self).rx_idx,
            final(self).tx_buf == old(self).tx_buf,
            final(self).tx_cnt == old(self).tx_cnt,
            final(self).tx_idx == old(self).tx_idx,
            img_write_ok(img_view(old(self).image), sec) ==> (r is Ok && img_view(
                final(self).image,
            ) == img_after_write(img_view(old(self).image), sec, old(self).rx_buf@)),
            !img_write_ok(img_view(old(self).image), sec) ==> ((r matches Err(e) && e is Device)
                && img_view(final(self).image) == img_view(old(self).image)),
    {
        let img_opt = self.image.take();
        match img_opt {
            Option::None => {
                Ok(())
            },
            Option::Some(mut img) => {
                if (sec as u64) * 128 + 128 > MAX_IMAGE_WORDS as u64 {
                    self.image = Some(img);
                    return Err(BusError::Device("disk write past capacity".to_string()));
                }
                let start = (sec as usize) * 128;
                let ghost img0 = img@;
                if img.len() < start + 128 {
                    img.resize(start + 128, 0u32);
                    proof {
                        assert forall|i: int| img0.len() <= i < start + 128 implies img@[i]
                            == 0u32 by {
                            assert(vstd::pervasive::cloned::<u32>(0u32, img@[i]));
                        }
                        assert(img@ =~= (if img0.len() >= start + 128 {
                            img0
                        } else {
                            img0 + Seq::new((start + 128 - img0.len()) as nat, |i: int| 0u32)
                        }));
                    }
                }
                let ghost padded = img@;
                let mut i: usize = 0;
                while i < 128
                    invariant
                        i <= 128,
                        img@.len() == padded.len(),
                        padded.len() >= start + 128,
                        start == 128 * (sec as int),
                        self.rx_buf@.len() == 128,
                        forall|j: int| 0 <= j < i ==> img@[start + j] == self.rx_buf@[j],
                        forall|j: int|
                            0 <= j < padded.len() && !(start <= j < start + i) ==> img@[j]
                                == padded[j],
                    decreases 128 - i,
                {
                    let s = img.as_mut_slice();
                    s[start + i] = self.rx_buf[i];
                    i = i + 1;
                }
                proof {
                    assert(img@ =~= padded.subrange(0, start as int) + self.rx_buf@
                        + padded.subrange(start + 128, padded.len() as int));
                }
                self.image = Some(img);
                Ok(())
            },
        }
    }

    /// Dispatches a complete 6-byte command frame.
    fn run_command(&mut self) -> (r: BusResult<()>)
        requires
            old(self).state is DiskCommand,
            old(self).rx_buf@.len() == 128,
            old(self).tx_buf@.len() == 130,
            old(self).tx_cnt <= 130,
        ensures
            final(self).rx_buf@.len() == 128,
            final(self).tx_buf@.len() == 130,
            final(self).tx_cnt <= 130,
            run_command_rel(
                old(self).rx_buf@,
                old(self).offset,
                img_view(old(self).image),
                old(self).tx_buf@,
                old(self).tx_cnt,
                old(self).tx_idx,
                old(self).seek_sec,
                *final(self),
                r,
            ),
            final(self).rx_buf == old(self).rx_buf,
            final(self).rx_idx == old(self).rx_idx,
    {
        let cmd = self.rx_buf[0];
        let arg = (self.rx_buf[1] << 24) | (self.rx_buf[2] << 16) | (self.rx_buf[3] << 8)
            | self.rx_buf[4];
        assert(arg == cmd_arg(self.rx_buf@));

        if cmd == 81 {
            self.state = DiskState::DiskRead;
            let tx = self.tx_buf.as_mut_slice();
            tx[0] = 0;
            tx[1] = 254;
            let sec = arg.wrapping_sub(self.offset);
            self.seek_sec = sec;
            let data = match self.read_sector_words(sec) {
                Ok(d) => d,
                Err(e) => {
                    return Err(e);
                },
            };
            let mut i: usize = 0;
            while i < 128
                invariant
                    i <= 128,
                    self.tx_buf@.len() == 130,
                    data@.len() == 128,
                    self.tx_buf@[0] == 0u32 && self.tx_buf@[1] == 254u32,
                    forall|j: int| 0 <= j < i ==> self.tx_buf@[2 + j] == data@[j],
                    self.state is DiskRead,
                    self.image == old(self).image,
                    self.offset == old(self).offset,
                    self.seek_sec == sec,
                    self.rx_buf == old(self).rx_buf,
                    self.rx_idx == old(self).rx_idx,
                decreases 128 - i,
            {
                let tx = self.tx_buf.as_mut_slice();
                tx[2 + i] = data[i];
                i = i + 1;
            }
            proof {
                assert(self.tx_buf@ =~= seq![0u32, 254u32] + data@);
            }
            self.tx_cnt = 2 + 128;
            self.tx_idx = -1;
            Ok(())
        } else if cmd == 88 {
            self.state = DiskState::DiskWrite;
            let sec = arg.wrapping_sub(self.offset);
            self.seek_sec = sec;
            let tx = self.tx_buf.as_mut_slice();
            tx[0] = 0;
            self.tx_cnt = 1;
            self.tx_idx = -1;
            Ok(())
        } else {
            let tx = self.tx_buf.as_mut_slice();
            tx[0] = 0;
            self.tx_cnt = 1;
            self.tx_idx = -1;
            Ok(())
        }
    }

    /// Accepts one byte from the host, driving the protocol state machine.
    pub fn write_data(&mut self, value: u32) -> (r: BusResult<()>)
        requires
            old(self).wf(),
        ensures
            final(self).wf(),
            write_data_post(*old(self), *final(self), value, r),
    {
        self.tx_idx = self.tx_idx.wrapping_add(1);

        match self.state {
            DiskState::DiskCommand => {
                if (value as u8) != 0xFF || self.rx_idx != 0 {
                    let rx = self.rx_buf.as_mut_slice();
                    rx[self.rx_idx] = value;
                    self.rx_idx = self.rx_idx + 1;
                    if self.rx_idx == 6 {
                        let res = self.run_command();
                        self.rx_idx = 0;
                        match res {
                            Ok(()) => {},
                            Err(e) => {
                                return Err(e);
                            },
                        }
                    }
                }
                Ok(())
            },
            DiskState::DiskRead => {
                if self.tx_idx >= self.tx_cnt as i32 {
                    self.state = DiskState::DiskCommand;
                    self.tx_cnt = 0;
                    self.tx_idx = 0;
                }
                Ok(())
            },
            DiskState::DiskWrite => {
                if value == 254 {
                    self.state = DiskState::DiskWriting;
                }
                Ok(())
            },
            DiskState::DiskWriting => {
                if self.rx_idx < 128 {
                    let rx = self.rx_buf.as_mut_slice();
                    rx[self.rx_idx] = value;
                }
                self.rx_idx = self.rx_idx + 1;

                if self.rx_idx == 128 {
                    let sec = self.seek_sec;
                    match self.write_sector_words(sec) {
                        Ok(()) => {},
                        Err(e) => {
                            return Err(e);
                        },
                    }
                }

                if self.rx_idx == 130 {
                    let tx = self.tx_buf.as_mut_slice();
                    tx[0] = 5;
                    self.tx_cnt = 1;
                    self.tx_idx = -1;
                    self.rx_idx = 0;
                    self.state = DiskState::DiskCommand;
                }
                Ok(())
            },
        }
    }

    /// Reads the current transmit byte: `tx_buf[tx_idx]` while the index
    /// lies in `[0, tx_cnt)`, otherwise the idle byte 255.
    pub fn read_data(&mut self) -> (r: BusResult<u32>)
        requires
            old(self).wf(),
        ensures
            *final(self) == *old(self),
            (r matches Ok(v) && v == (if 0 <= old(self).tx_idx < old(self).tx_cnt {
                old(self).tx_buf@[old(self).tx_idx as int]
            } else {
                255u32
            })),
    {
        if self.tx_idx >= 0 && (self.tx_idx as usize) < self.tx_cnt {
            Ok(self.tx_buf[self.tx_idx as usize])
        } else {
            Ok(255)
        }
    }
}

/// Writing a sector and then reading the same sector of an attached image
/// yields exactly the words written (the two prelude bytes of the READ
/// response aside).
pub proof fn lemma_disk_sector_round_trip(img: Option<Seq<u32>>, sec: u32, data: Seq<u32>)
    requires
        data.len() == 128,
        img is Some,
        img_write_ok(img, sec),
    ensures
        img_read_ok(img_after_write(img, sec, data), sec),
        img_sector(img_after_write(img, sec, data), sec) == data,
{
    let start = 128 * (sec as int);
    let s = img->Some_0;
    let padded = if s.len() >= start + 128 {
        s
    } else {
        s + Seq::new((start + 128 - s.len()) as nat, |i: int| 0u32)
    };
    let w = padded.subrange(0, start) + data + padded.subrange(start + 128, padded.len() as int);
    assert(w.len() >= start + 128);
    assert(w.subrange(start, start + 128) =~= data);
}

} // verus!
