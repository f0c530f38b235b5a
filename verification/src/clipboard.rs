//! The host clipboard bridge.
//!
//! Oberon uses CR as its line terminator while the host uses LF; the
//! device normalizes in both directions. The host clipboard itself is
//! reached through a handful of trusted wrappers around `arboard`; all
//! protocol state, cursors and byte translation are verified here.
use vstd::prelude::*;

use crate::errors::BusResult;

verus! {

#[verifier::external_type_specification]
#[verifier::external_body]
pub struct ExClipboard(arboard::Clipboard);

/// Protocol phase of the clipboard bridge.
#[derive(Debug, Clone, Copy, PartialEq, Eq, Structural)]
pub enum ClipState {
    Idle,
    Get,
    Put,
}

/// Translation applied to bytes the guest writes: CR becomes LF.
pub open spec fn put_translate(b: u8) -> u8 {
    if b == 13 {
        10
    } else {
        b
    }
}

/// Translation applied to bytes the guest reads: LF becomes CR.
pub open spec fn get_translate(b: u8) -> u8 {
    if b == 10 {
        13
    } else {
        b
    }
}

/// A GET after a PUT returns the original bytes wherever they held no LF:
/// every CR survives the round trip through the host's LF convention.
pub proof fn lemma_clipboard_round_trip(s: Seq<u8>)
    requires
        forall|i: int| 0 <= i < s.len() ==> s[i] != 10u8,
    ensures
        s.map_values(|b: u8| put_translate(b)).map_values(|b: u8| get_translate(b)) == s,
{
    let t = s.map_values(|b: u8| put_translate(b)).map_values(|b: u8| get_translate(b));
    assert forall|i: int| 0 <= i < s.len() implies t[i] == s[i] by {
        assert(s[i] != 10u8);
    }
    assert(t =~= s);
}

/// Relies on `arboard::Clipboard::new`: builds a host clipboard handle.
/// A platform without one is reported as `None`; the bridge then behaves
/// as if the host clipboard were empty.
#[verifier::external_body]
fn host_clipboard_new() -> Option<arboard::Clipboard> {
    arboard::Clipboard::new().ok()
}

/// Relies on `arboard::Clipboard::get_text`: the host clipboard's current
/// text as UTF-8 bytes, or `None` when it holds none. The result depends
/// on the host environment, so nothing is promised of it.
#[verifier::external_body]
fn host_get_bytes(cb: &mut arboard::Clipboard) -> Option<Vec<u8>> {
    match cb.get_text() {
        Ok(t) => Some(t.into_bytes()),
        Err(_) => None,
    }
}

/// Relies on `arboard::Clipboard::set_text`: hands `bytes` to the host
/// clipboard when they are valid UTF-8. Failures are swallowed; the host
/// clipboard is outside the machine state, so nothing is promised.
#[verifier::external_body]
fn host_set_bytes(cb: &mut arboard::Clipboard, bytes: &Vec<u8>) {
    match String::from_utf8(bytes.clone()) {
        Ok(s) => {
            let _ = cb.set_text(s);
        },
        Err(_) => {},
    }
}

/// The clipboard device, spoken at I/O offsets 40 (control) and 44 (data).
pub struct ClipboardDevice {
    pub state: ClipState,
    pub data: Vec<u8>,
    pub ptr: usize,
    /// Host clipboard handle; `None` when the host offers none.
    pub cb: Option<arboard::Clipboard>,
}

impl ClipboardDevice {
    /// A device in the idle state, holding a host clipboard handle when
    /// one can be had; without one, GET reads empty and PUT is discarded.
    pub fn new() -> (r: ClipboardDevice)
        ensures
            r.state is Idle,
            r.data@.len() == 0,
            r.ptr == 0,
    {
        ClipboardDevice { state: ClipState::Idle, data: Vec::new(), ptr: 0, cb: host_clipboard_new() }
    }

    /// Back to idle with an empty buffer; the host handle is kept.
    fn reset(&mut self)
        ensures
            final(self).state is Idle,
            final(self).data@.len() == 0,
            final(self).ptr == 0,
            final(self).cb == old(self).cb,
    {
        self.state = ClipState::Idle;
        self.data.clear();
        self.ptr = 0;
    }

    /// Starts a GET over the given text bytes: with no bytes the device
    /// idles and reads 0; else it holds them for data reads and returns
    /// how many there are (saturated to 32 bits).
    pub fn begin_get(&mut self, bytes: Vec<u8>) -> (r: u32)
        ensures
            final(self).ptr == 0,
            final(self).cb == old(self).cb,
            bytes@.len() == 0 ==> (final(self).state is Idle && final(self).data@.len() == 0 && r
                == 0),
            bytes@.len() > 0 ==> (final(self).state is Get && final(self).data@ == bytes@ && r == (
            if bytes@.len() > u32::MAX {
                u32::MAX
            } else {
                bytes@.len() as u32
            })),
    {
        self.reset();
        if bytes.len() == 0 {
            return 0;
        }
        let n = bytes.len();
        self.data = bytes;
        self.state = ClipState::Get;
        if n > u32::MAX as usize {
            u32::MAX
        } else {
            n as u32
        }
    }

    /// Control read: queries the host clipboard and prepares a GET over
    /// its text, reporting the byte length; with no text the device idles
    /// and reads 0.
    pub fn read_control(&mut self) -> (r: u32)
        ensures
            final(self).ptr == 0,
            final(self).state is Idle || final(self).state is Get,
            final(self).state is Idle ==> (r == 0 && final(self).data@.len() == 0),
            final(self).state is Get ==> ({
                let n = final(self).data@.len();
                n > 0 && r == (if n > u32::MAX {
                    u32::MAX
                } else {
                    n as u32
                })
            }),
    {
        self.reset();
        let bytes = match &mut self.cb {
            Some(c) => host_get_bytes(c),
            None => None,
        };
        match bytes {
            Some(b) => self.begin_get(b),
            None => 0,
        }
    }

    /// Control write: the all-ones value resets the device; any other
    /// value allocates a PUT buffer of that many zero bytes.
    pub fn write_control(&mut self, len: u32)
        ensures
            final(self).ptr == 0,
            final(self).cb == old(self).cb,
            len == u32::MAX ==> (final(self).state is Idle && final(self).data@.len() == 0),
            len != u32::MAX ==> (final(self).state is Put && final(self).data@ == Seq::new(
                len as nat,
                |i: int| 0u8,
            )),
    {
        self.reset();
        if len == u32::MAX {
            return ;
        }
        let mut buf: Vec<u8> = Vec::new();
        let mut i: u32 = 0;
        while i < len
            invariant
                i <= len,
                buf@.len() == i,
                forall|j: int| 0 <= j < i ==> buf@[j] == 0u8,
                self.state is Idle,
                self.ptr == 0,
                self.cb == old(self).cb,
            decreases len - i,
        {
            buf.push(0);
            i = i + 1;
        }
        proof {
            assert(buf@ =~= Seq::new(len as nat, |i: int| 0u8));
        }
        self.data = buf;
        self.state = ClipState::Put;
    }

    /// Data read: in GET, the next byte with LF turned into CR, resetting
    /// when the last byte goes out; otherwise 0.
    pub fn read_data(&mut self) -> (r: u32)
        ensures
            final(self).cb == old(self).cb,
            !(old(self).state is Get) || old(self).ptr >= old(self).data@.len() ==> (r == 0
                && *final(self) == *old(self)),
            old(self).state is Get && old(self).ptr < old(self).data@.len() ==> {
                &&& r == get_translate(old(self).data@[old(self).ptr as int]) as u32
                &&& (if old(self).ptr + 1 >= old(self).data@.len() {
                    final(self).state is Idle && final(self).data@.len() == 0 && final(self).ptr
                        == 0
                } else {
                    final(self).state == old(self).state && final(self).data == old(self).data
                        && final(self).ptr == old(self).ptr + 1
                })
            },
    {
        if !matches!(self.state, ClipState::Get) || self.ptr >= self.data.len() {
            return 0;
        }
        let mut c = self.data[self.ptr];
        self.ptr = self.ptr + 1;
        if c == 10 {
            c = 13;
        }
        if self.ptr >= self.data.len() {
            self.reset();
        }
        c as u32
    }

    /// Data write: in PUT, stores the byte with CR turned into LF; filling
    /// the buffer commits it to the host clipboard and resets. Outside PUT
    /// the byte is discarded.
    pub fn write_data(&mut self, c: u32)
        ensures
            !(old(self).state is Put) || old(self).ptr >= old(self).data@.len() ==> *final(self)
                == *old(self),
            old(self).state is Put && old(self).ptr < old(self).data@.len() ==> {
                let stored = put_translate((c & 0xFF) as u8);
                if old(self).ptr + 1 >= old(self).data@.len() {
                    final(self).state is Idle && final(self).data@.len() == 0 && final(self).ptr
                        == 0
                } else {
                    final(self).state == old(self).state && final(self).data@ == old(
                        self,
                    ).data@.update(old(self).ptr as int, stored) && final(self).ptr == old(
                        self,
                    ).ptr + 1 && final(self).cb == old(self).cb
                }
            },
    {
        if !matches!(self.state, ClipState::Put) || self.ptr >= self.data.len() {
            return ;
        }
        let mut ch = #[verifier::truncate] ((c & 0xFF) as u8);
        if ch == 13 {
            ch = 10;
        }
        let s = self.data.as_mut_slice();
        s[self.ptr] = ch;
        self.ptr = self.ptr + 1;

        if self.ptr >= self.data.len() {
            match &mut self.cb {
                Some(host) => host_set_bytes(host, &self.data),
                None => {},
            }
            self.reset();
        }
    }

}

} // verus!
