use vstd::prelude::*;

use crate::errors::{BusError, BusResult};

verus! {

/// The little-endian 32-bit word formed by the four bytes of `s` at `a`.
pub open spec fn word_le_at(s: Seq<u8>, a: int) -> u32
    recommends
        0 <= a,
        a + 4 <= s.len(),
{
    (s[a] as u32) | ((s[a + 1] as u32) << 8) | ((s[a + 2] as u32) << 16) | ((s[a + 3] as u32)
        << 24)
}

/// `s` with the four bytes at `a` replaced by the little-endian encoding of `v`.
pub open spec fn store_word_le(s: Seq<u8>, a: int, v: u32) -> Seq<u8>
    recommends
        0 <= a,
        a + 4 <= s.len(),
{
    s.update(a, v as u8).update(a + 1, (v >> 8) as u8).update(a + 2, (v >> 16) as u8).update(
        a + 3,
        (v >> 24) as u8,
    )
}

/// A contiguous byte store; word accesses are little-endian.
pub struct Ram {
    bytes: Vec<u8>,
}

impl View for Ram {
    type V = Seq<u8>;

    closed spec fn view(&self) -> Seq<u8> {
        self.bytes@
    }
}

impl Ram {
    /// A zero-filled RAM of `size_bytes` bytes.
    pub fn new(size_bytes: u32) -> (r: Ram)
        ensures
            r@.len() == size_bytes,
            forall|i: int| 0 <= i < size_bytes ==> r@[i] == 0u8,
    {
        Ram { bytes: vec![0u8; size_bytes as usize] }
    }

    /// The configured size in bytes.
    pub fn len(&self) -> (r: u32)
        requires
            self@.len() <= u32::MAX,
        ensures
            r == self@.len(),
    {
        self.bytes.len() as u32
    }

    /// Reads the little-endian word whose first byte sits at `addr`;
    /// any access past the end is out of bounds.
    pub fn read_word_le(&self, addr: u32) -> (r: BusResult<u32>)
        ensures
            addr + 4 <= self@.len() ==> (r matches Ok(w) && w == word_le_at(self@, addr as int)),
            addr + 4 > self@.len() ==> (r matches Err(e) && e matches BusError::AddressOutOfBounds(a)
                && a == addr),
    {
        let a = addr as usize;
        if self.bytes.len() < 4 || a > self.bytes.len() - 4 {
            return Err(BusError::AddressOutOfBounds(addr));
        }
        let b0 = self.bytes[a];
        let b1 = self.bytes[a + 1];
        let b2 = self.bytes[a + 2];
        let b3 = self.bytes[a + 3];
        Ok((b0 as u32) | ((b1 as u32) << 8) | ((b2 as u32) << 16) | ((b3 as u32) << 24))
    }

    /// Writes `value` as a little-endian word at `addr`;
    /// any access past the end is out of bounds and leaves the RAM unchanged.
    pub fn write_word_le(&mut self, addr: u32, value: u32) -> (r: BusResult<()>)
        ensures
            addr + 4 <= old(self)@.len() ==> r is Ok && final(self)@ == store_word_le(
                old(self)@,
                addr as int,
                value,
            ),
            addr + 4 > old(self)@.len() ==> *final(self) == *old(self),
            addr + 4 > old(self)@.len() ==> (r matches Err(e)
                && e matches BusError::AddressOutOfBounds(a) && a == addr),
    {
        let a = addr as usize;
        if self.bytes.len() < 4 || a > self.bytes.len() - 4 {
            return Err(BusError::AddressOutOfBounds(addr));
        }
        let s = self.bytes.as_mut_slice();
        s[a] = #[verifier::truncate] (value as u8);
        s[a + 1] = #[verifier::truncate] ((value >> 8) as u8);
        s[a + 2] = #[verifier::truncate] ((value >> 16) as u8);
        s[a + 3] = #[verifier::truncate] ((value >> 24) as u8);
        Ok(())
    }
}

/// Storing a word and reading it back at the same address yields the word:
/// the RAM behaves as a function from aligned addresses to words.
pub proof fn lemma_word_le_round_trip(s: Seq<u8>, a: int, v: u32)
    requires
        0 <= a,
        a + 4 <= s.len(),
    ensures
        word_le_at(store_word_le(s, a, v), a) == v,
{
    let t = store_word_le(s, a, v);
    assert(t[a] == v as u8 && t[a + 1] == (v >> 8) as u8 && t[a + 2] == (v >> 16) as u8 && t[a + 3]
        == (v >> 24) as u8);
    assert((v as u8 as u32) | ((v >> 8) as u8 as u32) << 8 | ((v >> 16) as u8 as u32) << 16 | ((v
        >> 24) as u8 as u32) << 24 == v) by (bit_vector);
}

} // verus!
