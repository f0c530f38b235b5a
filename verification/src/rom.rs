use vstd::prelude::*;

use crate::errors::{BusError, BusResult};

verus! {

/// Whether `addr` falls inside a ROM of `len` words based at `start`.
pub open spec fn rom_contains(start: u32, len: nat, addr: u32) -> bool {
    start <= addr < start + 4 * len
}

/// An immutable word store based at a fixed address.
pub struct Rom {
    words: Vec<u32>,
    start_addr: u32,
}

impl View for Rom {
    type V = Seq<u32>;

    closed spec fn view(&self) -> Seq<u32> {
        self.words@
    }
}

impl Rom {
    /// The base address the ROM was built with.
    pub closed spec fn spec_start(&self) -> u32 {
        self.start_addr
    }

    pub fn new(start_addr: u32, words: Vec<u32>) -> (r: Rom)
        ensures
            r@ == words@,
            r.spec_start() == start_addr,
    {
        Rom { start_addr, words }
    }

    /// Whether `addr` falls inside `[start, start + 4 * len)`.
    pub fn contains(&self, addr: u32) -> (r: bool)
        ensures
            r == rom_contains(self.spec_start(), self@.len(), addr),
    {
        addr >= self.start_addr && (addr as u128) < (self.start_addr as u128) + (self.words.len()
            as u128) * 4
    }

    /// Reads the word whose byte address is `addr`; addresses outside the
    /// ROM are unmapped.
    pub fn read_word(&self, addr: u32) -> (r: BusResult<u32>)
        ensures
            rom_contains(self.spec_start(), self@.len(), addr) ==> (r matches Ok(w) && w == self@[(
            addr - self.spec_start()) as int / 4]),
            !rom_contains(self.spec_start(), self@.len(), addr) ==> (r matches Err(e)
                && e matches BusError::Unmapped(a) && a == addr),
    {
        if !self.contains(addr) {
            return Err(BusError::Unmapped(addr));
        }
        let idx = ((addr - self.start_addr) / 4) as usize;
        assert(4 * (idx as int) <= addr - self.start_addr) by {
            vstd::arithmetic::div_mod::lemma_fundamental_div_mod(
                (addr - self.spec_start()) as int,
                4,
            );
        }
        Ok(self.words[idx])
    }
}

} // verus!
