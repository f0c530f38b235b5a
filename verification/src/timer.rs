use vstd::prelude::*;

use crate::errors::BusResult;

verus! {

/// The millisecond counter, readable at I/O offset 0. The host advances
/// `current_tick` between run slices.
#[derive(Debug)]
pub struct Timer {
    pub current_tick: u32,
}

impl Timer {
    pub fn new() -> (r: Timer)
        ensures
            r.current_tick == 0,
    {
        Timer { current_tick: 0 }
    }

    /// Offset 0 reads the tick counter; other offsets read as 0.
    pub fn read(&self, offset: u32) -> (r: BusResult<u32>)
        ensures
            (r matches Ok(v) && v == (if offset == 0 {
                self.current_tick
            } else {
                0u32
            })),
    {
        if offset == 0 {
            Ok(self.current_tick)
        } else {
            Ok(0)
        }
    }

    /// All writes are ignored.
    pub fn write(&mut self, offset: u32, value: u32) -> (r: BusResult<()>)
        ensures
            *final(self) == *old(self),
            r is Ok,
    {
        let _ = offset;
        let _ = value;
        Ok(())
    }
}

} // verus!
