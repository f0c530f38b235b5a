use vstd::prelude::*;

use crate::errors::BusResult;

verus! {

/// The DIP-switch bank, readable at I/O offset 4.
#[derive(Debug)]
pub struct Switches {
    pub value: u32,
}

impl Switches {
    pub fn new() -> (r: Switches)
        ensures
            r.value == 0,
    {
        Switches { value: 0 }
    }

    /// Offset 4 reads the switch value; other offsets read as 0.
    pub fn read(&self, offset: u32) -> (r: BusResult<u32>)
        ensures
            (r matches Ok(v) && v == (if offset == 4 {
                self.value
            } else {
                0u32
            })),
    {
        if offset == 4 {
            Ok(self.value)
        } else {
            Ok(0)
        }
    }

    /// All writes are ignored.
    pub fn write(&mut self, offset: u32, value: u32) -> (r: BusResult<()>)
        ensures
            *final(self) == *old(self),
            r is Ok,
    {
        let _ = offset;
        let _ = value;
        Ok(())
    }
}

} // verus!
