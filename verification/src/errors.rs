use vstd::prelude::*;

verus! {

/// A fault raised by a bus access.
#[derive(Debug)]
pub enum BusError {
    /// A RAM access past the configured memory size.
    AddressOutOfBounds(u32),
    /// An address that decodes to no region.
    Unmapped(u32),
    /// A device fault (write to ROM, keyboard overflow, disk fault),
    /// with a human-readable description.
    Device(String),
}

pub type BusResult<T> = Result<T, BusError>;

} // verus!
