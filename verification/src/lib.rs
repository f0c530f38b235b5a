//! A verified core for a Project Oberon RISC workstation emulator.
//!
//! The crate models a 32-bit processor with 16 general registers, a
//! byte-addressed RAM holding a packed 1-bit framebuffer, a boot ROM, and a
//! memory-mapped I/O bus with a timer, switches, keyboard/mouse input, an
//! SPI-attached sector disk, and a host clipboard bridge.

pub mod bits;
pub mod clipboard;
pub mod cpu;
pub mod disasm;
pub mod disk;
pub mod errors;
pub mod fp;
pub mod framebuffer;
pub mod input;
pub mod io_bus;
pub mod machine;
pub mod ram;
pub mod rom;
pub mod switches;
pub mod system_bus;
pub mod timer;
