//! Core of a cycle-accurate NES emulator: a 6502-family CPU interpreter,
//! the 2C02 picture processing unit, and the bus that couples them to RAM,
//! an NROM cartridge, OAM DMA and the controller ports.
//!
//! The crate holds only the machine model itself; loading a ROM image from
//! disk and presenting the finished framebuffer belong to the host around it.

pub mod bits;
pub mod fault;
pub mod opcodes;
pub mod memory;
pub mod palette;
pub mod ppu;
pub mod cpu;
pub mod driver;
