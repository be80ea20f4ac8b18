//! Error taxonomy of the emulator core.
//!
//! Emulation is deterministic, so none of these faults is retried: a ROM
//! that fails to load is rejected once, and a fault raised while stepping
//! the machine ends the session.

use vstd::prelude::*;

verus! {

/// Why a ROM image was rejected at load time.
#[derive(Clone, Copy, Debug, PartialEq, Eq, Structural)]
pub enum RomFormatError {
    /// The first four bytes are not the iNES magic `N E S 0x1A`.
    BadMagic,
    /// The header names a mapper other than 0 (NROM).
    UnsupportedMapper,
    /// The image is shorter than the header, trainer and ROM banks it announces.
    Truncated,
    /// PRG-ROM is not 16 or 32 KiB, or CHR-ROM is not 8 KiB.
    UnsupportedLayout,
}

/// A fault raised while stepping the machine.
#[derive(Clone, Copy, Debug, PartialEq, Eq, Structural)]
pub enum EmuFault {
    /// A CPU access touched an address no device decodes.
    BusMap { address: u16 },
    /// An opcode slot that no documented or undocumented instruction fills.
    DecodeAnomaly { opcode: u8 },
    /// A BRK instruction: execution stops with a terminal report.
    Brk,
}

} // verus!
