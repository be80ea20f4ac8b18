//! The fixed 64-entry NTSC colour table of the 2C02: the mapping from a
//! 6-bit palette entry to the RGB triple the host displays.

use vstd::prelude::*;

verus! {

/// The RGB triple for a 6-bit colour index; indices above 0x3F repeat the
/// table modulo 64, as the PPU ignores the higher bits.
#[verifier::opaque]
pub open spec fn spec_ntsc_colour(index: u8) -> (u8, u8, u8) {
    match index % 64 {
        0x00 => (84u8, 84u8, 84u8),
        0x01 => (0u8, 30u8, 116u8),
        0x02 => (8u8, 16u8, 144u8),
        0x03 => (48u8, 0u8, 136u8),
        0x04 => (68u8, 0u8, 100u8),
        0x05 => (92u8, 0u8, 48u8),
        0x06 => (84u8, 4u8, 0u8),
        0x07 => (60u8, 24u8, 0u8),
        0x08 => (32u8, 42u8, 0u8),
        0x09 => (8u8, 58u8, 0u8),
        0x0a => (0u8, 64u8, 0u8),
        0x0b => (0u8, 60u8, 0u8),
        0x0c => (0u8, 50u8, 60u8),
        0x0d => (0u8, 0u8, 0u8),
        0x0e => (0u8, 0u8, 0u8),
        0x0f => (0u8, 0u8, 0u8),
        0x10 => (152u8, 150u8, 152u8),
        0x11 => (8u8, 76u8, 196u8),
        0x12 => (48u8, 50u8, 236u8),
        0x13 => (92u8, 30u8, 228u8),
        0x14 => (136u8, 20u8, 176u8),
        0x15 => (160u8, 20u8, 100u8),
        0x16 => (152u8, 34u8, 32u8),
        0x17 => (120u8, 60u8, 0u8),
        0x18 => (84u8, 90u8, 0u8),
        0x19 => (40u8, 114u8, 0u8),
        0x1a => (8u8, 124u8, 0u8),
        0x1b => (0u8, 118u8, 40u8),
        0x1c => (0u8, 102u8, 120u8),
        0x1d => (0u8, 0u8, 0u8),
        0x1e => (0u8, 0u8, 0u8),
        0x1f => (0u8, 0u8, 0u8),
        0x20 => (236u8, 238u8, 236u8),
        0x21 => (76u8, 154u8, 236u8),
        0x22 => (120u8, 124u8, 236u8),
        0x23 => (176u8, 98u8, 236u8),
        0x24 => (228u8, 84u8, 236u8),
        0x25 => (236u8, 88u8, 180u8),
        0x26 => (236u8, 106u8, 100u8),
        0x27 => (212u8, 136u8, 32u8),
        0x28 => (160u8, 170u8, 0u8),
        0x29 => (116u8, 196u8, 0u8),
        0x2a => (76u8, 208u8, 32u8),
        0x2b => (56u8, 204u8, 108u8),
        0x2c => (56u8, 180u8, 204u8),
        0x2d => (60u8, 60u8, 60u8),
        0x2e => (0u8, 0u8, 0u8),
        0x2f => (0u8, 0u8, 0u8),
        0x30 => (236u8, 238u8, 236u8),
        0x31 => (168u8, 204u8, 236u8),
        0x32 => (188u8, 188u8, 236u8),
        0x33 => (212u8, 178u8, 236u8),
        0x34 => (236u8, 174u8, 236u8),
        0x35 => (236u8, 174u8, 212u8),
        0x36 => (236u8, 180u8, 176u8),
        0x37 => (228u8, 196u8, 144u8),
        0x38 => (204u8, 210u8, 120u8),
        0x39 => (180u8, 222u8, 120u8),
        0x3a => (168u8, 226u8, 144u8),
        0x3b => (152u8, 226u8, 180u8),
        0x3c => (160u8, 214u8, 228u8),
        0x3d => (160u8, 162u8, 160u8),
        0x3e => (0u8, 0u8, 0u8),
        _ => (0u8, 0u8, 0u8),
    }
}

/// Executable twin of `spec_ntsc_colour`.
#[verifier::rlimit(60)]
pub fn ntsc_colour(index: u8) -> (r: (u8, u8, u8))
    ensures
        r == spec_ntsc_colour(index),
{
    proof {
        reveal(spec_ntsc_colour);
    }
    match index % 64 {
        0x00 => (84u8, 84u8, 84u8),
        0x01 => (0u8, 30u8, 116u8),
        0x02 => (8u8, 16u8, 144u8),
        0x03 => (48u8, 0u8, 136u8),
        0x04 => (68u8, 0u8, 100u8),
        0x05 => (92u8, 0u8, 48u8),
        0x06 => (84u8, 4u8, 0u8),
        0x07 => (60u8, 24u8, 0u8),
        0x08 => (32u8, 42u8, 0u8),
        0x09 => (8u8, 58u8, 0u8),
        0x0a => (0u8, 64u8, 0u8),
        0x0b => (0u8, 60u8, 0u8),
        0x0c => (0u8, 50u8, 60u8),
        0x0d => (0u8, 0u8, 0u8),
        0x0e => (0u8, 0u8, 0u8),
        0x0f => (0u8, 0u8, 0u8),
        0x10 => (152u8, 150u8, 152u8),
        0x11 => (8u8, 76u8, 196u8),
        0x12 => (48u8, 50u8, 236u8),
        0x13 => (92u8, 30u8, 228u8),
        0x14 => (136u8, 20u8, 176u8),
        0x15 => (160u8, 20u8, 100u8),
        0x16 => (152u8, 34u8, 32u8),
        0x17 => (120u8, 60u8, 0u8),
        0x18 => (84u8, 90u8, 0u8),
        0x19 => (40u8, 114u8, 0u8),
        0x1a => (8u8, 124u8, 0u8),
        0x1b => (0u8, 118u8, 40u8),
        0x1c => (0u8, 102u8, 120u8),
        0x1d => (0u8, 0u8, 0u8),
        0x1e => (0u8, 0u8, 0u8),
        0x1f => (0u8, 0u8, 0u8),
        0x20 => (236u8, 238u8, 236u8),
        0x21 => (76u8, 154u8, 236u8),
        0x22 => (120u8, 124u8, 236u8),
        0x23 => (176u8, 98u8, 236u8),
        0x24 => (228u8, 84u8, 236u8),
        0x25 => (236u8, 88u8, 180u8),
        0x26 => (236u8, 106u8, 100u8),
        0x27 => (212u8, 136u8, 32u8),
        0x28 => (160u8, 170u8, 0u8),
        0x29 => (116u8, 196u8, 0u8),
        0x2a => (76u8, 208u8, 32u8),
        0x2b => (56u8, 204u8, 108u8),
        0x2c => (56u8, 180u8, 204u8),
        0x2d => (60u8, 60u8, 60u8),
        0x2e => (0u8, 0u8, 0u8),
        0x2f => (0u8, 0u8, 0u8),
        0x30 => (236u8, 238u8, 236u8),
        0x31 => (168u8, 204u8, 236u8),
        0x32 => (188u8, 188u8, 236u8),
        0x33 => (212u8, 178u8, 236u8),
        0x34 => (236u8, 174u8, 236u8),
        0x35 => (236u8, 174u8, 212u8),
        0x36 => (236u8, 180u8, 176u8),
        0x37 => (228u8, 196u8, 144u8),
        0x38 => (204u8, 210u8, 120u8),
        0x39 => (180u8, 222u8, 120u8),
        0x3a => (168u8, 226u8, 144u8),
        0x3b => (152u8, 226u8, 180u8),
        0x3c => (160u8, 214u8, 228u8),
        0x3d => (160u8, 162u8, 160u8),
        0x3e => (0u8, 0u8, 0u8),
        _ => (0u8, 0u8, 0u8),
    }
}

} // verus!
