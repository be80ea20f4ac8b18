//! The bus: 2 KiB internal RAM with mirroring, the NROM cartridge (PRG and
//! CHR), the controller shift registers, the OAM DMA latches, and the
//! address decoding that connects the CPU to all of them and to the PPU's
//! register window.
//!
//! Every access is specified against `MemSnap`, a mathematical snapshot of
//! the bus state, so a read with side effects (a PPU register, a controller
//! port) says exactly which state comes out.

use vstd::prelude::*;
use crate::fault::{EmuFault, RomFormatError};
use crate::ppu::{Ppu, PpuSnap};
use crate::ppu;
use crate::bits::zero_vec;

verus! {

/// Parsed iNES header fields that the core needs at run time.
#[derive(Clone, Copy, Debug, PartialEq, Eq, Structural)]
pub struct RomHeader {
    /// PRG-ROM size in bytes (16 or 32 KiB for NROM).
    pub prg_size: usize,
    /// CHR-ROM size in bytes (8 KiB for NROM).
    pub chr_size: usize,
    /// Header byte 6: mirroring, battery, trainer, low mapper nibble.
    pub flags_six: u8,
    /// Header byte 7: high mapper nibble.
    pub flags_seven: u8,
}

/// The iNES magic `N E S 0x1A` heads every accepted ROM image.
pub open spec fn spec_magic_ok(rom: Seq<u8>) -> bool {
    rom[0] == 0x4eu8 && rom[1] == 0x45u8 && rom[2] == 0x53u8 && rom[3] == 0x1au8
}

/// Mapper id: high nibble from header byte 7, low nibble from byte 6.
pub open spec fn spec_mapper_number(flags_six: u8, flags_seven: u8) -> u8 {
    (flags_seven & 0xf0) | (flags_six / 16)
}

impl RomHeader {
    /// Parses the 16 header bytes; rejects an image without the iNES magic.
    pub fn from_bytes(bytes: &[u8; 16]) -> (r: Result<RomHeader, RomFormatError>)
        ensures
            !spec_magic_ok(bytes@) ==> r == Err::<RomHeader, RomFormatError>(RomFormatError::BadMagic),
            spec_magic_ok(bytes@) ==> r == Ok::<RomHeader, RomFormatError>((RomHeader {
                prg_size: (bytes@[4] * 16384) as usize,
                chr_size: (bytes@[5] * 8192) as usize,
                flags_six: bytes@[6],
                flags_seven: bytes@[7],
            })),
    {
        if !(bytes[0] == 0x4e && bytes[1] == 0x45 && bytes[2] == 0x53 && bytes[3] == 0x1a) {
            return Err(RomFormatError::BadMagic);
        }
        Ok(RomHeader {
            prg_size: bytes[4] as usize * 16384,
            chr_size: bytes[5] as usize * 8192,
            flags_six: bytes[6],
            flags_seven: bytes[7],
        })
    }

    /// The mapper id the header names.
    pub fn get_mapper_number(&self) -> (r: u8)
        ensures
            r == spec_mapper_number(self.flags_six, self.flags_seven),
    {
        (self.flags_seven & 0xf0) | (self.flags_six / 16)
    }

    /// Nametable mirroring: bit 0 of byte 6 (0 horizontal, 1 vertical).
    pub fn has_vertical_mirroring(&self) -> (r: bool)
        ensures
            r == (self.flags_six & 1 != 0),
    {
        self.flags_six & 1 != 0
    }

    /// Whether a 512-byte trainer block precedes PRG-ROM in the image.
    pub fn has_trainer(&self) -> (r: bool)
        ensures
            r == (self.flags_six & 4 != 0),
    {
        self.flags_six & 4 != 0
    }
}

/// Mathematical snapshot of the bus state.
pub struct MemSnap {
    pub ram: Seq<u8>,
    pub prg: Seq<u8>,
    pub chr: Seq<u8>,
    pub rom_header: RomHeader,
    /// Live input byte per controller, set by the host each frame.
    pub controller_live: Seq<u8>,
    /// CPU-visible serial shift register per controller.
    pub controller_shift: Seq<u8>,
    pub dma_page: u8,
    pub dma_address: u8,
    pub dma_data: u8,
    pub dma_happening: bool,
    pub dma_waiting_for_sync: bool,
}

impl MemSnap {
    /// Well-formed bus state: buffer sizes fixed by the hardware.
    pub open spec fn wf(self) -> bool {
        &&& self.ram.len() == 2048
        &&& self.chr.len() == 8192
        &&& (self.prg.len() == 0x4000 || self.prg.len() == 0x8000)
        &&& self.rom_header.prg_size == self.prg.len()
        &&& self.rom_header.chr_size == 8192
        &&& (self.rom_header.flags_six & 1 != 0) == self.vertical_mirroring()
        &&& self.controller_live.len() == 2
        &&& self.controller_shift.len() == 2
    }

    pub open spec fn vertical_mirroring(self) -> bool {
        self.rom_header.flags_six & 1 != 0
    }
}

/// The bus state of the emulator: RAM, cartridge, controllers, DMA latches.
pub struct Memory {
    pub ram: Vec<u8>,
    pub prg_rom: Vec<u8>,
    pub chr_rom: Vec<u8>,
    pub rom_header: RomHeader,
    /// The actual pad state, as set by the host.
    pub controller: Vec<u8>,
    /// What is readable by the CPU; refreshed by a strobe write.
    pub internal_controller: Vec<u8>,
    pub dma_page: u8,
    pub dma_address: u8,
    pub dma_data: u8,
    pub dma_happening: bool,
    pub dma_waiting_for_sync: bool,
}

impl View for Memory {
    type V = MemSnap;

    open spec fn view(&self) -> MemSnap {
        MemSnap {
            ram: self.ram@,
            prg: self.prg_rom@,
            chr: self.chr_rom@,
            rom_header: self.rom_header,
            controller_live: self.controller@,
            controller_shift: self.internal_controller@,
            dma_page: self.dma_page,
            dma_address: self.dma_address,
            dma_data: self.dma_data,
            dma_happening: self.dma_happening,
            dma_waiting_for_sync: self.dma_waiting_for_sync,
        }
    }
}

/// Which CPU addresses some device decodes. The hole at 0x4020-0x7FFF is
/// unmapped for NROM: touching it is a `BusMap` fault outside debug reads.
pub open spec fn spec_cpu_addr_mapped(address: u16) -> bool {
    address < 0x4020 || address >= 0x8000
}

/// Index into PRG-ROM for a CPU address at or above 0x8000: a 16 KiB image
/// mirrors 0xC000-0xFFFF onto 0x8000-0xBFFF, a 32 KiB image maps linearly.
pub open spec fn spec_prg_index(prg_len: int, address: u16) -> int {
    if prg_len == 0x4000 && address >= 0xc000 {
        address - 0xc000
    } else {
        address - 0x8000
    }
}

/// One CPU read with its side effects: the value and the bus and PPU
/// states after the access. Only meaningful on mapped addresses.
pub open spec fn spec_bus_read(m: MemSnap, p: PpuSnap, address: u16) -> (u8, MemSnap, PpuSnap) {
    if address <= 0x1fff {
        (m.ram[(address % 0x800) as int], m, p)
    } else if address <= 0x3fff {
        let vp = ppu::spec_reg_read(p, m, address);
        (vp.0, m, vp.1)
    } else if address == 0x4016 || address == 0x4017 {
        let id = (address % 2) as int;
        let cur = m.controller_shift[id];
        let bit: u8 = if cur & 0x80 != 0 { 1 } else { 0 };
        (bit, MemSnap { controller_shift: m.controller_shift.update(id, cur << 1), ..m }, p)
    } else if address <= 0x401f {
        (0, m, p)
    } else if address >= 0x8000 {
        (m.prg[spec_prg_index(m.prg.len() as int, address)], m, p)
    } else {
        (0, m, p)
    }
}

/// A debug-annotated read: the same value the CPU would see, but with no
/// side effects anywhere, and 0 for an unmapped address.
pub open spec fn spec_bus_read_dbg(m: MemSnap, p: PpuSnap, address: u16) -> u8 {
    if address <= 0x1fff {
        m.ram[(address % 0x800) as int]
    } else if address <= 0x3fff {
        ppu::spec_reg_read_dbg(p, m, address)
    } else if address == 0x4016 || address == 0x4017 {
        let cur = m.controller_shift[(address % 2) as int];
        if cur & 0x80 != 0 { 1 } else { 0 }
    } else if address <= 0x401f {
        0
    } else if address >= 0x8000 {
        m.prg[spec_prg_index(m.prg.len() as int, address)]
    } else {
        0
    }
}

/// One CPU write with its side effects. Writes inside PRG-ROM are accepted
/// silently (writable backing store), a quirk of the source kept for
/// save-state compatibility.
pub open spec fn spec_bus_write(m: MemSnap, p: PpuSnap, address: u16, value: u8) -> (MemSnap, PpuSnap) {
    if address <= 0x1fff {
        (MemSnap { ram: m.ram.update((address % 0x800) as int, value), ..m }, p)
    } else if address <= 0x3fff {
        let pm = ppu::spec_reg_write(p, m, address, value);
        (pm.1, pm.0)
    } else if address == 0x4014 {
        (MemSnap { dma_page: value, dma_address: 0, dma_happening: true, ..m }, p)
    } else if address == 0x4016 || address == 0x4017 {
        let id = (address % 2) as int;
        (MemSnap { controller_shift: m.controller_shift.update(id, m.controller_live[id]), ..m }, p)
    } else if address <= 0x401f {
        (m, p)
    } else if address >= 0x8000 {
        (MemSnap { prg: m.prg.update(spec_prg_index(m.prg.len() as int, address), value), ..m }, p)
    } else {
        (m, p)
    }
}

/// Two chained reads little-endian: high byte from `address + 1` first,
/// then low byte from `address`, with ordinary 16-bit wrapping.
pub open spec fn spec_bus_read_word(m: MemSnap, p: PpuSnap, address: u16) -> (u16, MemSnap, PpuSnap) {
    let hi = spec_bus_read(m, p, address.wrapping_add(1));
    let lo = spec_bus_read(hi.1, hi.2, address);
    (((hi.0 as u16) << 8) | (lo.0 as u16), lo.1, lo.2)
}

/// As `spec_bus_read_word`, but the increment of the low address wraps
/// within the zero page, as indirect addressing does on hardware.
pub open spec fn spec_bus_read_word_zp(m: MemSnap, p: PpuSnap, address: u8) -> (u16, MemSnap, PpuSnap) {
    let hi = spec_bus_read(m, p, address.wrapping_add(1) as u16);
    let lo = spec_bus_read(hi.1, hi.2, address as u16);
    (((hi.0 as u16) << 8) | (lo.0 as u16), lo.1, lo.2)
}

impl Memory {
    /// Builds the bus from a full iNES image that the host has read in.
    /// Accepts only mapper 0 with 16 or 32 KiB PRG and 8 KiB CHR; anything
    /// else is rejected with the reason.
    pub fn from_rom(rom_data: &Vec<u8>) -> (r: Result<Memory, RomFormatError>)
        ensures
            ({
                let rom = rom_data@;
                if rom.len() < 16 {
                    r == Err::<Memory, RomFormatError>(RomFormatError::Truncated)
                } else if !spec_magic_ok(rom) {
                    r == Err::<Memory, RomFormatError>(RomFormatError::BadMagic)
                } else if spec_mapper_number(rom[6], rom[7]) != 0 {
                    r == Err::<Memory, RomFormatError>(RomFormatError::UnsupportedMapper)
                } else if !(rom[4] == 1 || rom[4] == 2) || rom[5] != 1 {
                    r == Err::<Memory, RomFormatError>(RomFormatError::UnsupportedLayout)
                } else {
                    let prg_size = rom[4] as int * 16384;
                    let offset = if rom[6] & 4 != 0 { 16 + 512int } else { 16int };
                    if rom.len() < offset + prg_size + 8192 {
                        r == Err::<Memory, RomFormatError>(RomFormatError::Truncated)
                    } else {
                        &&& r is Ok
                        &&& r->Ok_0@.wf()
                        &&& r->Ok_0@.prg == rom.subrange(offset, offset + prg_size)
                        &&& r->Ok_0@.chr == rom.subrange(offset + prg_size, offset + prg_size + 8192)
                        &&& r->Ok_0@.rom_header == (RomHeader {
                            prg_size: (rom[4] * 16384) as usize,
                            chr_size: 8192,
                            flags_six: rom[6],
                            flags_seven: rom[7],
                        })
                        &&& forall|i: int| 0 <= i < 2048 ==> r->Ok_0@.ram[i] == 0u8
                        &&& r->Ok_0@.controller_live == seq![0u8, 0u8]
                        &&& r->Ok_0@.controller_shift == seq![0u8, 0u8]
                        &&& r->Ok_0@.dma_page == 0u8
                        &&& r->Ok_0@.dma_address == 0u8
                        &&& r->Ok_0@.dma_data == 0u8
                        &&& !r->Ok_0@.dma_happening
                        &&& r->Ok_0@.dma_waiting_for_sync
                    }
                }
            }),
    {
        if rom_data.len() < 16 {
            return Err(RomFormatError::Truncated);
        }
        let header_bytes: [u8; 16] = [
            rom_data[0], rom_data[1], rom_data[2], rom_data[3],
            rom_data[4], rom_data[5], rom_data[6], rom_data[7],
            rom_data[8], rom_data[9], rom_data[10], rom_data[11],
            rom_data[12], rom_data[13], rom_data[14], rom_data[15],
        ];
        let header = match RomHeader::from_bytes(&header_bytes) {
            Ok(h) => h,
            Err(e) => { return Err(e); },
        };
        if header.get_mapper_number() != 0 {
            return Err(RomFormatError::UnsupportedMapper);
        }
        if !(rom_data[4] == 1 || rom_data[4] == 2) || rom_data[5] != 1 {
            return Err(RomFormatError::UnsupportedLayout);
        }
        let offset: usize = if header.has_trainer() { 16 + 512 } else { 16 };
        let prg_size = header.prg_size;
        if rom_data.len() < offset + prg_size + 8192 {
            return Err(RomFormatError::Truncated);
        }
        let prg_rom = copy_range(rom_data, offset, prg_size);
        let chr_rom = copy_range(rom_data, offset + prg_size, 8192);
        let mut controller: Vec<u8> = Vec::new();
        controller.push(0);
        controller.push(0);
        let mut internal_controller: Vec<u8> = Vec::new();
        internal_controller.push(0);
        internal_controller.push(0);
        let m = Memory {
            ram: zero_vec(2048),
            prg_rom,
            chr_rom,
            rom_header: header,
            controller,
            internal_controller,
            dma_page: 0,
            dma_address: 0,
            dma_data: 0,
            dma_happening: false,
            dma_waiting_for_sync: true,
        };
        proof {
            assert(m@.controller_live =~= seq![0u8, 0u8]);
            assert(m@.controller_shift =~= seq![0u8, 0u8]);
        }
        Ok(m)
    }

    /// One CPU read. A debug-annotated read sees the same byte but moves
    /// nothing; a normal read performs the device's side effects, and an
    /// unmapped address is a `BusMap` fault.
    pub fn read_byte(&mut self, ppu: &mut Ppu, address: u16, debugger: bool) -> (r: Result<u8, EmuFault>)
        requires
            old(self)@.wf(),
            old(ppu)@.wf(),
        ensures
            final(self)@.wf(),
            final(ppu)@.wf(),
            final(self)@.rom_header == old(self)@.rom_header,
            debugger ==> final(self)@ == old(self)@ && final(ppu)@ == old(ppu)@
                && r == Ok::<u8, EmuFault>(spec_bus_read_dbg(old(self)@, old(ppu)@, address)),
            !debugger && spec_cpu_addr_mapped(address) ==> {
                let vmp = spec_bus_read(old(self)@, old(ppu)@, address);
                r == Ok::<u8, EmuFault>(vmp.0) && final(self)@ == vmp.1 && final(ppu)@ == vmp.2
            },
            !debugger && !spec_cpu_addr_mapped(address) ==> final(self)@ == old(self)@
                && final(ppu)@ == old(ppu)@
                && r == Err::<u8, EmuFault>((EmuFault::BusMap { address })),
    {
        if address <= 0x1fff {
            return Ok(self.ram[(address % 0x800) as usize]);
        }
        if address <= 0x3fff {
            return Ok(ppu.read_byte_from_cpu(self, address, debugger));
        }
        if address == 0x4016 || address == 0x4017 {
            let id = (address % 2) as usize;
            let cur = self.internal_controller[id];
            if !debugger {
                self.internal_controller[id] = cur << 1;
            }
            return Ok(if cur & 0x80 != 0 { 1 } else { 0 });
        }
        if address <= 0x401f {
            return Ok(0);
        }
        if address >= 0x8000 {
            let index: usize = if self.rom_header.prg_size == 0x4000 && address >= 0xc000 {
                (address - 0xc000) as usize
            } else {
                (address - 0x8000) as usize
            };
            return Ok(self.prg_rom[index]);
        }
        if debugger {
            return Ok(0);
        }
        Err(EmuFault::BusMap { address })
    }

    /// Little-endian word read; the high byte is fetched first.
    pub fn read_word(&mut self, ppu: &mut Ppu, address: u16, debugger: bool) -> (r: Result<u16, EmuFault>)
        requires
            old(self)@.wf(),
            old(ppu)@.wf(),
        ensures
            final(self)@.wf(),
            final(ppu)@.wf(),
            debugger ==> final(self)@ == old(self)@ && final(ppu)@ == old(ppu)@
                && r == Ok::<u16, EmuFault>(
                    ((spec_bus_read_dbg(old(self)@, old(ppu)@, address.wrapping_add(1)) as u16) << 8)
                    | (spec_bus_read_dbg(old(self)@, old(ppu)@, address) as u16)),
            !debugger && spec_cpu_addr_mapped(address) && spec_cpu_addr_mapped(address.wrapping_add(1)) ==> {
                let vmp = spec_bus_read_word(old(self)@, old(ppu)@, address);
                r == Ok::<u16, EmuFault>(vmp.0) && final(self)@ == vmp.1 && final(ppu)@ == vmp.2
            },
            !debugger && !(spec_cpu_addr_mapped(address) && spec_cpu_addr_mapped(address.wrapping_add(1))) ==> r is Err,
    {
        let high = self.read_byte(ppu, address.wrapping_add(1), debugger)? as u16;
        let low = self.read_byte(ppu, address, debugger)? as u16;
        Ok((high << 8) | low)
    }

    /// Word read for indirect addressing: both fetches use 8-bit address
    /// arithmetic, so the high-byte fetch wraps within the zero page.
    /// Zero-page addresses always decode to RAM, so this cannot fault.
    pub fn read_word_from_first_page(&mut self, ppu: &mut Ppu, address: u8, debugger: bool) -> (r: u16)
        requires
            old(self)@.wf(),
            old(ppu)@.wf(),
        ensures
            final(self)@.wf(),
            final(ppu)@ == old(ppu)@,
            final(self)@ == old(self)@,
            r == spec_bus_read_word_zp(old(self)@, old(ppu)@, address).0,
    {
        let high_r = self.read_byte(ppu, address.wrapping_add(1) as u16, debugger);
        let high = match high_r {
            Ok(v) => v as u16,
            Err(_) => 0,
        };
        let low_r = self.read_byte(ppu, address as u16, debugger);
        let low = match low_r {
            Ok(v) => v as u16,
            Err(_) => 0,
        };
        (high << 8) | low
    }

    /// One CPU write; an unmapped address is a `BusMap` fault.
    pub fn write_byte(&mut self, ppu: &mut Ppu, address: u16, value: u8) -> (r: Result<(), EmuFault>)
        requires
            old(self)@.wf(),
            old(ppu)@.wf(),
        ensures
            final(self)@.wf(),
            final(ppu)@.wf(),
            final(self)@.rom_header == old(self)@.rom_header,
            spec_cpu_addr_mapped(address) ==> {
                let mp = spec_bus_write(old(self)@, old(ppu)@, address, value);
                r == Ok::<(), EmuFault>(()) && final(self)@ == mp.0 && final(ppu)@ == mp.1
            },
            !spec_cpu_addr_mapped(address) ==> final(self)@ == old(self)@
                && final(ppu)@ == old(ppu)@
                && r == Err::<(), EmuFault>((EmuFault::BusMap { address })),
    {
        if address <= 0x1fff {
            self.ram[(address % 0x800) as usize] = value;
            return Ok(());
        }
        if address <= 0x3fff {
            ppu.write_byte_from_cpu(self, address, value);
            return Ok(());
        }
        if address == 0x4014 {
            self.dma_page = value;
            self.dma_address = 0;
            self.dma_happening = true;
            return Ok(());
        }
        if address == 0x4016 || address == 0x4017 {
            let id = (address % 2) as usize;
            self.internal_controller[id] = self.controller[id];
            return Ok(());
        }
        if address <= 0x401f {
            return Ok(());
        }
        if address >= 0x8000 {
            let index: usize = if self.rom_header.prg_size == 0x4000 && address >= 0xc000 {
                (address - 0xc000) as usize
            } else {
                (address - 0x8000) as usize
            };
            self.prg_rom[index] = value;
            return Ok(());
        }
        Err(EmuFault::BusMap { address })
    }

    /// Whether two addresses lie in different 256-byte pages.
    pub fn pages_differ(&self, first_address: u16, second_address: u16) -> (r: bool)
        ensures
            r == ((first_address & 0xff00) != (second_address & 0xff00)),
    {
        (first_address & 0xff00) != (second_address & 0xff00)
    }

    /// The PPU-side cartridge read: NROM maps 0x0000-0x1FFF to CHR-ROM.
    /// Returns whether the cartridge claimed the address, and the byte.
    pub fn read_byte_from_ppu(&self, address: u16) -> (r: (bool, u8))
        requires
            self@.wf(),
        ensures
            r.0 == (address <= 0x1fff),
            address <= 0x1fff ==> r.1 == self@.chr[address as int],
            address > 0x1fff ==> r.1 == 0u8,
    {
        if address <= 0x1fff {
            (true, self.chr_rom[address as usize])
        } else {
            (false, 0)
        }
    }

    /// The PPU-side cartridge write; CHR is held writable, as reads are.
    pub fn write_byte_from_ppu(&mut self, address: u16, value: u8) -> (r: bool)
        requires
            old(self)@.wf(),
        ensures
            final(self)@.wf(),
            r == (address <= 0x1fff),
            address <= 0x1fff ==> final(self)@ == (MemSnap {
                chr: old(self)@.chr.update(address as int, value),
                ..old(self)@
            }),
            address > 0x1fff ==> final(self)@ == old(self)@,
    {
        if address <= 0x1fff {
            self.chr_rom[address as usize] = value;
            true
        } else {
            false
        }
    }
}

/// `src[start .. start + len]` as a fresh buffer.
pub fn copy_range(src: &Vec<u8>, start: usize, len: usize) -> (v: Vec<u8>)
    requires
        start + len <= src@.len(),
    ensures
        v@ == src@.subrange(start as int, start as int + len as int),
{
    let mut v: Vec<u8> = Vec::new();
    let mut k: usize = 0;
    let n = src.len();
    while k < len
        invariant
            k <= len,
            start + len <= n,
            n == src@.len(),
            v@.len() == k,
            forall|i: int| 0 <= i < k ==> v@[i] == src@[start + i],
        decreases len - k,
    {
        v.push(src[start + k]);
        k = k + 1;
    }
    proof {
        assert(v@ =~= src@.subrange(start as int, start as int + len as int));
    }
    v
}

} // verus!
