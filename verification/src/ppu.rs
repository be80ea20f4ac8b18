//! The 2C02 picture processing unit: registers, the loopy scroll/address
//! pair, nametables and palette RAM with their mirroring, object attribute
//! memory, the per-dot rendering pipeline and VBLANK/NMI timing.
//!
//! State changes are specified against `PpuSnap`, a mathematical snapshot
//! of the whole PPU.

use vstd::prelude::*;
use crate::memory::{Memory, MemSnap};
use crate::bits::zero_vec;

verus! {

pub const SCREEN_WIDTH: usize = 256;
pub const SCREEN_HEIGHT: usize = 240;
pub const PATTERN_TABLE_SIZE: usize = 128;

// PPUCTRL bits.
pub const CTRL_NAMETABLE_X: u8 = 0x01;
pub const CTRL_NAMETABLE_Y: u8 = 0x02;
pub const CTRL_VRAM_ADDR_INCREMENT: u8 = 0x04;
pub const CTRL_SPRITE_PATTERN_ADDR: u8 = 0x08;
pub const CTRL_BACKGROUND_PATTERN_ADDR: u8 = 0x10;
pub const CTRL_SPRITE_SIZE: u8 = 0x20;
pub const CTRL_GENERATE_NMI: u8 = 0x80;

// PPUMASK bits.
pub const MASK_GREYSCALE: u8 = 0x01;
pub const MASK_SHOW_BACKGROUND_IN_LEFTMOST_PIXELS: u8 = 0x02;
pub const MASK_SHOW_SPRITES_IN_LEFTMOST_PIXELS: u8 = 0x04;
pub const MASK_SHOW_BACKGROUND: u8 = 0x08;
pub const MASK_SHOW_SPRITES: u8 = 0x10;

// PPUSTATUS bits.
pub const STATUS_SPRITE_OVERFLOW: u8 = 0x20;
pub const STATUS_SPRITE_ZERO_HIT: u8 = 0x40;
pub const STATUS_V_BLANK: u8 = 0x80;

/// Sprite height selected by PPUCTRL: 8 or 16 rows.
pub open spec fn spec_sprite_size(ppu_control: u8) -> u8 {
    if ppu_control & CTRL_SPRITE_SIZE != 0 {
        16
    } else {
        8
    }
}

/// Executable twin of `spec_sprite_size`.
pub fn get_sprite_size(ppu_control: u8) -> (r: u8)
    ensures
        r == spec_sprite_size(ppu_control),
{
    if ppu_control & CTRL_SPRITE_SIZE != 0 {
        16
    } else {
        8
    }
}

/// Rendering is enabled when either layer is shown; scroll increments and
/// address reloads are inhibited otherwise.
pub open spec fn spec_rendering_enabled(ppu_mask: u8) -> bool {
    ppu_mask & MASK_SHOW_BACKGROUND != 0 || ppu_mask & MASK_SHOW_SPRITES != 0
}

/// Executable twin of `spec_rendering_enabled`.
pub fn rendering_enabled(ppu_mask: u8) -> (r: bool)
    ensures
        r == spec_rendering_enabled(ppu_mask),
{
    ppu_mask & MASK_SHOW_BACKGROUND != 0 || ppu_mask & MASK_SHOW_SPRITES != 0
}

/// The 15-bit composite scroll/VRAM address, split into its fields:
/// `fine_y(3) | nt_y(1) | nt_x(1) | coarse_y(5) | coarse_x(5)`.
#[derive(Clone, Copy, Debug, PartialEq, Eq, Structural)]
pub struct LoopyRegister {
    /// 5 bits; the Nth tile column.
    pub coarse_x: u8,
    /// 5 bits; the Nth tile row.
    pub coarse_y: u8,
    /// 1 bit; which nametable column.
    pub name_table_x: u8,
    /// 1 bit; which nametable row.
    pub name_table_y: u8,
    /// 3 bits; the row within the tile.
    pub fine_y: u8,
}

/// Packs the fields into the 15-bit register value.
#[verifier::opaque]
pub open spec fn spec_loopy_bits(l: LoopyRegister) -> u16 {
    (((l.coarse_x % 32) as u16)
        + ((l.coarse_y % 32) as u16) * 32
        + ((l.name_table_x % 2) as u16) * 1024
        + ((l.name_table_y % 2) as u16) * 2048
        + ((l.fine_y % 8) as u16) * 4096) as u16
}

/// Unpacks a register value into fields; bit 15 is ignored.
#[verifier::opaque]
pub open spec fn spec_loopy_from(value: u16) -> LoopyRegister {
    LoopyRegister {
        coarse_x: (value % 32) as u8,
        coarse_y: ((value / 32) % 32) as u8,
        name_table_x: ((value / 1024) % 2) as u8,
        name_table_y: ((value / 2048) % 2) as u8,
        fine_y: ((value / 4096) % 8) as u8,
    }
}

impl LoopyRegister {
    /// Packs the fields into the register value.
    pub fn bits(&self) -> (r: u16)
        ensures
            r == spec_loopy_bits(*self),
    {
        proof {
            reveal(spec_loopy_bits);
        }
        ((self.coarse_x % 32) as u16)
            + ((self.coarse_y % 32) as u16) * 32
            + ((self.name_table_x % 2) as u16) * 1024
            + ((self.name_table_y % 2) as u16) * 2048
            + ((self.fine_y % 8) as u16) * 4096
    }

    /// Replaces the fields with those packed in `value`.
    pub fn set(&mut self, value: u16)
        ensures
            *final(self) == spec_loopy_from(value),
            final(self).coarse_x < 32,
            final(self).coarse_y < 32,
            final(self).name_table_x < 2,
            final(self).name_table_y < 2,
            final(self).fine_y < 8,
    {
        proof {
            reveal(spec_loopy_from);
        }
        self.coarse_x = (value % 32) as u8;
        self.coarse_y = ((value / 32) % 32) as u8;
        self.name_table_x = ((value / 1024) % 2) as u8;
        self.name_table_y = ((value / 2048) % 2) as u8;
        self.fine_y = ((value / 4096) % 8) as u8;
    }

    /// Unpacks a register value into fields.
    pub fn from(value: u16) -> (r: LoopyRegister)
        ensures
            r == spec_loopy_from(value),
            r.coarse_x < 32,
            r.coarse_y < 32,
            r.name_table_x < 2,
            r.name_table_y < 2,
            r.fine_y < 8,
    {
        let mut register = LoopyRegister { coarse_x: 0, coarse_y: 0, name_table_x: 0, name_table_y: 0, fine_y: 0 };
        register.set(value);
        register
    }
}

/// One sprite's record in object attribute memory: position, tile and
/// attribute flags, stored exactly as the four OAM bytes.
#[derive(Clone, Copy, Debug, PartialEq, Eq, Structural)]
pub struct ObjectAttribute {
    pub y: u8,
    pub id: u8,
    pub attributes: u8,
    pub x: u8,
}

impl ObjectAttribute {
    /// Reads a record from its four OAM bytes.
    pub fn from(bytes: [u8; 4]) -> (r: ObjectAttribute)
        ensures
            r == (ObjectAttribute { y: bytes@[0], id: bytes@[1], attributes: bytes@[2], x: bytes@[3] }),
    {
        ObjectAttribute { y: bytes[0], id: bytes[1], attributes: bytes[2], x: bytes[3] }
    }

    /// Attribute bit 6: mirror the sprite left-to-right.
    pub fn is_flipped_horizontally(&self) -> (r: bool)
        ensures
            r == (self.attributes & 0x40 != 0),
    {
        self.attributes & 0x40 != 0
    }

    /// Attribute bit 7: mirror the sprite top-to-bottom.
    pub fn is_flipped_vertically(&self) -> (r: bool)
        ensures
            r == (self.attributes & 0x80 != 0),
    {
        self.attributes & 0x80 != 0
    }

    /// For 8x16 sprites the pattern table comes from bit 0 of the tile id.
    pub fn get_double_height_pattern_table(&self) -> (r: u8)
        ensures
            r == self.id % 2,
    {
        self.id % 2
    }

    /// Sprites use the last four palettes, after the four background ones.
    pub fn get_palette(&self) -> (r: u8)
        ensures
            r == (self.attributes % 4) + 4,
    {
        (self.attributes % 4) + 4
    }

    /// Attribute bit 5 clear: the sprite wins over an opaque background.
    pub fn has_priority(&self) -> (r: bool)
        ensures
            r == (self.attributes & 0x20 == 0),
    {
        self.attributes & 0x20 == 0
    }
}

/// Mathematical snapshot of the PPU.
pub struct PpuSnap {
    pub ppu_control: u8,
    pub ppu_mask: u8,
    pub ppu_status: u8,
    /// The current VRAM address / scroll position, `v`.
    pub ppu_address: u16,
    /// The pending scroll/address, `t`.
    pub table_ram_address: u16,
    pub fine_x: u8,
    pub address_latch: bool,
    pub data_buffer: u8,
    pub scanline: i16,
    pub cycles: i16,
    /// Both physical nametables, 1 KiB each.
    pub name_tables: Seq<u8>,
    pub palette: Seq<u8>,
    pub next_background_tile_id: u8,
    pub next_background_tile_attribute: u8,
    pub next_background_tile_lsb: u8,
    pub next_background_tile_msb: u8,
    pub shifter_pattern_low: u16,
    pub shifter_pattern_high: u16,
    pub shifter_attribute_low: u16,
    pub shifter_attribute_high: u16,
    pub object_attribute_memory: Seq<u8>,
    pub oam_address: u8,
    pub current_scanline_sprites: Seq<ObjectAttribute>,
    pub current_scanline_sprites_count: u8,
    pub sprite_shifter_pattern_low: Seq<u8>,
    pub sprite_shifter_pattern_high: Seq<u8>,
    pub sprite_zero_in_scanline: bool,
    pub sprite_zero_being_rendered: bool,
    pub output: Seq<u8>,
    pub due_non_maskable_interrupt: bool,
}

impl PpuSnap {
    /// Well-formed PPU state: buffer sizes fixed by the hardware, and the
    /// beam position inside its frame.
    pub open spec fn wf(self) -> bool {
        &&& self.name_tables.len() == 2048
        &&& self.palette.len() == 32
        &&& self.object_attribute_memory.len() == 256
        &&& self.current_scanline_sprites.len() == 8
        &&& self.sprite_shifter_pattern_low.len() == 8
        &&& self.sprite_shifter_pattern_high.len() == 8
        &&& self.output.len() == 184320
        &&& -1 <= self.scanline <= 260
        &&& 0 <= self.cycles <= 340
        &&& self.current_scanline_sprites_count <= 8
        &&& self.fine_x <= 7
    }
}

/// The picture processing unit.
pub struct Ppu {
    pub ppu_control: u8,
    pub ppu_mask: u8,
    pub ppu_status: u8,
    /// The current VRAM address / scroll position, `v`.
    pub ppu_address: u16,
    /// The pending scroll/address, `t`.
    pub table_ram_address: u16,
    /// Sub-tile horizontal scroll, 0-7.
    pub fine_x: u8,
    /// The shared write toggle of PPUSCROLL and PPUADDR.
    pub address_latch: bool,
    /// The delayed PPUDATA read buffer.
    pub data_buffer: u8,
    /// -1 is the pre-render line, 0-239 visible, 241-260 VBLANK.
    pub scanline: i16,
    /// The dot within the scanline, 0-340.
    pub cycles: i16,
    /// Both physical nametables, 1 KiB each, as one buffer.
    pub name_tables: Vec<u8>,
    pub palette: Vec<u8>,
    pub next_background_tile_id: u8,
    pub next_background_tile_attribute: u8,
    pub next_background_tile_lsb: u8,
    pub next_background_tile_msb: u8,
    pub shifter_pattern_low: u16,
    pub shifter_pattern_high: u16,
    pub shifter_attribute_low: u16,
    pub shifter_attribute_high: u16,
    /// 64 sprite records of 4 bytes each; written by OAM DMA as well.
    pub object_attribute_memory: Vec<u8>,
    pub oam_address: u8,
    /// The up-to-eight sprites chosen for the scanline being rendered.
    pub current_scanline_sprites: Vec<ObjectAttribute>,
    pub current_scanline_sprites_count: u8,
    pub sprite_shifter_pattern_low: Vec<u8>,
    pub sprite_shifter_pattern_high: Vec<u8>,
    pub sprite_zero_in_scanline: bool,
    pub sprite_zero_being_rendered: bool,
    /// The finished RGB framebuffer, 256 x 240 x 3 bytes.
    pub output: Vec<u8>,
    /// Raised at VBLANK start when NMI generation is enabled; the frame
    /// driver consumes it between instructions.
    pub due_non_maskable_interrupt: bool,
}

impl View for Ppu {
    type V = PpuSnap;

    open spec fn view(&self) -> PpuSnap {
        PpuSnap {
            ppu_control: self.ppu_control,
            ppu_mask: self.ppu_mask,
            ppu_status: self.ppu_status,
            ppu_address: self.ppu_address,
            table_ram_address: self.table_ram_address,
            fine_x: self.fine_x,
            address_latch: self.address_latch,
            data_buffer: self.data_buffer,
            scanline: self.scanline,
            cycles: self.cycles,
            name_tables: self.name_tables@,
            palette: self.palette@,
            next_background_tile_id: self.next_background_tile_id,
            next_background_tile_attribute: self.next_background_tile_attribute,
            next_background_tile_lsb: self.next_background_tile_lsb,
            next_background_tile_msb: self.next_background_tile_msb,
            shifter_pattern_low: self.shifter_pattern_low,
            shifter_pattern_high: self.shifter_pattern_high,
            shifter_attribute_low: self.shifter_attribute_low,
            shifter_attribute_high: self.shifter_attribute_high,
            object_attribute_memory: self.object_attribute_memory@,
            oam_address: self.oam_address,
            current_scanline_sprites: self.current_scanline_sprites@,
            current_scanline_sprites_count: self.current_scanline_sprites_count,
            sprite_shifter_pattern_low: self.sprite_shifter_pattern_low@,
            sprite_shifter_pattern_high: self.sprite_shifter_pattern_high@,
            sprite_zero_in_scanline: self.sprite_zero_in_scanline,
            sprite_zero_being_rendered: self.sprite_zero_being_rendered,
            output: self.output@,
            due_non_maskable_interrupt: self.due_non_maskable_interrupt,
        }
    }
}

/// Where a nametable address lands in the two physical banks. Vertical
/// mirroring lays the four logical tables out as (A, B, A, B); horizontal
/// as (A, A, B, B).
pub open spec fn spec_nt_index(vertical: bool, address: u16) -> int {
    let nt = (address % 0x1000) as int;
    let bank: int = if vertical {
        (nt / 0x400) % 2
    } else {
        nt / 0x800
    };
    bank * 0x400 + (nt % 0x400)
}

/// Palette RAM index: reduced modulo 32, with 0x10/0x14/0x18/0x1C
/// mirroring 0x00/0x04/0x08/0x0C.
pub open spec fn spec_palette_index(address: u16) -> int {
    let i = (address % 32) as int;
    if i == 0x10 || i == 0x14 || i == 0x18 || i == 0x1c {
        i - 0x10
    } else {
        i
    }
}

/// A read in the PPU's own address space (masked to 14 bits): CHR below
/// 0x2000, nametables to 0x3EFF, palette RAM above. Palette reads are
/// masked to 0x30 under greyscale, else to 0x3F.
pub open spec fn spec_vram_read(p: PpuSnap, m: MemSnap, address: u16) -> u8 {
    let a = address % 0x4000;
    if a <= 0x1fff {
        m.chr[a as int]
    } else if a <= 0x3eff {
        p.name_tables[spec_nt_index(m.vertical_mirroring(), a)]
    } else {
        p.palette[spec_palette_index(a)] & (if p.ppu_mask & MASK_GREYSCALE != 0 { 0x30u8 } else { 0x3fu8 })
    }
}

/// A write in the PPU's own address space; CHR writes land in the
/// cartridge's (writable) CHR storage.
pub open spec fn spec_vram_write(p: PpuSnap, m: MemSnap, address: u16, value: u8) -> (PpuSnap, MemSnap) {
    let a = address % 0x4000;
    if a <= 0x1fff {
        (p, MemSnap { chr: m.chr.update(a as int, value), ..m })
    } else if a <= 0x3eff {
        (PpuSnap { name_tables: p.name_tables.update(spec_nt_index(m.vertical_mirroring(), a), value), ..p }, m)
    } else {
        (PpuSnap { palette: p.palette.update(spec_palette_index(a), value), ..p }, m)
    }
}

/// A CPU read of a PPU register (address anywhere in the mirror window
/// 0x2000-0x3FFF): the byte handed back and the PPU state after. Reading
/// PPUSTATUS clears VBLANK and the write latch; reading PPUDATA returns
/// the delayed buffer (palette reads skip the delay) and advances `v`.
pub open spec fn spec_reg_read(p: PpuSnap, m: MemSnap, address: u16) -> (u8, PpuSnap) {
    let reg = address % 8;
    if reg == 2 {
        (p.ppu_status, PpuSnap { ppu_status: p.ppu_status & !STATUS_V_BLANK, address_latch: false, ..p })
    } else if reg == 4 {
        (p.object_attribute_memory[p.oam_address as int], p)
    } else if reg == 7 {
        let fresh = spec_vram_read(p, m, p.ppu_address);
        let data = if p.ppu_address >= 0x3f00 { fresh } else { p.data_buffer };
        let inc: u16 = if p.ppu_control & CTRL_VRAM_ADDR_INCREMENT != 0 { 32 } else { 1 };
        (data, PpuSnap { data_buffer: fresh, ppu_address: p.ppu_address.wrapping_add(inc), ..p })
    } else {
        (0, p)
    }
}

/// A debug-annotated register read: the same byte, no state change.
pub open spec fn spec_reg_read_dbg(p: PpuSnap, m: MemSnap, address: u16) -> u8 {
    let reg = address % 8;
    if reg == 2 {
        p.ppu_status
    } else if reg == 4 {
        p.object_attribute_memory[p.oam_address as int]
    } else if reg == 7 {
        if p.ppu_address >= 0x3f00 {
            spec_vram_read(p, m, p.ppu_address)
        } else {
            p.data_buffer
        }
    } else {
        0
    }
}

/// A CPU write to a PPU register: the PPU and bus states after. PPUCTRL
/// mirrors its nametable bits into `t`; PPUSCROLL and PPUADDR share the
/// write latch; the second PPUADDR write copies `t` into `v`; PPUDATA
/// writes through to VRAM and advances `v`.
pub open spec fn spec_reg_write(p: PpuSnap, m: MemSnap, address: u16, value: u8) -> (PpuSnap, MemSnap) {
    let reg = address % 8;
    if reg == 0 {
        let l = spec_loopy_from(p.table_ram_address);
        let l2 = LoopyRegister {
            name_table_x: if value & CTRL_NAMETABLE_X != 0 { 1u8 } else { 0u8 },
            name_table_y: if value & CTRL_NAMETABLE_Y != 0 { 1u8 } else { 0u8 },
            ..l
        };
        (PpuSnap { ppu_control: value, table_ram_address: spec_loopy_bits(l2), ..p }, m)
    } else if reg == 1 {
        (PpuSnap { ppu_mask: value, ..p }, m)
    } else if reg == 3 {
        (PpuSnap { oam_address: value, ..p }, m)
    } else if reg == 4 {
        (PpuSnap { object_attribute_memory: p.object_attribute_memory.update(p.oam_address as int, value), ..p }, m)
    } else if reg == 5 {
        if !p.address_latch {
            let l = spec_loopy_from(p.table_ram_address);
            let l2 = LoopyRegister { coarse_x: value >> 3, ..l };
            (PpuSnap {
                fine_x: value % 8,
                table_ram_address: spec_loopy_bits(l2),
                address_latch: true,
                ..p
            }, m)
        } else {
            let l = spec_loopy_from(p.table_ram_address);
            let l2 = LoopyRegister { fine_y: value & 0x7, coarse_y: value >> 3, ..l };
            (PpuSnap { table_ram_address: spec_loopy_bits(l2), address_latch: false, ..p }, m)
        }
    } else if reg == 6 {
        if !p.address_latch {
            (PpuSnap {
                table_ram_address: (((value & 0x3f) as u16) << 8) | (p.table_ram_address & 0xff),
                address_latch: true,
                ..p
            }, m)
        } else {
            let t = (p.table_ram_address & 0xff00) | (value as u16);
            (PpuSnap { table_ram_address: t, ppu_address: t, address_latch: false, ..p }, m)
        }
    } else if reg == 7 {
        let pm = spec_vram_write(p, m, p.ppu_address, value);
        let inc: u16 = if p.ppu_control & CTRL_VRAM_ADDR_INCREMENT != 0 { 32 } else { 1 };
        (PpuSnap { ppu_address: p.ppu_address.wrapping_add(inc), ..pm.0 }, pm.1)
    } else {
        (p, m)
    }
}

impl Ppu {
    /// The PPU in its power-on state: everything zero, latch clear, beam
    /// at scanline 0 dot 0.
    pub fn default() -> (r: Ppu)
        ensures
            r@.wf(),
            r@.ppu_control == 0u8,
            r@.ppu_mask == 0u8,
            r@.ppu_status == 0u8,
            r@.ppu_address == 0u16,
            r@.table_ram_address == 0u16,
            r@.fine_x == 0u8,
            !r@.address_latch,
            r@.data_buffer == 0u8,
            r@.scanline == 0i16,
            r@.cycles == 0i16,
            forall|i: int| 0 <= i < 2048 ==> r@.name_tables[i] == 0u8,
            forall|i: int| 0 <= i < 32 ==> r@.palette[i] == 0u8,
            r@.next_background_tile_id == 0u8,
            r@.next_background_tile_attribute == 0u8,
            r@.next_background_tile_lsb == 0u8,
            r@.next_background_tile_msb == 0u8,
            r@.shifter_pattern_low == 0u16,
            r@.shifter_pattern_high == 0u16,
            r@.shifter_attribute_low == 0u16,
            r@.shifter_attribute_high == 0u16,
            forall|i: int| 0 <= i < 256 ==> r@.object_attribute_memory[i] == 0u8,
            r@.oam_address == 0u8,
            forall|i: int| 0 <= i < 8 ==> r@.current_scanline_sprites[i]
                == (ObjectAttribute { y: 0, id: 0, attributes: 0, x: 0 }),
            r@.current_scanline_sprites_count == 0u8,
            forall|i: int| 0 <= i < 8 ==> r@.sprite_shifter_pattern_low[i] == 0u8,
            forall|i: int| 0 <= i < 8 ==> r@.sprite_shifter_pattern_high[i] == 0u8,
            !r@.sprite_zero_in_scanline,
            !r@.sprite_zero_being_rendered,
            forall|i: int| 0 <= i < 184320 ==> r@.output[i] == 0u8,
            !r@.due_non_maskable_interrupt,
    {
        let mut sprites: Vec<ObjectAttribute> = Vec::new();
        let mut k: usize = 0;
        while k < 8
            invariant
                k <= 8,
                sprites@.len() == k,
                forall|i: int| 0 <= i < k ==> sprites@[i]
                    == (ObjectAttribute { y: 0, id: 0, attributes: 0, x: 0 }),
            decreases 8 - k,
        {
            sprites.push(ObjectAttribute { y: 0, id: 0, attributes: 0, x: 0 });
            k = k + 1;
        }
        Ppu {
            ppu_control: 0,
            ppu_mask: 0,
            ppu_status: 0,
            ppu_address: 0,
            table_ram_address: 0,
            fine_x: 0,
            address_latch: false,
            data_buffer: 0,
            scanline: 0,
            cycles: 0,
            name_tables: zero_vec(2048),
            palette: zero_vec(32),
            next_background_tile_id: 0,
            next_background_tile_attribute: 0,
            next_background_tile_lsb: 0,
            next_background_tile_msb: 0,
            shifter_pattern_low: 0,
            shifter_pattern_high: 0,
            shifter_attribute_low: 0,
            shifter_attribute_high: 0,
            object_attribute_memory: zero_vec(256),
            oam_address: 0,
            current_scanline_sprites: sprites,
            current_scanline_sprites_count: 0,
            sprite_shifter_pattern_low: zero_vec(8),
            sprite_shifter_pattern_high: zero_vec(8),
            sprite_zero_in_scanline: false,
            sprite_zero_being_rendered: false,
            output: zero_vec(184320),
            due_non_maskable_interrupt: false,
        }
    }

    /// A read in the PPU's own address space.
    pub fn read_byte_from_ppu(&self, memory: &Memory, address: u16) -> (r: u8)
        requires
            self@.wf(),
            memory@.wf(),
        ensures
            r == spec_vram_read(self@, memory@, address),
    {
        let a = address % 0x4000;
        let (cartridge_read, value) = memory.read_byte_from_ppu(a);
        if cartridge_read {
            return value;
        }
        if a <= 0x3eff {
            let nt = a % 0x1000;
            let bank: u16 = if memory.rom_header.has_vertical_mirroring() {
                (nt / 0x400) % 2
            } else {
                nt / 0x800
            };
            return self.name_tables[(bank * 0x400 + nt % 0x400) as usize];
        }
        let masked = a % 32;
        let palette_address: usize = if masked == 0x10 || masked == 0x14 || masked == 0x18 || masked == 0x1c {
            (masked - 0x10) as usize
        } else {
            masked as usize
        };
        let colour_mask: u8 = if self.ppu_mask & MASK_GREYSCALE != 0 { 0x30 } else { 0x3f };
        self.palette[palette_address] & colour_mask
    }

    /// A write in the PPU's own address space.
    pub fn write_byte_from_ppu(&mut self, memory: &mut Memory, address: u16, value: u8)
        requires
            old(self)@.wf(),
            old(memory)@.wf(),
        ensures
            final(self)@.wf(),
            final(memory)@.wf(),
            (final(self)@, final(memory)@) == spec_vram_write(old(self)@, old(memory)@, address, value),
    {
        let a = address % 0x4000;
        if memory.write_byte_from_ppu(a, value) {
            return;
        }
        if a <= 0x3eff {
            let nt = a % 0x1000;
            let bank: u16 = if memory.rom_header.has_vertical_mirroring() {
                (nt / 0x400) % 2
            } else {
                nt / 0x800
            };
            self.name_tables[(bank * 0x400 + nt % 0x400) as usize] = value;
            return;
        }
        let masked = a % 32;
        let palette_address: usize = if masked == 0x10 || masked == 0x14 || masked == 0x18 || masked == 0x1c {
            (masked - 0x10) as usize
        } else {
            masked as usize
        };
        self.palette[palette_address] = value;
    }

    /// A CPU read of a register in the 0x2000-0x3FFF window. A
    /// debug-annotated read sees the same byte with no side effects.
    pub fn read_byte_from_cpu(&mut self, memory: &mut Memory, address: u16, debugger: bool) -> (r: u8)
        requires
            old(self)@.wf(),
            old(memory)@.wf(),
            0x2000 <= address <= 0x3fff,
        ensures
            final(self)@.wf(),
            final(memory)@ == old(memory)@,
            !debugger ==> r == spec_reg_read(old(self)@, old(memory)@, address).0
                && final(self)@ == spec_reg_read(old(self)@, old(memory)@, address).1,
            debugger ==> r == spec_reg_read_dbg(old(self)@, old(memory)@, address)
                && final(self)@ == old(self)@,
    {
        let reg = address % 8;
        if reg == 2 {
            let old_status = self.ppu_status;
            if !debugger {
                self.ppu_status = self.ppu_status & !STATUS_V_BLANK;
                self.address_latch = false;
            }
            return old_status;
        }
        if reg == 4 {
            return self.object_attribute_memory[self.oam_address as usize];
        }
        if reg == 7 {
            let fresh = self.read_byte_from_ppu(memory, self.ppu_address);
            let data = if self.ppu_address >= 0x3f00 { fresh } else { self.data_buffer };
            if !debugger {
                self.data_buffer = fresh;
                let inc: u16 = if self.ppu_control & CTRL_VRAM_ADDR_INCREMENT != 0 { 32 } else { 1 };
                self.ppu_address = self.ppu_address.wrapping_add(inc);
            }
            return data;
        }
        0
    }

    /// A CPU write to a register in the 0x2000-0x3FFF window.
    pub fn write_byte_from_cpu(&mut self, memory: &mut Memory, address: u16, value: u8)
        requires
            old(self)@.wf(),
            old(memory)@.wf(),
            0x2000 <= address <= 0x3fff,
        ensures
            final(self)@.wf(),
            final(memory)@.wf(),
            final(memory)@.rom_header == old(memory)@.rom_header,
            (final(self)@, final(memory)@) == spec_reg_write(old(self)@, old(memory)@, address, value),
    {
        let reg = address % 8;
        if reg == 0 {
            self.ppu_control = value;
            let mut loopy = LoopyRegister::from(self.table_ram_address);
            loopy.name_table_x = if value & CTRL_NAMETABLE_X != 0 { 1 } else { 0 };
            loopy.name_table_y = if value & CTRL_NAMETABLE_Y != 0 { 1 } else { 0 };
            self.table_ram_address = loopy.bits();
            return;
        }
        if reg == 1 {
            self.ppu_mask = value;
            return;
        }
        if reg == 3 {
            self.oam_address = value;
            return;
        }
        if reg == 4 {
            self.object_attribute_memory[self.oam_address as usize] = value;
            return;
        }
        if reg == 5 {
            if !self.address_latch {
                self.fine_x = value % 8;
                let mut loopy = LoopyRegister::from(self.table_ram_address);
                loopy.coarse_x = value >> 3;
                self.table_ram_address = loopy.bits();
                self.address_latch = true;
            } else {
                let mut loopy = LoopyRegister::from(self.table_ram_address);
                loopy.fine_y = value & 0x7;
                loopy.coarse_y = value >> 3;
                self.table_ram_address = loopy.bits();
                self.address_latch = false;
            }
            return;
        }
        if reg == 6 {
            if !self.address_latch {
                self.table_ram_address = (((value & 0x3f) as u16) << 8) | (self.table_ram_address & 0xff);
                self.address_latch = true;
            } else {
                self.table_ram_address = (self.table_ram_address & 0xff00) | (value as u16);
                self.ppu_address = self.table_ram_address;
                self.address_latch = false;
            }
            return;
        }
        if reg == 7 {
            self.write_byte_from_ppu(memory, self.ppu_address, value);
            let inc: u16 = if self.ppu_control & CTRL_VRAM_ADDR_INCREMENT != 0 { 32 } else { 1 };
            self.ppu_address = self.ppu_address.wrapping_add(inc);
            return;
        }
    }
}

/// Horizontal scroll step at the end of a tile fetch: bump coarse X, and
/// wrap into the neighbouring nametable after column 31. Inhibited while
/// rendering is disabled.
pub open spec fn spec_increment_scroll_x(p: PpuSnap) -> PpuSnap {
    if !spec_rendering_enabled(p.ppu_mask) {
        p
    } else {
        let l = spec_loopy_from(p.ppu_address);
        let l2 = if l.coarse_x == 31 {
            LoopyRegister { coarse_x: 0, name_table_x: if l.name_table_x == 0 { 1u8 } else { 0u8 }, ..l }
        } else {
            LoopyRegister { coarse_x: (l.coarse_x + 1) as u8, ..l }
        };
        PpuSnap { ppu_address: spec_loopy_bits(l2), ..p }
    }
}

/// Vertical scroll step at dot 256: bump fine Y; on overflow advance
/// coarse Y, wrapping 29 to 0 into the next nametable (and 31 to 0
/// silently). Inhibited while rendering is disabled.
pub open spec fn spec_increment_scroll_y(p: PpuSnap) -> PpuSnap {
    if !spec_rendering_enabled(p.ppu_mask) {
        p
    } else {
        let l = spec_loopy_from(p.ppu_address);
        let l2 = if l.fine_y < 7 {
            LoopyRegister { fine_y: (l.fine_y + 1) as u8, ..l }
        } else {
            if l.coarse_y == 29 {
                LoopyRegister { fine_y: 0, coarse_y: 0, name_table_y: if l.name_table_y == 0 { 1u8 } else { 0u8 }, ..l }
            } else if l.coarse_y == 31 {
                LoopyRegister { fine_y: 0, coarse_y: 0, ..l }
            } else {
                LoopyRegister { fine_y: 0, coarse_y: (l.coarse_y + 1) as u8, ..l }
            }
        };
        PpuSnap { ppu_address: spec_loopy_bits(l2), ..p }
    }
}

/// At dot 257 the horizontal bits of `v` reload from `t`.
pub open spec fn spec_update_address_x(p: PpuSnap) -> PpuSnap {
    if !spec_rendering_enabled(p.ppu_mask) {
        p
    } else {
        let lv = spec_loopy_from(p.ppu_address);
        let lt = spec_loopy_from(p.table_ram_address);
        let l2 = LoopyRegister { name_table_x: lt.name_table_x, coarse_x: lt.coarse_x, ..lv };
        PpuSnap { ppu_address: spec_loopy_bits(l2), ..p }
    }
}

/// On the pre-render line the vertical bits of `v` reload from `t`.
pub open spec fn spec_update_address_y(p: PpuSnap) -> PpuSnap {
    if !spec_rendering_enabled(p.ppu_mask) {
        p
    } else {
        let lv = spec_loopy_from(p.ppu_address);
        let lt = spec_loopy_from(p.table_ram_address);
        let l2 = LoopyRegister { fine_y: lt.fine_y, name_table_y: lt.name_table_y, coarse_y: lt.coarse_y, ..lv };
        PpuSnap { ppu_address: spec_loopy_bits(l2), ..p }
    }
}

/// Loads the pending tile latches into the low halves of the background
/// shifters; the attribute bits fan out to a full byte each.
pub open spec fn spec_prime_background(p: PpuSnap) -> PpuSnap {
    PpuSnap {
        shifter_pattern_low: (p.shifter_pattern_low & 0xff00) | (p.next_background_tile_lsb as u16),
        shifter_pattern_high: (p.shifter_pattern_high & 0xff00) | (p.next_background_tile_msb as u16),
        shifter_attribute_low: (p.shifter_attribute_low & 0xff00)
            | (if p.next_background_tile_attribute & 0b01 != 0 { 0xffu16 } else { 0u16 }),
        shifter_attribute_high: (p.shifter_attribute_high & 0xff00)
            | (if p.next_background_tile_attribute & 0b10 != 0 { 0xffu16 } else { 0u16 }),
        ..p
    }
}

/// One dot of shifter movement: the background shifters slide left while
/// the background is shown; inside dots 1-257 each selected sprite counts
/// its X down and, once at zero, shifts its pattern bytes left.
pub open spec fn spec_advance_background(p: PpuSnap) -> PpuSnap {
    let p1 = if p.ppu_mask & MASK_SHOW_BACKGROUND != 0 {
        PpuSnap {
            shifter_pattern_low: p.shifter_pattern_low << 1,
            shifter_pattern_high: p.shifter_pattern_high << 1,
            shifter_attribute_low: p.shifter_attribute_low << 1,
            shifter_attribute_high: p.shifter_attribute_high << 1,
            ..p
        }
    } else {
        p
    };
    if p1.ppu_mask & MASK_SHOW_SPRITES != 0 && 1 <= p1.cycles < 258 {
        let count = p1.current_scanline_sprites_count as int;
        PpuSnap {
            current_scanline_sprites: Seq::new(8, |i: int|
                if 0 <= i < count && p1.current_scanline_sprites[i].x > 0 {
                    ObjectAttribute {
                        x: (p1.current_scanline_sprites[i].x - 1) as u8,
                        ..p1.current_scanline_sprites[i]
                    }
                } else {
                    p1.current_scanline_sprites[i]
                }),
            sprite_shifter_pattern_low: Seq::new(8, |i: int|
                if 0 <= i < count && p1.current_scanline_sprites[i].x == 0 {
                    p1.sprite_shifter_pattern_low[i] << 1
                } else {
                    p1.sprite_shifter_pattern_low[i]
                }),
            sprite_shifter_pattern_high: Seq::new(8, |i: int|
                if 0 <= i < count && p1.current_scanline_sprites[i].x == 0 {
                    p1.sprite_shifter_pattern_high[i] << 1
                } else {
                    p1.sprite_shifter_pattern_high[i]
                }),
            ..p1
        }
    } else {
        p1
    }
}

/// The bit order of a byte reversed, as horizontal sprite flip needs.
pub open spec fn spec_flip_byte(value: u8) -> u8 {
    let v1 = ((value & 0xf0) >> 4) | ((value & 0x0f) << 4);
    let v2 = ((v1 & 0xcc) >> 2) | ((v1 & 0x33) << 2);
    ((v2 & 0xaa) >> 1) | ((v2 & 0x55) << 1)
}

/// The background contribution at the current dot: a 2-bit pixel and a
/// 2-bit palette row selected by fine X from the four shifters; zero when
/// the background layer is hidden.
pub open spec fn spec_bg_pixel(p: PpuSnap) -> (u8, u8) {
    if p.ppu_mask & MASK_SHOW_BACKGROUND != 0 {
        let scrolling_mask = 0x8000u16 >> (p.fine_x as u16);
        let first_plane_pixel: u8 = if (p.shifter_pattern_low & scrolling_mask) > 0 { 1 } else { 0 };
        let second_plane_pixel: u8 = if (p.shifter_pattern_high & scrolling_mask) > 0 { 1 } else { 0 };
        let first_plane_palette: u8 = if (p.shifter_attribute_low & scrolling_mask) > 0 { 1 } else { 0 };
        let second_plane_palette: u8 = if (p.shifter_attribute_high & scrolling_mask) > 0 { 1 } else { 0 };
        ((second_plane_pixel << 1) | first_plane_pixel, (second_plane_palette << 1) | first_plane_palette)
    } else {
        (0, 0)
    }
}

/// The walk along the selected sprites, in OAM order, carrying the pixel,
/// palette and priority seen so far: the first active sprite with an
/// opaque pixel wins, and the last component records whether that winner
/// was sprite zero.
pub open spec fn spec_sprite_scan(
    sprites: Seq<ObjectAttribute>, lo: Seq<u8>, hi: Seq<u8>, count: int,
    i: int, pixel: u8, palette: u8, priority: bool,
) -> (u8, u8, bool, bool)
    decreases count - i,
{
    if i < 0 || i >= count {
        (pixel, palette, priority, false)
    } else {
        let s = sprites[i];
        if s.x == 0 {
            let first_plane_pixel: u8 = if lo[i] & 0x80 != 0 { 1 } else { 0 };
            let second_plane_pixel: u8 = if hi[i] & 0x80 != 0 { 1 } else { 0 };
            let px = (second_plane_pixel << 1) | first_plane_pixel;
            let pa = ((s.attributes % 4) + 4) as u8;
            let pr = s.attributes & 0x20 == 0;
            if px != 0 {
                (px, pa, pr, i == 0)
            } else {
                spec_sprite_scan(sprites, lo, hi, count, i + 1, px, pa, pr)
            }
        } else {
            spec_sprite_scan(sprites, lo, hi, count, i + 1, pixel, palette, priority)
        }
    }
}

/// The sprite contribution at the current dot; zero when the sprite layer
/// is hidden. The last component tells whether sprite zero is the one
/// being rendered.
pub open spec fn spec_sprite_pixel(p: PpuSnap) -> (u8, u8, bool, bool) {
    if p.ppu_mask & MASK_SHOW_SPRITES != 0 {
        spec_sprite_scan(
            p.current_scanline_sprites,
            p.sprite_shifter_pattern_low,
            p.sprite_shifter_pattern_high,
            p.current_scanline_sprites_count as int,
            0, 0, 0, false,
        )
    } else {
        (0, 0, false, false)
    }
}

/// Combining the two layers: a transparent side yields to the other, two
/// opaque pixels go to the priority bit, two transparent ones give the
/// backdrop colour.
pub open spec fn spec_final_pixel(tile_pixel: u8, tile_palette: u8, sprite_pixel: u8, sprite_palette: u8, sprite_priority: bool) -> (u8, u8) {
    if tile_pixel == 0 && sprite_pixel > 0 {
        (sprite_pixel, sprite_palette)
    } else if tile_pixel > 0 && sprite_pixel == 0 {
        (tile_pixel, tile_palette)
    } else if tile_pixel > 0 && sprite_pixel > 0 {
        (if sprite_priority { sprite_pixel } else { tile_pixel },
         if sprite_priority { sprite_palette } else { tile_palette })
    } else {
        (0, 0)
    }
}

/// Sprite-zero hit: both layers opaque, sprite zero selected and being
/// rendered, both layers shown, and the dot inside the window — from dot
/// 9 when either leftmost-pixel mask bit is clear, from dot 1 otherwise.
pub open spec fn spec_zero_hit(p: PpuSnap, tile_pixel: u8, sprite_pixel: u8) -> bool {
    &&& tile_pixel > 0
    &&& sprite_pixel > 0
    &&& p.sprite_zero_in_scanline
    &&& p.sprite_zero_being_rendered
    &&& p.ppu_mask & MASK_SHOW_BACKGROUND != 0
    &&& p.ppu_mask & MASK_SHOW_SPRITES != 0
    &&& if p.ppu_mask & MASK_SHOW_BACKGROUND_IN_LEFTMOST_PIXELS == 0
            || p.ppu_mask & MASK_SHOW_SPRITES_IN_LEFTMOST_PIXELS == 0 {
            9 <= p.cycles < 258
        } else {
            1 <= p.cycles < 258
        }
}

/// The RGB triple for a pixel within a palette: the colour byte comes
/// from palette RAM at `0x3F00 + palette * 4 + pixel`, then through the
/// fixed NTSC table.
pub open spec fn spec_colour_from_palette(p: PpuSnap, m: MemSnap, palette: u8, pixel: u8) -> (u8, u8, u8) {
    let palette_address = (palette as u16) * 4 + 0x3f00;
    crate::palette::spec_ntsc_colour(spec_vram_read(p, m, (palette_address + pixel as u16) as u16) % 64)
}


/// The background fetch pipeline for one dot, as a function: shifter
/// movement inside the fetch windows, the staggered nametable, attribute
/// and pattern fetches, the scroll step after each tile, the row step at
/// dot 256, the horizontal reload at 257, the garbage fetches at 338 and
/// 340, and the vertical reload window of the pre-render line.
pub open spec fn spec_process_background(p: PpuSnap, m: MemSnap) -> PpuSnap {
    let p1 = if (2 <= p.cycles < 258) || (321 <= p.cycles < 338) {
        let pa = spec_advance_background(p);
        let l = spec_loopy_from(pa.ppu_address);
        let phase = (p.cycles - 1) % 8;
        if phase == 0 {
            let pb = spec_prime_background(pa);
            PpuSnap {
                next_background_tile_id: spec_vram_read(pb, m, 0x2000 | (pb.ppu_address & 0x0fff)),
                ..pb
            }
        } else if phase == 2 {
            let attribute0 = spec_vram_read(pa, m,
                0x23c0 | ((l.name_table_y as u16) << 11) | ((l.name_table_x as u16) << 10)
                    | ((l.coarse_y as u16 / 4) << 3) | (l.coarse_x as u16 / 4));
            let attribute1 = if l.coarse_y & 2 != 0 { attribute0 >> 4 } else { attribute0 };
            let attribute2 = if l.coarse_x & 2 != 0 { attribute1 >> 2 } else { attribute1 };
            PpuSnap { next_background_tile_attribute: attribute2 & 3, ..pa }
        } else if phase == 4 {
            let background_bit: u16 = if pa.ppu_control & CTRL_BACKGROUND_PATTERN_ADDR != 0 { 1 } else { 0 };
            PpuSnap {
                next_background_tile_lsb: spec_vram_read(pa, m,
                    (background_bit << 12) | ((pa.next_background_tile_id as u16) << 4) | (l.fine_y as u16)),
                ..pa
            }
        } else if phase == 6 {
            let background_bit: u16 = if pa.ppu_control & CTRL_BACKGROUND_PATTERN_ADDR != 0 { 1 } else { 0 };
            PpuSnap {
                next_background_tile_msb: spec_vram_read(pa, m,
                    (background_bit << 12) | ((pa.next_background_tile_id as u16) << 4) | ((l.fine_y + 8) as u16)),
                ..pa
            }
        } else if phase == 7 {
            spec_increment_scroll_x(pa)
        } else {
            pa
        }
    } else {
        p
    };
    let p2 = if p1.cycles == 256 { spec_increment_scroll_y(p1) } else { p1 };
    let p3 = if p2.cycles == 257 { spec_update_address_x(spec_prime_background(p2)) } else { p2 };
    let p4 = if p3.cycles == 338 || p3.cycles == 340 {
        PpuSnap {
            next_background_tile_id: spec_vram_read(p3, m, 0x2000 | (p3.ppu_address & 0xfff)),
            ..p3
        }
    } else {
        p3
    };
    if p4.scanline == -1 && 280 <= p4.cycles < 305 { spec_update_address_y(p4) } else { p4 }
}

/// Sprite evaluation as a walk over the 64 OAM records in order,
/// carrying the selection so far: a record in range of the scanline
/// fills the next free slot of the eight (noting record zero); a ninth
/// in-range record raises the overflow outcome instead.
pub open spec fn spec_sprite_eval(
    oam: Seq<u8>, scanline: i16, sprite_h: u8, i: int,
    sel: Seq<ObjectAttribute>, count: u8, zero: bool, overflow: bool,
) -> (Seq<ObjectAttribute>, u8, bool, bool)
    decreases 64 - i,
{
    if i < 0 || i >= 64 {
        (sel, count, zero, overflow)
    } else {
        let entry = ObjectAttribute {
            y: oam[4 * i], id: oam[4 * i + 1], attributes: oam[4 * i + 2], x: oam[4 * i + 3],
        };
        if 0 <= scanline - entry.y < sprite_h {
            if count != 8 {
                spec_sprite_eval(oam, scanline, sprite_h, i + 1,
                    sel.update(count as int, entry), (count + 1) as u8, zero || i == 0, overflow)
            } else {
                spec_sprite_eval(oam, scanline, sprite_h, i + 1, sel, count, zero, true)
            }
        } else {
            spec_sprite_eval(oam, scanline, sprite_h, i + 1, sel, count, zero, overflow)
        }
    }
}

/// Sprite evaluation at dot 257: secondary OAM starts cleared with every
/// Y at 255, takes the first eight in-range records in OAM order, the
/// count and the sprite-zero note, and the status gains the overflow bit
/// exactly when a ninth record was in range.
pub open spec fn spec_evaluate_sprites(p: PpuSnap) -> PpuSnap {
    let init = Seq::new(8, |i: int| ObjectAttribute { y: 255, id: 0, attributes: 0, x: 0 });
    let ev = spec_sprite_eval(p.object_attribute_memory, p.scanline,
        spec_sprite_size(p.ppu_control), 0, init, 0, false, false);
    PpuSnap {
        current_scanline_sprites: ev.0,
        current_scanline_sprites_count: ev.1,
        sprite_zero_in_scanline: ev.2,
        ppu_status: if ev.3 { p.ppu_status | STATUS_SPRITE_OVERFLOW } else { p.ppu_status },
        ..p
    }
}

/// The pattern address of a sprite's row on the current scanline: the
/// table from PPUCTRL for 8-row sprites or from bit 0 of the id for
/// 16-row ones, with vertical flip folded into the row index.
pub open spec fn spec_sprite_pattern_addr(ppu_control: u8, sprite: ObjectAttribute, scanline: i16) -> u16 {
    let diff = (scanline - sprite.y) as i16;
    if spec_sprite_size(ppu_control) == 8 {
        let pattern_table: u16 = if ppu_control & CTRL_SPRITE_PATTERN_ADDR != 0 { 1 } else { 0 };
        if sprite.attributes & 0x80 == 0 {
            (pattern_table << 12) | ((sprite.id as u16) << 4) | (diff as u16)
        } else {
            (pattern_table << 12) | ((sprite.id as u16) << 4) | (((7 - diff) as i16) as u16)
        }
    } else {
        let pattern_table = (sprite.id % 2) as u16;
        let row: u16 = if sprite.attributes & 0x80 == 0 {
            (diff & 7) as u16
        } else {
            (((7 - diff) as i16) & 7) as u16
        };
        if diff < 8 {
            (pattern_table << 12) | (((sprite.id & 0xfe) as u16) << 4) | row
        } else {
            (pattern_table << 12) | ((((sprite.id & 0xfe) as u16 + 1) as u16) << 4) | row
        }
    }
}

/// The two pattern bytes loaded for one selected sprite at dot 340, with
/// horizontal flip applied to the bytes themselves.
pub open spec fn spec_sprite_fetch_one(p: PpuSnap, m: MemSnap, i: int) -> (u8, u8) {
    let sprite = p.current_scanline_sprites[i];
    let address_low = spec_sprite_pattern_addr(p.ppu_control, sprite, p.scanline);
    let address_high = address_low.wrapping_add(8);
    let lo = spec_vram_read(p, m, address_low);
    let hi = spec_vram_read(p, m, address_high);
    if sprite.attributes & 0x40 != 0 {
        (spec_flip_byte(lo), spec_flip_byte(hi))
    } else {
        (lo, hi)
    }
}

/// At dot 340 every selected sprite's shifter pair loads its pattern
/// bytes; the slots beyond the count keep theirs.
pub open spec fn spec_fetch_sprite_patterns(p: PpuSnap, m: MemSnap) -> PpuSnap {
    PpuSnap {
        sprite_shifter_pattern_low: Seq::new(8, |i: int|
            if 0 <= i < p.current_scanline_sprites_count as int {
                spec_sprite_fetch_one(p, m, i).0
            } else {
                p.sprite_shifter_pattern_low[i]
            }),
        sprite_shifter_pattern_high: Seq::new(8, |i: int|
            if 0 <= i < p.current_scanline_sprites_count as int {
                spec_sprite_fetch_one(p, m, i).1
            } else {
                p.sprite_shifter_pattern_high[i]
            }),
        ..p
    }
}

/// Sprite work for one dot: evaluation at dot 257 of a visible scanline,
/// pattern fetch at dot 340.
pub open spec fn spec_process_sprites(p: PpuSnap, m: MemSnap) -> PpuSnap {
    let p1 = if p.cycles == 257 && p.scanline >= 0 { spec_evaluate_sprites(p) } else { p };
    if p1.cycles == 340 { spec_fetch_sprite_patterns(p1, m) } else { p1 }
}

/// One whole dot of the PPU as a function: the odd-frame bump, the
/// pre-render clear, the background and sprite pipelines, VBLANK and the
/// NMI request, the composed pixel written into the framebuffer, and the
/// beam advance.
pub open spec fn spec_ppu_tick(p: PpuSnap, m: MemSnap) -> PpuSnap {
    let pa = if -1 <= p.scanline < 240 {
        let p0 = if p.scanline == 0 && p.cycles == 0 { PpuSnap { cycles: 1, ..p } } else { p };
        let p1 = if p0.scanline == -1 && p0.cycles == 1 {
            PpuSnap {
                ppu_status: p0.ppu_status & !STATUS_V_BLANK & !STATUS_SPRITE_OVERFLOW & !STATUS_SPRITE_ZERO_HIT,
                sprite_shifter_pattern_low: Seq::new(8, |i: int| 0u8),
                sprite_shifter_pattern_high: Seq::new(8, |i: int| 0u8),
                ..p0
            }
        } else {
            p0
        };
        spec_process_sprites(spec_process_background(p1, m), m)
    } else {
        p
    };
    let pb = if pa.scanline == 241 && pa.cycles == 1 {
        PpuSnap {
            ppu_status: pa.ppu_status | STATUS_V_BLANK,
            due_non_maskable_interrupt: if pa.ppu_control & CTRL_GENERATE_NMI != 0 {
                true
            } else {
                pa.due_non_maskable_interrupt
            },
            ..pa
        }
    } else {
        pa
    };
    let bg = spec_bg_pixel(pb);
    let spr = spec_sprite_pixel(pb);
    let pc = PpuSnap { sprite_zero_being_rendered: pb.sprite_zero_being_rendered || spr.3, ..pb };
    let fp = spec_final_pixel(bg.0, bg.1, spr.0, spr.1, spr.2);
    let pd = PpuSnap {
        ppu_status: if spec_zero_hit(pc, bg.0, spr.0) {
            pc.ppu_status | STATUS_SPRITE_ZERO_HIT
        } else {
            pc.ppu_status
        },
        ..pc
    };
    let colour = spec_colour_from_palette(pd, m, fp.1, fp.0);
    let pe = if 1 <= pd.cycles <= 256 && 0 <= pd.scanline < 240 {
        let base = (pd.scanline * 256 + (pd.cycles - 1)) * 3;
        PpuSnap {
            output: pd.output.update(base, colour.0).update(base + 1, colour.1).update(base + 2, colour.2),
            ..pd
        }
    } else {
        pd
    };
    if pe.cycles + 1 >= 341 {
        PpuSnap {
            cycles: 0,
            scanline: if pe.scanline + 1 >= 261 { -1 as i16 } else { (pe.scanline + 1) as i16 },
            ..pe
        }
    } else {
        PpuSnap { cycles: (pe.cycles + 1) as i16, ..pe }
    }
}


/// One pixel of the debugger's pattern-table view: the two bit planes of
/// the tile under (x, y) combine into a 2-bit pixel (lower plane into the
/// high bit), looked up in the chosen palette.
pub open spec fn spec_pattern_pixel(p: PpuSnap, m: MemSnap, pattern_table: u8, palette: u8, x: int, y: int) -> (u8, u8, u8) {
    let col = (7 - (x % 8)) as u8;
    let base = (pattern_table * 0x1000 + (y / 8) * 256 + (x / 8) * 16 + (y % 8)) as u16;
    let lower = spec_vram_read(p, m, base);
    let upper = spec_vram_read(p, m, (base + 8) as u16);
    let pixel = (((lower >> col) & 1) << 1) | ((upper >> col) & 1);
    spec_colour_from_palette(p, m, palette, pixel)
}

impl Ppu {
    /// Scrolls one tile to the right, wrapping between nametables.
    pub fn increment_scroll_x(&mut self)
        ensures
            final(self)@ == spec_increment_scroll_x(old(self)@),
    {
        if !rendering_enabled(self.ppu_mask) {
            return;
        }
        let mut loopy = LoopyRegister::from(self.ppu_address);
        if loopy.coarse_x == 31 {
            loopy.coarse_x = 0;
            loopy.name_table_x = if loopy.name_table_x == 0 { 1 } else { 0 };
        } else {
            loopy.coarse_x = loopy.coarse_x + 1;
        }
        self.ppu_address = loopy.bits();
    }

    /// Scrolls one line down, advancing the coarse row on fine overflow.
    pub fn increment_scroll_y(&mut self)
        ensures
            final(self)@ == spec_increment_scroll_y(old(self)@),
    {
        if !rendering_enabled(self.ppu_mask) {
            return;
        }
        let mut loopy = LoopyRegister::from(self.ppu_address);
        if loopy.fine_y < 7 {
            loopy.fine_y = loopy.fine_y + 1;
        } else {
            loopy.fine_y = 0;
            if loopy.coarse_y == 29 {
                loopy.coarse_y = 0;
                loopy.name_table_y = if loopy.name_table_y == 0 { 1 } else { 0 };
            } else if loopy.coarse_y == 31 {
                loopy.coarse_y = 0;
            } else {
                loopy.coarse_y = loopy.coarse_y + 1;
            }
        }
        self.ppu_address = loopy.bits();
    }

    /// Reloads the horizontal bits of `v` from `t`.
    pub fn update_address_x(&mut self)
        ensures
            final(self)@ == spec_update_address_x(old(self)@),
    {
        if !rendering_enabled(self.ppu_mask) {
            return;
        }
        let mut loopy_ppu_address = LoopyRegister::from(self.ppu_address);
        let loopy_table_ram_address = LoopyRegister::from(self.table_ram_address);
        loopy_ppu_address.name_table_x = loopy_table_ram_address.name_table_x;
        loopy_ppu_address.coarse_x = loopy_table_ram_address.coarse_x;
        self.ppu_address = loopy_ppu_address.bits();
    }

    /// Reloads the vertical bits of `v` from `t`.
    pub fn update_address_y(&mut self)
        ensures
            final(self)@ == spec_update_address_y(old(self)@),
    {
        if !rendering_enabled(self.ppu_mask) {
            return;
        }
        let mut loopy_ppu_address = LoopyRegister::from(self.ppu_address);
        let loopy_table_ram_address = LoopyRegister::from(self.table_ram_address);
        loopy_ppu_address.fine_y = loopy_table_ram_address.fine_y;
        loopy_ppu_address.name_table_y = loopy_table_ram_address.name_table_y;
        loopy_ppu_address.coarse_y = loopy_table_ram_address.coarse_y;
        self.ppu_address = loopy_ppu_address.bits();
    }

    /// Loads the pending tile latches into the shifters.
    pub fn prime_background_shifters(&mut self)
        ensures
            final(self)@ == spec_prime_background(old(self)@),
    {
        self.shifter_pattern_low = (self.shifter_pattern_low & 0xff00) | (self.next_background_tile_lsb as u16);
        self.shifter_pattern_high = (self.shifter_pattern_high & 0xff00) | (self.next_background_tile_msb as u16);
        self.shifter_attribute_low = (self.shifter_attribute_low & 0xff00)
            | (if self.next_background_tile_attribute & 0b01 != 0 { 0xff } else { 0 });
        self.shifter_attribute_high = (self.shifter_attribute_high & 0xff00)
            | (if self.next_background_tile_attribute & 0b10 != 0 { 0xff } else { 0 });
    }

    /// Advances the background shifters and the sprite X counters and
    /// shifters for one dot.
    pub fn advance_background_shifters(&mut self)
        requires
            old(self)@.wf(),
        ensures
            final(self)@.wf(),
            final(self)@ == spec_advance_background(old(self)@),
    {
        if self.ppu_mask & MASK_SHOW_BACKGROUND != 0 {
            self.shifter_pattern_low = self.shifter_pattern_low << 1;
            self.shifter_pattern_high = self.shifter_pattern_high << 1;
            self.shifter_attribute_low = self.shifter_attribute_low << 1;
            self.shifter_attribute_high = self.shifter_attribute_high << 1;
        }
        let ghost mid = self@;
        if self.ppu_mask & MASK_SHOW_SPRITES != 0 && self.cycles >= 1 && self.cycles < 258 {
            let count = self.current_scanline_sprites_count as usize;
            let mut i: usize = 0;
            while i < count
                invariant
                    count == mid.current_scanline_sprites_count as int,
                    count <= 8,
                    i <= count,
                    self@.wf(),
                    self@ == (PpuSnap {
                        current_scanline_sprites: self@.current_scanline_sprites,
                        sprite_shifter_pattern_low: self@.sprite_shifter_pattern_low,
                        sprite_shifter_pattern_high: self@.sprite_shifter_pattern_high,
                        ..mid
                    }),
                    forall|j: int| 0 <= j < i ==> self@.current_scanline_sprites[j]
                        == (if mid.current_scanline_sprites[j].x > 0 {
                            ObjectAttribute { x: (mid.current_scanline_sprites[j].x - 1) as u8, ..mid.current_scanline_sprites[j] }
                        } else {
                            mid.current_scanline_sprites[j]
                        }),
                    forall|j: int| i <= j < 8 ==> self@.current_scanline_sprites[j] == mid.current_scanline_sprites[j],
                    forall|j: int| 0 <= j < i ==> self@.sprite_shifter_pattern_low[j]
                        == (if mid.current_scanline_sprites[j].x == 0 {
                            mid.sprite_shifter_pattern_low[j] << 1
                        } else {
                            mid.sprite_shifter_pattern_low[j]
                        }),
                    forall|j: int| i <= j < 8 ==> self@.sprite_shifter_pattern_low[j] == mid.sprite_shifter_pattern_low[j],
                    forall|j: int| 0 <= j < i ==> self@.sprite_shifter_pattern_high[j]
                        == (if mid.current_scanline_sprites[j].x == 0 {
                            mid.sprite_shifter_pattern_high[j] << 1
                        } else {
                            mid.sprite_shifter_pattern_high[j]
                        }),
                    forall|j: int| i <= j < 8 ==> self@.sprite_shifter_pattern_high[j] == mid.sprite_shifter_pattern_high[j],
                decreases count - i,
            {
                if self.current_scanline_sprites[i].x > 0 {
                    let mut s = self.current_scanline_sprites[i];
                    s.x = s.x - 1;
                    self.current_scanline_sprites[i] = s;
                } else {
                    self.sprite_shifter_pattern_low[i] = self.sprite_shifter_pattern_low[i] << 1;
                    self.sprite_shifter_pattern_high[i] = self.sprite_shifter_pattern_high[i] << 1;
                }
                i = i + 1;
            }
            proof {
                let target = spec_advance_background(old(self)@);
                assert(self@.current_scanline_sprites =~= target.current_scanline_sprites);
                assert(self@.sprite_shifter_pattern_low =~= target.sprite_shifter_pattern_low);
                assert(self@.sprite_shifter_pattern_high =~= target.sprite_shifter_pattern_high);
            }
        }
    }

    /// Reverses the bit order of a byte, mirroring a sprite row.
    pub fn flip_byte(&self, value: u8) -> (r: u8)
        ensures
            r == spec_flip_byte(value),
    {
        let v1 = ((value & 0xf0) >> 4) | ((value & 0x0f) << 4);
        let v2 = ((v1 & 0xcc) >> 2) | ((v1 & 0x33) << 2);
        ((v2 & 0xaa) >> 1) | ((v2 & 0x55) << 1)
    }

    /// The background pixel and palette under the current dot.
    pub fn get_background_tile_to_draw(&self) -> (r: (u8, u8))
        requires
            self@.wf(),
        ensures
            r == spec_bg_pixel(self@),
    {
        if self.ppu_mask & MASK_SHOW_BACKGROUND != 0 {
            let scrolling_mask = 0x8000u16 >> (self.fine_x as u16);
            let first_plane_pixel: u8 = if (self.shifter_pattern_low & scrolling_mask) > 0 { 1 } else { 0 };
            let second_plane_pixel: u8 = if (self.shifter_pattern_high & scrolling_mask) > 0 { 1 } else { 0 };
            let first_plane_palette: u8 = if (self.shifter_attribute_low & scrolling_mask) > 0 { 1 } else { 0 };
            let second_plane_palette: u8 = if (self.shifter_attribute_high & scrolling_mask) > 0 { 1 } else { 0 };
            ((second_plane_pixel << 1) | first_plane_pixel, (second_plane_palette << 1) | first_plane_palette)
        } else {
            (0, 0)
        }
    }

    /// The winning sprite pixel under the current dot, with its palette
    /// and priority; notes when that winner is sprite zero.
    pub fn get_sprite_to_draw(&mut self) -> (r: (u8, u8, bool))
        requires
            old(self)@.wf(),
        ensures
            final(self)@.wf(),
            ({
                let s = spec_sprite_pixel(old(self)@);
                r == (s.0, s.1, s.2) && final(self)@ == (PpuSnap {
                    sprite_zero_being_rendered: old(self)@.sprite_zero_being_rendered || s.3,
                    ..old(self)@
                })
            }),
    {
        let mut pixel: u8 = 0;
        let mut palette: u8 = 0;
        let mut priority: bool = false;
        if self.ppu_mask & MASK_SHOW_SPRITES != 0 {
            let ghost start = self@;
            let ghost full = spec_sprite_pixel(self@);
            let count = self.current_scanline_sprites_count as usize;
            let mut found: bool = false;
            let mut winner_is_zero: bool = false;
            let mut i: usize = 0;
            while i < count
                invariant
                    self@ == start,
                    count == start.current_scanline_sprites_count as int,
                    count <= 8,
                    start.wf(),
                    i <= count,
                    start.ppu_mask & MASK_SHOW_SPRITES != 0,
                    full == spec_sprite_pixel(start),
                    !found ==> !winner_is_zero && full == spec_sprite_scan(
                        start.current_scanline_sprites,
                        start.sprite_shifter_pattern_low,
                        start.sprite_shifter_pattern_high,
                        count as int, i as int, pixel, palette, priority),
                    found ==> (pixel, palette, priority, winner_is_zero) == full,
                decreases count - i,
            {
                if !found {
                    let sprite = self.current_scanline_sprites[i];
                    if sprite.x == 0 {
                        let first_plane_pixel: u8 = if self.sprite_shifter_pattern_low[i] & 0x80 != 0 { 1 } else { 0 };
                        let second_plane_pixel: u8 = if self.sprite_shifter_pattern_high[i] & 0x80 != 0 { 1 } else { 0 };
                        pixel = (second_plane_pixel << 1) | first_plane_pixel;
                        palette = sprite.get_palette();
                        priority = sprite.has_priority();
                        if pixel != 0 {
                            found = true;
                            winner_is_zero = i == 0;
                        }
                    }
                }
                i = i + 1;
            }
            if winner_is_zero {
                self.sprite_zero_being_rendered = true;
            }
        }
        (pixel, palette, priority)
    }

    /// Combines the background and sprite contributions for the dot and
    /// raises the sprite-zero hit when both layers are opaque inside the
    /// hit window.
    pub fn get_final_pixel(&mut self, tile_pixel: u8, tile_palette: u8, sprite_pixel: u8, sprite_palette: u8, sprite_priority: bool) -> (r: (u8, u8))
        ensures
            r == spec_final_pixel(tile_pixel, tile_palette, sprite_pixel, sprite_palette, sprite_priority),
            final(self)@ == (PpuSnap {
                ppu_status: if spec_zero_hit(old(self)@, tile_pixel, sprite_pixel) {
                    old(self)@.ppu_status | STATUS_SPRITE_ZERO_HIT
                } else {
                    old(self)@.ppu_status
                },
                ..old(self)@
            }),
    {
        let mut rendered_pixel: u8 = 0;
        let mut rendered_palette: u8 = 0;
        if tile_pixel == 0 && sprite_pixel > 0 {
            rendered_pixel = sprite_pixel;
            rendered_palette = sprite_palette;
        } else if tile_pixel > 0 && sprite_pixel == 0 {
            rendered_pixel = tile_pixel;
            rendered_palette = tile_palette;
        } else if tile_pixel > 0 && sprite_pixel > 0 {
            rendered_pixel = if sprite_priority { sprite_pixel } else { tile_pixel };
            rendered_palette = if sprite_priority { sprite_palette } else { tile_palette };
            if self.sprite_zero_in_scanline && self.sprite_zero_being_rendered
                && self.ppu_mask & MASK_SHOW_BACKGROUND != 0 && self.ppu_mask & MASK_SHOW_SPRITES != 0 {
                if self.ppu_mask & MASK_SHOW_BACKGROUND_IN_LEFTMOST_PIXELS == 0
                    || self.ppu_mask & MASK_SHOW_SPRITES_IN_LEFTMOST_PIXELS == 0 {
                    if self.cycles >= 9 && self.cycles < 258 {
                        self.ppu_status = self.ppu_status | STATUS_SPRITE_ZERO_HIT;
                    }
                } else {
                    if self.cycles >= 1 && self.cycles < 258 {
                        self.ppu_status = self.ppu_status | STATUS_SPRITE_ZERO_HIT;
                    }
                }
            }
        }
        (rendered_pixel, rendered_palette)
    }

    /// Looks a pixel up in its palette and maps it through the fixed NTSC
    /// table to an RGB triple.
    pub fn get_colour_from_palette(&self, memory: &Memory, palette: u8, pixel: u8) -> (r: (u8, u8, u8))
        requires
            self@.wf(),
            memory@.wf(),
        ensures
            r == spec_colour_from_palette(self@, memory@, palette, pixel),
    {
        let palette_address = (palette as u16) * 4 + 0x3f00;
        let colour = self.read_byte_from_ppu(memory, palette_address + pixel as u16);
        crate::palette::ntsc_colour(colour % 64)
    }

    /// One pixel of the pattern-table view.
    fn pattern_pixel(&self, memory: &Memory, pattern_table: u8, palette: u8, x: usize, y: usize) -> (r: (u8, u8, u8))
        requires
            self@.wf(),
            memory@.wf(),
            pattern_table <= 1,
            x < 128,
            y < 128,
        ensures
            r == spec_pattern_pixel(self@, memory@, pattern_table, palette, x as int, y as int),
    {
        let col = (7 - (x % 8)) as u8;
        let base = (pattern_table as u16) * 0x1000
            + ((y / 8) as u16) * 256 + ((x / 8) as u16) * 16 + ((y % 8) as u16);
        let lower = self.read_byte_from_ppu(memory, base);
        let upper = self.read_byte_from_ppu(memory, base + 8);
        let pixel = (((lower >> col) & 1) << 1) | ((upper >> col) & 1);
        self.get_colour_from_palette(memory, palette, pixel)
    }

    /// Renders one of the two pattern tables as a 128 x 128 RGB image
    /// through the chosen palette, for the debugger view.
    #[verifier::rlimit(100)]
    pub fn get_pattern_table(&self, memory: &Memory, pattern_table: u8, palette: u8) -> (r: Vec<u8>)
        requires
            self@.wf(),
            memory@.wf(),
            pattern_table <= 1,
        ensures
            r@.len() == 49152,
            forall|x: int, y: int| 0 <= x < 128 && 0 <= y < 128 ==> {
                &&& r@[(y * 128 + x) * 3] == #[trigger] spec_pattern_pixel(self@, memory@, pattern_table, palette, x, y).0
                &&& r@[(y * 128 + x) * 3 + 1] == spec_pattern_pixel(self@, memory@, pattern_table, palette, x, y).1
                &&& r@[(y * 128 + x) * 3 + 2] == spec_pattern_pixel(self@, memory@, pattern_table, palette, x, y).2
            },
    {
        let mut output: Vec<u8> = Vec::new();
        let mut k: usize = 0;
        while k < 16384
            invariant
                self@.wf(),
                memory@.wf(),
                pattern_table <= 1,
                k <= 16384,
                output@.len() == k * 3,
                forall|j: int| 0 <= j < k ==> {
                    &&& output@[j * 3] == #[trigger] spec_pattern_pixel(self@, memory@, pattern_table, palette, j % 128, j / 128).0
                    &&& output@[j * 3 + 1] == spec_pattern_pixel(self@, memory@, pattern_table, palette, j % 128, j / 128).1
                    &&& output@[j * 3 + 2] == spec_pattern_pixel(self@, memory@, pattern_table, palette, j % 128, j / 128).2
                },
            decreases 16384 - k,
        {
            let x = k % 128;
            let y = k / 128;
            let colour = self.pattern_pixel(memory, pattern_table, palette, x, y);
            output.push(colour.0);
            output.push(colour.1);
            output.push(colour.2);
            proof {
                assert(x as int == k as int % 128);
                assert(y as int == k as int / 128);
                assert(colour == spec_pattern_pixel(self@, memory@, pattern_table, palette, k as int % 128, k as int / 128));
                assert(output@[k as int * 3] == colour.0);
                assert(output@[k as int * 3 + 1] == colour.1);
                assert(output@[k as int * 3 + 2] == colour.2);
            }
            k = k + 1;
        }
        proof {
            assert forall|x: int, y: int| 0 <= x < 128 && 0 <= y < 128 implies {
                &&& output@[(y * 128 + x) * 3] == #[trigger] spec_pattern_pixel(self@, memory@, pattern_table, palette, x, y).0
                &&& output@[(y * 128 + x) * 3 + 1] == spec_pattern_pixel(self@, memory@, pattern_table, palette, x, y).1
                &&& output@[(y * 128 + x) * 3 + 2] == spec_pattern_pixel(self@, memory@, pattern_table, palette, x, y).2
            } by {
                let j = y * 128 + x;
                assert(0 <= j < 16384);
                assert(output@[j * 3] == spec_pattern_pixel(self@, memory@, pattern_table, palette, j % 128, j / 128).0);
                assert(j % 128 == x && j / 128 == y);
            };
        }
        output
    }

    /// The background fetch pipeline for one dot: shifter movement, the
    /// staggered nametable / attribute / pattern fetches, and the scroll
    /// and reload steps at their fixed dots. Touches only the fetch state
    /// (`v`, the tile latches, the shifters and the sprite counters);
    /// everything the CPU observes through registers stays put.
    #[verifier::rlimit(100)]
    pub fn process_background_tiles(&mut self, memory: &mut Memory)
        requires
            old(self)@.wf(),
            old(memory)@.wf(),
        ensures
            final(self)@.wf(),
            final(memory)@ == old(memory)@,
            final(self)@ == spec_process_background(old(self)@, old(memory)@),
            final(self)@ == (PpuSnap {
                ppu_address: final(self)@.ppu_address,
                next_background_tile_id: final(self)@.next_background_tile_id,
                next_background_tile_attribute: final(self)@.next_background_tile_attribute,
                next_background_tile_lsb: final(self)@.next_background_tile_lsb,
                next_background_tile_msb: final(self)@.next_background_tile_msb,
                shifter_pattern_low: final(self)@.shifter_pattern_low,
                shifter_pattern_high: final(self)@.shifter_pattern_high,
                shifter_attribute_low: final(self)@.shifter_attribute_low,
                shifter_attribute_high: final(self)@.shifter_attribute_high,
                current_scanline_sprites: final(self)@.current_scanline_sprites,
                sprite_shifter_pattern_low: final(self)@.sprite_shifter_pattern_low,
                sprite_shifter_pattern_high: final(self)@.sprite_shifter_pattern_high,
                ..old(self)@
            }),
    {
        if (self.cycles >= 2 && self.cycles < 258) || (self.cycles >= 321 && self.cycles < 338) {
            self.advance_background_shifters();
            let loopy = LoopyRegister::from(self.ppu_address);
            let phase = (self.cycles - 1) % 8;
            if phase == 0 {
                self.prime_background_shifters();
                self.next_background_tile_id = self.read_byte_from_ppu(memory, 0x2000 | (self.ppu_address & 0x0fff));
            } else if phase == 2 {
                let mut attribute = self.read_byte_from_ppu(memory,
                    0x23c0 | ((loopy.name_table_y as u16) << 11)
                        | ((loopy.name_table_x as u16) << 10)
                        | ((loopy.coarse_y as u16 / 4) << 3)
                        | (loopy.coarse_x as u16 / 4));
                if loopy.coarse_y & 2 != 0 {
                    attribute = attribute >> 4;
                }
                if loopy.coarse_x & 2 != 0 {
                    attribute = attribute >> 2;
                }
                self.next_background_tile_attribute = attribute & 3;
            } else if phase == 4 {
                let background_bit: u16 = if self.ppu_control & CTRL_BACKGROUND_PATTERN_ADDR != 0 { 1 } else { 0 };
                self.next_background_tile_lsb = self.read_byte_from_ppu(memory,
                    (background_bit << 12) | ((self.next_background_tile_id as u16) << 4) | (loopy.fine_y as u16));
            } else if phase == 6 {
                let background_bit: u16 = if self.ppu_control & CTRL_BACKGROUND_PATTERN_ADDR != 0 { 1 } else { 0 };
                self.next_background_tile_msb = self.read_byte_from_ppu(memory,
                    (background_bit << 12) | ((self.next_background_tile_id as u16) << 4) | (loopy.fine_y as u16 + 8));
            } else if phase == 7 {
                self.increment_scroll_x();
            }
        }
        if self.cycles == 256 {
            self.increment_scroll_y();
        }
        if self.cycles == 257 {
            self.prime_background_shifters();
            self.update_address_x();
        }
        if self.cycles == 338 || self.cycles == 340 {
            self.next_background_tile_id = self.read_byte_from_ppu(memory, 0x2000 | (self.ppu_address & 0xfff));
        }
        if self.scanline == -1 && self.cycles >= 280 && self.cycles < 305 {
            self.update_address_y();
        }
    }

    /// Sprite work for one dot: at dot 257 of a visible scanline the 64
    /// OAM records are scanned in order and the first eight in range of
    /// the scanline move to secondary OAM, noting sprite zero and raising
    /// the overflow bit when a ninth is in range; at dot 340 the pattern
    /// bytes of the chosen sprites load into their shifters, with
    /// vertical flip folded into the fetch address and horizontal flip
    /// into the byte.
    #[verifier::rlimit(100)]
    pub fn process_sprites(&mut self, memory: &mut Memory)
        requires
            old(self)@.wf(),
            old(memory)@.wf(),
        ensures
            final(self)@.wf(),
            final(memory)@ == old(memory)@,
            final(self)@ == spec_process_sprites(old(self)@, old(memory)@),
    {
        if self.cycles == 257 && self.scanline >= 0 {
            let ghost init = Seq::new(8, |i: int| ObjectAttribute { y: 255, id: 0, attributes: 0, x: 0 });
            let mut k: usize = 0;
            while k < 8
                invariant
                    k <= 8,
                    self@.wf(),
                    self@ == (PpuSnap { current_scanline_sprites: self@.current_scanline_sprites, ..old(self)@ }),
                    forall|j: int| 0 <= j < k ==> self@.current_scanline_sprites[j]
                        == (ObjectAttribute { y: 255, id: 0, attributes: 0, x: 0 }),
                decreases 8 - k,
            {
                self.current_scanline_sprites[k] = ObjectAttribute { y: 255, id: 0, attributes: 0, x: 0 };
                k = k + 1;
            }
            proof {
                assert(self@.current_scanline_sprites =~= init);
            }
            self.current_scanline_sprites_count = 0;
            self.sprite_zero_in_scanline = false;
            let mut overflow_found: bool = false;
            let sprite_h = get_sprite_size(self.ppu_control);
            let mut i: usize = 0;
            while i < 64
                invariant
                    i <= 64,
                    self@.wf(),
                    sprite_h == spec_sprite_size(old(self)@.ppu_control),
                    self@ == (PpuSnap {
                        current_scanline_sprites: self@.current_scanline_sprites,
                        current_scanline_sprites_count: self@.current_scanline_sprites_count,
                        sprite_zero_in_scanline: self@.sprite_zero_in_scanline,
                        ..old(self)@
                    }),
                    spec_sprite_eval(old(self)@.object_attribute_memory, old(self)@.scanline,
                        spec_sprite_size(old(self)@.ppu_control), 0, init, 0, false, false)
                        == spec_sprite_eval(old(self)@.object_attribute_memory, old(self)@.scanline,
                            spec_sprite_size(old(self)@.ppu_control), i as int,
                            self@.current_scanline_sprites, self@.current_scanline_sprites_count,
                            self@.sprite_zero_in_scanline, overflow_found),
                decreases 64 - i,
            {
                let entry = ObjectAttribute::from([
                    self.object_attribute_memory[i * 4],
                    self.object_attribute_memory[i * 4 + 1],
                    self.object_attribute_memory[i * 4 + 2],
                    self.object_attribute_memory[i * 4 + 3],
                ]);
                let y_difference: i16 = self.scanline - entry.y as i16;
                if y_difference >= 0 && y_difference < sprite_h as i16 {
                    if self.current_scanline_sprites_count != 8 {
                        if i == 0 {
                            self.sprite_zero_in_scanline = true;
                        }
                        let slot = self.current_scanline_sprites_count as usize;
                        self.current_scanline_sprites[slot] = entry;
                        self.current_scanline_sprites_count = self.current_scanline_sprites_count + 1;
                    } else {
                        overflow_found = true;
                    }
                }
                i = i + 1;
            }
            if overflow_found {
                self.ppu_status = self.ppu_status | STATUS_SPRITE_OVERFLOW;
            }
            proof {
                assert(self@ == spec_evaluate_sprites(old(self)@));
            }
        }
        let ghost mid = self@;
        proof {
            assert(mid == (if old(self)@.cycles == 257 && old(self)@.scanline >= 0 {
                spec_evaluate_sprites(old(self)@)
            } else {
                old(self)@
            }));
        }
        if self.cycles == 340 {
            let count = self.current_scanline_sprites_count as usize;
            let mut i: usize = 0;
            while i < count
                invariant
                    i <= count,
                    count == mid.current_scanline_sprites_count as int,
                    self@.wf(),
                    old(memory)@.wf(),
                    mid.wf(),
                    self@ == (PpuSnap {
                        sprite_shifter_pattern_low: self@.sprite_shifter_pattern_low,
                        sprite_shifter_pattern_high: self@.sprite_shifter_pattern_high,
                        ..mid
                    }),
                    forall|j: int| 0 <= j < i ==> self@.sprite_shifter_pattern_low[j]
                        == spec_sprite_fetch_one(mid, old(memory)@, j).0,
                    forall|j: int| 0 <= j < i ==> self@.sprite_shifter_pattern_high[j]
                        == spec_sprite_fetch_one(mid, old(memory)@, j).1,
                    forall|j: int| i <= j < 8 ==> self@.sprite_shifter_pattern_low[j]
                        == mid.sprite_shifter_pattern_low[j],
                    forall|j: int| i <= j < 8 ==> self@.sprite_shifter_pattern_high[j]
                        == mid.sprite_shifter_pattern_high[j],
                decreases count - i,
            {
                let sprite = self.current_scanline_sprites[i];
                let diff: i16 = self.scanline - sprite.y as i16;
                let sprite_pattern_address_low: u16;
                if get_sprite_size(self.ppu_control) == 8 {
                    let pattern_table: u16 = if self.ppu_control & CTRL_SPRITE_PATTERN_ADDR != 0 { 1 } else { 0 };
                    if !sprite.is_flipped_vertically() {
                        sprite_pattern_address_low =
                            (pattern_table << 12) | ((sprite.id as u16) << 4) | (diff as u16);
                    } else {
                        sprite_pattern_address_low =
                            (pattern_table << 12) | ((sprite.id as u16) << 4) | ((7 - diff) as u16);
                    }
                } else {
                    let pattern_table = sprite.get_double_height_pattern_table() as u16;
                    let row: u16 = if !sprite.is_flipped_vertically() {
                        (diff & 7) as u16
                    } else {
                        ((7 - diff) & 7) as u16
                    };
                    if diff < 8 {
                        sprite_pattern_address_low =
                            (pattern_table << 12) | (((sprite.id & 0xfe) as u16) << 4) | row;
                    } else {
                        sprite_pattern_address_low =
                            (pattern_table << 12) | ((((sprite.id & 0xfe) as u16 + 1) as u16) << 4) | row;
                    }
                }
                proof {
                    assert(sprite_pattern_address_low
                        == spec_sprite_pattern_addr(mid.ppu_control, sprite, mid.scanline));
                }
                let sprite_pattern_address_high = sprite_pattern_address_low.wrapping_add(8);
                let mut sprite_pattern_bits_low = self.read_byte_from_ppu(memory, sprite_pattern_address_low);
                let mut sprite_pattern_bits_high = self.read_byte_from_ppu(memory, sprite_pattern_address_high);
                if sprite.is_flipped_horizontally() {
                    sprite_pattern_bits_low = self.flip_byte(sprite_pattern_bits_low);
                    sprite_pattern_bits_high = self.flip_byte(sprite_pattern_bits_high);
                }
                self.sprite_shifter_pattern_low[i] = sprite_pattern_bits_low;
                self.sprite_shifter_pattern_high[i] = sprite_pattern_bits_high;
                i = i + 1;
            }
            proof {
                let target = spec_fetch_sprite_patterns(mid, old(memory)@);
                assert(self@.sprite_shifter_pattern_low =~= target.sprite_shifter_pattern_low);
                assert(self@.sprite_shifter_pattern_high =~= target.sprite_shifter_pattern_high);
            }
        }
    }

    /// One dot of the PPU. Advances the beam (with the one-dot skip at
    /// scanline 0 dot 0), clears VBLANK, overflow and the zero hit at the
    /// second dot of the pre-render line, runs the fetch pipeline and the
    /// sprite work on visible lines, raises VBLANK at scanline 241 dot 1
    /// (and the NMI request when enabled), and composes one output pixel.
    /// The CPU-visible registers and latches do not move.
    #[verifier::rlimit(100)]
    pub fn execute(&mut self, memory: &mut Memory)
        requires
            old(self)@.wf(),
            old(memory)@.wf(),
        ensures
            final(self)@.wf(),
            final(memory)@ == old(memory)@,
            final(self)@.ppu_control == old(self)@.ppu_control,
            final(self)@.ppu_mask == old(self)@.ppu_mask,
            final(self)@.fine_x == old(self)@.fine_x,
            final(self)@.table_ram_address == old(self)@.table_ram_address,
            final(self)@.address_latch == old(self)@.address_latch,
            final(self)@.data_buffer == old(self)@.data_buffer,
            final(self)@.object_attribute_memory == old(self)@.object_attribute_memory,
            final(self)@.oam_address == old(self)@.oam_address,
            final(self)@.name_tables == old(self)@.name_tables,
            final(self)@.palette == old(self)@.palette,
            // The beam: one dot forward, with the skip at scanline 0 dot 0,
            // wrapping into the next scanline after dot 340 and back to the
            // pre-render line after scanline 260.
            ({
                let c0: int = if old(self)@.scanline == 0 && old(self)@.cycles == 0 { 1 } else { old(self)@.cycles as int };
                if c0 + 1 >= 341 {
                    final(self)@.cycles == 0
                        && final(self)@.scanline == (if old(self)@.scanline + 1 >= 261 { -1 as i16 } else { (old(self)@.scanline + 1) as i16 })
                } else {
                    final(self)@.cycles == c0 + 1 && final(self)@.scanline == old(self)@.scanline
                }
            }),
            // VBLANK timing and the NMI request.
            old(self)@.scanline == 241 && old(self)@.cycles == 1 ==> final(self)@.ppu_status & STATUS_V_BLANK != 0,
            final(self)@.due_non_maskable_interrupt == (old(self)@.due_non_maskable_interrupt
                || (old(self)@.scanline == 241 && old(self)@.cycles == 1
                    && old(self)@.ppu_control & CTRL_GENERATE_NMI != 0)),
            final(self)@ == spec_ppu_tick(old(self)@, old(memory)@),
    {
        if self.scanline >= -1 && self.scanline < 240 {
            if self.scanline == 0 && self.cycles == 0 {
                self.cycles = 1;
            }
            if self.scanline == -1 && self.cycles == 1 {
                self.ppu_status = self.ppu_status & !STATUS_V_BLANK & !STATUS_SPRITE_OVERFLOW & !STATUS_SPRITE_ZERO_HIT;
                let mut k: usize = 0;
                while k < 8
                    invariant
                        k <= 8,
                        self@.wf(),
                        self@ == (PpuSnap {
                            ppu_status: self@.ppu_status,
                            sprite_shifter_pattern_low: self@.sprite_shifter_pattern_low,
                            sprite_shifter_pattern_high: self@.sprite_shifter_pattern_high,
                            ..old(self)@
                        }),
                        self@.ppu_status == old(self)@.ppu_status & !STATUS_V_BLANK & !STATUS_SPRITE_OVERFLOW & !STATUS_SPRITE_ZERO_HIT,
                        forall|j: int| 0 <= j < k ==> self@.sprite_shifter_pattern_low[j] == 0u8,
                        forall|j: int| 0 <= j < k ==> self@.sprite_shifter_pattern_high[j] == 0u8,
                    decreases 8 - k,
                {
                    self.sprite_shifter_pattern_low[k] = 0;
                    self.sprite_shifter_pattern_high[k] = 0;
                    k = k + 1;
                }
                proof {
                    assert(self@.sprite_shifter_pattern_low =~= Seq::new(8, |i: int| 0u8));
                    assert(self@.sprite_shifter_pattern_high =~= Seq::new(8, |i: int| 0u8));
                }
            }
            self.process_background_tiles(memory);
            self.process_sprites(memory);
        }
        if self.scanline == 241 && self.cycles == 1 {
            let ghost status_entering = self@.ppu_status;
            self.ppu_status = self.ppu_status | STATUS_V_BLANK;
            proof {
                assert((status_entering | STATUS_V_BLANK) & STATUS_V_BLANK != 0) by (bit_vector);
            }
            if self.ppu_control & CTRL_GENERATE_NMI != 0 {
                self.due_non_maskable_interrupt = true;
            }
        }
        let ghost status_mid = self@.ppu_status;
        proof {
            assert((status_mid | STATUS_SPRITE_ZERO_HIT) & STATUS_V_BLANK == status_mid & STATUS_V_BLANK)
                by (bit_vector);
        }
        let (tile_pixel, tile_palette) = self.get_background_tile_to_draw();
        let (sprite_pixel, sprite_palette, sprite_priority) = self.get_sprite_to_draw();
        let (final_pixel, final_palette) = self.get_final_pixel(tile_pixel, tile_palette, sprite_pixel, sprite_palette, sprite_priority);
        let (red, green, blue) = self.get_colour_from_palette(memory, final_palette, final_pixel);
        if self.cycles >= 1 && self.cycles <= 256 && self.scanline >= 0 && self.scanline < 240 {
            let screen_x = (self.cycles - 1) as usize;
            let screen_y = self.scanline as usize;
            self.output[(screen_y * SCREEN_WIDTH + screen_x) * 3] = red;
            self.output[(screen_y * SCREEN_WIDTH + screen_x) * 3 + 1] = green;
            self.output[(screen_y * SCREEN_WIDTH + screen_x) * 3 + 2] = blue;
        }
        self.cycles = self.cycles + 1;
        if self.cycles >= 341 {
            self.cycles = 0;
            self.scanline = self.scanline + 1;
            if self.scanline >= 261 {
                self.scanline = -1;
            }
        }
    }
}

/// Reading PPUSTATUS hands the current byte back, then clears VBLANK
/// and the shared write latch.
pub proof fn lemma_status_read_clears(p: PpuSnap, m: MemSnap, address: u16)
    requires
        0x2000 <= address <= 0x3fff,
        address % 8 == 2,
    ensures
        ({
            let r = spec_reg_read(p, m, address);
            r.0 == p.ppu_status && r.1.ppu_status & STATUS_V_BLANK == 0 && !r.1.address_latch
        }),
{
    let s = p.ppu_status;
    assert((s & !STATUS_V_BLANK) & STATUS_V_BLANK == 0) by (bit_vector);
}

/// The second PPUADDR write copies `t` into `v`, and the next PPUDATA
/// access works at exactly that address before `v` advances: a read
/// refills the buffer from it, a write stores through it.
pub proof fn lemma_ppuaddr_then_ppudata(p: PpuSnap, m: MemSnap, low: u8, value: u8)
    requires
        p.address_latch,
    ensures
        ({
            let p2 = spec_reg_write(p, m, 0x2006, low).0;
            let v = (p.table_ram_address & 0xff00) | (low as u16);
            &&& p2.ppu_address == v
            &&& p2.table_ram_address == v
            &&& spec_reg_read(p2, m, 0x2007).1.data_buffer == spec_vram_read(p2, m, v)
            &&& spec_reg_write(p2, m, 0x2007, value) == ({
                let w = spec_vram_write(p2, m, v, value);
                let inc: u16 = if p2.ppu_control & CTRL_VRAM_ADDR_INCREMENT != 0 { 32u16 } else { 1u16 };
                (PpuSnap { ppu_address: v.wrapping_add(inc), ..w.0 }, w.1)
            })
        }),
{
}

/// Palette mirroring: 0x3F10, 0x3F14, 0x3F18 and 0x3F1C share storage
/// with 0x3F00, 0x3F04, 0x3F08 and 0x3F0C, so a write to either side of
/// a pair is visible at the other.
pub proof fn lemma_palette_mirroring(p: PpuSnap, m: MemSnap, value: u8)
    ensures
        spec_vram_read(p, m, 0x3f10) == spec_vram_read(p, m, 0x3f00),
        spec_vram_read(p, m, 0x3f14) == spec_vram_read(p, m, 0x3f04),
        spec_vram_read(p, m, 0x3f18) == spec_vram_read(p, m, 0x3f08),
        spec_vram_read(p, m, 0x3f1c) == spec_vram_read(p, m, 0x3f0c),
        spec_vram_write(p, m, 0x3f10, value) == spec_vram_write(p, m, 0x3f00, value),
        spec_vram_write(p, m, 0x3f14, value) == spec_vram_write(p, m, 0x3f04, value),
        spec_vram_write(p, m, 0x3f18, value) == spec_vram_write(p, m, 0x3f08, value),
        spec_vram_write(p, m, 0x3f1c, value) == spec_vram_write(p, m, 0x3f0c, value),
{
}

/// Nametable mirroring: with vertical mirroring, 0x2000+k and 0x2800+k
/// read the same byte for every k below 0x400; with horizontal
/// mirroring the pairs are (0x2000, 0x2400) and (0x2800, 0x2C00).
pub proof fn lemma_nametable_mirroring(p: PpuSnap, m: MemSnap, k: u16)
    requires
        k < 0x400,
    ensures
        m.vertical_mirroring() ==> spec_vram_read(p, m, (0x2000 + k) as u16)
            == spec_vram_read(p, m, (0x2800 + k) as u16),
        m.vertical_mirroring() ==> spec_vram_read(p, m, (0x2400 + k) as u16)
            == spec_vram_read(p, m, (0x2c00 + k) as u16),
        !m.vertical_mirroring() ==> spec_vram_read(p, m, (0x2000 + k) as u16)
            == spec_vram_read(p, m, (0x2400 + k) as u16),
        !m.vertical_mirroring() ==> spec_vram_read(p, m, (0x2800 + k) as u16)
            == spec_vram_read(p, m, (0x2c00 + k) as u16),
{
    assert(spec_nt_index(true, (0x2000 + k) as u16) == spec_nt_index(true, (0x2800 + k) as u16));
    assert(spec_nt_index(true, (0x2400 + k) as u16) == spec_nt_index(true, (0x2c00 + k) as u16));
    assert(spec_nt_index(false, (0x2000 + k) as u16) == spec_nt_index(false, (0x2400 + k) as u16));
    assert(spec_nt_index(false, (0x2800 + k) as u16) == spec_nt_index(false, (0x2c00 + k) as u16));
}

/// Bit reversal is an involution: flipping a byte twice gives it back.
pub proof fn lemma_flip_involutive(value: u8)
    ensures
        spec_flip_byte(spec_flip_byte(value)) == value,
{
    assert(spec_flip_byte(spec_flip_byte(value)) == value) by (bit_vector);
}

} // verus!
