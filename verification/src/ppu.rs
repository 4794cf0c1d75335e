//! The picture processing unit: memory-mapped registers, scanline timing,
//! VBlank and sprite-zero hit, palette RAM with its mirrors, OAM, and the
//! per-frame construction of the structured frame image that the renderer
//! consumes.

use vstd::prelude::*;
use vstd::pervasive::VecAdditionalExecFns;

use crate::cassette::Cassette;
use crate::interrupts::Interrupts;
use crate::ram::Ram;

verus! {

pub const H_SIZE: usize = 256;
pub const V_SIZE: usize = 240;
pub const PALETTE_SIZE: usize = 0x20;
pub const H_SPRITE_NUM: usize = 32;
pub const H_BGTILE_NUM: usize = 33;
pub const V_SPRITE_NUM: usize = 30;
pub const V_BGTILE_NUM: usize = 31;
pub const SPRITE_RAM_SIZE: usize = 0x0100;
pub const VRAM_SIZE: usize = 0x0800;
pub const CHAR_RAM_SIZE: usize = 0x2000;

/// Dots per scanline.
pub const CYCLE_PER_LINE: u64 = 341;
/// Scanlines per frame, VBlank included.
pub const V_SIZE_WITH_VBLANK: u16 = 262;
/// Dots per full frame: 262 scanlines of 341 dots.
pub const DOTS_PER_FRAME: u64 = 89342;

// ---------------------------------------------------------------------------
// Frame image records
// ---------------------------------------------------------------------------

/// One sprite (or one tile's pixel block): position, attribute byte, and a
/// row-major pixel matrix of 2-bit values, 8x8 or 8x16.
pub struct Sprite {
    pub x: u8,
    pub y: u8,
    pub attr: u8,
    /// Row-major pixels, `data[row * 8 + col]`, each in 0..=3.
    pub data: Vec<u8>,
}

/// A freshly cleared tile record: zero scroll, selectors and attributes,
/// rendering disabled, and a transparent pixel block.
pub open spec fn tile_cleared(t: Tile) -> bool {
    &&& t.scroll_x == 0 && t.scroll_y == 0
    &&& t.sprite_id == 0 && t.palette_id == 0
    &&& !t.is_background_enable
    &&& t.sprite.x == 0 && t.sprite.y == 0 && t.sprite.attr == 0
    &&& t.sprite.data@ == Seq::new(64, |k: int| 0u8)
}

impl Sprite {
    pub open spec fn wf(&self) -> bool {
        &&& (self.data@.len() == 64 || self.data@.len() == 128)
        &&& forall|k: int| 0 <= k < self.data@.len() ==> self.data@[k] < 4
    }

    /// An all-transparent 8x8 sprite at the origin.
    pub fn new() -> (r: Sprite)
        ensures
            r.wf(),
            r.x == 0 && r.y == 0 && r.attr == 0,
            r.data@ == Seq::new(64, |k: int| 0u8),
    {
        Sprite { x: 0, y: 0, attr: 0, data: zero_bytes(64) }
    }
}

/// One background tile record: the scroll seen when the row was built, the
/// tile and palette selectors, the pixel block, and whether background
/// rendering was enabled.
pub struct Tile {
    pub scroll_x: u8,
    pub scroll_y: u8,
    pub sprite_id: u16,
    pub palette_id: u16,
    pub sprite: Sprite,
    pub is_background_enable: bool,
}

impl Tile {
    pub open spec fn wf(&self) -> bool {
        &&& self.sprite.wf()
        &&& self.sprite.data@.len() == 64
        &&& self.palette_id < 4
    }

    pub fn new() -> (r: Tile)
        ensures
            r.wf(),
            tile_cleared(r),
    {
        Tile {
            scroll_x: 0,
            scroll_y: 0,
            sprite_id: 0,
            palette_id: 0,
            sprite: Sprite::new(),
            is_background_enable: false,
        }
    }
}

/// The frame artifact handed from the PPU to the renderer: palette snapshot,
/// background tile grid, sprite list, debug views, and the scroll origin.
pub struct Image {
    /// Sprites scanned from OAM at the end of the frame.
    pub sprite: Vec<Sprite>,
    /// Background tiles, row-major: `background[row * H_BGTILE_NUM + col]`.
    pub background: Vec<Tile>,
    /// Full four-nametable debug grid, row-major with 2*H_SPRITE_NUM columns.
    pub dbg_bg: Vec<Tile>,
    /// Pattern-table debug view: one sprite per tile index.
    pub dbg_pattern: Vec<Sprite>,
    /// Palette snapshot with the mirror folding applied.
    pub palette: Vec<u8>,
    /// Scroll origin at the end of the frame.
    pub current_x: u16,
    pub current_y: u16,
}

impl Image {
    pub open spec fn wf(&self) -> bool {
        &&& self.background@.len() == V_BGTILE_NUM * H_BGTILE_NUM
        &&& forall|k: int| 0 <= k < self.background@.len() ==> (
            #[trigger] self.background@[k]).wf()
        &&& self.dbg_bg@.len() == 2 * V_SPRITE_NUM * 2 * H_SPRITE_NUM
        &&& forall|k: int| 0 <= k < self.dbg_bg@.len() ==> (#[trigger] self.dbg_bg@[k]).wf()
        &&& self.palette@.len() == PALETTE_SIZE
        &&& forall|k: int| 0 <= k < self.sprite@.len() ==> (#[trigger] self.sprite@[k]).wf()
        &&& forall|k: int| 0 <= k < self.dbg_pattern@.len() ==> {
            &&& (#[trigger] self.dbg_pattern@[k]).wf()
            &&& self.dbg_pattern@[k].x <= 248
            &&& self.dbg_pattern@[k].y <= 232
        }
    }

    /// An empty frame: no sprites, cleared tiles, zero palette.
    pub fn new() -> (r: Image)
        ensures
            r.wf(),
            r.sprite@.len() == 0,
            r.dbg_pattern@.len() == 0,
            r.palette@ == Seq::new(PALETTE_SIZE as nat, |k: int| 0u8),
            forall|k: int|
                0 <= k < r.background@.len() ==> tile_cleared(#[trigger] r.background@[k]),
            forall|k: int| 0 <= k < r.dbg_bg@.len() ==> tile_cleared(#[trigger] r.dbg_bg@[k]),
            r.current_x == 0 && r.current_y == 0,
    {
        let background = tile_grid(V_BGTILE_NUM * H_BGTILE_NUM);
        let dbg_bg = tile_grid(2 * V_SPRITE_NUM * 2 * H_SPRITE_NUM);
        Image {
            sprite: Vec::new(),
            background,
            dbg_bg,
            dbg_pattern: Vec::new(),
            palette: zero_bytes(PALETTE_SIZE),
            current_x: 0,
            current_y: 0,
        }
    }
}

/// A vector of `n` zero bytes.
fn zero_bytes(n: usize) -> (r: Vec<u8>)
    ensures
        r@ == Seq::new(n as nat, |k: int| 0u8),
{
    let mut r: Vec<u8> = Vec::new();
    let mut i: usize = 0;
    while i < n
        invariant
            i <= n,
            r@ == Seq::new(i as nat, |k: int| 0u8),
        decreases n - i,
    {
        r.push(0);
        i = i + 1;
        proof {
            assert(r@ =~= Seq::new(i as nat, |k: int| 0u8));
        }
    }
    r
}

/// A vector of `n` fresh transparent tiles.
fn tile_grid(n: usize) -> (r: Vec<Tile>)
    ensures
        r@.len() == n,
        forall|k: int| 0 <= k < n ==> (#[trigger] r@[k]).wf() && tile_cleared(r@[k]),
{
    let mut r: Vec<Tile> = Vec::new();
    let mut i: usize = 0;
    while i < n
        invariant
            i <= n,
            r@.len() == i,
            forall|k: int| 0 <= k < i ==> (#[trigger] r@[k]).wf() && tile_cleared(r@[k]),
        decreases n - i,
    {
        r.push(Tile::new());
        i = i + 1;
    }
    r
}

// ---------------------------------------------------------------------------
// Palette RAM
// ---------------------------------------------------------------------------

/// Where a palette access at offset `addr` actually lands: offsets fold
/// modulo 0x20, and the sprite-backdrop entries 0x10/0x14/0x18/0x1C mirror
/// the background entries 0x00/0x04/0x08/0x0C.
pub open spec fn palette_fold(addr: int) -> int {
    let a = addr % 0x20;
    if a == 0x10 || a == 0x14 || a == 0x18 || a == 0x1c {
        a - 0x10
    } else {
        a
    }
}

/// The 32-byte snapshot taken each frame: the four mirrored sprite entries
/// read through to their background counterparts.
pub open spec fn palette_snapshot(ram: Seq<u8>) -> Seq<u8> {
    Seq::new(32, |i: int| if i == 0x10 || i == 0x14 || i == 0x18 || i == 0x1c {
        ram[i - 0x10]
    } else {
        ram[i]
    })
}

/// The 32 bytes of palette RAM.
pub struct Palette {
    pub ram: Ram,
}

impl Palette {
    pub open spec fn wf(&self) -> bool {
        &&& self.ram.wf()
        &&& self.ram.size == PALETTE_SIZE
    }

    pub fn new() -> (r: Palette)
        ensures
            r.wf(),
            r.ram.data@ == Seq::new(PALETTE_SIZE as nat, |i: int| 0u8),
    {
        Palette { ram: Ram::new(PALETTE_SIZE) }
    }

    /// True of the background entries that the sprite half mirrors.
    pub fn is_background_mirror(&self, addr: u16) -> (r: bool)
        ensures
            r == (addr == 0x04 || addr == 0x08 || addr == 0x0c),
    {
        addr == 0x04 || addr == 0x08 || addr == 0x0c
    }

    /// True of the sprite-half offsets that land in the background half.
    pub fn is_sprite_mirror(&self, addr: u16) -> (r: bool)
        ensures
            r == (addr == 0x10 || addr == 0x14 || addr == 0x18 || addr == 0x1c),
    {
        addr == 0x10 || addr == 0x14 || addr == 0x18 || addr == 0x1c
    }

    /// Folds a palette offset to the entry it addresses.
    pub fn get_palette_addr(&self, addr: u16) -> (r: u16)
        ensures
            r == palette_fold(addr as int),
            r < 0x20,
    {
        let mirror_downed: u16 = addr % 0x20;
        if self.is_sprite_mirror(mirror_downed) {
            mirror_downed - 0x10
        } else {
            mirror_downed
        }
    }

    /// Stores `data` at the folded entry; writes to 0x10/0x14/0x18/0x1C land
    /// in 0x00/0x04/0x08/0x0C.
    pub fn write(&mut self, addr: u16, data: u8)
        requires
            old(self).wf(),
        ensures
            final(self).wf(),
            final(self).ram.data@ == old(self).ram.data@.update(
                palette_fold(addr as int),
                data,
            ),
    {
        let addr_ = self.get_palette_addr(addr);
        self.ram.write(addr_, data);
    }

    /// The snapshot handed to the renderer each frame.
    pub fn read(&self) -> (r: Vec<u8>)
        requires
            self.wf(),
        ensures
            r@ == palette_snapshot(self.ram.data@),
    {
        let mut palette: Vec<u8> = Vec::new();
        let mut i: usize = 0;
        while i < PALETTE_SIZE
            invariant
                i <= PALETTE_SIZE,
                self.wf(),
                palette@.len() == i,
                forall|k: int| 0 <= k < i ==> palette@[k] == palette_snapshot(
                    self.ram.data@,
                )[k],
        decreases PALETTE_SIZE - i,
        {
            let b = if self.is_sprite_mirror(i as u16) {
                self.ram.read(i as u16 - 0x10)
            } else {
                self.ram.read(i as u16)
            };
            palette.push(b);
            i = i + 1;
        }
        proof {
            assert(palette@ =~= palette_snapshot(self.ram.data@));
        }
        palette
    }
}

// ---------------------------------------------------------------------------
// Control-register decoding
// ---------------------------------------------------------------------------

/// Address increment applied after each access through the data register.
pub open spec fn vram_offset_of(creg1: u8) -> u16 {
    if creg1 & 0x04 != 0 { 32u16 } else { 1u16 }
}

/// Nametable selected by control bits 0-1.
pub open spec fn name_table_id_of(creg1: u8) -> u8 {
    creg1 & 0x03
}

/// NMI is asserted on VBlank entry when control bit 7 is set.
pub open spec fn vblank_irq_enabled(creg1: u8) -> bool {
    creg1 & 0x80 != 0
}

/// Pattern table used for the background.
pub open spec fn background_table_offset_of(creg1: u8) -> u16 {
    if creg1 & 0x10 != 0 { 0x1000u16 } else { 0u16 }
}

/// Pattern table used for sprites (8x8 mode).
pub open spec fn sprite_table_offset_of(creg1: u8) -> u16 {
    if creg1 & 0x08 != 0 { 0x1000u16 } else { 0u16 }
}

/// Sprites are 8x16 when control bit 5 is set.
pub open spec fn sprite_size_16_of(creg1: u8) -> bool {
    creg1 & 0x20 != 0
}

/// Background rendering enable, mask register bit 3.
pub open spec fn background_enabled(creg2: u8) -> bool {
    creg2 & 0x08 != 0
}

/// Sprite rendering enable, mask register bit 4.
pub open spec fn sprite_enabled(creg2: u8) -> bool {
    creg2 & 0x10 != 0
}

// ---------------------------------------------------------------------------
// Nametable mirroring
// ---------------------------------------------------------------------------

/// Folds a nametable offset (0x000..0xFFF) into the 2-KiB VRAM.
/// Horizontal mirroring shares a physical bank between the two horizontally
/// adjacent nametables ({A,A,B,B}); vertical shares vertically ({A,B,A,B}).
pub open spec fn mirror_nametable(horizontal: bool, off: int) -> int {
    if horizontal {
        (off / 0x800) * 0x400 + off % 0x400
    } else {
        off % 0x800
    }
}

/// The mirror map spelled out per nametable: under horizontal mirroring the
/// four logical tables use physical banks {0,0,1,1}; under vertical,
/// {0,1,0,1}; and the result always lies inside the 2-KiB VRAM.
pub proof fn lemma_nametable_mirroring(off: int)
    requires
        0 <= off < 0x1000,
    ensures
        mirror_nametable(true, off) == (off / 0x400 / 2) * 0x400 + off % 0x400,
        mirror_nametable(false, off) == (off / 0x400 % 2) * 0x400 + off % 0x400,
        0 <= mirror_nametable(true, off) < 0x800,
        0 <= mirror_nametable(false, off) < 0x800,
{
    assert(mirror_nametable(true, off) == (off / 0x400 / 2) * 0x400 + off % 0x400
        && mirror_nametable(false, off) == (off / 0x400 % 2) * 0x400 + off % 0x400
        && 0 <= mirror_nametable(true, off) < 0x800
        && 0 <= mirror_nametable(false, off) < 0x800) by (nonlinear_arith)
        requires 0 <= off < 0x1000;
}

// ---------------------------------------------------------------------------
// The PPU proper
// ---------------------------------------------------------------------------

/// PPU state: timing counters, the eight register bytes and latches, and the
/// memories it owns (palette, OAM, pattern memory, VRAM).
pub struct Ppu {
    /// Dot counter within the current scanline.
    pub cycle: u64,
    /// Current scanline, 0..=261.
    pub line: u16,
    /// Next background row to build, reset each frame.
    pub background_index: u8,
    /// Read buffer for the data register.
    pub vram_buf: u8,
    /// Address latch driven through 0x2006.
    pub vram_addr: u16,
    /// OAM address driven through 0x2003.
    pub sprite_ram_addr: u16,
    pub scroll_x: u8,
    pub scroll_y: u8,
    pub is_horizontal_mirror: bool,
    /// The shared first/second-write toggle for 0x2005 and 0x2006.
    pub write_toggle: bool,
    /// Pattern memory is cartridge ROM (read-only) rather than CHR-RAM.
    pub is_char_rom: bool,
    pub creg1: u8,
    pub creg2: u8,
    pub sreg: u8,
    pub palette: Palette,
    pub sprite_ram: Ram,
    pub char_ram: Ram,
    pub vram: Ram,
}

impl Ppu {
    pub open spec fn wf(&self) -> bool {
        &&& self.line < V_SIZE_WITH_VBLANK
        &&& self.cycle < CYCLE_PER_LINE
        &&& self.background_index as int <= self.line as int / 8 + 1
        &&& self.sprite_ram_addr < 0x100
        &&& self.palette.wf()
        &&& self.sprite_ram.wf()
        &&& self.sprite_ram.size == SPRITE_RAM_SIZE
        &&& self.char_ram.wf()
        &&& self.char_ram.size >= CHAR_RAM_SIZE
        &&& self.vram.wf()
        &&& self.vram.size == VRAM_SIZE
    }

    /// Builds a PPU for the given cartridge: pattern memory is a copy of the
    /// character ROM when the cartridge has one, else writable CHR-RAM.
    pub fn new(cas: &Cassette) -> (r: Ppu)
        requires
            cas.wf(),
            cas.char_size == 0 || cas.char_size >= CHAR_RAM_SIZE,
        ensures
            r.wf(),
            r.line == 0 && r.cycle == 0 && r.background_index == 0,
            r.vram_addr == 0 && r.vram_buf == 0 && r.sprite_ram_addr == 0,
            r.scroll_x == 0 && r.scroll_y == 0 && !r.write_toggle,
            r.creg1 == 0 && r.creg2 == 0 && r.sreg == 0,
            r.is_horizontal_mirror == cas.is_horizontal_mirror,
            r.is_char_rom == (cas.char_size > 0),
            cas.char_size > 0 ==> r.char_ram.data@ == cas.char_rom@,
            cas.char_size == 0 ==> r.char_ram.data@ == Seq::new(
                CHAR_RAM_SIZE as nat,
                |i: int| 0u8,
            ),
            r.sprite_ram.data@ == Seq::new(SPRITE_RAM_SIZE as nat, |i: int| 0u8),
            r.vram.data@ == Seq::new(VRAM_SIZE as nat, |i: int| 0u8),
            r.palette.ram.data@ == Seq::new(PALETTE_SIZE as nat, |i: int| 0u8),
    {
        let char_ram = if cas.char_size > 0 {
            Ram { size: cas.char_size, data: copy_bytes(&cas.char_rom) }
        } else {
            Ram::new(CHAR_RAM_SIZE)
        };
        Ppu {
            cycle: 0,
            line: 0,
            background_index: 0,
            vram_buf: 0,
            vram_addr: 0,
            sprite_ram_addr: 0,
            scroll_x: 0,
            scroll_y: 0,
            is_horizontal_mirror: cas.is_horizontal_mirror,
            write_toggle: false,
            is_char_rom: cas.char_size > 0,
            creg1: 0,
            creg2: 0,
            sreg: 0,
            palette: Palette::new(),
            sprite_ram: Ram::new(SPRITE_RAM_SIZE),
            char_ram,
            vram: Ram::new(VRAM_SIZE),
        }
    }

    // -- control/status decoding ------------------------------------------

    pub fn get_vram_offset(&self) -> (r: u16)
        ensures
            r == vram_offset_of(self.creg1),
    {
        if self.creg1 & 0x04 != 0 { 32 } else { 1 }
    }

    pub fn get_name_table_id(&self) -> (r: u8)
        ensures
            r == name_table_id_of(self.creg1),
    {
        self.creg1 & 0x03
    }

    pub fn has_vblank_irq_enabled(&self) -> (r: bool)
        ensures
            r == vblank_irq_enabled(self.creg1),
    {
        self.creg1 & 0x80 != 0
    }

    pub fn get_background_table_offset(&self) -> (r: u16)
        ensures
            r == background_table_offset_of(self.creg1),
    {
        if self.creg1 & 0x10 != 0 { 0x1000 } else { 0x0000 }
    }

    pub fn get_sprite_table_offset(&self) -> (r: u16)
        ensures
            r == sprite_table_offset_of(self.creg1),
    {
        if self.creg1 & 0x08 != 0 { 0x1000 } else { 0x0000 }
    }

    pub fn get_is_background_enable(&self) -> (r: bool)
        ensures
            r == background_enabled(self.creg2),
    {
        self.creg2 & 0x08 != 0
    }

    pub fn get_is_sprite_enable(&self) -> (r: bool)
        ensures
            r == sprite_enabled(self.creg2),
    {
        self.creg2 & 0x10 != 0
    }

    pub fn set_sprite_hit(&mut self)
        ensures
            *final(self) == (Ppu { sreg: old(self).sreg | 0x40, ..*old(self) }),
    {
        self.sreg = self.sreg | 0x40;
    }

    pub fn clear_sprite_hit(&mut self)
        ensures
            *final(self) == (Ppu { sreg: old(self).sreg & 0xBF, ..*old(self) }),
    {
        self.sreg = self.sreg & 0xBF;
    }

    pub fn set_vblank(&mut self)
        ensures
            *final(self) == (Ppu { sreg: old(self).sreg | 0x80, ..*old(self) }),
    {
        self.sreg = self.sreg | 0x80;
    }

    pub fn get_is_vblank(&self) -> (r: bool)
        ensures
            r == (self.sreg & 0x80 != 0),
    {
        self.sreg & 0x80 != 0
    }

    pub fn clear_vblank(&mut self)
        ensures
            *final(self) == (Ppu { sreg: old(self).sreg & 0x7F, ..*old(self) }),
    {
        self.sreg = self.sreg & 0x7F;
    }

    /// The pattern-memory byte at `addr`, or zero past the end.
    pub fn chr_byte(&self, addr: u16) -> (r: u8)
        requires
            self.char_ram.wf(),
        ensures
            r == chr_byte_spec(*self, addr as int),
    {
        if (addr as usize) < self.char_ram.size {
            self.char_ram.read(addr)
        } else {
            0
        }
    }
}

/// The pattern-memory byte at `addr`, or zero outside the memory.
pub open spec fn chr_byte_spec(p: Ppu, addr: int) -> u8 {
    if 0 <= addr < p.char_ram.data@.len() {
        p.char_ram.data@[addr]
    } else {
        0u8
    }
}

/// The 2-bit pixel at column `c` of pattern row `r` for the tile whose
/// sixteen pattern bytes begin at `base`: the low plane is byte `r`, the
/// high plane byte `r + 8`, and column 0 is the most significant bit.
pub open spec fn pattern_pixel(p: Ppu, base: int, r: int, c: u8) -> u8 {
    let lo = chr_byte_spec(p, base + r);
    let hi = chr_byte_spec(p, base + 8 + r);
    ((if lo & (0x80u8 >> c) != 0 { 1u8 } else { 0u8 })
        + (if hi & (0x80u8 >> c) != 0 { 2u8 } else { 0u8 })) as u8
}

// ---------------------------------------------------------------------------
// Register-interface transitions
// ---------------------------------------------------------------------------

/// Reading the status register returns it, clears VBlank (bit 7), and resets
/// the shared first/second-write toggle.
pub open spec fn spec_read_status(p: Ppu) -> (Ppu, u8) {
    (Ppu { sreg: p.sreg & 0x7F, write_toggle: false, ..p }, p.sreg)
}

/// Writing the scroll register: first write sets X, second sets Y.
pub open spec fn spec_write_scroll(p: Ppu, data: u8) -> Ppu {
    if !p.write_toggle {
        Ppu { scroll_x: data, write_toggle: true, ..p }
    } else {
        Ppu { scroll_y: data, write_toggle: false, ..p }
    }
}

/// Writing the address register: first write places the high byte, the
/// second adds the low byte.
pub open spec fn spec_write_vram_addr(p: Ppu, data: u8) -> Ppu {
    if !p.write_toggle {
        Ppu { vram_addr: (data as u16) << 8, write_toggle: true, ..p }
    } else {
        Ppu {
            vram_addr: ((p.vram_addr + data) % 0x10000) as u16,
            write_toggle: false,
            ..p
        }
    }
}

/// Reading the data register: pattern and nametable bytes go through the
/// one-byte buffer (the previous buffer is returned, the fresh byte stored);
/// palette bytes are returned directly. The address advances by the
/// configured increment either way.
pub open spec fn spec_vram_read(p: Ppu) -> (Ppu, u8) {
    let a = p.vram_addr as int % 0x4000;
    let next = ((p.vram_addr + vram_offset_of(p.creg1)) % 0x10000) as u16;
    if a < 0x2000 {
        (Ppu { vram_addr: next, vram_buf: chr_byte_spec(p, a), ..p }, p.vram_buf)
    } else if a < 0x3F00 {
        (
            Ppu {
                vram_addr: next,
                vram_buf: p.vram.data@[mirror_nametable(
                    p.is_horizontal_mirror,
                    (a - 0x2000) % 0x1000,
                )],
                ..p
            },
            p.vram_buf,
        )
    } else {
        (Ppu { vram_addr: next, ..p }, p.palette.ram.data@[palette_fold(a - 0x3F00)])
    }
}

/// Writing the data register: how the new PPU state `q` relates to the old
/// state `p`. Palette addresses land in palette RAM (with the mirror fold),
/// nametable addresses in VRAM (with the mirroring fold), pattern addresses
/// in CHR-RAM — or nowhere when the pattern memory is ROM.
pub open spec fn vram_data_written(p: Ppu, q: Ppu, data: u8) -> bool {
    let a = p.vram_addr as int % 0x4000;
    let next = ((p.vram_addr + vram_offset_of(p.creg1)) % 0x10000) as u16;
    &&& q == (Ppu {
        vram_addr: next,
        char_ram: q.char_ram,
        vram: q.vram,
        palette: q.palette,
        ..p
    })
    &&& q.char_ram.size == p.char_ram.size
    &&& q.vram.size == p.vram.size
    &&& q.palette.ram.size == p.palette.ram.size
    &&& (a >= 0x3F00 ==> {
        &&& q.palette.ram.data@ == p.palette.ram.data@.update(palette_fold(a - 0x3F00), data)
        &&& q.vram == p.vram
        &&& q.char_ram == p.char_ram
    })
    &&& (0x2000 <= a < 0x3F00 ==> {
        &&& q.vram.data@ == p.vram.data@.update(
            mirror_nametable(p.is_horizontal_mirror, (a - 0x2000) % 0x1000),
            data,
        )
        &&& q.palette == p.palette
        &&& q.char_ram == p.char_ram
    })
    &&& (a < 0x2000 && !p.is_char_rom ==> {
        &&& q.char_ram.data@ == p.char_ram.data@.update(a, data)
        &&& q.palette == p.palette
        &&& q.vram == p.vram
    })
    &&& (a < 0x2000 && p.is_char_rom ==> {
        &&& q.char_ram == p.char_ram
        &&& q.palette == p.palette
        &&& q.vram == p.vram
    })
}

impl Ppu {
    /// OAM address register (0x2003).
    pub fn write_sprite_ram_addr(&mut self, data: u8)
        ensures
            *final(self) == (Ppu { sprite_ram_addr: data as u16, ..*old(self) }),
    {
        self.sprite_ram_addr = data as u16;
    }

    /// OAM data register (0x2004): stores at the OAM address, which then
    /// advances, wrapping within the 256 bytes.
    pub fn write_sprite_ram_data(&mut self, data: u8)
        requires
            old(self).wf(),
        ensures
            final(self).wf(),
            *final(self) == (Ppu {
                sprite_ram: final(self).sprite_ram,
                sprite_ram_addr: ((old(self).sprite_ram_addr + 1) % 0x100) as u16,
                ..*old(self)
            }),
            final(self).sprite_ram.data@ == old(self).sprite_ram.data@.update(
                old(self).sprite_ram_addr as int,
                data,
            ),
    {
        self.sprite_ram.write(self.sprite_ram_addr, data);
        self.sprite_ram_addr = (self.sprite_ram_addr + 1) % 0x100;
    }

    /// Scroll register (0x2005), guarded by the shared toggle: X then Y.
    pub fn write_scroll_data(&mut self, data: u8)
        ensures
            *final(self) == spec_write_scroll(*old(self), data),
    {
        if !self.write_toggle {
            self.scroll_x = data;
            self.write_toggle = true;
        } else {
            self.scroll_y = data;
            self.write_toggle = false;
        }
    }

    /// Address register (0x2006), guarded by the shared toggle: high byte
    /// then low byte.
    pub fn write_vram_addr(&mut self, data: u8)
        ensures
            *final(self) == spec_write_vram_addr(*old(self), data),
    {
        if !self.write_toggle {
            self.vram_addr = (data as u16) << 8u16;
            self.write_toggle = true;
        } else {
            self.vram_addr = self.vram_addr.wrapping_add(data as u16);
            self.write_toggle = false;
        }
    }

    /// Data register write (0x2007).
    pub fn write_vram_data(&mut self, data: u8)
        requires
            old(self).wf(),
        ensures
            final(self).wf(),
            vram_data_written(*old(self), *final(self), data),
    {
        let a: u16 = self.vram_addr % 0x4000;
        let off = self.get_vram_offset();
        let next = self.vram_addr.wrapping_add(off);
        if a >= 0x3F00 {
            self.palette.write(a - 0x3F00, data);
        } else if a >= 0x2000 {
            let m = self.get_vram_addr((a - 0x2000) % 0x1000);
            self.vram.write(m, data);
        } else {
            if !self.is_char_rom {
                self.char_ram.write(a, data);
            }
        }
        self.vram_addr = next;
    }

    /// Data register read (0x2007): the buffered two-read dance for pattern
    /// and nametable bytes, direct for palette bytes.
    pub fn vram_read(&mut self) -> (r: u8)
        requires
            old(self).wf(),
        ensures
            final(self).wf(),
            (*final(self), r) == spec_vram_read(*old(self)),
    {
        let a: u16 = self.vram_addr % 0x4000;
        let off = self.get_vram_offset();
        let next = self.vram_addr.wrapping_add(off);
        let r: u8;
        if a < 0x2000 {
            r = self.vram_buf;
            self.vram_buf = self.chr_byte(a);
        } else if a < 0x3F00 {
            r = self.vram_buf;
            let m = self.get_vram_addr((a - 0x2000) % 0x1000);
            self.vram_buf = self.vram.read(m);
        } else {
            let pa = self.palette.get_palette_addr(a - 0x3F00);
            r = self.palette.ram.read(pa);
        }
        self.vram_addr = next;
        r
    }

    /// Nametable-offset fold into the 2-KiB VRAM (see `mirror_nametable`).
    pub fn get_vram_addr(&self, addr: u16) -> (r: u16)
        requires
            addr < 0x1000,
        ensures
            r == mirror_nametable(self.is_horizontal_mirror, addr as int),
            r < 0x800,
    {
        proof {
            lemma_nametable_mirroring(addr as int);
        }
        if self.is_horizontal_mirror {
            (addr / 0x800) * 0x400 + addr % 0x400
        } else {
            addr % 0x800
        }
    }

    /// The nametable offset the address latch points at, for latch values in
    /// the nametable window and its 0x3000 mirror.
    pub fn calc_vram_addr(&self) -> (r: u16)
        requires
            0x2000 <= self.vram_addr < 0x3F00,
        ensures
            r == (self.vram_addr - 0x2000) % 0x1000,
    {
        if self.vram_addr >= 0x3000 {
            self.vram_addr - 0x3000
        } else {
            self.vram_addr - 0x2000
        }
    }

    /// Bus read of register `addr` (0..=7). Status and data reads have the
    /// side effects their transition functions state; reads of the
    /// write-only registers return zero and change nothing.
    pub fn read(&mut self, addr: u16) -> (r: u8)
        requires
            old(self).wf(),
            addr < 8,
        ensures
            final(self).wf(),
            addr == 2 ==> (*final(self), r) == spec_read_status(*old(self)),
            addr == 4 ==> *final(self) == *old(self) && r == old(self).sprite_ram.data@[old(self).sprite_ram_addr as int],
            addr == 7 ==> (*final(self), r) == spec_vram_read(*old(self)),
            addr == 0 || addr == 1 || addr == 3 || addr == 5 || addr == 6 ==> *final(self)
                == *old(self) && r == 0,
    {
        if addr == 2 {
            let status = self.sreg;
            self.write_toggle = false;
            self.clear_vblank();
            status
        } else if addr == 4 {
            self.sprite_ram.read(self.sprite_ram_addr)
        } else if addr == 7 {
            self.vram_read()
        } else {
            0
        }
    }

    /// Bus write of register `addr` (0..=7). The status register is
    /// read-only; every other register behaves as its transition states.
    pub fn write(&mut self, addr: u16, data: u8)
        requires
            old(self).wf(),
            addr < 8,
        ensures
            final(self).wf(),
            addr == 0 ==> *final(self) == (Ppu { creg1: data, ..*old(self) }),
            addr == 1 ==> *final(self) == (Ppu { creg2: data, ..*old(self) }),
            addr == 2 ==> *final(self) == *old(self),
            addr == 3 ==> *final(self) == (Ppu {
                sprite_ram_addr: data as u16,
                ..*old(self)
            }),
            addr == 4 ==> *final(self) == (Ppu {
                sprite_ram: final(self).sprite_ram,
                sprite_ram_addr: ((old(self).sprite_ram_addr + 1) % 0x100) as u16,
                ..*old(self)
            }) && final(self).sprite_ram.data@ == old(self).sprite_ram.data@.update(
                old(self).sprite_ram_addr as int,
                data,
            ),
            addr == 5 ==> *final(self) == spec_write_scroll(*old(self), data),
            addr == 6 ==> *final(self) == spec_write_vram_addr(*old(self), data),
            addr == 7 ==> vram_data_written(*old(self), *final(self), data),
    {
        if addr == 0 {
            self.creg1 = data;
        } else if addr == 1 {
            self.creg2 = data;
        } else if addr == 3 {
            self.write_sprite_ram_addr(data);
        } else if addr == 4 {
            self.write_sprite_ram_data(data);
        } else if addr == 5 {
            self.write_scroll_data(data);
        } else if addr == 6 {
            self.write_vram_addr(data);
        } else if addr == 7 {
            self.write_vram_data(data);
        }
    }
}

/// Writing the address register high byte then low byte and then reading the
/// data register performs the two-read dance: for pattern memory the second
/// read returns the byte at the written address (the first returns the stale
/// buffer), while a palette address is answered directly by the first read.
pub proof fn lemma_vram_addr_data_round_trip(p: Ppu, hi: u8, lo: u8)
    requires
        p.wf(),
        !p.write_toggle,
        hi < 0x40,
    ensures
        ({
            let p2 = spec_write_vram_addr(spec_write_vram_addr(p, hi), lo);
            &&& p2.vram_addr == hi * 256 + lo
            &&& (hi < 0x20 ==> spec_vram_read(spec_vram_read(p2).0).1 == chr_byte_spec(
                p,
                hi * 256 + lo,
            ))
            &&& (hi >= 0x3F ==> spec_vram_read(p2).1 == p.palette.ram.data@[palette_fold(
                hi * 256 + lo - 0x3F00,
            )])
        }),
{
    assert((hi as u16) << 8 == hi * 256) by (bit_vector)
        requires
            hi < 0x40,
    ;
    let p2 = spec_write_vram_addr(spec_write_vram_addr(p, hi), lo);
    assert(p2.vram_addr == hi * 256 + lo);
    if hi < 0x20 {
        let target = p2.vram_addr as int;
        assert(target % 0x4000 == target);
        let p3 = spec_vram_read(p2).0;
        assert(p3.vram_buf == chr_byte_spec(p2, target));
        assert(p3.vram_addr as int % 0x4000 < 0x3F00);
    }
    if hi >= 0x3F {
        let target = p2.vram_addr as int;
        assert(target % 0x4000 == target);
    }
}

// ---------------------------------------------------------------------------
// Background and sprite construction
// ---------------------------------------------------------------------------

/// Horizontal scroll in tile units, nametable base folded in: 0..=63.
pub open spec fn scroll_tile_x_of(p: Ppu) -> int {
    (p.scroll_x + ((p.creg1 & 0x03) % 2) * 256) / 8
}

/// Vertical scroll in tile units for the row finished at the current line;
/// meaningful from line 8 on.
pub open spec fn scroll_tile_y_of(p: Ppu) -> int {
    (p.scroll_y + p.line + ((p.creg1 & 0x03) / 2) * 240) / 8 - 1
}

/// The nametable column sampled for output column `j`.
pub open spec fn bg_tile_x(p: Ppu, j: int) -> int {
    (scroll_tile_x_of(p) + j) % 32
}

/// The nametable row sampled for the row being built.
pub open spec fn bg_tile_y(p: Ppu) -> int {
    scroll_tile_y_of(p) % 30
}

/// The nametable base offset for output column `j`: horizontal wrap flips
/// the low nametable bit, vertical wrap the high one.
pub open spec fn bg_table_offset(p: Ppu, j: int) -> int {
    (((scroll_tile_x_of(p) + j) / 32) % 2 + (if (scroll_tile_y_of(p) / 30) % 2 == 1 {
        2int
    } else {
        0int
    })) * 0x400
}

/// Which 2-bit group of the attribute byte a tile at nametable coordinates
/// (x, y) uses: one per 2x2-tile block of the 4x4-tile attribute cell.
pub open spec fn block_id_of(x: u8, y: u8) -> u8 {
    (((x % 4) / 2) + 2 * ((y % 4) / 2)) as u8
}

/// The 2-bit palette selector extracted from attribute byte `attr` for
/// block `block`.
pub open spec fn palette_selector_of(attr: u8, block: u8) -> u16 {
    ((attr as u16) >> ((block * 2) as u16)) % 4
}

/// The background tile record built for nametable coordinates (x, y) with
/// nametable base `offset`: the tile id read from the nametable, the palette
/// selector from the attribute table, the pixel block from the pattern
/// table, and the scroll and enable state at build time.
pub open spec fn tile_matches(p: Ppu, t: Tile, x: u8, y: u8, offset: u16) -> bool {
    let sid = p.vram.data@[mirror_nametable(
        p.is_horizontal_mirror,
        y * 32 + x + offset,
    )];
    let attr = p.vram.data@[mirror_nametable(
        p.is_horizontal_mirror,
        x / 4 + (y / 4) * 8 + 0x03C0 + offset,
    )];
    &&& t.scroll_x == p.scroll_x
    &&& t.scroll_y == p.scroll_y
    &&& t.sprite_id == sid as u16
    &&& t.palette_id == palette_selector_of(attr, block_id_of(x, y))
    &&& t.is_background_enable == background_enabled(p.creg2)
    &&& t.sprite.x == 0 && t.sprite.y == 0 && t.sprite.attr == 0
    &&& t.sprite.data@.len() == 64
    &&& forall|k: int|
        0 <= k < 64 ==> t.sprite.data@[k] == pattern_pixel(
            p,
            background_table_offset_of(p.creg1) + sid * 16,
            k / 8,
            (k % 8) as u8,
        )
}

/// OAM entry `i` is skipped by the sprite scan when all four bytes are zero.
pub open spec fn oam_kept(oam: Seq<u8>, i: int) -> bool {
    !(oam[4 * i] == 0 && oam[4 * i + 1] == 0 && oam[4 * i + 2] == 0 && oam[4 * i + 3] == 0)
}

/// How many of the first `i` OAM entries the sprite scan keeps.
pub open spec fn built_count(oam: Seq<u8>, i: int) -> int
    decreases i,
{
    if i <= 0 {
        0
    } else {
        built_count(oam, i - 1) + (if oam_kept(oam, i - 1) {
            1int
        } else {
            0int
        })
    }
}

/// Over a span of OAM entries the scan keeps at least none and at most all.
pub proof fn lemma_built_count_mono(oam: Seq<u8>, a: int, b: int)
    requires
        0 <= a <= b,
    ensures
        built_count(oam, a) <= built_count(oam, b) <= built_count(oam, a) + (b - a),
    decreases b - a,
{
    if a < b {
        lemma_built_count_mono(oam, a, b - 1);
    }
}

/// The sprite record built from OAM entry `i`: position and attribute from
/// the entry, pixels from the pattern table; in 8x16 mode the id's low bit
/// selects the pattern table and the two stacked tiles come from the id with
/// that bit cleared.
pub open spec fn sprite_matches_oam(p: Ppu, s: Sprite, i: int) -> bool {
    let id = p.sprite_ram.data@[4 * i + 1];
    &&& s.y == p.sprite_ram.data@[4 * i]
    &&& s.attr == p.sprite_ram.data@[4 * i + 2]
    &&& s.x == p.sprite_ram.data@[4 * i + 3]
    &&& (if sprite_size_16_of(p.creg1) {
        let base = (id & 0x01) * 0x1000 + (id & 0xFEu8) * 16;
        &&& s.data@.len() == 128
        &&& forall|k: int|
            0 <= k < 128 ==> s.data@[k] == (if k < 64 {
                pattern_pixel(p, base, k / 8, (k % 8) as u8)
            } else {
                pattern_pixel(p, base + 16, k / 8 - 8, (k % 8) as u8)
            })
    } else {
        let base = sprite_table_offset_of(p.creg1) + id * 16;
        &&& s.data@.len() == 64
        &&& forall|k: int|
            0 <= k < 64 ==> s.data@[k] == pattern_pixel(p, base, k / 8, (k % 8) as u8)
    })
}

impl Ppu {
    pub fn get_scroll_tile_x(&self) -> (r: u8)
        ensures
            r == scroll_tile_x_of(*self),
            r < 64,
    {
        ((self.scroll_x as u16 + (self.get_name_table_id() % 2) as u16 * H_SIZE as u16)
            / 8) as u8
    }

    pub fn get_scroll_tile_y(&self) -> (r: u8)
        requires
            self.line >= 8,
            self.line <= 261,
        ensures
            r == scroll_tile_y_of(*self),
            r <= 94,
    {
        proof {
            let c1 = self.creg1;
            assert(c1 & 0x03 <= 3) by (bit_vector);
        }
        let sum: u16 = self.scroll_y as u16 + self.line + (self.get_name_table_id() / 2) as u16
            * V_SIZE as u16;
        proof {
            assert(sum / 8 >= 1 && sum / 8 <= 94) by (nonlinear_arith)
                requires
                    8 <= sum <= 756,
            ;
        }
        (sum / 8 - 1) as u8
    }

    pub fn get_block_id(&self, x: u8, y: u8) -> (r: u8)
        ensures
            r == block_id_of(x, y),
            r < 4,
    {
        (x % 4) / 2 + 2 * ((y % 4) / 2)
    }

    /// The tile id at nametable coordinates (x, y) under base `offset`.
    pub fn get_sprite_id(&self, x: u8, y: u8, offset: u16) -> (r: u8)
        requires
            self.wf(),
            x < 32,
            y < 30,
            offset == 0 || offset == 0x400 || offset == 0x800 || offset == 0xC00,
        ensures
            r == self.vram.data@[mirror_nametable(
                self.is_horizontal_mirror,
                y * 32 + x + offset,
            )],
    {
        let tile_num: u16 = y as u16 * 32 + x as u16;
        let sprite_addr: u16 = self.get_vram_addr(tile_num + offset);
        self.vram.read(sprite_addr)
    }

    /// The attribute byte covering nametable coordinates (x, y) under base
    /// `offset`.
    pub fn get_attribute(&self, x: u8, y: u8, offset: u16) -> (r: u8)
        requires
            self.wf(),
            x < 32,
            y < 30,
            offset == 0 || offset == 0x400 || offset == 0x800 || offset == 0xC00,
        ensures
            r == self.vram.data@[mirror_nametable(
                self.is_horizontal_mirror,
                x / 4 + (y / 4) * 8 + 0x03C0 + offset,
            )],
    {
        let addr: u16 = x as u16 / 4 + (y as u16 / 4) * 8 + 0x03C0 + offset;
        let sprite_addr: u16 = self.get_vram_addr(addr);
        self.vram.read(sprite_addr)
    }

    /// Takes the per-frame palette snapshot into the image.
    pub fn get_palette(&self, image: &mut Image)
        requires
            self.wf(),
            old(image).wf(),
        ensures
            final(image).wf(),
            *final(image) == (Image { palette: final(image).palette, ..*old(image) }),
            final(image).palette@ == palette_snapshot(self.palette.ram.data@),
    {
        image.palette = self.palette.read();
    }

    /// The 64 pixels of the 8x8 tile whose sixteen pattern bytes begin at
    /// `base`, row-major.
    pub fn build_tile_pixels(&self, base: u16) -> (r: Vec<u8>)
        requires
            self.char_ram.wf(),
            base <= 0xFFE0,
        ensures
            r@.len() == 64,
            forall|k: int|
                0 <= k < 64 ==> r@[k] == pattern_pixel(
                    *self,
                    base as int,
                    k / 8,
                    (k % 8) as u8,
                ),
            forall|k: int| 0 <= k < 64 ==> r@[k] < 4,
    {
        let mut r: Vec<u8> = Vec::new();
        let mut row: u16 = 0;
        while row < 8
            invariant
                row <= 8,
                self.char_ram.wf(),
                base <= 0xFFE0,
                r@.len() == 8 * row,
                forall|k: int|
                    0 <= k < 8 * row ==> r@[k] == pattern_pixel(
                        *self,
                        base as int,
                        k / 8,
                        (k % 8) as u8,
                    ) && r@[k] < 4,
            decreases 8 - row,
        {
            let lo = self.chr_byte(base + row);
            let hi = self.chr_byte(base + 8 + row);
            let mut c: u8 = 0;
            while c < 8
                invariant
                    c <= 8,
                    row < 8,
                    self.char_ram.wf(),
                    base <= 0xFFE0,
                    lo == chr_byte_spec(*self, base + row),
                    hi == chr_byte_spec(*self, base + 8 + row),
                    r@.len() == 8 * row + c,
                    forall|k: int|
                        0 <= k < 8 * row + c ==> r@[k] == pattern_pixel(
                            *self,
                            base as int,
                            k / 8,
                            (k % 8) as u8,
                        ) && r@[k] < 4,
                decreases 8 - c,
            {
                let v: u8 = (if lo & (0x80u8 >> c) != 0 {
                    1u8
                } else {
                    0u8
                }) + (if hi & (0x80u8 >> c) != 0 {
                    2u8
                } else {
                    0u8
                });
                r.push(v);
                proof {
                    let k = 8 * row as int + c as int;
                    assert(k / 8 == row as int && k % 8 == c as int) by (nonlinear_arith)
                        requires
                            0 <= c < 8,
                            0 <= row,
                            k == 8 * row as int + c as int,
                    ;
                    assert(r@[k] == pattern_pixel(*self, base as int, row as int, c));
                }
                c = c + 1;
            }
            row = row + 1;
        }
        r
    }

    /// Fills `sprite`'s pixel block from the 8x8 tile `sprite_id` in the
    /// pattern table at `offset`; position and attribute are untouched.
    pub fn build_sprite_data(&self, sprite_id: u16, offset: u16, sprite: &mut Sprite)
        requires
            self.char_ram.wf(),
            sprite_id < 256,
            offset == 0 || offset == 0x1000,
        ensures
            final(sprite).x == old(sprite).x,
            final(sprite).y == old(sprite).y,
            final(sprite).attr == old(sprite).attr,
            final(sprite).data@.len() == 64,
            forall|k: int|
                0 <= k < 64 ==> final(sprite).data@[k] == pattern_pixel(
                    *self,
                    offset + sprite_id * 16,
                    k / 8,
                    (k % 8) as u8,
                ),
            final(sprite).wf(),
    {
        sprite.data = self.build_tile_pixels(offset + sprite_id * 16);
    }

    /// Scans all 64 OAM entries into the image's sprite list, skipping
    /// all-zero entries, in OAM order: the entry `i` that is kept lands at
    /// position `built_count(self, i)` past the list's old length.
    pub fn build_objects(&self, image: &mut Image)
        requires
            self.wf(),
            old(image).wf(),
        ensures
            final(image).wf(),
            *final(image) == (Image { sprite: final(image).sprite, ..*old(image) }),
            final(image).sprite@.len() == old(image).sprite@.len() + built_count(self.sprite_ram.data@, 64),
            forall|j: int|
                0 <= j < old(image).sprite@.len() ==> final(image).sprite@[j] == old(image).sprite@[j],
            forall|i: int|
                0 <= i < 64 && oam_kept(self.sprite_ram.data@, i) ==> sprite_matches_oam(
                    *self,
                    final(image).sprite@[old(image).sprite@.len() + built_count(self.sprite_ram.data@, i)],
                    i,
                ),
    {
        let tall = self.creg1 & 0x20 != 0;
        let sprite_table_offset = self.get_sprite_table_offset();
        let ghost base_len = image.sprite@.len() as int;
        let mut i: usize = 0;
        while i < 64
            invariant
                i <= 64,
                self.wf(),
                old(image).wf(),
                tall == sprite_size_16_of(self.creg1),
                sprite_table_offset == sprite_table_offset_of(self.creg1),
                base_len == old(image).sprite@.len(),
                image.background == old(image).background,
                image.dbg_bg == old(image).dbg_bg,
                image.dbg_pattern == old(image).dbg_pattern,
                image.palette == old(image).palette,
                image.current_x == old(image).current_x,
                image.current_y == old(image).current_y,
                image.sprite@.len() == base_len + built_count(self.sprite_ram.data@, i as int),
                forall|j: int|
                    0 <= j < base_len ==> image.sprite@[j] == old(image).sprite@[j],
                forall|k: int|
                    0 <= k < image.sprite@.len() ==> (#[trigger] image.sprite@[k]).wf(),
                forall|ii: int|
                    0 <= ii < i && oam_kept(self.sprite_ram.data@, ii) ==> sprite_matches_oam(
                        *self,
                        image.sprite@[base_len + built_count(self.sprite_ram.data@, ii)],
                        ii,
                    ),
            decreases 64 - i,
        {
            let j: u16 = 4 * i as u16;
            let y = self.sprite_ram.read(j);
            let id = self.sprite_ram.read(j + 1);
            let attr = self.sprite_ram.read(j + 2);
            let x = self.sprite_ram.read(j + 3);
            if !(x == 0 && y == 0 && attr == 0 && id == 0) {
                let data: Vec<u8>;
                if tall {
                    proof {
                        assert(id & 0x01 <= 1 && id & 0xFE <= 0xFE) by (bit_vector);
                    }
                    let base: u16 = (id & 0x01) as u16 * 0x1000 + (id & 0xFE) as u16 * 16;
                    let mut top = self.build_tile_pixels(base);
                    let mut bottom = self.build_tile_pixels(base + 16);
                    top.append(&mut bottom);
                    proof {
                        assert forall|k: int| 64 <= k < 128 implies top@[k] == pattern_pixel(
                            *self,
                            base + 16,
                            k / 8 - 8,
                            (k % 8) as u8,
                        ) by {
                            assert((k - 64) / 8 == k / 8 - 8 && (k - 64) % 8 == k % 8)
                                by (nonlinear_arith)
                                requires
                                    64 <= k < 128,
                            ;
                        }
                    }
                    data = top;
                } else {
                    data = self.build_tile_pixels(sprite_table_offset + (id as u16) * 16);
                }
                let s = Sprite { x, y, attr, data };
                let ghost pre = image.sprite@;
                proof {
                    assert(sprite_matches_oam(*self, s, i as int));
                }
                image.sprite.push(s);
                proof {
                    lemma_built_count_mono(self.sprite_ram.data@, 0, i as int);
                    assert(image.sprite@ == pre.push(s));
                    assert forall|j: int|
                        0 <= j < base_len implies image.sprite@[j] == old(image).sprite@[j] by {
                        assert(image.sprite@[j] == pre[j]);
                    }
                    assert forall|ii: int|
                        0 <= ii < i && oam_kept(self.sprite_ram.data@, ii) implies sprite_matches_oam(
                        *self,
                        image.sprite@[base_len + built_count(self.sprite_ram.data@, ii)],
                        ii,
                    ) by {
                        lemma_built_count_mono(self.sprite_ram.data@, 0, ii);
                        lemma_built_count_mono(self.sprite_ram.data@, ii + 1, i as int);
                        assert(built_count(self.sprite_ram.data@, ii + 1) == built_count(self.sprite_ram.data@, ii) + 1);
                        let pos = base_len + built_count(self.sprite_ram.data@, ii);
                        assert(0 <= pos < pre.len());
                        assert(sprite_matches_oam(*self, pre[pos], ii));
                        assert(image.sprite@[pos] == pre[pos]);
                    }
                }
            }
            proof {
                assert(built_count(self.sprite_ram.data@, i as int + 1) == built_count(self.sprite_ram.data@, i as int)
                    + (if oam_kept(self.sprite_ram.data@, i as int) {
                    1int
                } else {
                    0int
                }));
                if oam_kept(self.sprite_ram.data@, i as int) {
                    assert(image.sprite@[base_len + built_count(self.sprite_ram.data@, i as int)]
                        == image.sprite@[image.sprite@.len() - 1]);
                }
            }
            i = i + 1;
        }
    }
}

// ---------------------------------------------------------------------------
// Sprite-zero hit
// ---------------------------------------------------------------------------

/// Pattern base of the sprite described by OAM entry 0.
pub open spec fn sprite_zero_base(p: Ppu) -> int {
    sprite_table_offset_of(p.creg1) + p.sprite_ram.data@[1] * 16
}

/// Column `c` of sprite zero produces a hit on the current line: the pixel
/// is opaque and not clipped by the leftmost-8 mask.
pub open spec fn sprite_hit_at(p: Ppu, c: u8) -> bool {
    &&& pattern_pixel(p, sprite_zero_base(p), p.line - p.sprite_ram.data@[0], c) != 0
    &&& (p.sprite_ram.data@[3] + c >= 8 || p.creg2 & 0x04 != 0)
}

/// The sprite-zero hit condition at the end of the current scanline: sprite
/// rendering is on, the line crosses sprite zero, and some pixel of its row
/// is opaque and unclipped.
pub open spec fn sprite_hit_now(p: Ppu) -> bool {
    &&& sprite_enabled(p.creg2)
    &&& p.sprite_ram.data@[0] <= p.line < p.sprite_ram.data@[0] + 8
    &&& exists|c: u8| c < 8 && sprite_hit_at(p, c)
}

impl Ppu {
    /// Decides the sprite-zero hit for the scanline just finished.
    pub fn has_sprite_hit(&self) -> (r: bool)
        requires
            self.sprite_ram.wf(),
            self.sprite_ram.size == SPRITE_RAM_SIZE,
            self.char_ram.wf(),
        ensures
            r == sprite_hit_now(*self),
    {
        let y = self.sprite_ram.read(0x00);
        let id = self.sprite_ram.read(0x01);
        let x = self.sprite_ram.read(0x03);
        if !self.get_is_sprite_enable() {
            return false;
        }
        if !(y as u16 <= self.line && self.line < y as u16 + 8) {
            return false;
        }
        let row: u16 = self.line - y as u16;
        let base: u16 = self.get_sprite_table_offset() + (id as u16) * 16;
        let lo = self.chr_byte(base + row);
        let hi = self.chr_byte(base + 8 + row);
        let show_left = self.creg2 & 0x04 != 0;
        let mut c: u8 = 0;
        let mut found = false;
        while c < 8
            invariant
                c <= 8,
                self.char_ram.wf(),
                y == self.sprite_ram.data@[0],
                id == self.sprite_ram.data@[1],
                x == self.sprite_ram.data@[3],
                row == self.line - y,
                base == sprite_zero_base(*self),
                lo == chr_byte_spec(*self, base + row),
                hi == chr_byte_spec(*self, base + 8 + row),
                show_left == (self.creg2 & 0x04 != 0),
                found == exists|cc: u8| cc < c && sprite_hit_at(*self, cc),
            decreases 8 - c,
        {
            let v: u8 = (if lo & (0x80u8 >> c) != 0 {
                1u8
            } else {
                0u8
            }) + (if hi & (0x80u8 >> c) != 0 {
                2u8
            } else {
                0u8
            });
            if v != 0 && (x as u16 + c as u16 >= 8 || show_left) {
                proof {
                    assert(sprite_hit_at(*self, c));
                }
                found = true;
            } else {
                proof {
                    assert(!sprite_hit_at(*self, c));
                }
            }
            c = c + 1;
        }
        found
    }

    /// Fills the pixel block of the background tile at grid slot (i, j) from
    /// the 8x8 tile `sprite_id` in the pattern table at `offset`; the tile's
    /// other fields are untouched.
    pub fn build_sprite_for_tile(
        &self,
        image: &mut Image,
        sprite_id: u16,
        offset: u16,
        i: u8,
        j: u8,
    )
        requires
            self.wf(),
            old(image).wf(),
            sprite_id < 256,
            offset == 0 || offset == 0x1000,
            i <= 30,
            j < 33,
        ensures
            final(image).wf(),
            *final(image) == (Image { background: final(image).background, ..*old(image) }),
            final(image).background@.len() == old(image).background@.len(),
            forall|k: int|
                0 <= k < old(image).background@.len() && k != i * 33 + j ==> final(image).background@[k] == old(image).background@[k],
            ({
                let t = final(image).background@[i * 33 + j];
                let o = old(image).background@[i * 33 + j];
                &&& t.scroll_x == o.scroll_x
                &&& t.scroll_y == o.scroll_y
                &&& t.sprite_id == o.sprite_id
                &&& t.palette_id == o.palette_id
                &&& t.is_background_enable == o.is_background_enable
                &&& t.sprite.x == o.sprite.x && t.sprite.y == o.sprite.y && t.sprite.attr
                    == o.sprite.attr
                &&& t.sprite.data@.len() == 64
                &&& forall|k: int|
                    0 <= k < 64 ==> t.sprite.data@[k] == pattern_pixel(
                        *self,
                        offset + sprite_id * 16,
                        k / 8,
                        (k % 8) as u8,
                    )
            }),
    {
        let idx: usize = i as usize * 33 + j as usize;
        let pixels = self.build_tile_pixels(offset + sprite_id * 16);
        let old_tile = &image.background[idx];
        let tile = Tile {
            scroll_x: old_tile.scroll_x,
            scroll_y: old_tile.scroll_y,
            sprite_id: old_tile.sprite_id,
            palette_id: old_tile.palette_id,
            sprite: Sprite {
                x: old_tile.sprite.x,
                y: old_tile.sprite.y,
                attr: old_tile.sprite.attr,
                data: pixels,
            },
            is_background_enable: old_tile.is_background_enable,
        };
        image.background.set(idx, tile);
    }

    /// Builds the complete background tile record at grid slot (i, j) from
    /// nametable coordinates (x, y) under nametable base `offset`.
    pub fn build_tile(&self, image: &mut Image, x: u8, y: u8, offset: u16, i: u8, j: u8)
        requires
            self.wf(),
            old(image).wf(),
            x < 32,
            y < 30,
            offset == 0 || offset == 0x400 || offset == 0x800 || offset == 0xC00,
            i <= 30,
            j < 33,
        ensures
            final(image).wf(),
            *final(image) == (Image { background: final(image).background, ..*old(image) }),
            final(image).background@.len() == old(image).background@.len(),
            forall|k: int|
                0 <= k < old(image).background@.len() && k != i * 33 + j ==> final(image).background@[k] == old(image).background@[k],
            tile_matches(*self, final(image).background@[i * 33 + j], x, y, offset),
    {
        let idx: usize = i as usize * 33 + j as usize;
        let block_id = self.get_block_id(x, y);
        let sprite_id = self.get_sprite_id(x, y, offset);
        let attr = self.get_attribute(x, y, offset);
        let table = self.get_background_table_offset();
        let pixels = self.build_tile_pixels(table + sprite_id as u16 * 16);
        let sh: u16 = block_id as u16 * 2;
        let palette_id: u16 = ((attr as u16) >> sh) % 4;
        let tile = Tile {
            scroll_x: self.scroll_x,
            scroll_y: self.scroll_y,
            sprite_id: sprite_id as u16,
            palette_id,
            sprite: Sprite { x: 0, y: 0, attr: 0, data: pixels },
            is_background_enable: self.get_is_background_enable(),
        };
        image.background.set(idx, tile);
    }

    /// Builds the 33-column background row for the scanline block that just
    /// finished, wrapping through the nametable grid from the scroll origin,
    /// and advances the row counter.
    pub fn build_background(&mut self, image: &mut Image)
        requires
            old(self).wf(),
            old(image).wf(),
            old(self).line % 8 == 0,
            8 <= old(self).line <= 241,
            old(self).background_index as int * 8 <= old(self).line,
        ensures
            final(self).wf(),
            *final(self) == (Ppu {
                background_index: (old(self).background_index + 1) as u8,
                ..*old(self)
            }),
            final(image).wf(),
            *final(image) == (Image { background: final(image).background, ..*old(image) }),
            final(image).background@.len() == old(image).background@.len(),
            forall|k: int|
                0 <= k < old(image).background@.len() && !(old(self).background_index * 33
                    <= k < old(self).background_index * 33 + 33) ==> final(image).background@[k] == old(image).background@[k],
            forall|j: int|
                0 <= j < 33 ==> tile_matches(
                    *old(self),
                    final(image).background@[old(self).background_index * 33 + j],
                    bg_tile_x(*old(self), j) as u8,
                    bg_tile_y(*old(self)) as u8,
                    bg_table_offset(*old(self), j) as u16,
                ),
    {
        let i = self.background_index;
        let sty = self.get_scroll_tile_y();
        let tile_y: u8 = sty % 30;
        let table_off_y: u8 = if (sty / 30) % 2 > 0 {
            2
        } else {
            0
        };
        let stx = self.get_scroll_tile_x();
        let mut j: u8 = 0;
        while j < 33
            invariant
                j <= 33,
                self.wf(),
                *self == *old(self),
                image.wf(),
                i == self.background_index,
                i <= 30,
                sty == scroll_tile_y_of(*self),
                tile_y == bg_tile_y(*self),
                tile_y < 30,
                stx == scroll_tile_x_of(*self),
                stx < 64,
                table_off_y == (if (scroll_tile_y_of(*self) / 30) % 2 == 1 {
                    2int
                } else {
                    0int
                }),
                *image == (Image { background: image.background, ..*old(image) }),
                image.background@.len() == old(image).background@.len(),
                forall|k: int|
                    0 <= k < old(image).background@.len() && !(i * 33 <= k < i * 33 + j)
                        ==> image.background@[k] == old(image).background@[k],
                forall|jj: int|
                    0 <= jj < j ==> tile_matches(
                        *self,
                        image.background@[i * 33 + jj],
                        bg_tile_x(*self, jj) as u8,
                        bg_tile_y(*self) as u8,
                        bg_table_offset(*self, jj) as u16,
                    ),
            decreases 33 - j,
        {
            let tile_x: u8 = (stx + j) % 32;
            let ntid: u8 = ((stx + j) / 32) % 2 + table_off_y;
            let offset: u16 = ntid as u16 * 0x400;
            proof {
                assert(tile_x == bg_tile_x(*self, j as int));
                assert(offset == bg_table_offset(*self, j as int));
            }
            self.build_tile(image, tile_x, tile_y, offset, i, j);
            j = j + 1;
        }
        self.background_index = i + 1;
    }
}

// ---------------------------------------------------------------------------
// Debug views
// ---------------------------------------------------------------------------

/// The pattern-view sprite for tile index `t`: the tile's pixels from the
/// low pattern table, laid out 32 tiles per row.
pub open spec fn pattern_view_matches(p: Ppu, s: Sprite, t: int) -> bool {
    &&& s.x == (t % 32) * 8
    &&& s.y == (t / 32) * 8
    &&& s.attr == 0
    &&& s.data@.len() == 64
    &&& forall|k: int|
        0 <= k < 64 ==> s.data@[k] == pattern_pixel(p, 16 * t, k / 8, (k % 8) as u8)
}

/// Row-major index into the four-nametable debug grid.
pub open spec fn dbg_grid_index(row: int, col: int) -> int {
    row * 64 + col
}

/// Row-major index into the background tile grid.
pub open spec fn bg_grid_index(row: int, col: int) -> int {
    row * 33 + col
}

/// Scalar and pixel content of two tiles agree.
pub open spec fn tile_like(a: Tile, b: Tile) -> bool {
    &&& a.scroll_x == b.scroll_x
    &&& a.scroll_y == b.scroll_y
    &&& a.sprite_id == b.sprite_id
    &&& a.palette_id == b.palette_id
    &&& a.is_background_enable == b.is_background_enable
    &&& a.sprite.x == b.sprite.x && a.sprite.y == b.sprite.y && a.sprite.attr == b.sprite.attr
    &&& a.sprite.data@ == b.sprite.data@
}

impl Ppu {
    /// Rebuilds the pattern-table debug view: one sprite per tile of the low
    /// pattern table, 32 tiles per row.
    pub fn build_pattern_view(&self, image: &mut Image)
        requires
            self.wf(),
            old(image).wf(),
        ensures
            final(image).wf(),
            *final(image) == (Image { dbg_pattern: final(image).dbg_pattern, ..*old(image) }),
            final(image).dbg_pattern@.len() == 256,
            forall|t: int|
                0 <= t < 256 ==> pattern_view_matches(*self, final(image).dbg_pattern@[t], t),
    {
        image.dbg_pattern = Vec::new();
        let mut t: usize = 0;
        while t < 256
            invariant
                t <= 256,
                self.wf(),
                old(image).wf(),
                *image == (Image { dbg_pattern: image.dbg_pattern, ..*old(image) }),
                image.dbg_pattern@.len() == t,
                forall|tt: int|
                    0 <= tt < t ==> pattern_view_matches(*self, image.dbg_pattern@[tt], tt),
            decreases 256 - t,
        {
            let data = self.build_tile_pixels(16 * t as u16);
            let s = Sprite {
                x: ((t % 32) * 8) as u8,
                y: ((t / 32) * 8) as u8,
                attr: 0,
                data,
            };
            proof {
                assert(pattern_view_matches(*self, s, t as int));
            }
            image.dbg_pattern.push(s);
            t = t + 1;
        }
        proof {
            assert(image.wf());
        }
    }

    /// Copies the visible background region into the top-left quadrant of
    /// the four-nametable debug grid.
    pub fn build_dbg_background(&self, image: &mut Image)
        requires
            self.wf(),
            old(image).wf(),
        ensures
            final(image).wf(),
            *final(image) == (Image { dbg_bg: final(image).dbg_bg, ..*old(image) }),
            final(image).dbg_bg@.len() == old(image).dbg_bg@.len(),
            forall|row: int, col: int|
                0 <= row < 30 && 0 <= col < 32 ==> tile_like(
                    final(image).dbg_bg@[#[trigger] dbg_grid_index(row, col)],
                    final(image).background@[bg_grid_index(row, col)],
                ),
    {
        let mut row: usize = 0;
        while row < 30
            invariant
                row <= 30,
                self.wf(),
                old(image).wf(),
                image.wf(),
                *image == (Image { dbg_bg: image.dbg_bg, ..*old(image) }),
                image.dbg_bg@.len() == old(image).dbg_bg@.len(),
                forall|r2: int, c2: int|
                    0 <= r2 < row && 0 <= c2 < 32 ==> tile_like(
                        image.dbg_bg@[#[trigger] dbg_grid_index(r2, c2)],
                        image.background@[bg_grid_index(r2, c2)],
                    ),
            decreases 30 - row,
        {
            let mut col: usize = 0;
            while col < 32
                invariant
                    row < 30,
                    col <= 32,
                    self.wf(),
                    old(image).wf(),
                    image.wf(),
                    *image == (Image { dbg_bg: image.dbg_bg, ..*old(image) }),
                    image.dbg_bg@.len() == old(image).dbg_bg@.len(),
                    forall|r2: int, c2: int|
                        0 <= r2 < row && 0 <= c2 < 32 ==> tile_like(
                            image.dbg_bg@[#[trigger] dbg_grid_index(r2, c2)],
                            image.background@[bg_grid_index(r2, c2)],
                        ),
                    forall|c2: int|
                        0 <= c2 < col ==> tile_like(
                            image.dbg_bg@[#[trigger] dbg_grid_index(row as int, c2)],
                            image.background@[bg_grid_index(row as int, c2)],
                        ),
                decreases 32 - col,
            {
                let src = &image.background[row * 33 + col];
                let copy = Tile {
                    scroll_x: src.scroll_x,
                    scroll_y: src.scroll_y,
                    sprite_id: src.sprite_id,
                    palette_id: src.palette_id,
                    sprite: Sprite {
                        x: src.sprite.x,
                        y: src.sprite.y,
                        attr: src.sprite.attr,
                        data: copy_bytes(&src.sprite.data),
                    },
                    is_background_enable: src.is_background_enable,
                };
                image.dbg_bg.set(row * 64 + col, copy);
                col = col + 1;
            }
            row = row + 1;
        }
    }
}

// ---------------------------------------------------------------------------
// Scanline timing
// ---------------------------------------------------------------------------

/// Progress through the frame measured in dots.
pub open spec fn ppu_dots(p: Ppu) -> int {
    341 * p.line + p.cycle
}

/// One frame's worth of CPU cycles from the top of a frame crosses exactly
/// one frame boundary: `run` conserves dots (each signalled frame accounts
/// for `DOTS_PER_FRAME` of them), and 29,781 CPU cycles are 89,343 dots, one
/// more than a frame, so exactly one frame signal fits.
pub proof fn lemma_one_frame_per_29781_cycles(frames: int, dots_end: int)
    requires
        dots_end == 0 + 3 * 29781 - DOTS_PER_FRAME * frames,
        0 <= dots_end < DOTS_PER_FRAME,
    ensures
        frames == 1,
        dots_end == 1,
{
}

impl Ppu {
    /// Advances the PPU by `cycle` CPU cycles (three dots each). Crossing a
    /// scanline boundary latches the sprite-zero hit, builds the next
    /// background row on each eighth line, enters VBlank at line 241
    /// (asserting NMI when enabled), and at line 262 ends the frame: status
    /// is cleared, NMI deasserted, the palette snapshot, sprite list and
    /// debug views are built into `image`, and `true` is returned.
    #[verifier::rlimit(60)]
    pub fn run(&mut self, cycle: u64, image: &mut Image, interrupts: &mut Interrupts) -> (r:
        bool)
        requires
            old(self).wf(),
            old(image).wf(),
            cycle <= 113,
        ensures
            final(self).wf(),
            final(image).wf(),
            ppu_dots(*final(self)) + (if r {
                DOTS_PER_FRAME as int
            } else {
                0int
            }) == ppu_dots(*old(self)) + 3 * cycle,
            r <==> (old(self).cycle + 3 * cycle >= 341 && old(self).line == 261),
            old(self).cycle + 3 * cycle < 341 ==> {
                &&& *final(self) == (Ppu {
                    cycle: (old(self).cycle + 3 * cycle) as u64,
                    ..*old(self)
                })
                &&& *final(image) == *old(image)
                &&& *final(interrupts) == *old(interrupts)
            },
            old(self).cycle + 3 * cycle >= 341 ==> {
                &&& *final(self) == (Ppu {
                    cycle: final(self).cycle,
                    line: final(self).line,
                    sreg: final(self).sreg,
                    background_index: final(self).background_index,
                    ..*old(self)
                })
                &&& final(self).cycle == old(self).cycle + 3 * cycle - 341
                &&& final(interrupts).irq == old(interrupts).irq
                &&& *final(image) == (Image {
                    background: final(image).background,
                    sprite: final(image).sprite,
                    dbg_bg: final(image).dbg_bg,
                    dbg_pattern: final(image).dbg_pattern,
                    palette: final(image).palette,
                    current_x: final(image).current_x,
                    current_y: final(image).current_y,
                })
            },
            old(self).cycle + 3 * cycle >= 341 && !r ==> {
                &&& final(self).line == old(self).line + 1
                &&& final(self).sreg == ((old(self).sreg | (if sprite_hit_now(*old(self)) {
                    0x40u8
                } else {
                    0u8
                })) | (if old(self).line == 240 {
                    0x80u8
                } else {
                    0u8
                }))
                &&& (old(self).line == 240 ==> final(interrupts).nmi == vblank_irq_enabled(
                    old(self).creg1,
                ))
                &&& (old(self).line != 240 ==> final(interrupts).nmi == old(interrupts).nmi)
                &&& (old(self).line == 0 ==> final(image).sprite@.len() == 0)
                &&& (old(self).line != 0 ==> final(image).sprite == old(image).sprite)
                &&& final(image).dbg_bg == old(image).dbg_bg
                &&& final(image).dbg_pattern == old(image).dbg_pattern
                &&& final(image).palette == old(image).palette
                &&& final(image).current_x == old(image).current_x
                &&& final(image).current_y == old(image).current_y
                &&& ({
                    let built = old(self).line + 1 <= 241 && (old(self).line + 1) % 8 == 0;
                    let mid = (Ppu { line: (old(self).line + 1) as u16, ..*old(self) });
                    &&& (!built ==> final(self).background_index == old(self).background_index && final(image).background == old(image).background)
                    &&& (built ==> {
                        &&& final(self).background_index == old(self).background_index + 1
                        &&& forall|j: int|
                            0 <= j < 33 ==> tile_matches(
                                mid,
                                final(image).background@[old(self).background_index * 33
                                    + j],
                                bg_tile_x(mid, j) as u8,
                                bg_tile_y(mid) as u8,
                                bg_table_offset(mid, j) as u16,
                            )
                        &&& forall|k: int|
                            0 <= k < old(image).background@.len() && !(old(self).background_index * 33 <= k < old(self).background_index * 33
                                + 33) ==> final(image).background@[k] == old(image).background@[k]
                    })
                })
            },
            r ==> {
                &&& final(self).line == 0
                &&& final(self).background_index == 0
                &&& final(self).sreg == old(self).sreg & 0x3F
                &&& !final(interrupts).nmi
                &&& final(image).background == old(image).background
                &&& final(image).palette@ == palette_snapshot(old(self).palette.ram.data@)
                &&& final(image).current_x == old(self).scroll_x + (if name_table_id_of(
                    old(self).creg1,
                ) % 2 == 1 {
                    256int
                } else {
                    0int
                })
                &&& final(image).current_y == old(self).scroll_y + (if name_table_id_of(
                    old(self).creg1,
                ) / 2 % 2 == 1 {
                    240int
                } else {
                    0int
                })
                &&& final(image).sprite@.len() == old(image).sprite@.len() + built_count(
                    old(self).sprite_ram.data@,
                    64,
                )
                &&& forall|j: int|
                    0 <= j < old(image).sprite@.len() ==> final(image).sprite@[j] == old(image).sprite@[j]
                &&& forall|i: int|
                    0 <= i < 64 && oam_kept(old(self).sprite_ram.data@, i)
                        ==> sprite_matches_oam(
                        *final(self),
                        final(image).sprite@[old(image).sprite@.len() + built_count(
                            old(self).sprite_ram.data@,
                            i,
                        )],
                        i,
                    )
                &&& final(image).dbg_pattern@.len() == 256
                &&& forall|t: int|
                    0 <= t < 256 ==> pattern_view_matches(
                        *final(self),
                        final(image).dbg_pattern@[t],
                        t,
                    )
            },
    {
        proof {
            let s = old(self).sreg;
            assert(s | 0 == s && (s | 0x40u8) | 0 == s | 0x40u8) by (bit_vector);
        }
        let hit = self.has_sprite_hit();
        self.cycle = self.cycle + 3 * cycle;
        if self.cycle >= CYCLE_PER_LINE {
            if self.line == 0 {
                image.sprite = Vec::new();
            }
            if hit {
                self.set_sprite_hit();
            }
            self.cycle = self.cycle - CYCLE_PER_LINE;
            self.line = self.line + 1;
            if self.line <= (V_SIZE + 1) as u16 && self.line % 8 == 0 {
                proof {
                    let bg = old(self).background_index as int;
                    let ln = old(self).line as int;
                    assert(8 * bg <= ln + 1 && bg <= (ln + 1) / 8) by (nonlinear_arith)
                        requires
                            bg <= ln / 8 + 1,
                            (ln + 1) % 8 == 0,
                            0 <= ln,
                    ;
                }
                let ghost pre = *self;
                self.build_background(image);
                proof {
                    let mid = (Ppu { line: (old(self).line + 1) as u16, ..*old(self) });
                    assert forall|j: int| 0 <= j < 33 implies tile_matches(
                        mid,
                        image.background@[old(self).background_index * 33 + j],
                        bg_tile_x(mid, j) as u8,
                        bg_tile_y(mid) as u8,
                        bg_table_offset(mid, j) as u16,
                    ) by {
                        assert(tile_matches(
                            pre,
                            image.background@[pre.background_index * 33 + j],
                            bg_tile_x(pre, j) as u8,
                            bg_tile_y(pre) as u8,
                            bg_table_offset(pre, j) as u16,
                        ));
                        assert(bg_tile_x(mid, j) == bg_tile_x(pre, j));
                        assert(bg_tile_y(mid) == bg_tile_y(pre));
                        assert(bg_table_offset(mid, j) == bg_table_offset(pre, j));
                    }
                }
            }
            if self.line == (V_SIZE + 1) as u16 {
                self.set_vblank();
                interrupts.deassert_nmi();
                if self.has_vblank_irq_enabled() {
                    interrupts.assert_nmi();
                }
            }
            if self.line >= V_SIZE_WITH_VBLANK {
                self.clear_vblank();
                self.clear_sprite_hit();
                interrupts.deassert_nmi();
                self.line = 0;
                self.background_index = 0;
                self.get_palette(image);
                self.build_objects(image);
                self.build_pattern_view(image);
                self.build_dbg_background(image);
                let ntid = self.get_name_table_id();
                image.current_x = self.scroll_x as u16 + if ntid % 2 == 1 {
                    256
                } else {
                    0
                };
                image.current_y = self.scroll_y as u16 + if ntid / 2 % 2 == 1 {
                    240
                } else {
                    0
                };
                proof {
                    let s = old(self).sreg;
                    assert(((s | 0x40) & 0x7F) & 0xBF == s & 0x3F && (s & 0x7F) & 0xBF == s
                        & 0x3F) by (bit_vector);
                }
                return true;
            }
        }
        false
    }
}

/// Copies a byte vector.
fn copy_bytes(src: &Vec<u8>) -> (r: Vec<u8>)
    ensures
        r@ == src@,
{
    let n: usize = src.len();
    let mut r: Vec<u8> = Vec::new();
    let mut i: usize = 0;
    while i < n
        invariant
            i <= n,
            n == src@.len(),
            r@ == src@.subrange(0, i as int),
        decreases n - i,
    {
        r.push(src[i]);
        i = i + 1;
        proof {
            assert(r@ =~= src@.subrange(0, i as int));
        }
    }
    proof {
        assert(r@ =~= src@);
    }
    r
}

} // verus!
