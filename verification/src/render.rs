//! The renderer: a stateless transform from the PPU's structured frame
//! image to flat pixel grids of 24-bit RGB values — the main 240x256 view
//! and two debug views (the four-nametable grid and the pattern table).

use vstd::prelude::*;
use vstd::pervasive::VecAdditionalExecFns;

use crate::ppu::{Image, Sprite, H_SIZE, V_SIZE, H_SPRITE_NUM, V_SPRITE_NUM};

verus! {

/// The console's fixed 64-entry RGB palette.
pub open spec fn color_spec(idx: u8) -> u64 {
    match idx {
        0 => 0x808080u64,
        1 => 0x003DA6u64,
        2 => 0x0012B0u64,
        3 => 0x440096u64,
        4 => 0xA1005Eu64,
        5 => 0xC70028u64,
        6 => 0xBA0600u64,
        7 => 0x8C1700u64,
        8 => 0x5C2F00u64,
        9 => 0x104500u64,
        10 => 0x054A00u64,
        11 => 0x00472Eu64,
        12 => 0x004166u64,
        13 => 0x000000u64,
        14 => 0x050505u64,
        15 => 0x050505u64,
        16 => 0xC7C7C7u64,
        17 => 0x0077FFu64,
        18 => 0x2155FFu64,
        19 => 0x8237FAu64,
        20 => 0xEB2FB5u64,
        21 => 0xFF2950u64,
        22 => 0xFF2200u64,
        23 => 0xD63200u64,
        24 => 0xC46200u64,
        25 => 0x358000u64,
        26 => 0x058F00u64,
        27 => 0x008A55u64,
        28 => 0x0099CCu64,
        29 => 0x212121u64,
        30 => 0x090909u64,
        31 => 0x090909u64,
        32 => 0xFFFFFFu64,
        33 => 0x0FD7FFu64,
        34 => 0x69A2FFu64,
        35 => 0xD480FFu64,
        36 => 0xFF45F3u64,
        37 => 0xFF618Bu64,
        38 => 0xFF8833u64,
        39 => 0xFF9C12u64,
        40 => 0xFABC20u64,
        41 => 0x9FE30Eu64,
        42 => 0x2BF035u64,
        43 => 0x0CF0A4u64,
        44 => 0x05FBFFu64,
        45 => 0x5E5E5Eu64,
        46 => 0x0D0D0Du64,
        47 => 0x0D0D0Du64,
        48 => 0xFFFFFFu64,
        49 => 0xA6FCFFu64,
        50 => 0xB3ECFFu64,
        51 => 0xDAABEBu64,
        52 => 0xFFA8F9u64,
        53 => 0xFFABB3u64,
        54 => 0xFFD2B0u64,
        55 => 0xFFEFA6u64,
        56 => 0xFFF79Cu64,
        57 => 0xD7E895u64,
        58 => 0xA6EDAFu64,
        59 => 0xA2F2DAu64,
        60 => 0x99FFFCu64,
        61 => 0xDDDDDDu64,
        62 => 0x111111u64,
        63 => 0x111111u64,
        _ => 0u64,
    }
}

/// Looks up the fixed RGB palette.
#[verifier::rlimit(30)]
pub fn color(idx: u8) -> (r: u64)
    requires
        idx < 64,
    ensures
        r == color_spec(idx),
{
    match idx {
        0 => 0x808080u64,
        1 => 0x003DA6u64,
        2 => 0x0012B0u64,
        3 => 0x440096u64,
        4 => 0xA1005Eu64,
        5 => 0xC70028u64,
        6 => 0xBA0600u64,
        7 => 0x8C1700u64,
        8 => 0x5C2F00u64,
        9 => 0x104500u64,
        10 => 0x054A00u64,
        11 => 0x00472Eu64,
        12 => 0x004166u64,
        13 => 0x000000u64,
        14 => 0x050505u64,
        15 => 0x050505u64,
        16 => 0xC7C7C7u64,
        17 => 0x0077FFu64,
        18 => 0x2155FFu64,
        19 => 0x8237FAu64,
        20 => 0xEB2FB5u64,
        21 => 0xFF2950u64,
        22 => 0xFF2200u64,
        23 => 0xD63200u64,
        24 => 0xC46200u64,
        25 => 0x358000u64,
        26 => 0x058F00u64,
        27 => 0x008A55u64,
        28 => 0x0099CCu64,
        29 => 0x212121u64,
        30 => 0x090909u64,
        31 => 0x090909u64,
        32 => 0xFFFFFFu64,
        33 => 0x0FD7FFu64,
        34 => 0x69A2FFu64,
        35 => 0xD480FFu64,
        36 => 0xFF45F3u64,
        37 => 0xFF618Bu64,
        38 => 0xFF8833u64,
        39 => 0xFF9C12u64,
        40 => 0xFABC20u64,
        41 => 0x9FE30Eu64,
        42 => 0x2BF035u64,
        43 => 0x0CF0A4u64,
        44 => 0x05FBFFu64,
        45 => 0x5E5E5Eu64,
        46 => 0x0D0D0Du64,
        47 => 0x0D0D0Du64,
        48 => 0xFFFFFFu64,
        49 => 0xA6FCFFu64,
        50 => 0xB3ECFFu64,
        51 => 0xDAABEBu64,
        52 => 0xFFA8F9u64,
        53 => 0xFFABB3u64,
        54 => 0xFFD2B0u64,
        55 => 0xFFEFA6u64,
        56 => 0xFFF79Cu64,
        57 => 0xD7E895u64,
        58 => 0xA6EDAFu64,
        59 => 0xA2F2DAu64,
        60 => 0x99FFFCu64,
        61 => 0xDDDDDDu64,
        62 => 0x111111u64,
        63 => 0x111111u64,
        _ => 0u64,
    }
}

/// Index of screen pixel (y, x) in a flat 256-wide row-major grid.
pub open spec fn pix_index(y: int, x: int) -> int {
    y * 256 + x
}

/// Index of debug-grid pixel (y, x) in a flat 512-wide row-major grid.
pub open spec fn dbg_pix_index(y: int, x: int) -> int {
    y * 512 + x
}

/// Distinct in-range screen coordinates map to distinct flat indices.
pub proof fn lemma_pix_index_injective(y1: int, x1: int, y2: int, x2: int)
    requires
        0 <= x1 < 256,
        0 <= x2 < 256,
        pix_index(y1, x1) == pix_index(y2, x2),
    ensures
        y1 == y2 && x1 == x2,
{
    assert(y1 == y2 && x1 == x2) by (nonlinear_arith)
        requires
            0 <= x1 < 256,
            0 <= x2 < 256,
            y1 * 256 + x1 == y2 * 256 + x2,
    ;
}

/// Distinct in-range debug-grid coordinates map to distinct flat indices.
pub proof fn lemma_dbg_pix_index_injective(y1: int, x1: int, y2: int, x2: int)
    requires
        0 <= x1 < 512,
        0 <= x2 < 512,
        dbg_pix_index(y1, x1) == dbg_pix_index(y2, x2),
    ensures
        y1 == y2 && x1 == x2,
{
    assert(y1 == y2 && x1 == x2) by (nonlinear_arith)
        requires
            0 <= x1 < 512,
            0 <= x2 < 512,
            y1 * 512 + x1 == y2 * 512 + x2,
    ;
}

/// The colour the four-nametable debug view shows for pixel (row, col) of
/// the tile at debug-grid slot (tile_y, tile_x).
pub open spec fn dbg_tile_pixel_color(image: Image, tile_x: int, tile_y: int, row: int, col: int) -> u64 {
    let t = image.dbg_bg@[tile_y * 64 + tile_x];
    color_spec((image.palette@[t.palette_id * 4 + t.sprite.data@[row * 8 + col]] % 64) as u8)
}

/// The colour the main view shows for pixel (row, col) of the tile at grid
/// slot (tile_y, tile_x): the tile's 2-bit pixel selects within its palette
/// group, which maps through the fixed RGB table.
pub open spec fn tile_pixel_color(image: Image, tile_x: int, tile_y: int, row: int, col: int) -> u64 {
    let t = image.background@[tile_y * 33 + tile_x];
    color_spec((image.palette@[t.palette_id * 4 + t.sprite.data@[row * 8 + col]] % 64) as u8)
}

/// Background tile at grid slot (ti, tj) is enabled and its scroll-shifted
/// stamp covers screen pixel (yy, xx).
pub open spec fn bg_tile_covers(image: Image, ti: int, tj: int, yy: int, xx: int) -> bool {
    let t = image.background@[ti * 33 + tj];
    &&& 0 <= ti < 30 && 0 <= tj < 32
    &&& t.is_background_enable
    &&& 0 <= yy + t.scroll_y % 8 - 8 * ti < 8
    &&& 0 <= xx + t.scroll_x % 8 - 8 * tj < 8
}

/// Some enabled tile with grid row below `i`, or on row `i` left of column
/// `j`, covers the pixel.
pub open spec fn bg_covered_before(image: Image, i: int, j: int, yy: int, xx: int) -> bool {
    exists|ti: int, tj: int|
        #![trigger bg_tile_covers(image, ti, tj, yy, xx)]
        (ti < i || (ti == i && tj < j)) && bg_tile_covers(image, ti, tj, yy, xx)
}

/// Some enabled tile of the visible grid covers the pixel.
pub open spec fn bg_covered(image: Image, yy: int, xx: int) -> bool {
    bg_covered_before(image, 30, 0, yy, xx)
}

/// The pixel holds the colour of some enabled tile that covers it.
pub open spec fn bg_pixel_drawn(image: Image, data: Seq<u64>, yy: int, xx: int) -> bool {
    exists|ti: int, tj: int|
        #![trigger bg_tile_covers(image, ti, tj, yy, xx)]
        bg_tile_covers(image, ti, tj, yy, xx) && data[pix_index(yy, xx)] == tile_pixel_color(
            image,
            tj,
            ti,
            yy + image.background@[ti * 33 + tj].scroll_y % 8 - 8 * ti,
            xx + image.background@[ti * 33 + tj].scroll_x % 8 - 8 * tj,
        )
}

/// A sprite's pixel-block height: eight rows, or sixteen in 8x16 mode.
pub open spec fn sprite_height(sp: Sprite) -> int {
    sp.data@.len() as int / 8
}

/// The screen column where pattern column `i` of the sprite lands; the
/// horizontal-flip attribute reverses the sampling.
pub open spec fn sprite_draw_x(sp: Sprite, i: int) -> int {
    (sp.x + (if sp.attr & 0x40u8 != 0 {
        7 - i
    } else {
        i
    })) % 256
}

/// The screen row where pattern row `j` of the sprite lands; the
/// vertical-flip attribute reverses the sampling.
pub open spec fn sprite_draw_y(sp: Sprite, j: int) -> int {
    (sp.y + (if sp.attr & 0x80u8 != 0 {
        sprite_height(sp) - 1 - j
    } else {
        j
    })) % 256
}

/// The background pixel at screen coordinates (x, y) is opaque.
pub open spec fn bg_pixel_opaque(image: Image, x: int, y: int) -> bool {
    image.background@[((y / 8) % 30) * 33 + ((x / 8) % 32)].sprite.data@[(y % 8) * 8 + (x
        % 8)] % 4 > 0
}

/// Pattern pixel (j, i) of sprite `s` is drawn: it is opaque, lands on the
/// screen, and is not a behind-background pixel over opaque background.
pub open spec fn sprite_pixel_visible(image: Image, s: int, j: int, i: int) -> bool {
    let sp = image.sprite@[s];
    &&& 0 <= s < image.sprite@.len()
    &&& 0 <= j < sprite_height(sp)
    &&& 0 <= i < 8
    &&& sp.data@[j * 8 + i] > 0
    &&& sprite_draw_y(sp, j) < 240
    &&& !(sp.attr & 0x20u8 != 0 && bg_pixel_opaque(
        image,
        sprite_draw_x(sp, i),
        sprite_draw_y(sp, j),
    ))
}

/// The colour pattern pixel (j, i) of sprite `s` paints: its 2-bit value
/// within the sprite half of the palette, through the fixed RGB table.
pub open spec fn sprite_pixel_color(image: Image, s: int, j: int, i: int) -> u64 {
    let sp = image.sprite@[s];
    color_spec((image.palette@[(sp.attr & 0x03u8) * 4 + sp.data@[j * 8 + i] + 0x10]
        % 64) as u8)
}

/// Flat pixel `p` holds the colour of some drawn sprite pixel that lands
/// there.
pub open spec fn sprite_drawn_at(image: Image, data: Seq<u64>, p: int) -> bool {
    exists|s: int, j: int, i: int|
        #![trigger sprite_pixel_visible(image, s, j, i)]
        sprite_pixel_visible(image, s, j, i) && p == pix_index(
            sprite_draw_y(image.sprite@[s], j),
            sprite_draw_x(image.sprite@[s], i),
        ) && data[p] == sprite_pixel_color(image, s, j, i)
}

/// Flat pixel `p` either kept its pre-pass value or holds the colour of a
/// drawn sprite pixel that lands there.
pub open spec fn sprite_pixel_explains(
    image: Image,
    data0: Seq<u64>,
    data1: Seq<u64>,
    p: int,
) -> bool {
    data1[p] == data0[p] || sprite_drawn_at(image, data1, p)
}

/// Shifting two offsets below the modulus by a common base keeps them
/// distinct under the remainder.
pub proof fn lemma_mod_shift_injective(m: int, a: int, r1: int, r2: int)
    requires
        0 < m,
        0 <= r1 < m,
        0 <= r2 < m,
        0 <= a,
        (a + r1) % m == (a + r2) % m,
    ensures
        r1 == r2,
{
    vstd::arithmetic::div_mod::lemma_fundamental_div_mod(a + r1, m);
    vstd::arithmetic::div_mod::lemma_fundamental_div_mod(a + r2, m);
    assert(r1 - r2 == m * ((a + r1) / m - (a + r2) / m)) by (nonlinear_arith)
        requires
            a + r1 == m * ((a + r1) / m) + (a + r1) % m,
            a + r2 == m * ((a + r2) / m) + (a + r2) % m,
            (a + r1) % m == (a + r2) % m,
    ;
    assert(r1 == r2) by (nonlinear_arith)
        requires
            0 < m,
            0 <= r1 < m,
            0 <= r2 < m,
            r1 - r2 == m * ((a + r1) / m - (a + r2) / m),
    ;
}

/// The screen column where pattern-view column `i` of entry `s` lands.
pub open spec fn pattern_draw_x(sp: Sprite, i: int) -> int {
    (sp.x + i) % 256
}

/// The screen row where pattern-view row `j` of entry `s` lands.
pub open spec fn pattern_draw_y(sp: Sprite, j: int) -> int {
    (sp.y + j) % 240
}

/// (j, i) indexes a pixel of pattern-view entry `s`.
pub open spec fn pattern_pixel_at(image: Image, s: int, j: int, i: int) -> bool {
    &&& 0 <= s < image.dbg_pattern@.len()
    &&& 0 <= j < sprite_height(image.dbg_pattern@[s])
    &&& 0 <= i < 8
}

/// The colour pattern-view pixel (j, i) of entry `s` paints: its 2-bit value
/// through the sprite half of the palette.
pub open spec fn pattern_view_color(image: Image, s: int, j: int, i: int) -> u64 {
    color_spec((image.palette@[image.dbg_pattern@[s].data@[j * 8 + i] + 0x10] % 64) as u8)
}

/// Flat pixel `p` of the pattern view holds the colour of some pattern-view
/// pixel that lands there.
pub open spec fn pattern_drawn_at(image: Image, data: Seq<u64>, p: int) -> bool {
    exists|s: int, j: int, i: int|
        #![trigger pattern_pixel_at(image, s, j, i)]
        pattern_pixel_at(image, s, j, i) && p == pix_index(
            pattern_draw_y(image.dbg_pattern@[s], j),
            pattern_draw_x(image.dbg_pattern@[s], i),
        ) && data[p] == pattern_view_color(image, s, j, i)
}

/// Flat pixel `p` of the pattern view either kept its pre-pass value or
/// holds the colour of a pattern-view pixel that lands there.
pub open spec fn pattern_pixel_explains(
    image: Image,
    data0: Seq<u64>,
    data1: Seq<u64>,
    p: int,
) -> bool {
    data1[p] == data0[p] || pattern_drawn_at(image, data1, p)
}

/// The renderer's output grids: the main 240x256 view, the 480x512
/// four-nametable debug view, and the 240x256 pattern-table debug view, all
/// flat and row-major.
pub struct Render {
    pub data: Vec<u64>,
    pub dbg_bg_data: Vec<u64>,
    pub dbg_pattern_data: Vec<u64>,
}

/// A vector of `n` zero pixels.
fn zero_pixels(n: usize) -> (r: Vec<u64>)
    ensures
        r@.len() == n,
        forall|k: int| 0 <= k < n ==> r@[k] == 0,
{
    let mut r: Vec<u64> = Vec::new();
    let mut i: usize = 0;
    while i < n
        invariant
            i <= n,
            r@.len() == i,
            forall|k: int| 0 <= k < i ==> r@[k] == 0,
        decreases n - i,
    {
        r.push(0);
        i = i + 1;
    }
    r
}

impl Render {
    pub open spec fn wf(&self) -> bool {
        &&& self.data@.len() == V_SIZE * H_SIZE
        &&& self.dbg_bg_data@.len() == 2 * V_SIZE * 2 * H_SIZE
        &&& self.dbg_pattern_data@.len() == V_SIZE * H_SIZE
    }

    /// Black output grids.
    pub fn new() -> (r: Render)
        ensures
            r.wf(),
            forall|k: int| 0 <= k < r.data@.len() ==> r.data@[k] == 0,
            forall|k: int| 0 <= k < r.dbg_bg_data@.len() ==> r.dbg_bg_data@[k] == 0,
            forall|k: int| 0 <= k < r.dbg_pattern_data@.len() ==> r.dbg_pattern_data@[k] == 0,
    {
        Render {
            data: zero_pixels(V_SIZE * H_SIZE),
            dbg_bg_data: zero_pixels(2 * V_SIZE * 2 * H_SIZE),
            dbg_pattern_data: zero_pixels(V_SIZE * H_SIZE),
        }
    }

    /// A sprite pixel at screen coordinates (x, y) is hidden behind the
    /// background exactly when the background pixel there is opaque.
    pub fn should_pixel_hide(&self, image: &Image, x: u8, y: u8) -> (r: bool)
        requires
            image.wf(),
        ensures
            r == (image.background@[((y / 8) % 30) * 33 + ((x / 8) % 32)].sprite.data@[(y
                % 8) * 8 + (x % 8)] % 4 > 0),
    {
        let tile_x: usize = ((x / 8) % H_SPRITE_NUM as u8) as usize;
        let tile_y: usize = ((y / 8) % V_SPRITE_NUM as u8) as usize;
        let t = &image.background[tile_y * 33 + tile_x];
        t.sprite.data[(y % 8) as usize * 8 + (x % 8) as usize] % 4 > 0
    }

    /// Stamps one background tile into the main view, shifted left and up by
    /// the scroll remainder it was built with: every pixel that lands on the
    /// screen shows the tile's colour for its position.
    #[verifier::rlimit(100)]
    pub fn render_tile(&mut self, image: &Image, tile_x: u8, tile_y: u8)
        requires
            old(self).wf(),
            image.wf(),
            tile_x < 32,
            tile_y < 30,
        ensures
            final(self).wf(),
            final(self).dbg_bg_data == old(self).dbg_bg_data,
            final(self).dbg_pattern_data == old(self).dbg_pattern_data,
            ({
                let t = image.background@[tile_y * 33 + tile_x];
                let off_x = t.scroll_x % 8;
                let off_y = t.scroll_y % 8;
                forall|yy: int, xx: int|
                    0 <= yy < 240 && 0 <= xx < 256 && 0 <= yy + off_y - 8 * tile_y < 8 && 0
                        <= xx + off_x - 8 * tile_x < 8 ==> final(self).data@[#[trigger] pix_index(
                        yy,
                        xx,
                    )] == tile_pixel_color(
                        *image,
                        tile_x as int,
                        tile_y as int,
                        yy + off_y - 8 * tile_y,
                        xx + off_x - 8 * tile_x,
                    )
            }),
            ({
                let t = image.background@[tile_y * 33 + tile_x];
                let off_x = t.scroll_x % 8;
                let off_y = t.scroll_y % 8;
                forall|yy: int, xx: int|
                    0 <= yy < 240 && 0 <= xx < 256 && !(0 <= yy + off_y - 8 * tile_y < 8 && 0
                        <= xx + off_x - 8 * tile_x < 8) ==> final(self).data@[#[trigger] pix_index(
                        yy,
                        xx,
                    )] == old(self).data@[pix_index(yy, xx)]
            }),
    {
        let idx: usize = tile_y as usize * 33 + tile_x as usize;
        let palette_id: u16 = image.background[idx].palette_id;
        let off_x: u16 = (image.background[idx].scroll_x % 8) as u16;
        let off_y: u16 = (image.background[idx].scroll_y % 8) as u16;
        let ghost t = image.background@[tile_y * 33 + tile_x];
        let mut j: u16 = 0;
        while j < 8
            invariant
                j <= 8,
                self.wf(),
                image.wf(),
                tile_x < 32,
                tile_y < 30,
                self.dbg_bg_data == old(self).dbg_bg_data,
                self.dbg_pattern_data == old(self).dbg_pattern_data,
                t == image.background@[tile_y * 33 + tile_x],
                idx == tile_y * 33 + tile_x,
                palette_id == t.palette_id,
                off_x == t.scroll_x % 8,
                off_y == t.scroll_y % 8,
                forall|yy: int, xx: int|
                    0 <= yy < 240 && 0 <= xx < 256 && 0 <= yy + off_y - 8 * tile_y < j && 0
                        <= xx + off_x - 8 * tile_x < 8 ==> self.data@[#[trigger] pix_index(
                        yy,
                        xx,
                    )] == tile_pixel_color(
                        *image,
                        tile_x as int,
                        tile_y as int,
                        yy + off_y - 8 * tile_y,
                        xx + off_x - 8 * tile_x,
                    ),
                forall|yy: int, xx: int|
                    0 <= yy < 240 && 0 <= xx < 256 && !(0 <= yy + off_y - 8 * tile_y < 8
                        && 0 <= xx + off_x - 8 * tile_x < 8) ==> self.data@[#[trigger] pix_index(
                        yy,
                        xx,
                    )] == old(self).data@[pix_index(yy, xx)],
            decreases 8 - j,
        {
            let mut i: u16 = 0;
            while i < 8
                invariant
                    j < 8,
                    i <= 8,
                    self.wf(),
                    image.wf(),
                    tile_x < 32,
                    tile_y < 30,
                    self.dbg_bg_data == old(self).dbg_bg_data,
                    self.dbg_pattern_data == old(self).dbg_pattern_data,
                    t == image.background@[tile_y * 33 + tile_x],
                    idx == tile_y * 33 + tile_x,
                    palette_id == t.palette_id,
                    off_x == t.scroll_x % 8,
                    off_y == t.scroll_y % 8,
                    forall|yy: int, xx: int|
                        0 <= yy < 240 && 0 <= xx < 256 && 0 <= yy + off_y - 8 * tile_y < j
                            && 0 <= xx + off_x - 8 * tile_x < 8 ==> self.data@[#[trigger] pix_index(
                            yy,
                            xx,
                        )] == tile_pixel_color(
                            *image,
                            tile_x as int,
                            tile_y as int,
                            yy + off_y - 8 * tile_y,
                            xx + off_x - 8 * tile_x,
                        ),
                    forall|yy: int, xx: int|
                        0 <= yy < 240 && 0 <= xx < 256 && !(0 <= yy + off_y - 8 * tile_y
                            < 8 && 0 <= xx + off_x - 8 * tile_x < 8) ==> self.data@[#[trigger] pix_index(
                            yy,
                            xx,
                        )] == old(self).data@[pix_index(yy, xx)],
                    forall|xx: int|
                        0 <= xx < 256 && 0 <= 8 * tile_y + j - off_y < 240 && 0 <= xx
                            + off_x - 8 * tile_x < i ==> self.data@[#[trigger] pix_index(
                            8 * tile_y + j - off_y,
                            xx,
                        )] == tile_pixel_color(
                            *image,
                            tile_x as int,
                            tile_y as int,
                            j as int,
                            xx + off_x - 8 * tile_x,
                        ),
                decreases 8 - i,
            {
                let sx: u16 = 8 * tile_x as u16 + i;
                let sy: u16 = 8 * tile_y as u16 + j;
                if sx >= off_x && sy >= off_y {
                    let x: u16 = sx - off_x;
                    let y: u16 = sy - off_y;
                    if x < H_SIZE as u16 && y < V_SIZE as u16 {
                        let v: u8 = image.background[idx].sprite.data[j as usize * 8
                            + i as usize];
                        let color_id: u8 = image.palette[(palette_id * 4 + v as u16) as usize]
                            % 64;
                        let c = color(color_id);
                        let ghost pre = self.data@;
                        self.data.set(y as usize * 256 + x as usize, c);
                        proof {
                            assert(self.data@ == pre.update(pix_index(y as int, x as int), c));
                            assert(self.data@[pix_index(y as int, x as int)]
                                == tile_pixel_color(
                                *image,
                                tile_x as int,
                                tile_y as int,
                                j as int,
                                i as int,
                            ));
                            assert forall|yy: int, xx: int|
                                0 <= yy < 240 && 0 <= xx < 256 && 0 <= yy + off_y - 8
                                    * tile_y < j && 0 <= xx + off_x - 8 * tile_x < 8 implies self.data@[#[trigger] pix_index(
                                yy,
                                xx,
                            )] == tile_pixel_color(
                                *image,
                                tile_x as int,
                                tile_y as int,
                                yy + off_y - 8 * tile_y,
                                xx + off_x - 8 * tile_x,
                            ) by {
                                if pix_index(yy, xx) == pix_index(y as int, x as int) {
                                    lemma_pix_index_injective(yy, xx, y as int, x as int);
                                }
                            }
                            assert forall|xx: int|
                                0 <= xx < 256 && 0 <= 8 * tile_y + j - off_y < 240 && 0 <= xx
                                    + off_x - 8 * tile_x < i + 1 implies self.data@[#[trigger] pix_index(
                                8 * tile_y + j - off_y,
                                xx,
                            )] == tile_pixel_color(
                                *image,
                                tile_x as int,
                                tile_y as int,
                                j as int,
                                xx + off_x - 8 * tile_x,
                            ) by {
                                if pix_index(8 * tile_y + j - off_y, xx) == pix_index(
                                    y as int,
                                    x as int,
                                ) {
                                    lemma_pix_index_injective(
                                        8 * tile_y + j - off_y,
                                        xx,
                                        y as int,
                                        x as int,
                                    );
                                }
                            }
                            assert forall|yy: int, xx: int|
                                0 <= yy < 240 && 0 <= xx < 256 && !(0 <= yy + off_y - 8
                                    * tile_y < 8 && 0 <= xx + off_x - 8 * tile_x < 8) implies self.data@[#[trigger] pix_index(
                                yy,
                                xx,
                            )] == old(self).data@[pix_index(yy, xx)] by {
                                if pix_index(yy, xx) == pix_index(y as int, x as int) {
                                    lemma_pix_index_injective(yy, xx, y as int, x as int);
                                }
                            }
                        }
                    }
                }
                i = i + 1;
            }
            proof {
                assert forall|yy: int, xx: int|
                    0 <= yy < 240 && 0 <= xx < 256 && 0 <= yy + off_y - 8 * tile_y < j + 1
                        && 0 <= xx + off_x - 8 * tile_x < 8 implies self.data@[#[trigger] pix_index(
                    yy,
                    xx,
                )] == tile_pixel_color(
                    *image,
                    tile_x as int,
                    tile_y as int,
                    yy + off_y - 8 * tile_y,
                    xx + off_x - 8 * tile_x,
                ) by {
                    if yy + off_y - 8 * tile_y == j {
                        assert(yy == 8 * tile_y + j - off_y);
                        assert(self.data@[pix_index(8 * tile_y + j - off_y, xx)]
                            == tile_pixel_color(
                            *image,
                            tile_x as int,
                            tile_y as int,
                            j as int,
                            xx + off_x - 8 * tile_x,
                        ));
                    }
                }
            }
            j = j + 1;
        }
    }

    /// Draws every enabled tile of the visible background grid: every pixel
    /// covered by some enabled tile's scroll-shifted stamp shows the colour
    /// of a tile that covers it; pixels no enabled tile covers are
    /// untouched.
    pub fn render_background(&mut self, image: &Image)
        requires
            old(self).wf(),
            image.wf(),
        ensures
            final(self).wf(),
            final(self).dbg_bg_data == old(self).dbg_bg_data,
            final(self).dbg_pattern_data == old(self).dbg_pattern_data,
            forall|yy: int, xx: int|
                0 <= yy < 240 && 0 <= xx < 256 && bg_covered(*image, yy, xx)
                    ==> bg_pixel_drawn(*image, final(self).data@, yy, xx),
            forall|yy: int, xx: int|
                0 <= yy < 240 && 0 <= xx < 256 && !bg_covered(*image, yy, xx) ==> final(self).data@[#[trigger] pix_index(yy, xx)] == old(self).data@[pix_index(yy, xx)],
    {
        let mut i: usize = 0;
        while i < V_SPRITE_NUM
            invariant
                i <= V_SPRITE_NUM,
                self.wf(),
                image.wf(),
                self.dbg_bg_data == old(self).dbg_bg_data,
                self.dbg_pattern_data == old(self).dbg_pattern_data,
                forall|yy: int, xx: int|
                    0 <= yy < 240 && 0 <= xx < 256 && bg_covered_before(
                        *image,
                        i as int,
                        0,
                        yy,
                        xx,
                    ) ==> bg_pixel_drawn(*image, self.data@, yy, xx),
                forall|yy: int, xx: int|
                    0 <= yy < 240 && 0 <= xx < 256 && !bg_covered(*image, yy, xx)
                        ==> self.data@[#[trigger] pix_index(yy, xx)] == old(self).data@[pix_index(yy, xx)],
            decreases V_SPRITE_NUM - i,
        {
            let mut j: usize = 0;
            while j < H_SPRITE_NUM
                invariant
                    i < V_SPRITE_NUM,
                    j <= H_SPRITE_NUM,
                    self.wf(),
                    image.wf(),
                    self.dbg_bg_data == old(self).dbg_bg_data,
                    self.dbg_pattern_data == old(self).dbg_pattern_data,
                    forall|yy: int, xx: int|
                        0 <= yy < 240 && 0 <= xx < 256 && bg_covered_before(
                            *image,
                            i as int,
                            j as int,
                            yy,
                            xx,
                        ) ==> bg_pixel_drawn(*image, self.data@, yy, xx),
                    forall|yy: int, xx: int|
                        0 <= yy < 240 && 0 <= xx < 256 && !bg_covered(*image, yy, xx)
                            ==> self.data@[#[trigger] pix_index(yy, xx)] == old(self).data@[pix_index(yy, xx)],
                decreases H_SPRITE_NUM - j,
            {
                let ghost pre = self.data@;
                if image.background[i * 33 + j].is_background_enable {
                    self.render_tile(image, j as u8, i as u8);
                }
                proof {
                    let t = image.background@[i as int * 33 + j as int];
                    assert forall|yy: int, xx: int|
                        0 <= yy < 240 && 0 <= xx < 256 && bg_covered_before(
                        *image,
                        i as int,
                        j as int + 1,
                        yy,
                        xx,
                    ) implies bg_pixel_drawn(*image, self.data@, yy, xx) by {
                        if bg_tile_covers(*image, i as int, j as int, yy, xx)
                            && t.is_background_enable {
                            assert(self.data@[pix_index(yy, xx)] == tile_pixel_color(
                                *image,
                                j as int,
                                i as int,
                                yy + t.scroll_y % 8 - 8 * i,
                                xx + t.scroll_x % 8 - 8 * j,
                            ));
                        } else {
                            let (ti, tj) = choose|ti: int, tj: int|
                                (ti < i as int || (ti == i as int && tj < j as int + 1))
                                    && #[trigger] bg_tile_covers(*image, ti, tj, yy, xx);
                            if ti == i as int && tj == j as int {
                                assert(bg_tile_covers(*image, i as int, j as int, yy, xx));
                            } else {
                                assert(bg_covered_before(*image, i as int, j as int, yy, xx));
                                assert(bg_pixel_drawn(*image, pre, yy, xx));
                                let (si, sj) = choose|si: int, sj: int|
                                    #[trigger] bg_tile_covers(*image, si, sj, yy, xx)
                                        && pre[pix_index(yy, xx)] == tile_pixel_color(
                                        *image,
                                        sj,
                                        si,
                                        yy + image.background@[si * 33 + sj].scroll_y % 8
                                            - 8 * si,
                                        xx + image.background@[si * 33 + sj].scroll_x % 8
                                            - 8 * sj,
                                    );
                                if self.data@[pix_index(yy, xx)] != pre[pix_index(yy, xx)] {
                                    assert(bg_tile_covers(*image, i as int, j as int, yy, xx));
                                } else {
                                    assert(bg_tile_covers(*image, si, sj, yy, xx)
                                        && self.data@[pix_index(yy, xx)]
                                        == tile_pixel_color(
                                        *image,
                                        sj,
                                        si,
                                        yy + image.background@[si * 33 + sj].scroll_y % 8
                                            - 8 * si,
                                        xx + image.background@[si * 33 + sj].scroll_x % 8
                                            - 8 * sj,
                                    ));
                                }
                            }
                        }
                    }
                    assert forall|yy: int, xx: int|
                        0 <= yy < 240 && 0 <= xx < 256 && !bg_covered(*image, yy, xx) implies self.data@[#[trigger] pix_index(
                        yy,
                        xx,
                    )] == old(self).data@[pix_index(yy, xx)] by {
                        assert(!bg_tile_covers(*image, i as int, j as int, yy, xx));
                        assert(self.data@[pix_index(yy, xx)] == pre[pix_index(yy, xx)]);
                    }
                }
                j = j + 1;
            }
            proof {
                assert forall|yy: int, xx: int|
                    0 <= yy < 240 && 0 <= xx < 256 && bg_covered_before(
                    *image,
                    i as int + 1,
                    0,
                    yy,
                    xx,
                ) implies bg_pixel_drawn(*image, self.data@, yy, xx) by {
                    let (ti, tj) = choose|ti: int, tj: int|
                        (ti < i as int + 1 || (ti == i as int + 1 && tj < 0))
                            && #[trigger] bg_tile_covers(*image, ti, tj, yy, xx);
                    assert(ti < i as int || (ti == i as int && tj < 32));
                    assert(bg_covered_before(*image, i as int, 32, yy, xx));
                }
            }
            i = i + 1;
        }
        proof {
            assert forall|yy: int, xx: int|
                0 <= yy < 240 && 0 <= xx < 256 && bg_covered(*image, yy, xx) implies bg_pixel_drawn(
                *image,
                final(self).data@,
                yy,
                xx,
            ) by {
                let (ti, tj) = choose|ti: int, tj: int|
                    (ti < 30 || (ti == 30 && tj < 0)) && #[trigger] bg_tile_covers(
                        *image,
                        ti,
                        tj,
                        yy,
                        xx,
                    );
                assert(bg_covered_before(*image, 30, 0, yy, xx));
            }
        }
    }

    /// Stamps one tile of the four-nametable debug grid: its 64 pixels land
    /// at the tile's fixed position and show the tile's palette colours.
    #[verifier::rlimit(100)]
    pub fn render_dbg_tile(&mut self, image: &Image, tile_x: u16, tile_y: u16)
        requires
            old(self).wf(),
            image.wf(),
            tile_x < 64,
            tile_y < 60,
        ensures
            final(self).wf(),
            final(self).data == old(self).data,
            final(self).dbg_pattern_data == old(self).dbg_pattern_data,
            forall|yy: int, xx: int|
                0 <= yy - 8 * tile_y < 8 && 0 <= xx - 8 * tile_x < 8 ==> final(self).dbg_bg_data@[#[trigger] dbg_pix_index(yy, xx)] == dbg_tile_pixel_color(
                    *image,
                    tile_x as int,
                    tile_y as int,
                    yy - 8 * tile_y,
                    xx - 8 * tile_x,
                ),
            forall|yy: int, xx: int|
                0 <= yy < 480 && 0 <= xx < 512 && !(0 <= yy - 8 * tile_y < 8 && 0 <= xx - 8
                    * tile_x < 8) ==> final(self).dbg_bg_data@[#[trigger] dbg_pix_index(
                    yy,
                    xx,
                )] == old(self).dbg_bg_data@[dbg_pix_index(yy, xx)],
    {
        let idx: usize = tile_y as usize * 64 + tile_x as usize;
        let palette_id: u16 = image.dbg_bg[idx].palette_id;
        let mut j: u16 = 0;
        while j < 8
            invariant
                j <= 8,
                self.wf(),
                image.wf(),
                tile_x < 64,
                tile_y < 60,
                idx == tile_y * 64 + tile_x,
                palette_id == image.dbg_bg@[idx as int].palette_id,
                self.data == old(self).data,
                self.dbg_pattern_data == old(self).dbg_pattern_data,
                forall|yy: int, xx: int|
                    0 <= yy - 8 * tile_y < j && 0 <= xx - 8 * tile_x < 8
                        ==> self.dbg_bg_data@[#[trigger] dbg_pix_index(yy, xx)]
                        == dbg_tile_pixel_color(
                        *image,
                        tile_x as int,
                        tile_y as int,
                        yy - 8 * tile_y,
                        xx - 8 * tile_x,
                    ),
                forall|yy: int, xx: int|
                    0 <= yy < 480 && 0 <= xx < 512 && !(0 <= yy - 8 * tile_y < 8 && 0 <= xx
                        - 8 * tile_x < 8) ==> self.dbg_bg_data@[#[trigger] dbg_pix_index(
                        yy,
                        xx,
                    )] == old(self).dbg_bg_data@[dbg_pix_index(yy, xx)],
            decreases 8 - j,
        {
            let mut i: u16 = 0;
            while i < 8
                invariant
                    j < 8,
                    i <= 8,
                    self.wf(),
                    image.wf(),
                    tile_x < 64,
                    tile_y < 60,
                    idx == tile_y * 64 + tile_x,
                    palette_id == image.dbg_bg@[idx as int].palette_id,
                    self.data == old(self).data,
                    self.dbg_pattern_data == old(self).dbg_pattern_data,
                    forall|yy: int, xx: int|
                        0 <= yy - 8 * tile_y < j && 0 <= xx - 8 * tile_x < 8
                            ==> self.dbg_bg_data@[#[trigger] dbg_pix_index(yy, xx)]
                            == dbg_tile_pixel_color(
                            *image,
                            tile_x as int,
                            tile_y as int,
                            yy - 8 * tile_y,
                            xx - 8 * tile_x,
                        ),
                    forall|yy: int, xx: int|
                        0 <= yy < 480 && 0 <= xx < 512 && !(0 <= yy - 8 * tile_y < 8 && 0
                            <= xx - 8 * tile_x < 8) ==> self.dbg_bg_data@[#[trigger] dbg_pix_index(
                            yy,
                            xx,
                        )] == old(self).dbg_bg_data@[dbg_pix_index(yy, xx)],
                    forall|xx: int|
                        0 <= xx - 8 * tile_x < i ==> self.dbg_bg_data@[#[trigger] dbg_pix_index(
                            8 * tile_y + j,
                            xx,
                        )] == dbg_tile_pixel_color(
                            *image,
                            tile_x as int,
                            tile_y as int,
                            j as int,
                            xx - 8 * tile_x,
                        ),
                decreases 8 - i,
            {
                let x: usize = 8 * tile_x as usize + i as usize;
                let y: usize = 8 * tile_y as usize + j as usize;
                let v: u8 = image.dbg_bg[idx].sprite.data[j as usize * 8 + i as usize];
                let color_id: u8 = image.palette[(palette_id * 4 + v as u16) as usize] % 64;
                let c = color(color_id);
                let ghost pre = self.dbg_bg_data@;
                self.dbg_bg_data.set(y * 512 + x, c);
                proof {
                    assert(self.dbg_bg_data@ == pre.update(dbg_pix_index(y as int, x as int), c));
                    assert(self.dbg_bg_data@[dbg_pix_index(y as int, x as int)]
                        == dbg_tile_pixel_color(
                        *image,
                        tile_x as int,
                        tile_y as int,
                        j as int,
                        i as int,
                    ));
                    assert forall|yy: int, xx: int|
                        0 <= yy - 8 * tile_y < j && 0 <= xx - 8 * tile_x < 8 implies self.dbg_bg_data@[#[trigger] dbg_pix_index(
                        yy,
                        xx,
                    )] == dbg_tile_pixel_color(
                        *image,
                        tile_x as int,
                        tile_y as int,
                        yy - 8 * tile_y,
                        xx - 8 * tile_x,
                    ) by {
                        if dbg_pix_index(yy, xx) == dbg_pix_index(y as int, x as int) {
                            lemma_dbg_pix_index_injective(yy, xx, y as int, x as int);
                        }
                    }
                    assert forall|xx: int|
                        0 <= xx - 8 * tile_x < i + 1 implies self.dbg_bg_data@[#[trigger] dbg_pix_index(
                        8 * tile_y + j,
                        xx,
                    )] == dbg_tile_pixel_color(
                        *image,
                        tile_x as int,
                        tile_y as int,
                        j as int,
                        xx - 8 * tile_x,
                    ) by {
                        if dbg_pix_index(8 * tile_y + j, xx) == dbg_pix_index(
                            y as int,
                            x as int,
                        ) {
                            lemma_dbg_pix_index_injective(
                                8 * tile_y + j,
                                xx,
                                y as int,
                                x as int,
                            );
                        }
                    }
                    assert forall|yy: int, xx: int|
                        0 <= yy < 480 && 0 <= xx < 512 && !(0 <= yy - 8 * tile_y < 8 && 0
                            <= xx - 8 * tile_x < 8) implies self.dbg_bg_data@[#[trigger] dbg_pix_index(
                        yy,
                        xx,
                    )] == old(self).dbg_bg_data@[dbg_pix_index(yy, xx)] by {
                        if dbg_pix_index(yy, xx) == dbg_pix_index(y as int, x as int) {
                            lemma_dbg_pix_index_injective(yy, xx, y as int, x as int);
                        }
                    }
                }
                i = i + 1;
            }
            proof {
                assert forall|yy: int, xx: int|
                    0 <= yy - 8 * tile_y < j + 1 && 0 <= xx - 8 * tile_x < 8 implies self.dbg_bg_data@[#[trigger] dbg_pix_index(
                    yy,
                    xx,
                )] == dbg_tile_pixel_color(
                    *image,
                    tile_x as int,
                    tile_y as int,
                    yy - 8 * tile_y,
                    xx - 8 * tile_x,
                ) by {
                    if yy - 8 * tile_y == j {
                        assert(yy == 8 * tile_y + j);
                        assert(self.dbg_bg_data@[dbg_pix_index(8 * tile_y + j, xx)]
                            == dbg_tile_pixel_color(
                            *image,
                            tile_x as int,
                            tile_y as int,
                            j as int,
                            xx - 8 * tile_x,
                        ));
                    }
                }
            }
            j = j + 1;
        }
    }

    /// Draws every enabled tile of the four-nametable debug grid: each
    /// pixel of an enabled tile shows that tile's colour; pixels of
    /// disabled tiles are untouched.
    pub fn render_dbg_background(&mut self, image: &Image)
        requires
            old(self).wf(),
            image.wf(),
        ensures
            final(self).wf(),
            final(self).data == old(self).data,
            final(self).dbg_pattern_data == old(self).dbg_pattern_data,
            forall|yy: int, xx: int|
                0 <= yy < 480 && 0 <= xx < 512 && image.dbg_bg@[(yy / 8) * 64 + xx
                    / 8].is_background_enable ==> final(self).dbg_bg_data@[#[trigger] dbg_pix_index(
                    yy,
                    xx,
                )] == dbg_tile_pixel_color(*image, xx / 8, yy / 8, yy % 8, xx % 8),
            forall|yy: int, xx: int|
                0 <= yy < 480 && 0 <= xx < 512 && !image.dbg_bg@[(yy / 8) * 64 + xx
                    / 8].is_background_enable ==> final(self).dbg_bg_data@[#[trigger] dbg_pix_index(
                    yy,
                    xx,
                )] == old(self).dbg_bg_data@[dbg_pix_index(yy, xx)],
    {
        let mut i: usize = 0;
        while i < 2 * V_SPRITE_NUM
            invariant
                i <= 2 * V_SPRITE_NUM,
                self.wf(),
                image.wf(),
                self.data == old(self).data,
                self.dbg_pattern_data == old(self).dbg_pattern_data,
                forall|yy: int, xx: int|
                    0 <= yy < 480 && 0 <= xx < 512 && yy / 8 < i && image.dbg_bg@[(yy / 8)
                        * 64 + xx / 8].is_background_enable ==> self.dbg_bg_data@[#[trigger] dbg_pix_index(
                        yy,
                        xx,
                    )] == dbg_tile_pixel_color(*image, xx / 8, yy / 8, yy % 8, xx % 8),
                forall|yy: int, xx: int|
                    0 <= yy < 480 && 0 <= xx < 512 && !(yy / 8 < i && image.dbg_bg@[(yy / 8)
                        * 64 + xx / 8].is_background_enable) ==> self.dbg_bg_data@[#[trigger] dbg_pix_index(
                        yy,
                        xx,
                    )] == old(self).dbg_bg_data@[dbg_pix_index(yy, xx)],
            decreases 2 * V_SPRITE_NUM - i,
        {
            let mut j: usize = 0;
            while j < 2 * H_SPRITE_NUM
                invariant
                    i < 2 * V_SPRITE_NUM,
                    j <= 2 * H_SPRITE_NUM,
                    self.wf(),
                    image.wf(),
                    self.data == old(self).data,
                    self.dbg_pattern_data == old(self).dbg_pattern_data,
                    forall|yy: int, xx: int|
                        0 <= yy < 480 && 0 <= xx < 512 && (yy / 8 < i || (yy / 8 == i && xx
                            / 8 < j)) && image.dbg_bg@[(yy / 8) * 64 + xx
                            / 8].is_background_enable ==> self.dbg_bg_data@[#[trigger] dbg_pix_index(
                            yy,
                            xx,
                        )] == dbg_tile_pixel_color(*image, xx / 8, yy / 8, yy % 8, xx % 8),
                    forall|yy: int, xx: int|
                        0 <= yy < 480 && 0 <= xx < 512 && !((yy / 8 < i || (yy / 8 == i
                            && xx / 8 < j)) && image.dbg_bg@[(yy / 8) * 64 + xx
                            / 8].is_background_enable) ==> self.dbg_bg_data@[#[trigger] dbg_pix_index(
                            yy,
                            xx,
                        )] == old(self).dbg_bg_data@[dbg_pix_index(yy, xx)],
                decreases 2 * H_SPRITE_NUM - j,
            {
                let ghost pre = self.dbg_bg_data@;
                if image.dbg_bg[i * 64 + j].is_background_enable {
                    self.render_dbg_tile(image, j as u16, i as u16);
                }
                proof {
                    assert forall|yy: int, xx: int|
                        0 <= yy < 480 && 0 <= xx < 512 && (yy / 8 < i || (yy / 8 == i && xx
                            / 8 < j + 1)) && image.dbg_bg@[(yy / 8) * 64 + xx
                            / 8].is_background_enable implies self.dbg_bg_data@[#[trigger] dbg_pix_index(
                        yy,
                        xx,
                    )] == dbg_tile_pixel_color(*image, xx / 8, yy / 8, yy % 8, xx % 8) by {
                        if yy / 8 == i && xx / 8 == j {
                            assert(0 <= yy - 8 * (i as int) < 8 && 0 <= xx - 8 * (j as int)
                                < 8);
                            assert(yy % 8 == yy - 8 * (i as int) && xx % 8 == xx - 8 * (
                            j as int));
                        } else {
                            assert(self.dbg_bg_data@[dbg_pix_index(yy, xx)] == pre[dbg_pix_index(
                                yy,
                                xx,
                            )]);
                        }
                    }
                    assert forall|yy: int, xx: int|
                        0 <= yy < 480 && 0 <= xx < 512 && !((yy / 8 < i || (yy / 8 == i
                            && xx / 8 < j + 1)) && image.dbg_bg@[(yy / 8) * 64 + xx
                            / 8].is_background_enable) implies self.dbg_bg_data@[#[trigger] dbg_pix_index(
                        yy,
                        xx,
                    )] == old(self).dbg_bg_data@[dbg_pix_index(yy, xx)] by {
                        assert(!(yy / 8 == i && xx / 8 == j
                            && image.dbg_bg@[(yy / 8) * 64 + xx / 8].is_background_enable));
                        assert(self.dbg_bg_data@[dbg_pix_index(yy, xx)] == pre[dbg_pix_index(
                            yy,
                            xx,
                        )]);
                    }
                }
                j = j + 1;
            }
            i = i + 1;
        }
    }

    /// Draws the pattern-table debug view from its sprite list through the
    /// sprite half of the palette: every pixel either keeps its value or
    /// shows an entry's pixel that lands there, and the last entry's pixels
    /// are shown exactly.
    #[verifier::rlimit(100)]
    pub fn render_pattern(&mut self, image: &Image)
        requires
            old(self).wf(),
            image.wf(),
        ensures
            final(self).wf(),
            final(self).data == old(self).data,
            final(self).dbg_bg_data == old(self).dbg_bg_data,
            forall|p: int|
                0 <= p < final(self).dbg_pattern_data@.len() ==> pattern_pixel_explains(
                    *image,
                    old(self).dbg_pattern_data@,
                    final(self).dbg_pattern_data@,
                    p,
                ),
            image.dbg_pattern@.len() > 0 ==> ({
                let last = image.dbg_pattern@.len() - 1;
                forall|j: int, i: int|
                    #![trigger pattern_pixel_at(*image, last, j, i)]
                    pattern_pixel_at(*image, last, j, i) ==> final(self).dbg_pattern_data@[pix_index(
                        pattern_draw_y(image.dbg_pattern@[last], j),
                        pattern_draw_x(image.dbg_pattern@[last], i),
                    )] == pattern_view_color(*image, last, j, i)
            }),
    {
        let n = image.dbg_pattern.len();
        let mut s: usize = 0;
        while s < n
            invariant
                s <= n,
                n == image.dbg_pattern@.len(),
                self.wf(),
                image.wf(),
                self.data == old(self).data,
                self.dbg_bg_data == old(self).dbg_bg_data,
                forall|p: int|
                    0 <= p < self.dbg_pattern_data@.len() ==> pattern_pixel_explains(
                        *image,
                        old(self).dbg_pattern_data@,
                        self.dbg_pattern_data@,
                        p,
                    ),
                s > 0 ==> (forall|j: int, i: int|
                    #![trigger pattern_pixel_at(*image, s - 1, j, i)]
                    pattern_pixel_at(*image, s - 1, j, i) ==> self.dbg_pattern_data@[pix_index(
                        pattern_draw_y(image.dbg_pattern@[s - 1], j),
                        pattern_draw_x(image.dbg_pattern@[s - 1], i),
                    )] == pattern_view_color(*image, s - 1, j, i)),
            decreases n - s,
        {
            proof {
                assert(image.dbg_pattern@[s as int].wf());
            }
            let h: usize = image.dbg_pattern[s].data.len() / 8;
            let mut j: usize = 0;
            while j < h
                invariant
                    s < n,
                    n == image.dbg_pattern@.len(),
                    j <= h,
                    h == sprite_height(image.dbg_pattern@[s as int]),
                    image.dbg_pattern@[s as int].wf(),
                    self.wf(),
                    image.wf(),
                    self.data == old(self).data,
                    self.dbg_bg_data == old(self).dbg_bg_data,
                    forall|p: int|
                        0 <= p < self.dbg_pattern_data@.len() ==> pattern_pixel_explains(
                            *image,
                            old(self).dbg_pattern_data@,
                            self.dbg_pattern_data@,
                            p,
                        ),
                    forall|j2: int, i2: int|
                        #![trigger pattern_pixel_at(*image, s as int, j2, i2)]
                        j2 < j && pattern_pixel_at(*image, s as int, j2, i2)
                            ==> self.dbg_pattern_data@[pix_index(
                            pattern_draw_y(image.dbg_pattern@[s as int], j2),
                            pattern_draw_x(image.dbg_pattern@[s as int], i2),
                        )] == pattern_view_color(*image, s as int, j2, i2),
                decreases h - j,
            {
                let mut i: usize = 0;
                while i < 8
                    invariant
                        s < n,
                        n == image.dbg_pattern@.len(),
                        j < h,
                        i <= 8,
                        h == sprite_height(image.dbg_pattern@[s as int]),
                        image.dbg_pattern@[s as int].wf(),
                        self.wf(),
                        image.wf(),
                        self.data == old(self).data,
                        self.dbg_bg_data == old(self).dbg_bg_data,
                        forall|p: int|
                            0 <= p < self.dbg_pattern_data@.len() ==> pattern_pixel_explains(
                                *image,
                                old(self).dbg_pattern_data@,
                                self.dbg_pattern_data@,
                                p,
                            ),
                        forall|j2: int, i2: int|
                            #![trigger pattern_pixel_at(*image, s as int, j2, i2)]
                            (j2 < j || (j2 == j && i2 < i)) && pattern_pixel_at(
                                *image,
                                s as int,
                                j2,
                                i2,
                            ) ==> self.dbg_pattern_data@[pix_index(
                                pattern_draw_y(image.dbg_pattern@[s as int], j2),
                                pattern_draw_x(image.dbg_pattern@[s as int], i2),
                            )] == pattern_view_color(*image, s as int, j2, i2),
                    decreases 8 - i,
                {
                    let sp = &image.dbg_pattern[s];
                    let y: usize = (sp.y as usize + j) % V_SIZE;
                    let x: usize = (sp.x as usize + i) % H_SIZE;
                    let v: u8 = sp.data[j * 8 + i];
                    let color_id: u8 = image.palette[(v + 0x10) as usize] % 64;
                    let c = color(color_id);
                    let ghost pre = self.dbg_pattern_data@;
                    self.dbg_pattern_data.set(y * 256 + x, c);
                    proof {
                        assert(self.dbg_pattern_data@ == pre.update(
                            pix_index(y as int, x as int),
                            c,
                        ));
                        assert(y == pattern_draw_y(image.dbg_pattern@[s as int], j as int));
                        assert(x == pattern_draw_x(image.dbg_pattern@[s as int], i as int));
                        assert(c == pattern_view_color(*image, s as int, j as int, i as int));
                        assert(pattern_pixel_at(*image, s as int, j as int, i as int));
                        assert forall|p: int|
                            0 <= p < self.dbg_pattern_data@.len() implies pattern_pixel_explains(
                            *image,
                            old(self).dbg_pattern_data@,
                            self.dbg_pattern_data@,
                            p,
                        ) by {
                            if p == pix_index(y as int, x as int) {
                                assert(pattern_pixel_at(*image, s as int, j as int, i as int)
                                    && p == pix_index(
                                    pattern_draw_y(image.dbg_pattern@[s as int], j as int),
                                    pattern_draw_x(image.dbg_pattern@[s as int], i as int),
                                ) && self.dbg_pattern_data@[p] == pattern_view_color(
                                    *image,
                                    s as int,
                                    j as int,
                                    i as int,
                                ));
                            } else {
                                assert(self.dbg_pattern_data@[p] == pre[p]);
                                assert(pattern_pixel_explains(
                                    *image,
                                    old(self).dbg_pattern_data@,
                                    pre,
                                    p,
                                ));
                                if pre[p] != old(self).dbg_pattern_data@[p] {
                                    let (s2, j2, i2) = choose|s2: int, j2: int, i2: int|
                                        #[trigger] pattern_pixel_at(*image, s2, j2, i2) && p
                                            == pix_index(
                                            pattern_draw_y(image.dbg_pattern@[s2], j2),
                                            pattern_draw_x(image.dbg_pattern@[s2], i2),
                                        ) && pre[p] == pattern_view_color(*image, s2, j2, i2);
                                    assert(pattern_pixel_at(*image, s2, j2, i2) && p
                                        == pix_index(
                                        pattern_draw_y(image.dbg_pattern@[s2], j2),
                                        pattern_draw_x(image.dbg_pattern@[s2], i2),
                                    ) && self.dbg_pattern_data@[p] == pattern_view_color(
                                        *image,
                                        s2,
                                        j2,
                                        i2,
                                    ));
                                }
                            }
                        }
                        assert forall|j2: int, i2: int|
                            (j2 < j || (j2 == j && i2 < i + 1)) && pattern_pixel_at(
                                *image,
                                s as int,
                                j2,
                                i2,
                            ) implies self.dbg_pattern_data@[pix_index(
                            pattern_draw_y(image.dbg_pattern@[s as int], j2),
                            pattern_draw_x(image.dbg_pattern@[s as int], i2),
                        )] == pattern_view_color(*image, s as int, j2, i2) by {
                            let sp2 = image.dbg_pattern@[s as int];
                            let p2 = pix_index(
                                pattern_draw_y(sp2, j2),
                                pattern_draw_x(sp2, i2),
                            );
                            if j2 == j && i2 == i {
                            } else if p2 == pix_index(y as int, x as int) {
                                lemma_pix_index_injective(
                                    pattern_draw_y(sp2, j2),
                                    pattern_draw_x(sp2, i2),
                                    y as int,
                                    x as int,
                                );
                                lemma_mod_shift_injective(240, sp2.y as int, j2, j as int);
                                lemma_mod_shift_injective(256, sp2.x as int, i2, i as int);
                                assert(false);
                            } else {
                                assert(self.dbg_pattern_data@[p2] == pre[p2]);
                            }
                        }
                    }
                    i = i + 1;
                }
                j = j + 1;
            }
            proof {
                assert forall|j2: int, i2: int|
                    #![trigger pattern_pixel_at(*image, s as int, j2, i2)]
                    pattern_pixel_at(*image, s as int, j2, i2) implies self.dbg_pattern_data@[pix_index(
                    pattern_draw_y(image.dbg_pattern@[s as int], j2),
                    pattern_draw_x(image.dbg_pattern@[s as int], i2),
                )] == pattern_view_color(*image, s as int, j2, i2) by {
                    assert(j2 < h && (j2 < j || (j2 == j && i2 < 8)));
                }
            }
            s = s + 1;
        }
    }

    /// Draws the sprite list over the background: flip bits reverse the
    /// pixel sampling, transparent pixels are skipped, and a sprite marked
    /// behind the background yields to opaque background pixels. Every
    /// pixel either keeps its value or shows a drawn sprite pixel that
    /// lands there, and the drawn pixels of the list's last sprite are
    /// shown exactly.
    #[verifier::rlimit(100)]
    pub fn render_sprite(&mut self, image: &Image)
        requires
            old(self).wf(),
            image.wf(),
        ensures
            final(self).wf(),
            final(self).dbg_bg_data == old(self).dbg_bg_data,
            final(self).dbg_pattern_data == old(self).dbg_pattern_data,
            forall|p: int|
                0 <= p < final(self).data@.len() ==> sprite_pixel_explains(
                    *image,
                    old(self).data@,
                    final(self).data@,
                    p,
                ),
            image.sprite@.len() > 0 ==> ({
                let last = image.sprite@.len() - 1;
                forall|j: int, i: int|
                    #![trigger sprite_pixel_visible(*image, last, j, i)]
                    sprite_pixel_visible(*image, last, j, i) ==> final(self).data@[pix_index(
                        sprite_draw_y(image.sprite@[last], j),
                        sprite_draw_x(image.sprite@[last], i),
                    )] == sprite_pixel_color(*image, last, j, i)
            }),
    {
        let n = image.sprite.len();
        let mut s: usize = 0;
        while s < n
            invariant
                s <= n,
                n == image.sprite@.len(),
                self.wf(),
                image.wf(),
                self.dbg_bg_data == old(self).dbg_bg_data,
                self.dbg_pattern_data == old(self).dbg_pattern_data,
                forall|p: int|
                    0 <= p < self.data@.len() ==> sprite_pixel_explains(
                        *image,
                        old(self).data@,
                        self.data@,
                        p,
                    ),
                s > 0 ==> (forall|j: int, i: int|
                    #![trigger sprite_pixel_visible(*image, s - 1, j, i)]
                    sprite_pixel_visible(*image, s - 1, j, i) ==> self.data@[pix_index(
                        sprite_draw_y(image.sprite@[s - 1], j),
                        sprite_draw_x(image.sprite@[s - 1], i),
                    )] == sprite_pixel_color(*image, s - 1, j, i)),
            decreases n - s,
        {
            proof {
                assert(image.sprite@[s as int].wf());
            }
            let h: usize = image.sprite[s].data.len() / 8;
            let mut j: usize = 0;
            while j < h
                invariant
                    s < n,
                    n == image.sprite@.len(),
                    j <= h,
                    h == sprite_height(image.sprite@[s as int]),
                    image.sprite@[s as int].wf(),
                    self.wf(),
                    image.wf(),
                    self.dbg_bg_data == old(self).dbg_bg_data,
                    self.dbg_pattern_data == old(self).dbg_pattern_data,
                    forall|p: int|
                        0 <= p < self.data@.len() ==> sprite_pixel_explains(
                            *image,
                            old(self).data@,
                            self.data@,
                            p,
                        ),
                    forall|j2: int, i2: int|
                        #![trigger sprite_pixel_visible(*image, s as int, j2, i2)]
                        j2 < j && sprite_pixel_visible(*image, s as int, j2, i2)
                            ==> self.data@[pix_index(
                            sprite_draw_y(image.sprite@[s as int], j2),
                            sprite_draw_x(image.sprite@[s as int], i2),
                        )] == sprite_pixel_color(*image, s as int, j2, i2),
                decreases h - j,
            {
                let mut i: usize = 0;
                while i < 8
                    invariant
                        s < n,
                        n == image.sprite@.len(),
                        j < h,
                        i <= 8,
                        h == sprite_height(image.sprite@[s as int]),
                        image.sprite@[s as int].wf(),
                        self.wf(),
                        image.wf(),
                        self.dbg_bg_data == old(self).dbg_bg_data,
                        self.dbg_pattern_data == old(self).dbg_pattern_data,
                        forall|p: int|
                            0 <= p < self.data@.len() ==> sprite_pixel_explains(
                                *image,
                                old(self).data@,
                                self.data@,
                                p,
                            ),
                        forall|j2: int, i2: int|
                            #![trigger sprite_pixel_visible(*image, s as int, j2, i2)]
                            (j2 < j || (j2 == j && i2 < i)) && sprite_pixel_visible(
                                *image,
                                s as int,
                                j2,
                                i2,
                            ) ==> self.data@[pix_index(
                                sprite_draw_y(image.sprite@[s as int], j2),
                                sprite_draw_x(image.sprite@[s as int], i2),
                            )] == sprite_pixel_color(*image, s as int, j2, i2),
                    decreases 8 - i,
                {
                    let sp = &image.sprite[s];
                    proof {
                        let at = image.sprite@[s as int].attr;
                        assert(at & 0x03u8 <= 3) by (bit_vector);
                    }
                    let is_vertical_reverse = sp.attr & 0x80 != 0;
                    let is_horizontal_reverse = sp.attr & 0x40 != 0;
                    let is_low_priority = sp.attr & 0x20 != 0;
                    let palette_id: u16 = (sp.attr & 0x03) as u16;
                    let row: usize = if is_vertical_reverse {
                        h - 1 - j
                    } else {
                        j
                    };
                    let col: usize = if is_horizontal_reverse {
                        7 - i
                    } else {
                        i
                    };
                    let y: usize = (sp.y as usize + row) % 256;
                    let x: usize = (sp.x as usize + col) % 256;
                    let v: u8 = sp.data[j * 8 + i];
                    let hide = is_low_priority && self.should_pixel_hide(
                        image,
                        x as u8,
                        y as u8,
                    );
                    proof {
                        assert(y == sprite_draw_y(image.sprite@[s as int], j as int));
                        assert(x == sprite_draw_x(image.sprite@[s as int], i as int));
                        assert(hide == (image.sprite@[s as int].attr & 0x20u8 != 0
                            && bg_pixel_opaque(*image, x as int, y as int)));
                    }
                    if v > 0 && y < V_SIZE && !hide {
                        proof {
                            assert(sprite_pixel_visible(*image, s as int, j as int, i as int));
                        }
                        let color_id: u8 = image.palette[(palette_id * 4 + v as u16 + 0x10)
                            as usize] % 64;
                        let c = color(color_id);
                        let ghost pre = self.data@;
                        self.data.set(y * 256 + x, c);
                        proof {
                            assert(self.data@ == pre.update(pix_index(y as int, x as int), c));
                            assert(c == sprite_pixel_color(*image, s as int, j as int, i as int));
                            assert forall|p: int|
                                0 <= p < self.data@.len() implies sprite_pixel_explains(
                                *image,
                                old(self).data@,
                                self.data@,
                                p,
                            ) by {
                                if p == pix_index(y as int, x as int) {
                                    assert(sprite_pixel_visible(
                                        *image,
                                        s as int,
                                        j as int,
                                        i as int,
                                    ) && p == pix_index(
                                        sprite_draw_y(image.sprite@[s as int], j as int),
                                        sprite_draw_x(image.sprite@[s as int], i as int),
                                    ) && self.data@[p] == sprite_pixel_color(
                                        *image,
                                        s as int,
                                        j as int,
                                        i as int,
                                    ));
                                } else {
                                    assert(self.data@[p] == pre[p]);
                                    assert(sprite_pixel_explains(
                                        *image,
                                        old(self).data@,
                                        pre,
                                        p,
                                    ));
                                    if pre[p] != old(self).data@[p] {
                                        let (s2, j2, i2) = choose|s2: int, j2: int, i2: int|
                                            #[trigger] sprite_pixel_visible(
                                                *image,
                                                s2,
                                                j2,
                                                i2,
                                            ) && p == pix_index(
                                                sprite_draw_y(image.sprite@[s2], j2),
                                                sprite_draw_x(image.sprite@[s2], i2),
                                            ) && pre[p] == sprite_pixel_color(
                                                *image,
                                                s2,
                                                j2,
                                                i2,
                                            );
                                        assert(sprite_pixel_visible(*image, s2, j2, i2)
                                            && p == pix_index(
                                            sprite_draw_y(image.sprite@[s2], j2),
                                            sprite_draw_x(image.sprite@[s2], i2),
                                        ) && self.data@[p] == sprite_pixel_color(
                                            *image,
                                            s2,
                                            j2,
                                            i2,
                                        ));
                                    }
                                }
                            }
                            assert forall|j2: int, i2: int|
                                (j2 < j || (j2 == j && i2 < i + 1)) && sprite_pixel_visible(
                                    *image,
                                    s as int,
                                    j2,
                                    i2,
                                ) implies self.data@[pix_index(
                                sprite_draw_y(image.sprite@[s as int], j2),
                                sprite_draw_x(image.sprite@[s as int], i2),
                            )] == sprite_pixel_color(*image, s as int, j2, i2) by {
                                let sp2 = image.sprite@[s as int];
                                let p2 = pix_index(
                                    sprite_draw_y(sp2, j2),
                                    sprite_draw_x(sp2, i2),
                                );
                                if j2 == j && i2 == i {
                                } else if p2 == pix_index(y as int, x as int) {
                                    lemma_pix_index_injective(
                                        sprite_draw_y(sp2, j2),
                                        sprite_draw_x(sp2, i2),
                                        y as int,
                                        x as int,
                                    );
                                    if sp2.attr & 0x80u8 != 0 {
                                        lemma_mod_shift_injective(
                                            256,
                                            sp2.y as int,
                                            sprite_height(sp2) - 1 - j2,
                                            sprite_height(sp2) - 1 - j,
                                        );
                                    } else {
                                        lemma_mod_shift_injective(
                                            256,
                                            sp2.y as int,
                                            j2,
                                            j as int,
                                        );
                                    }
                                    if sp2.attr & 0x40u8 != 0 {
                                        lemma_mod_shift_injective(
                                            256,
                                            sp2.x as int,
                                            7 - i2,
                                            7 - i,
                                        );
                                    } else {
                                        lemma_mod_shift_injective(
                                            256,
                                            sp2.x as int,
                                            i2,
                                            i as int,
                                        );
                                    }
                                    assert(false);
                                } else {
                                    assert(self.data@[p2] == pre[p2]);
                                }
                            }
                        }
                    } else {
                        proof {
                            assert(!sprite_pixel_visible(*image, s as int, j as int, i as int));
                        }
                    }
                    i = i + 1;
                }
                j = j + 1;
            }
            proof {
                assert forall|j2: int, i2: int|
                    #![trigger sprite_pixel_visible(*image, s as int, j2, i2)]
                    sprite_pixel_visible(*image, s as int, j2, i2) implies self.data@[pix_index(
                    sprite_draw_y(image.sprite@[s as int], j2),
                    sprite_draw_x(image.sprite@[s as int], i2),
                )] == sprite_pixel_color(*image, s as int, j2, i2) by {
                    assert(j2 < h && (j2 < j || (j2 == j && i2 < 8)));
                }
            }
            s = s + 1;
        }
    }

    /// One full frame: the background pass, the four-nametable debug view,
    /// sprites over the background, and the pattern-table debug view. In
    /// the main view every pixel shows a covering enabled background tile's
    /// colour, or a drawn sprite pixel, or — where nothing covers it — its
    /// old value; the last sprite's drawn pixels are shown exactly. The
    /// debug views carry their passes' contracts unchanged.
    pub fn render(&mut self, image: &Image)
        requires
            old(self).wf(),
            image.wf(),
        ensures
            final(self).wf(),
            forall|yy: int, xx: int|
                0 <= yy < 240 && 0 <= xx < 256 ==> ({
                    ||| (bg_covered(*image, yy, xx) && bg_pixel_drawn(
                        *image,
                        final(self).data@,
                        yy,
                        xx,
                    ))
                    ||| (!bg_covered(*image, yy, xx) && final(self).data@[#[trigger] pix_index(
                        yy,
                        xx,
                    )] == old(self).data@[pix_index(yy, xx)])
                    ||| sprite_drawn_at(*image, final(self).data@, pix_index(yy, xx))
                }),
            image.sprite@.len() > 0 ==> ({
                let last = image.sprite@.len() - 1;
                forall|j: int, i: int|
                    #![trigger sprite_pixel_visible(*image, last, j, i)]
                    sprite_pixel_visible(*image, last, j, i) ==> final(self).data@[pix_index(
                        sprite_draw_y(image.sprite@[last], j),
                        sprite_draw_x(image.sprite@[last], i),
                    )] == sprite_pixel_color(*image, last, j, i)
            }),
            forall|yy: int, xx: int|
                0 <= yy < 480 && 0 <= xx < 512 && image.dbg_bg@[(yy / 8) * 64 + xx
                    / 8].is_background_enable ==> final(self).dbg_bg_data@[#[trigger] dbg_pix_index(
                    yy,
                    xx,
                )] == dbg_tile_pixel_color(*image, xx / 8, yy / 8, yy % 8, xx % 8),
            forall|yy: int, xx: int|
                0 <= yy < 480 && 0 <= xx < 512 && !image.dbg_bg@[(yy / 8) * 64 + xx
                    / 8].is_background_enable ==> final(self).dbg_bg_data@[#[trigger] dbg_pix_index(
                    yy,
                    xx,
                )] == old(self).dbg_bg_data@[dbg_pix_index(yy, xx)],
            forall|p: int|
                0 <= p < final(self).dbg_pattern_data@.len() ==> pattern_pixel_explains(
                    *image,
                    old(self).dbg_pattern_data@,
                    final(self).dbg_pattern_data@,
                    p,
                ),
            image.dbg_pattern@.len() > 0 ==> ({
                let last = image.dbg_pattern@.len() - 1;
                forall|j: int, i: int|
                    #![trigger pattern_pixel_at(*image, last, j, i)]
                    pattern_pixel_at(*image, last, j, i) ==> final(self).dbg_pattern_data@[pix_index(
                        pattern_draw_y(image.dbg_pattern@[last], j),
                        pattern_draw_x(image.dbg_pattern@[last], i),
                    )] == pattern_view_color(*image, last, j, i)
            }),
    {
        self.render_background(image);
        let ghost mid = self.data@;
        self.render_dbg_background(image);
        self.render_sprite(image);
        proof {
            assert forall|yy: int, xx: int| 0 <= yy < 240 && 0 <= xx < 256 implies ({
                ||| (bg_covered(*image, yy, xx) && bg_pixel_drawn(*image, self.data@, yy, xx))
                ||| (!bg_covered(*image, yy, xx) && self.data@[#[trigger] pix_index(yy, xx)]
                    == old(self).data@[pix_index(yy, xx)])
                ||| sprite_drawn_at(*image, self.data@, pix_index(yy, xx))
            }) by {
                let p = pix_index(yy, xx);
                assert(0 <= p < self.data@.len()) by (nonlinear_arith)
                    requires
                        0 <= yy < 240,
                        0 <= xx < 256,
                        p == yy * 256 + xx,
                        self.data@.len() == 61440,
                ;
                assert(sprite_pixel_explains(*image, mid, self.data@, p));
                if !sprite_drawn_at(*image, self.data@, p) {
                    assert(self.data@[p] == mid[p]);
                    if bg_covered(*image, yy, xx) {
                        assert(bg_pixel_drawn(*image, mid, yy, xx));
                        let (ti, tj) = choose|ti: int, tj: int|
                            #[trigger] bg_tile_covers(*image, ti, tj, yy, xx) && mid[pix_index(
                                yy,
                                xx,
                            )] == tile_pixel_color(
                                *image,
                                tj,
                                ti,
                                yy + image.background@[ti * 33 + tj].scroll_y % 8 - 8 * ti,
                                xx + image.background@[ti * 33 + tj].scroll_x % 8 - 8 * tj,
                            );
                        assert(bg_tile_covers(*image, ti, tj, yy, xx) && self.data@[pix_index(
                            yy,
                            xx,
                        )] == tile_pixel_color(
                            *image,
                            tj,
                            ti,
                            yy + image.background@[ti * 33 + tj].scroll_y % 8 - 8 * ti,
                            xx + image.background@[ti * 33 + tj].scroll_x % 8 - 8 * tj,
                        ));
                    }
                }
            }
        }
        self.render_pattern(image);
    }
}

} // verus!
