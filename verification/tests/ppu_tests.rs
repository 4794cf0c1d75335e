//! PPU tests: register semantics, palette and nametable mirroring, timing,
//! sprite-zero hit, and the frame image.

use rustness::cassette::Cassette;
use rustness::interrupts::Interrupts;
use rustness::ppu::{Image, Palette, Ppu};

fn chr_ram_cassette() -> Cassette {
    let mut bytes = vec![0x4Eu8, 0x45, 0x53, 0x1A, 1, 0, 0, 0];
    bytes.resize(16, 0);
    bytes.extend_from_slice(&vec![0u8; 0x4000]);
    Cassette::from_ines(&bytes).expect("valid rom")
}

fn fresh_ppu() -> (Ppu, Image, Interrupts) {
    let cas = chr_ram_cassette();
    (Ppu::new(&cas), Image::new(), Interrupts::new())
}

#[test]
fn status_read_clears_vblank_and_write_toggle() {
    let (mut ppu, _, _) = fresh_ppu();
    ppu.sreg = 0xE0;
    ppu.write_toggle = true;
    let status = ppu.read(2);
    assert_eq!(status, 0xE0);
    assert_eq!(ppu.sreg & 0x80, 0);
    assert_eq!(ppu.sreg & 0x40, 0x40);
    assert!(!ppu.write_toggle);
}

#[test]
fn scroll_writes_are_x_then_y_guarded_by_the_shared_toggle() {
    let (mut ppu, _, _) = fresh_ppu();
    ppu.write(5, 0x21);
    ppu.write(5, 0x42);
    assert_eq!(ppu.scroll_x, 0x21);
    assert_eq!(ppu.scroll_y, 0x42);
    // a status read resets the toggle mid-pair
    ppu.write(5, 0x11);
    ppu.read(2);
    ppu.write(5, 0x33);
    assert_eq!(ppu.scroll_x, 0x33);
    assert_eq!(ppu.scroll_y, 0x42);
}

#[test]
fn palette_writes_land_in_their_mirror_targets() {
    let mut palette = Palette::new();
    palette.write(0x10, 0x0A);
    palette.write(0x14, 0x0B);
    palette.write(0x18, 0x0C);
    palette.write(0x1C, 0x0D);
    assert_eq!(palette.ram.data[0x00], 0x0A);
    assert_eq!(palette.ram.data[0x04], 0x0B);
    assert_eq!(palette.ram.data[0x08], 0x0C);
    assert_eq!(palette.ram.data[0x0C], 0x0D);
    assert_eq!(palette.get_palette_addr(0x34), 0x04);
    assert_eq!(palette.get_palette_addr(0x30), 0x00);
}

#[test]
fn palette_mirror_via_address_and_data_registers() {
    let (mut ppu, _, _) = fresh_ppu();
    ppu.write(6, 0x3F);
    ppu.write(6, 0x10);
    ppu.write(7, 0x21);
    ppu.write(6, 0x3F);
    ppu.write(6, 0x00);
    let v = ppu.read(7);
    assert_eq!(v, 0x21);
}

#[test]
fn data_register_two_read_dance_for_pattern_memory() {
    let (mut ppu, _, _) = fresh_ppu();
    ppu.write(6, 0x00);
    ppu.write(6, 0x10);
    ppu.write(7, 0xAB);
    ppu.write(6, 0x00);
    ppu.write(6, 0x10);
    let first = ppu.read(7);
    let second = ppu.read(7);
    assert_eq!(first, 0x00);
    assert_eq!(second, 0xAB);
}

#[test]
fn nametable_mirroring_maps_the_four_tables() {
    let (mut ppu, _, _) = fresh_ppu();
    ppu.is_horizontal_mirror = true;
    // horizontal: {A, A, B, B}
    assert_eq!(ppu.get_vram_addr(0x0123), 0x0123);
    assert_eq!(ppu.get_vram_addr(0x0523), 0x0123);
    assert_eq!(ppu.get_vram_addr(0x0923), 0x0523);
    assert_eq!(ppu.get_vram_addr(0x0D23), 0x0523);
    ppu.is_horizontal_mirror = false;
    // vertical: {A, B, A, B}
    assert_eq!(ppu.get_vram_addr(0x0123), 0x0123);
    assert_eq!(ppu.get_vram_addr(0x0523), 0x0523);
    assert_eq!(ppu.get_vram_addr(0x0923), 0x0123);
    assert_eq!(ppu.get_vram_addr(0x0D23), 0x0523);
}

#[test]
fn nametable_write_through_mirror_is_read_back() {
    let (mut ppu, _, _) = fresh_ppu();
    ppu.is_horizontal_mirror = false;
    // write 0x55 at 0x2807 (vertical: same cell as 0x2007)
    ppu.write(6, 0x28);
    ppu.write(6, 0x07);
    ppu.write(7, 0x55);
    ppu.write(6, 0x20);
    ppu.write(6, 0x07);
    let _ = ppu.read(7);
    let v = ppu.read(7);
    assert_eq!(v, 0x55);
}

#[test]
fn one_frame_after_29781_cpu_cycles() {
    let (mut ppu, mut image, mut itr) = fresh_ppu();
    let mut frames = 0;
    for _ in 0..9927 {
        if ppu.run(3, &mut image, &mut itr) {
            frames += 1;
        }
    }
    // 29,781 CPU cycles are 89,343 dots: one full frame and one dot over
    assert_eq!(frames, 1);
    assert_eq!(ppu.line, 0);
    assert_eq!(ppu.cycle, 1);
}

#[test]
fn vblank_is_entered_at_line_241_and_nmi_follows_enable() {
    let (mut ppu, mut image, mut itr) = fresh_ppu();
    ppu.write(0, 0x80); // enable NMI on VBlank
    let mut vblank_seen_at = None;
    for _ in 0..20000 {
        ppu.run(100, &mut image, &mut itr);
        if vblank_seen_at.is_none() && ppu.sreg & 0x80 != 0 {
            vblank_seen_at = Some(ppu.line);
            break;
        }
    }
    assert_eq!(vblank_seen_at, Some(241));
    assert!(itr.nmi);
}

#[test]
fn sprite_zero_hit_latches_on_its_first_scanline() {
    let (mut ppu, mut image, mut itr) = fresh_ppu();
    // opaque pattern for tile 1 (low plane all ones), written through the
    // address/data registers into CHR-RAM
    ppu.write(6, 0x00);
    ppu.write(6, 0x10);
    for _ in 0..8 {
        ppu.write(7, 0xFF);
    }
    // OAM[0..4] = {Y=30, id=1, attr=0, X=40}
    ppu.write(3, 0x00);
    ppu.write(4, 30);
    ppu.write(4, 1);
    ppu.write(4, 0);
    ppu.write(4, 40);
    // enable background and sprites
    ppu.write(1, 0x18);
    let mut hit_line = None;
    for _ in 0..20000 {
        ppu.run(57, &mut image, &mut itr);
        if ppu.sreg & 0x40 != 0 {
            hit_line = Some(ppu.line);
            break;
        }
        if ppu.line > 60 {
            break;
        }
    }
    // the hit latched when scanline 30 finished, i.e. on entering line 31
    assert_eq!(hit_line, Some(31));
}

#[test]
fn no_sprite_zero_hit_with_sprites_disabled() {
    let (mut ppu, mut image, mut itr) = fresh_ppu();
    ppu.write(6, 0x00);
    ppu.write(6, 0x10);
    for _ in 0..8 {
        ppu.write(7, 0xFF);
    }
    ppu.write(3, 0x00);
    ppu.write(4, 30);
    ppu.write(4, 1);
    ppu.write(4, 0);
    ppu.write(4, 40);
    // sprites left disabled
    for _ in 0..6000 {
        ppu.run(57, &mut image, &mut itr);
    }
    assert_eq!(ppu.sreg & 0x40, 0);
}

#[test]
fn frame_end_takes_palette_snapshot_with_mirrors_folded() {
    let (mut ppu, mut image, mut itr) = fresh_ppu();
    // write 0x2A at palette entry 0x10 (lands at 0x00)
    ppu.write(6, 0x3F);
    ppu.write(6, 0x10);
    ppu.write(7, 0x2A);
    let mut frames = 0;
    while frames == 0 {
        if ppu.run(100, &mut image, &mut itr) {
            frames += 1;
        }
    }
    assert_eq!(image.palette[0x00], 0x2A);
    assert_eq!(image.palette[0x10], 0x2A);
    assert_eq!(image.palette.len(), 32);
}

#[test]
fn frame_end_scans_oam_into_the_sprite_list() {
    let (mut ppu, mut image, mut itr) = fresh_ppu();
    ppu.write(3, 0x00);
    ppu.write(4, 50); // y
    ppu.write(4, 2); // id
    ppu.write(4, 0x40); // attr
    ppu.write(4, 60); // x
    let mut frames = 0;
    while frames == 0 {
        if ppu.run(100, &mut image, &mut itr) {
            frames += 1;
        }
    }
    assert_eq!(image.sprite.len(), 1);
    assert_eq!(image.sprite[0].y, 50);
    assert_eq!(image.sprite[0].attr, 0x40);
    assert_eq!(image.sprite[0].x, 60);
    assert_eq!(image.sprite[0].data.len(), 64);
    assert_eq!(image.dbg_pattern.len(), 256);
}

#[test]
fn oam_data_register_stores_and_post_increments() {
    let (mut ppu, _, _) = fresh_ppu();
    ppu.write(3, 0x10);
    ppu.write(4, 0xAA);
    ppu.write(4, 0xBB);
    assert_eq!(ppu.sprite_ram.data[0x10], 0xAA);
    assert_eq!(ppu.sprite_ram.data[0x11], 0xBB);
    assert_eq!(ppu.sprite_ram_addr, 0x12);
    ppu.write(3, 0x10);
    assert_eq!(ppu.read(4), 0xAA);
}

#[test]
fn data_register_increment_follows_control_bit() {
    let (mut ppu, _, _) = fresh_ppu();
    ppu.write(0, 0x04); // +32 mode
    ppu.write(6, 0x20);
    ppu.write(6, 0x00);
    ppu.write(7, 0x01);
    assert_eq!(ppu.vram_addr, 0x2020);
    ppu.write(0, 0x00); // +1 mode
    ppu.write(7, 0x02);
    assert_eq!(ppu.vram_addr, 0x2021);
}
