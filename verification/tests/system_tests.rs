//! End-to-end tests through the whole console: cartridge loading, DMA, the
//! VBlank loop, the APU frame IRQ, and the renderer.

use rustness::apu::Apu;
use rustness::cassette::{Cassette, CassetteError};
use rustness::interrupts::Interrupts;
use rustness::nes::Nes;
use rustness::render::{color, Render};
use rustness::ppu::Image;

fn build_rom(program: &[u8], entry: u16) -> Vec<u8> {
    let mut bytes = vec![0x4Eu8, 0x45, 0x53, 0x1A, 1, 0, 0, 0];
    bytes.resize(16, 0);
    let mut prog = vec![0u8; 0x4000];
    prog[..program.len()].copy_from_slice(program);
    prog[0x3FFC] = (entry & 0xFF) as u8;
    prog[0x3FFD] = (entry >> 8) as u8;
    bytes.extend_from_slice(&prog);
    bytes
}

fn boot(program: &[u8]) -> Nes {
    let bytes = build_rom(program, 0xC000);
    let cas = Cassette::from_ines(&bytes).expect("valid rom");
    let mut nes = Nes::new(cas);
    nes.reset();
    nes
}

#[test]
fn cassette_rejects_bad_magic() {
    let bytes = vec![0x4E, 0x45, 0x53, 0x00, 1, 0, 0, 0, 0, 0, 0, 0, 0, 0, 0, 0];
    assert!(matches!(Cassette::from_ines(&bytes), Err(CassetteError::BadMagic)));
}

#[test]
fn cassette_rejects_short_images() {
    let bytes = vec![0x4E, 0x45];
    assert!(matches!(Cassette::from_ines(&bytes), Err(CassetteError::TooShort)));
    // header fine but not enough ROM for the declared size
    let mut bytes = vec![0x4Eu8, 0x45, 0x53, 0x1A, 2, 0, 0, 0];
    bytes.resize(16 + 0x4000, 0);
    assert!(matches!(Cassette::from_ines(&bytes), Err(CassetteError::TooShort)));
}

#[test]
fn cassette_parses_header_fields() {
    let mut bytes = vec![0x4Eu8, 0x45, 0x53, 0x1A, 1, 1, 0x31, 0x20];
    bytes.resize(16, 0);
    bytes.extend_from_slice(&vec![0x11u8; 0x4000]);
    bytes.extend_from_slice(&vec![0x22u8; 0x2000]);
    let cas = Cassette::from_ines(&bytes).unwrap();
    assert_eq!(cas.prog_size, 0x4000);
    assert_eq!(cas.char_size, 0x2000);
    assert!(!cas.is_horizontal_mirror); // bit 0 of byte 6 set means vertical
    assert_eq!(cas.mapper, 0x23);
    assert_eq!(cas.prog_rom[0], 0x11);
    assert_eq!(cas.char_rom[0], 0x22);
    assert_eq!(cas.prog_rom.len(), 0x4000);
    assert_eq!(cas.char_rom.len(), 0x2000);
}

#[test]
fn oam_dma_copies_a_wram_page() {
    let nes = &mut boot(&[0xEA]);
    for i in 0..256u16 {
        nes.cpu.write(&mut nes.bus, 0x0200 + i, i as u8);
    }
    nes.cpu.write(&mut nes.bus, 0x4014, 0x02);
    for i in 0..256u16 {
        nes.cpu.write(&mut nes.bus, 0x2003, i as u8);
        let v = nes.cpu.read(&mut nes.bus, 0x2004);
        assert_eq!(v, i as u8);
    }
}

#[test]
fn vblank_flag_is_observable_within_one_frame_of_reset() {
    // a ROM that loops loading 0x2002: within 29,781 cycles some load must
    // observe bit 7 set
    let nes = &mut boot(&[
        0xAD, 0x02, 0x20, // LDA $2002
        0x4C, 0x00, 0xC0, // JMP $C000
    ]);
    let mut seen = false;
    while nes.cpu.cycle < 29781 {
        nes.step().unwrap();
        if nes.cpu.reg.a & 0x80 != 0 {
            seen = true;
            break;
        }
    }
    assert!(seen);
}

#[test]
fn apu_mode0_raises_irq_once_per_sequence_and_read_clears_it() {
    let mut apu = Apu::new();
    let mut itr = Interrupts::new();
    apu.write(0x4017, 0x00); // 4-step mode, IRQ enabled
    let mut assert_count = 0;
    let mut was = false;
    for _ in 0..(4 * 7457) {
        apu.run(1, &mut itr);
        if itr.irq && !was {
            assert_count += 1;
        }
        was = itr.irq;
    }
    assert_eq!(assert_count, 1);
    assert!(itr.irq);
    let _status = apu.read(&mut itr, 0x4015);
    assert!(!itr.irq);
}

#[test]
fn apu_mode1_never_raises_irq() {
    let mut apu = Apu::new();
    let mut itr = Interrupts::new();
    apu.write(0x4017, 0x80); // 5-step mode
    for _ in 0..(10 * 7457) {
        apu.run(1, &mut itr);
        assert!(!itr.irq);
    }
}

#[test]
fn apu_register_write_is_stored_and_status_read_returns_it() {
    let mut apu = Apu::new();
    let mut itr = Interrupts::new();
    apu.write(0x4015, 0x1F);
    assert_eq!(apu.read(&mut itr, 0x4015), 0x1F);
}

#[test]
fn system_step_reports_frames_at_the_frame_rate() {
    let nes = &mut boot(&[0x4C, 0x00, 0xC0]);
    let mut frames = 0;
    while nes.cpu.cycle < 2 * 29781 + 100 {
        let (_, frame) = nes.step().unwrap();
        if frame {
            frames += 1;
        }
    }
    assert_eq!(frames, 2);
}

#[test]
fn renderer_stamps_a_tile_with_its_palette_colour() {
    let mut image = Image::new();
    // tile (0, 0): palette group 1, a single opaque pixel at row 0, col 0
    image.background[0].palette_id = 1;
    image.background[0].sprite.data[0] = 3;
    image.background[0].is_background_enable = true;
    image.palette[1 * 4 + 3] = 0x15;
    image.palette[1 * 4] = 0x02;
    let mut render = Render::new();
    render.render_tile(&image, 0, 0);
    assert_eq!(render.data[0], color(0x15));
    assert_eq!(render.data[1], color(0x02));
}

#[test]
fn renderer_applies_the_scroll_remainder() {
    let mut image = Image::new();
    image.background[1].palette_id = 0;
    image.background[1].sprite.data[0] = 1;
    image.background[1].scroll_x = 3;
    image.palette[1] = 0x30;
    let mut render = Render::new();
    render.render_tile(&image, 1, 0);
    // tile column 1 starts at x=8; shifted left by 3 puts its first pixel
    // at x=5
    assert_eq!(render.data[5], color(0x30));
}

#[test]
fn sprite_pixels_yield_to_opaque_background_when_low_priority() {
    let mut image = Image::new();
    // opaque background everywhere in tile (0,0)
    for k in 0..64 {
        image.background[0].sprite.data[k] = 1;
    }
    image.palette[0x10 + 1] = 0x16;
    let mut sprite = rustness::ppu::Sprite::new();
    sprite.x = 0;
    sprite.y = 0;
    sprite.attr = 0x20; // behind background
    sprite.data[0] = 1;
    image.sprite.push(sprite);
    let mut render = Render::new();
    let before = render.data[0];
    render.render_sprite(&image);
    assert_eq!(render.data[0], before);
    // in front, it draws
    image.sprite[0].attr = 0x00;
    render.render_sprite(&image);
    assert_eq!(render.data[0], color(0x16));
}

#[test]
fn sprite_flip_bits_reverse_sampling() {
    let mut image = Image::new();
    let mut sprite = rustness::ppu::Sprite::new();
    sprite.x = 0;
    sprite.y = 0;
    sprite.attr = 0x40; // horizontal flip
    sprite.data[0] = 1; // top-left pixel of the pattern
    image.sprite.push(sprite);
    image.palette[0x10 + 1] = 0x16;
    let mut render = Render::new();
    render.render_sprite(&image);
    // flipped horizontally, the pattern's column 0 lands at x=7
    assert_eq!(render.data[7], color(0x16));
    assert_eq!(render.data[0], 0);
}

#[test]
fn colors_match_the_fixed_table() {
    assert_eq!(color(0), 0x808080);
    assert_eq!(color(1), 0x003DA6);
    assert_eq!(color(32), 0xFFFFFF);
    assert_eq!(color(63), 0x111111);
}

#[test]
fn mapper_bank_select_is_latched_by_rom_writes() {
    let nes = &mut boot(&[0xEA]);
    nes.cpu.write(&mut nes.bus, 0x8000, 3);
    assert_eq!(nes.cpu.mapper.get_bank(), 3);
    assert_eq!(nes.cpu.mapper.get_mapper(), 0);
    assert_eq!(nes.cpu.mapper.get_char_ram_addr(0x0100), 0x6100);
}
