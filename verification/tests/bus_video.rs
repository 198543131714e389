use dmg_core::gpu::{Gpu, FRAME_DOTS, LINE_DOTS, SHADE_RGBA_0, SHADE_RGBA_1, SHADE_RGBA_2, SHADE_RGBA_3};
use dmg_core::input::{Input, JoypadButton};
use dmg_core::memory::{Memory, Rom};
use dmg_core::system::GameBoy;

fn machine() -> GameBoy {
    GameBoy::new(None, vec![0u8; 0x8000]).expect("machine")
}

#[test]
fn rom_region_ignores_writes() {
    let mut gb = machine();
    let before = gb.mem.load(0x1234);
    gb.mem.write(0x1234, 0xaa);
    assert_eq!(gb.mem.load(0x1234), before);
}

#[test]
fn work_ram_reads_back_and_echoes() {
    let mut gb = machine();
    gb.mem.write(0xc123, 0xab);
    assert_eq!(gb.mem.load(0xc123), 0xab);
    assert_eq!(gb.mem.load(0xe123), 0xab);
    gb.mem.write(0xe200, 0x55);
    assert_eq!(gb.mem.load(0xc200), 0x55);
}

#[test]
fn high_ram_reads_back() {
    let mut gb = machine();
    gb.mem.write(0xff80, 0x99);
    gb.mem.write(0xfffe, 0x77);
    assert_eq!(gb.mem.load(0xff80), 0x99);
    assert_eq!(gb.mem.load(0xfffe), 0x77);
}

#[test]
fn unusable_region_reads_ff() {
    let mut gb = machine();
    gb.mem.write(0xfea0, 0x12);
    assert_eq!(gb.mem.load(0xfea0), 0xff);
    assert_eq!(gb.mem.load(0xfeff), 0xff);
}

#[test]
fn interrupt_flag_upper_bits_read_one() {
    let mut gb = machine();
    gb.mem.write(0xff0f, 0xff);
    assert_eq!(gb.mem.load(0xff0f), 0xff);
    gb.mem.write(0xff0f, 0x01);
    assert_eq!(gb.mem.load(0xff0f), 0xe1);
}

#[test]
fn interrupt_enable_reads_back() {
    let mut gb = machine();
    gb.mem.write(0xffff, 0x1f);
    assert_eq!(gb.mem.load(0xffff), 0x1f);
}

#[test]
fn oam_dma_copies_from_work_ram() {
    // For the DMA source page v, OAM[i] ends up equal to bus.read(v*0x100+i)
    let mut gb = machine();
    for i in 0..0xa0usize {
        gb.mem.write(0xc000 + i, (i as u8).wrapping_mul(3).wrapping_add(7));
    }
    gb.mem.write(0xff46, 0xc0);
    for i in 0..0xa0usize {
        assert_eq!(
            gb.mem.load(0xfe00 + i),
            (i as u8).wrapping_mul(3).wrapping_add(7),
            "OAM byte {i}"
        );
    }
    assert_eq!(gb.mem.load(0xff46), 0xc0);
}

#[test]
fn oam_dma_copies_from_rom() {
    let mut cart = vec![0u8; 0x8000];
    for i in 0..0xa0usize {
        cart[0x1b00 + i] = i as u8 ^ 0x5a;
    }
    let mut gb = GameBoy::new(None, cart).expect("machine");
    gb.mem.write(0xff46, 0x1b);
    for i in 0..0xa0usize {
        assert_eq!(gb.mem.load(0xfe00 + i), i as u8 ^ 0x5a);
    }
}

#[test]
fn boot_overlay_reads_until_ff50_write() {
    // Reads at 0x0000 return boot bytes exactly while no write to
    // 0xFF50 has happened
    let mut boot = vec![0u8; 0x100];
    boot[0] = 0xfe;
    boot[0xff] = 0xed;
    let mut cart = vec![0u8; 0x8000];
    cart[0] = 0x11;
    cart[0x100] = 0x22;
    let mut gb = GameBoy::new(Some(boot), cart).expect("machine");
    assert!(gb.mem.boot_mapped);
    assert_eq!(gb.mem.load(0x0000), 0xfe);
    assert_eq!(gb.mem.load(0x00ff), 0xed);
    // past the overlay the cartridge answers
    assert_eq!(gb.mem.load(0x0100), 0x22);
    gb.mem.write(0xff50, 0x01);
    assert!(!gb.mem.boot_mapped);
    assert_eq!(gb.mem.load(0x0000), 0x11);
}

#[test]
fn ff50_write_without_boot_rom_changes_nothing() {
    let mut cart = vec![0u8; 0x8000];
    cart[0] = 0x31;
    let mut gb = GameBoy::new(None, cart).expect("machine");
    gb.mem.write(0xff50, 0x01);
    assert_eq!(gb.mem.load(0x0000), 0x31);
}

#[test]
fn joypad_matrix_selects_halves() {
    let mut gb = machine();
    gb.apply_input(Input::JoypadPress(JoypadButton::A));
    gb.apply_input(Input::JoypadPress(JoypadButton::Down));
    // action half selected (bit 5 low, bit 4 high): A pressed reads 0
    gb.mem.write(0xff00, 0x10);
    assert_eq!(gb.mem.load(0xff00), 0xc0 | 0x10 | 0x0e);
    // direction half selected: Down pressed reads 0 in bit 3
    gb.mem.write(0xff00, 0x20);
    assert_eq!(gb.mem.load(0xff00), 0xc0 | 0x20 | 0x07);
    // nothing selected: all released
    gb.mem.write(0xff00, 0x30);
    assert_eq!(gb.mem.load(0xff00), 0xc0 | 0x30 | 0x0f);
    gb.apply_input(Input::JoypadRelease(JoypadButton::A));
    gb.mem.write(0xff00, 0x10);
    assert_eq!(gb.mem.load(0xff00), 0xc0 | 0x10 | 0x0f);
}

#[test]
fn joypad_press_requests_interrupt() {
    let mut gb = machine();
    assert_eq!(gb.mem.if_reg & 0x10, 0);
    gb.apply_input(Input::JoypadPress(JoypadButton::Start));
    assert_ne!(gb.mem.if_reg & 0x10, 0);
}

#[test]
fn gpu_registers_read_back() {
    let mut g = Gpu::new();
    g.write(0xff42, 0x12);
    g.write(0xff43, 0x34);
    g.write(0xff47, 0xe4);
    g.write(0xff48, 0x1b);
    g.write(0xff49, 0xd2);
    g.write(0xff4a, 0x40);
    g.write(0xff4b, 0x07);
    assert_eq!(g.read(0xff42), 0x12);
    assert_eq!(g.read(0xff43), 0x34);
    assert_eq!(g.read(0xff47), 0xe4);
    assert_eq!(g.read(0xff48), 0x1b);
    assert_eq!(g.read(0xff49), 0xd2);
    assert_eq!(g.read(0xff4a), 0x40);
    assert_eq!(g.read(0xff4b), 0x07);
}

#[test]
fn stat_reads_mode_and_keeps_only_enables() {
    let mut g = Gpu::new();
    g.write(0xff41, 0xff);
    // bit 7 set, enables 0x78 kept, LYC=LY coincidence at line 0, mode 2
    assert_eq!(g.read(0xff41), 0x80 | 0x78 | 0x04 | 0x02);
}

#[test]
fn ly_write_resets_counter() {
    let mut g = Gpu::new();
    g.write(0xff40, 0x80);
    g.tick(456 * 3 + 100);
    assert_eq!(g.read(0xff44), 3);
    g.write(0xff44, 0x55);
    assert_eq!(g.read(0xff44), 0);
}

#[test]
fn ly_stays_in_range_and_frame_wraps() {
    // LY ranges over 0..=153 and returns to its start after 70224 dots
    let mut g = Gpu::new();
    g.write(0xff40, 0x80);
    let mut ticked: u32 = 0;
    while ticked < FRAME_DOTS {
        g.tick(4);
        ticked += 4;
        assert!(g.ly <= 153);
    }
    assert_eq!(g.ly, 0);
    assert_eq!(g.read(0xff44), 0);
}

#[test]
fn vblank_raised_exactly_once_per_frame() {
    let mut g = Gpu::new();
    g.write(0xff40, 0x80);
    let (vb, _) = g.tick(FRAME_DOTS);
    assert_eq!(vb, 1);
    let mut total: u32 = 0;
    let mut vbs: u32 = 0;
    while total < FRAME_DOTS {
        let (v, _) = g.tick(12);
        vbs += v;
        total += 12;
    }
    assert_eq!(vbs, 1);
}

#[test]
fn lcd_off_freezes_the_ppu() {
    let mut g = Gpu::new();
    let (vb, st) = g.tick(100000);
    assert_eq!((vb, st), (0, 0));
    assert_eq!(g.ly, 0);
}

#[test]
fn stat_interrupt_on_lyc_match() {
    let mut g = Gpu::new();
    g.write(0xff40, 0x80);
    g.write(0xff45, 2);
    // enable only the LYC source
    g.write(0xff41, 0x40);
    let (_, st) = g.tick(LINE_DOTS as u32);
    assert_eq!(st, 0, "no rise before line 2");
    let (_, st) = g.tick(LINE_DOTS as u32);
    assert_eq!(st, 1, "one rise entering line 2");
    let (_, st) = g.tick(LINE_DOTS as u32);
    assert_eq!(st, 0, "line is level-triggered, no second rise");
}

#[test]
fn background_renders_through_palette() {
    let mut gb = machine();
    // tile 1: all pixels colour 3 (both planes solid)
    for row in 0..8usize {
        gb.mem.write(0x8010 + 2 * row, 0xff);
        gb.mem.write(0x8011 + 2 * row, 0xff);
    }
    // map cell (0,0) names tile 1; identity palette; unsigned tile data
    gb.mem.write(0x9800, 0x01);
    gb.mem.write(0xff47, 0xe4);
    gb.mem.write(0xff40, 0x91);
    gb.mem.gpu.tick(81);
    assert_eq!(gb.mem.gpu.frame[0], SHADE_RGBA_3);
    assert_eq!(gb.mem.gpu.frame[7], SHADE_RGBA_3);
    // cell (1,0) still names tile 0: all colour 0
    assert_eq!(gb.mem.gpu.frame[8], SHADE_RGBA_0);
}

#[test]
fn background_scrolls() {
    let mut gb = machine();
    for row in 0..8usize {
        gb.mem.write(0x8010 + 2 * row, 0xff);
        gb.mem.write(0x8011 + 2 * row, 0xff);
    }
    gb.mem.write(0x9800, 0x01);
    gb.mem.write(0xff47, 0xe4);
    // scroll 4 left: the dark tile now covers columns 0..4 only
    gb.mem.write(0xff43, 4);
    gb.mem.write(0xff40, 0x91);
    gb.mem.gpu.tick(81);
    assert_eq!(gb.mem.gpu.frame[3], SHADE_RGBA_3);
    assert_eq!(gb.mem.gpu.frame[4], SHADE_RGBA_0);
}

#[test]
fn sprite_x_flip_mirrors_the_row() {
    // Row-0 bytes 0x3C 0x7E decode to indices 0,2,3,3,3,3,2,0; the
    // X-flipped sprite row must be the bit-reversed decoding
    let mut gb = machine();
    gb.mem.write(0x8000, 0x3c);
    gb.mem.write(0x8001, 0x7e);
    gb.mem.write(0xfe00, 16);
    gb.mem.write(0xfe01, 8);
    gb.mem.write(0xfe02, 0);
    gb.mem.write(0xfe03, 0x20);
    gb.mem.write(0xff48, 0xe4);
    // LCD and sprites on, background off
    gb.mem.write(0xff40, 0x82);
    gb.mem.gpu.tick(81);
    let expected = [
        SHADE_RGBA_0,
        SHADE_RGBA_2,
        SHADE_RGBA_3,
        SHADE_RGBA_3,
        SHADE_RGBA_3,
        SHADE_RGBA_3,
        SHADE_RGBA_2,
        SHADE_RGBA_0,
    ];
    for px in 0..8usize {
        assert_eq!(gb.mem.gpu.frame[px], expected[px], "pixel {px}");
    }
}

#[test]
fn sprite_x_flip_on_asymmetric_row() {
    // Row bytes 0xF0 0x00: colour 1 on the left half; flipped it moves
    // to the right half
    let mut gb = machine();
    gb.mem.write(0x8000, 0xf0);
    gb.mem.write(0x8001, 0x00);
    gb.mem.write(0xfe00, 16);
    gb.mem.write(0xfe01, 8);
    gb.mem.write(0xfe02, 0);
    gb.mem.write(0xfe03, 0x20);
    gb.mem.write(0xff48, 0xe4);
    gb.mem.write(0xff40, 0x82);
    gb.mem.gpu.tick(81);
    for px in 0..4usize {
        assert_eq!(gb.mem.gpu.frame[px], SHADE_RGBA_0, "left pixel {px}");
    }
    for px in 4..8usize {
        assert_eq!(gb.mem.gpu.frame[px], SHADE_RGBA_1, "right pixel {px}");
    }
}

#[test]
fn sprite_priority_lower_x_wins() {
    let mut gb = machine();
    // tile 1 solid colour 1; tile 2 solid colour 2
    for row in 0..8usize {
        gb.mem.write(0x8010 + 2 * row, 0xff);
        gb.mem.write(0x8020 + 2 * row, 0x00);
        gb.mem.write(0x8021 + 2 * row, 0xff);
    }
    // sprite 0 at X=12 with tile 2; sprite 1 at X=8 with tile 1: the
    // lower X wins where they overlap
    gb.mem.write(0xfe00, 16);
    gb.mem.write(0xfe01, 12);
    gb.mem.write(0xfe02, 2);
    gb.mem.write(0xfe03, 0);
    gb.mem.write(0xfe04, 16);
    gb.mem.write(0xfe05, 8);
    gb.mem.write(0xfe06, 1);
    gb.mem.write(0xfe07, 0);
    gb.mem.write(0xff48, 0xe4);
    gb.mem.write(0xff40, 0x82);
    gb.mem.gpu.tick(81);
    assert_eq!(gb.mem.gpu.frame[4], SHADE_RGBA_1, "overlap goes to lower X");
    assert_eq!(gb.mem.gpu.frame[10], SHADE_RGBA_2, "tail of the higher X sprite");
}

#[test]
fn sprite_behind_background_shows_only_on_colour_zero() {
    let mut gb = machine();
    // background tile 1 solid colour 3 in map cell 0; cell 1 keeps tile 0
    for row in 0..8usize {
        gb.mem.write(0x8010 + 2 * row, 0xff);
        gb.mem.write(0x8011 + 2 * row, 0xff);
        // sprite tile 2 solid colour 1
        gb.mem.write(0x8020 + 2 * row, 0xff);
    }
    gb.mem.write(0x9800, 0x01);
    // sprite with the priority flag spanning columns 4..12
    gb.mem.write(0xfe00, 16);
    gb.mem.write(0xfe01, 12);
    gb.mem.write(0xfe02, 2);
    gb.mem.write(0xfe03, 0x80);
    gb.mem.write(0xff47, 0xe4);
    gb.mem.write(0xff48, 0xe4);
    gb.mem.write(0xff40, 0x93);
    gb.mem.gpu.tick(81);
    // over the dark background tile the sprite hides
    assert_eq!(gb.mem.gpu.frame[5], SHADE_RGBA_3);
    // over background colour 0 it shows
    assert_eq!(gb.mem.gpu.frame[10], SHADE_RGBA_1);
}

#[test]
fn rom_reads_zero_past_image_end() {
    let rom = Rom::new(vec![1, 2, 3]);
    assert_eq!(rom.read_at(2), 3);
    assert_eq!(rom.read_at(3), 0);
}

#[test]
fn later_mapping_is_shadowed_by_earlier() {
    let gpu = Gpu::new();
    let mut mem = Memory::new(gpu);
    mem.map(0, Rom::new(vec![0xaa; 0x100]));
    mem.map(0, Rom::new(vec![0xbb; 0x200]));
    assert_eq!(mem.load(0x0000), 0xaa);
    assert_eq!(mem.load(0x0150), 0xbb);
    mem.unmap(0);
    assert_eq!(mem.load(0x0000), 0xbb);
}

#[test]
fn window_overlays_from_its_origin() {
    let mut gb = machine();
    // tile 1 solid colour 3; window map cell 0 names it
    for row in 0..8usize {
        gb.mem.write(0x8010 + 2 * row, 0xff);
        gb.mem.write(0x8011 + 2 * row, 0xff);
    }
    gb.mem.write(0x9800, 0x01);
    gb.mem.write(0xff47, 0xe4);
    // window on at WY=0, WX=7 (screen origin); background off
    gb.mem.write(0xff4a, 0);
    gb.mem.write(0xff4b, 7);
    gb.mem.write(0xff40, 0x80 | 0x20 | 0x10);
    gb.mem.gpu.tick(81);
    assert_eq!(gb.mem.gpu.frame[0], SHADE_RGBA_3);
    assert_eq!(gb.mem.gpu.frame[7], SHADE_RGBA_3);
    assert_eq!(gb.mem.gpu.frame[8], SHADE_RGBA_0);
}

#[test]
fn stat_mode_progression_within_a_line() {
    let mut g = Gpu::new();
    g.write(0xff40, 0x80);
    g.tick(79);
    assert_eq!(g.read(0xff41) & 0x03, 2, "OAM scan");
    g.tick(1);
    assert_eq!(g.read(0xff41) & 0x03, 3, "drawing");
    g.tick(172);
    assert_eq!(g.read(0xff41) & 0x03, 0, "HBlank");
    // jump to line 144: VBlank
    g.tick(456 * 144 - 252);
    assert_eq!(g.read(0xff44), 144);
    assert_eq!(g.read(0xff41) & 0x03, 1, "VBlank");
}

#[test]
fn tall_sprites_use_both_tiles() {
    let mut gb = machine();
    // tiles 4 and 5: top half colour 1, bottom half colour 2
    for row in 0..8usize {
        gb.mem.write(0x8040 + 2 * row, 0xff);
        gb.mem.write(0x8051 + 2 * row, 0xff);
    }
    // 8x16 sprite with tile index 4 (low bit ignored), at the origin
    gb.mem.write(0xfe00, 16);
    gb.mem.write(0xfe01, 8);
    gb.mem.write(0xfe02, 5);
    gb.mem.write(0xfe03, 0);
    gb.mem.write(0xff48, 0xe4);
    gb.mem.write(0xff40, 0x80 | 0x04 | 0x02);
    // render rows 0 and 8
    gb.mem.gpu.tick(81);
    gb.mem.gpu.tick(456 * 8);
    assert_eq!(gb.mem.gpu.frame[0], SHADE_RGBA_1, "top tile row");
    assert_eq!(gb.mem.gpu.frame[8 * 160], SHADE_RGBA_2, "bottom tile row");
}
