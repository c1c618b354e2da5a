use zetr::cartridge::{Cartridge, Mirroring};
use zetr::ppu::PPU;

fn cart(vertical: bool, chr_units: u8) -> Cartridge {
    let mut data = vec![0x4E, 0x45, 0x53, 0x1A, 1, chr_units, if vertical { 1 } else { 0 }, 0];
    data.resize(16 + 16384 + chr_units as usize * 8192, 0);
    Cartridge::new(&data).unwrap()
}

fn set_address(ppu: &mut PPU, c: &mut Cartridge, addr: u16) {
    ppu.cpu_read(0x2002, c);
    ppu.cpu_write(0x2006, (addr >> 8) as u8, c);
    ppu.cpu_write(0x2006, addr as u8, c);
}

fn step_to(ppu: &mut PPU, c: &Cartridge, scanline: i16, cycle: u16) -> u64 {
    let mut n = 0;
    while !(ppu.regs.scanline == scanline && ppu.regs.cycle == cycle) {
        ppu.step(c);
        n += 1;
        assert!(n < 200_000);
    }
    n
}

#[test]
fn power_on_state_is_zero() {
    let ppu = PPU::new();
    assert_eq!(ppu.regs.scanline, 0);
    assert_eq!(ppu.regs.cycle, 0);
    assert_eq!(ppu.regs.status, 0);
    assert!(!ppu.regs.frame_complete);
    assert_eq!(ppu.vram.len(), 2048);
    assert_eq!(ppu.palette_ram.len(), 32);
    assert_eq!(ppu.oam.len(), 256);
    assert_eq!(ppu.get_frame_buffer().len(), 256 * 240 * 3);
    assert!(ppu.get_frame_buffer().iter().all(|b| *b == 0));
}

#[test]
fn two_address_writes_set_the_vram_address() {
    let mut c = cart(false, 0);
    let mut ppu = PPU::new();
    ppu.cpu_write(0x2006, 0xE3, &mut c);
    assert!(ppu.regs.write_toggle);
    ppu.cpu_write(0x2006, 0x45, &mut c);
    assert!(!ppu.regs.write_toggle);
    assert_eq!(ppu.regs.vram_addr, 0x2345);
}

#[test]
fn data_access_steps_by_1_or_32() {
    let mut c = cart(false, 0);
    let mut ppu = PPU::new();
    set_address(&mut ppu, &mut c, 0x2000);
    ppu.cpu_write(0x2007, 1, &mut c);
    ppu.cpu_write(0x2007, 2, &mut c);
    assert_eq!(ppu.regs.vram_addr, 0x2002);
    ppu.cpu_read(0x2007, &c);
    assert_eq!(ppu.regs.vram_addr, 0x2003);
    ppu.cpu_write(0x2000, 0x04, &mut c);
    ppu.cpu_write(0x2007, 3, &mut c);
    assert_eq!(ppu.regs.vram_addr, 0x2023);
    ppu.cpu_read(0x2007, &c);
    assert_eq!(ppu.regs.vram_addr, 0x2043);
    assert_eq!(ppu.vram[0], 1);
    assert_eq!(ppu.vram[1], 2);
    assert_eq!(ppu.vram[3], 3);
}

#[test]
fn data_reads_are_buffered_below_the_palette() {
    let mut c = cart(false, 0);
    let mut ppu = PPU::new();
    set_address(&mut ppu, &mut c, 0x2100);
    ppu.cpu_write(0x2007, 0x5A, &mut c);
    ppu.cpu_write(0x2007, 0x6B, &mut c);
    set_address(&mut ppu, &mut c, 0x2100);
    assert_eq!(ppu.cpu_read(0x2007, &c), 0);
    assert_eq!(ppu.cpu_read(0x2007, &c), 0x5A);
    assert_eq!(ppu.cpu_read(0x2007, &c), 0x6B);
}

#[test]
fn palette_reads_are_immediate_and_fill_the_buffer_from_the_nametable() {
    let mut c = cart(true, 0);
    let mut ppu = PPU::new();
    set_address(&mut ppu, &mut c, 0x2F05);
    ppu.cpu_write(0x2007, 0x77, &mut c);
    set_address(&mut ppu, &mut c, 0x3F05);
    ppu.cpu_write(0x2007, 0x2A, &mut c);
    set_address(&mut ppu, &mut c, 0x3F05);
    assert_eq!(ppu.cpu_read(0x2007, &c), 0x2A);
    assert_eq!(ppu.regs.read_buffer, 0x77);
}

#[test]
fn palette_mirrors_of_the_backdrop() {
    let pairs = [(0x3F10u16, 0x3F00u16), (0x3F14, 0x3F04), (0x3F18, 0x3F08), (0x3F1C, 0x3F0C)];
    for (i, (high, low)) in pairs.iter().enumerate() {
        let mut c = cart(false, 0);
        let mut ppu = PPU::new();
        let v = 0x21 + i as u8;
        ppu.ppu_write(*high, v, &mut c);
        assert_eq!(ppu.ppu_read(*low, &c), v);
        ppu.ppu_write(*low, v + 8, &mut c);
        assert_eq!(ppu.ppu_read(*high, &c), v + 8);
    }
}

#[test]
fn other_sprite_palette_entries_do_not_mirror() {
    let mut c = cart(false, 0);
    let mut ppu = PPU::new();
    ppu.ppu_write(0x3F11, 0x15, &mut c);
    assert_eq!(ppu.ppu_read(0x3F01, &c), 0);
    assert_eq!(ppu.ppu_read(0x3F11, &c), 0x15);
    assert_eq!(ppu.ppu_read(0x3F31, &c), 0x15);
}

#[test]
fn greyscale_masks_palette_reads() {
    let mut c = cart(false, 0);
    let mut ppu = PPU::new();
    ppu.ppu_write(0x3F10, 0x2B, &mut c);
    assert_eq!(ppu.ppu_read(0x3F00, &c), 0x2B);
    ppu.cpu_write(0x2001, 0x01, &mut c);
    assert_eq!(ppu.ppu_read(0x3F00, &c), 0x20);
    ppu.ppu_write(0x3F01, 0xFF, &mut c);
    assert_eq!(ppu.ppu_read(0x3F01, &c), 0x30);
    ppu.cpu_write(0x2001, 0x00, &mut c);
    assert_eq!(ppu.ppu_read(0x3F01, &c), 0x3F);
}

#[test]
fn horizontal_mirroring_pairs_tables_a_a_b_b() {
    let mut c = cart(false, 0);
    assert_eq!(c.mirroring, Mirroring::Horizontal);
    let mut ppu = PPU::new();
    ppu.ppu_write(0x2005, 0x11, &mut c);
    assert_eq!(ppu.ppu_read(0x2405, &c), 0x11);
    assert_eq!(ppu.ppu_read(0x2805, &c), 0);
    ppu.ppu_write(0x2C05, 0x22, &mut c);
    assert_eq!(ppu.ppu_read(0x2805, &c), 0x22);
    assert_eq!(ppu.ppu_read(0x2005, &c), 0x11);
    assert_eq!(ppu.ppu_read(0x3005, &c), 0x11);
    assert_eq!(ppu.vram[0x005], 0x11);
    assert_eq!(ppu.vram[0x405], 0x22);
}

#[test]
fn vertical_mirroring_pairs_tables_a_b_a_b() {
    let mut c = cart(true, 0);
    let mut ppu = PPU::new();
    ppu.ppu_write(0x2005, 0x11, &mut c);
    assert_eq!(ppu.ppu_read(0x2805, &c), 0x11);
    assert_eq!(ppu.ppu_read(0x2405, &c), 0);
    ppu.ppu_write(0x2C05, 0x22, &mut c);
    assert_eq!(ppu.ppu_read(0x2405, &c), 0x22);
}

#[test]
fn pattern_tables_live_in_the_cartridge() {
    let mut c = cart(false, 0);
    let mut ppu = PPU::new();
    ppu.ppu_write(0x1234, 0x99, &mut c);
    assert_eq!(c.read_chr(0x1234), 0x99);
    assert_eq!(ppu.ppu_read(0x1234, &c), 0x99);
    assert_eq!(ppu.ppu_read(0x5234, &c), 0x99);
}

#[test]
fn status_read_clears_vblank_and_the_write_toggle() {
    let mut c = cart(false, 0);
    let mut ppu = PPU::new();
    ppu.regs.status = 0xE0;
    ppu.regs.read_buffer = 0xFF;
    ppu.cpu_write(0x2006, 0x20, &mut c);
    assert!(ppu.regs.write_toggle);
    assert_eq!(ppu.cpu_read(0x2002, &c), 0xFF);
    assert_eq!(ppu.regs.status, 0x60);
    assert!(!ppu.regs.write_toggle);
    assert_eq!(ppu.cpu_read(0x2002, &c), 0x7F);
}

#[test]
fn write_only_registers_read_as_zero() {
    let c = cart(false, 0);
    let mut ppu = PPU::new();
    ppu.regs.ctrl = 0xFF;
    assert_eq!(ppu.cpu_read(0x2000, &c), 0);
    assert_eq!(ppu.cpu_read(0x2001, &c), 0);
    assert_eq!(ppu.cpu_read(0x2005, &c), 0);
}

#[test]
fn oam_data_writes_move_the_oam_address() {
    let mut c = cart(false, 0);
    let mut ppu = PPU::new();
    ppu.cpu_write(0x2003, 0xFF, &mut c);
    ppu.cpu_write(0x2004, 0x12, &mut c);
    ppu.cpu_write(0x2004, 0x34, &mut c);
    assert_eq!(ppu.oam[0xFF], 0x12);
    assert_eq!(ppu.oam[0x00], 0x34);
    assert_eq!(ppu.regs.oam_addr, 1);
    ppu.cpu_write(0x2003, 0xFF, &mut c);
    assert_eq!(ppu.cpu_read(0x2004, &c), 0x12);
    assert_eq!(ppu.regs.oam_addr, 0xFF);
}

#[test]
fn scroll_writes_fill_t_and_fine_x() {
    let mut c = cart(false, 0);
    let mut ppu = PPU::new();
    ppu.cpu_write(0x2000, 0x03, &mut c);
    assert_eq!(ppu.regs.temp_vram_addr, 0x0C00);
    ppu.cpu_write(0x2005, 0x7D, &mut c);
    assert_eq!(ppu.regs.fine_x_scroll, 5);
    assert_eq!(ppu.regs.temp_vram_addr, 0x0C0F);
    ppu.cpu_write(0x2005, 0x5E, &mut c);
    assert_eq!(ppu.regs.temp_vram_addr, 0x6D6F);
    assert!(!ppu.regs.write_toggle);
}

#[test]
fn first_address_write_clears_bit_14_of_t() {
    let mut c = cart(false, 0);
    let mut ppu = PPU::new();
    ppu.regs.temp_vram_addr = 0x7FFF;
    ppu.cpu_write(0x2006, 0xFF, &mut c);
    assert_eq!(ppu.regs.temp_vram_addr, 0x3FFF);
}

#[test]
fn vblank_sets_status_and_raises_nmi_when_enabled() {
    let mut c = cart(false, 0);
    let mut ppu = PPU::new();
    ppu.cpu_write(0x2000, 0x80, &mut c);
    assert!(ppu.regs.nmi_output);
    step_to(&mut ppu, &c, 241, 1);
    assert_eq!(ppu.regs.status & 0x80, 0);
    assert!(!ppu.regs.nmi_occurred);
    ppu.step(&c);
    assert_eq!(ppu.regs.status & 0x80, 0x80);
    assert!(ppu.regs.nmi_occurred);
}

#[test]
fn vblank_without_nmi_enable_raises_nothing() {
    let c = cart(false, 0);
    let mut ppu = PPU::new();
    step_to(&mut ppu, &c, 241, 2);
    assert_eq!(ppu.regs.status & 0x80, 0x80);
    assert!(!ppu.regs.nmi_occurred);
}

#[test]
fn enabling_nmi_during_vblank_raises_it_at_once() {
    let mut c = cart(false, 0);
    let mut ppu = PPU::new();
    step_to(&mut ppu, &c, 245, 0);
    assert!(!ppu.regs.nmi_occurred);
    ppu.cpu_write(0x2000, 0x80, &mut c);
    assert!(ppu.regs.nmi_occurred);
    ppu.regs.nmi_occurred = false;
    ppu.cpu_write(0x2000, 0x80, &mut c);
    assert!(!ppu.regs.nmi_occurred);
}

#[test]
fn pre_render_line_clears_the_status_flags() {
    let c = cart(false, 0);
    let mut ppu = PPU::new();
    step_to(&mut ppu, &c, 250, 0);
    ppu.regs.status = 0xE0;
    step_to(&mut ppu, &c, -1, 1);
    assert_eq!(ppu.regs.status, 0xE0);
    assert!(ppu.regs.frame_complete);
    ppu.step(&c);
    assert_eq!(ppu.regs.status, 0x00);
}

#[test]
fn a_frame_has_341_dots_on_262_lines() {
    let c = cart(false, 0);
    let mut ppu = PPU::new();
    step_to(&mut ppu, &c, -1, 0);
    ppu.frame_done();
    ppu.step(&c);
    let n = 1 + step_to(&mut ppu, &c, -1, 0);
    assert_eq!(n, 341 * 262);
    assert!(ppu.frame_ready());
    ppu.frame_done();
    ppu.step(&c);
    let n = 1 + step_to(&mut ppu, &c, -1, 0);
    assert_eq!(n, 341 * 262);
}

#[test]
fn an_odd_frame_with_background_on_is_one_dot_short() {
    let mut c = cart(false, 0);
    let mut ppu = PPU::new();
    ppu.cpu_write(0x2001, 0x08, &mut c);
    step_to(&mut ppu, &c, -1, 0);
    let odd = ppu.regs.odd_frame;
    ppu.step(&c);
    let first = 1 + step_to(&mut ppu, &c, -1, 0);
    ppu.step(&c);
    let second = 1 + step_to(&mut ppu, &c, -1, 0);
    if odd {
        assert_eq!((first, second), (341 * 262 - 1, 341 * 262));
    } else {
        assert_eq!((first, second), (341 * 262, 341 * 262 - 1));
    }
}

#[test]
fn ninth_sprite_in_range_sets_overflow() {
    let c = cart(false, 0);
    let mut ppu = PPU::new();
    ppu.regs.mask = 0x18;
    for i in 0..9 {
        ppu.oam[i * 4] = 20;
        ppu.oam[i * 4 + 3] = (i * 8) as u8;
    }
    for i in 9..64 {
        ppu.oam[i * 4] = 0xF0;
    }
    step_to(&mut ppu, &c, 19, 258);
    assert_eq!(ppu.regs.status & 0x20, 0);
    assert_eq!(ppu.scanline_sprites.len(), 0);
    step_to(&mut ppu, &c, 20, 258);
    assert_eq!(ppu.regs.status & 0x20, 0x20);
    assert_eq!(ppu.scanline_sprites.len(), 8);
    assert!(ppu.regs.sprite_zero_on_line);
    assert_eq!(ppu.scanline_sprites[7].x, 56);
}

#[test]
fn eight_sprites_in_range_do_not_overflow() {
    let c = cart(false, 0);
    let mut ppu = PPU::new();
    ppu.regs.mask = 0x18;
    for i in 0..64 {
        ppu.oam[i * 4] = if i % 8 == 1 { 20 } else { 0xF0 };
    }
    step_to(&mut ppu, &c, 28, 0);
    assert_eq!(ppu.regs.status & 0x20, 0);
    step_to(&mut ppu, &c, 27, 258);
    assert_eq!(ppu.regs.status & 0x20, 0);
}

#[test]
fn tall_sprites_stay_in_range_for_16_lines() {
    let mut c = cart(false, 0);
    let mut ppu = PPU::new();
    ppu.cpu_write(0x2000, 0x20, &mut c);
    ppu.cpu_write(0x2001, 0x10, &mut c);
    for i in 0..64 {
        ppu.oam[i * 4] = 0xF0;
    }
    ppu.oam[4] = 50;
    step_to(&mut ppu, &c, 65, 258);
    assert_eq!(ppu.scanline_sprites.len(), 1);
    assert!(!ppu.regs.sprite_zero_on_line);
    step_to(&mut ppu, &c, 66, 258);
    assert_eq!(ppu.scanline_sprites.len(), 0);
}

#[test]
fn sprites_are_not_evaluated_while_rendering_is_off() {
    let c = cart(false, 0);
    let mut ppu = PPU::new();
    for i in 0..64 {
        ppu.oam[i * 4] = 20;
    }
    step_to(&mut ppu, &c, 30, 0);
    assert_eq!(ppu.regs.status & 0x20, 0);
    assert_eq!(ppu.scanline_sprites.len(), 0);
    ppu.regs.mask = 0x08;
    step_to(&mut ppu, &c, 40, 0);
    assert_eq!(ppu.regs.status & 0x20, 0);
    step_to(&mut ppu, &c, -1, 2);
    step_to(&mut ppu, &c, 19, 258);
    assert_eq!(ppu.regs.status & 0x20, 0);
    step_to(&mut ppu, &c, 20, 258);
    assert_eq!(ppu.regs.status & 0x20, 0x20);
}

fn solid_tile(c: &mut Cartridge, table: u16, tile: u16, lo: u8, hi: u8) {
    for row in 0..8 {
        c.write_chr(table + tile * 16 + row, lo);
        c.write_chr(table + tile * 16 + row + 8, hi);
    }
}

fn pixel(ppu: &PPU, x: usize, y: usize) -> (u8, u8, u8) {
    let f = ppu.get_frame_buffer();
    let at = (y * 256 + x) * 3;
    (f[at], f[at + 1], f[at + 2])
}

#[test]
fn sprite_pixels_are_drawn_with_their_palette() {
    let mut c = cart(false, 0);
    let mut ppu = PPU::new();
    solid_tile(&mut c, 0, 1, 0xF0, 0x00);
    ppu.ppu_write(0x3F00, 0x0D, &mut c);
    ppu.ppu_write(0x3F15, 0x16, &mut c);
    for i in 0..64 {
        ppu.oam[i * 4] = 0xF0;
    }
    ppu.oam[0] = 9;
    ppu.oam[1] = 1;
    ppu.oam[2] = 0x01;
    ppu.oam[3] = 100;
    ppu.cpu_write(0x2001, 0x14, &mut c);
    step_to(&mut ppu, &c, 30, 0);
    assert_eq!(pixel(&ppu, 100, 9), (0, 0, 0));
    assert_eq!(pixel(&ppu, 100, 10), (152, 34, 32));
    assert_eq!(pixel(&ppu, 103, 17), (152, 34, 32));
    assert_eq!(pixel(&ppu, 104, 12), (0, 0, 0));
    assert_eq!(pixel(&ppu, 100, 18), (0, 0, 0));
    assert_eq!(pixel(&ppu, 99, 12), (0, 0, 0));
}

#[test]
fn horizontal_flip_reverses_the_sprite_row() {
    let mut c = cart(false, 0);
    let mut ppu = PPU::new();
    solid_tile(&mut c, 0, 1, 0xF0, 0x00);
    ppu.ppu_write(0x3F11, 0x16, &mut c);
    for i in 0..64 {
        ppu.oam[i * 4] = 0xF0;
    }
    ppu.oam[0] = 9;
    ppu.oam[1] = 1;
    ppu.oam[2] = 0x40;
    ppu.oam[3] = 100;
    ppu.cpu_write(0x2001, 0x14, &mut c);
    step_to(&mut ppu, &c, 30, 0);
    assert_eq!(pixel(&ppu, 100, 10), (84, 84, 84));
    assert_eq!(pixel(&ppu, 104, 10), (152, 34, 32));
    assert_eq!(pixel(&ppu, 107, 10), (152, 34, 32));
}

#[test]
fn background_tiles_are_drawn_and_sprite_zero_hits() {
    let mut c = cart(false, 0);
    let mut ppu = PPU::new();
    solid_tile(&mut c, 0, 2, 0xFF, 0x00);
    solid_tile(&mut c, 0, 1, 0xFF, 0xFF);
    for i in 0..960u16 {
        ppu.ppu_write(0x2000 + i, 2, &mut c);
    }
    ppu.ppu_write(0x3F01, 0x21, &mut c);
    ppu.ppu_write(0x3F13, 0x16, &mut c);
    for i in 0..64 {
        ppu.oam[i * 4] = 0xF0;
    }
    ppu.oam[0] = 40;
    ppu.oam[1] = 1;
    ppu.oam[2] = 0x00;
    ppu.oam[3] = 64;
    ppu.cpu_write(0x2001, 0x1E, &mut c);
    step_to(&mut ppu, &c, -1, 0);
    ppu.frame_done();
    step_to(&mut ppu, &c, 41, 0);
    assert_eq!(ppu.regs.status & 0x40, 0);
    step_to(&mut ppu, &c, 42, 0);
    assert_eq!(ppu.regs.status & 0x40, 0x40);
    step_to(&mut ppu, &c, 100, 0);
    assert_eq!(pixel(&ppu, 10, 10), (76, 154, 236));
    assert_eq!(pixel(&ppu, 200, 90), (76, 154, 236));
    assert_eq!(pixel(&ppu, 64, 41), (152, 34, 32));
    assert_eq!(pixel(&ppu, 71, 48), (152, 34, 32));
    assert_eq!(pixel(&ppu, 72, 48), (76, 154, 236));
}

#[test]
fn sprites_behind_the_background_are_hidden_by_opaque_background() {
    let mut c = cart(false, 0);
    let mut ppu = PPU::new();
    solid_tile(&mut c, 0, 2, 0xFF, 0x00);
    solid_tile(&mut c, 0, 1, 0xFF, 0xFF);
    for i in 0..960u16 {
        ppu.ppu_write(0x2000 + i, 2, &mut c);
    }
    ppu.ppu_write(0x3F01, 0x21, &mut c);
    ppu.ppu_write(0x3F13, 0x16, &mut c);
    for i in 0..64 {
        ppu.oam[i * 4] = 0xF0;
    }
    ppu.oam[0] = 40;
    ppu.oam[1] = 1;
    ppu.oam[2] = 0x20;
    ppu.oam[3] = 64;
    ppu.cpu_write(0x2001, 0x1E, &mut c);
    step_to(&mut ppu, &c, -1, 0);
    step_to(&mut ppu, &c, 100, 0);
    assert_eq!(pixel(&ppu, 64, 41), (76, 154, 236));
    assert_eq!(ppu.regs.status & 0x40, 0x40);
}

#[test]
fn left_column_masks_hide_the_first_eight_pixels() {
    let mut c = cart(false, 0);
    let mut ppu = PPU::new();
    solid_tile(&mut c, 0, 2, 0xFF, 0x00);
    for i in 0..960u16 {
        ppu.ppu_write(0x2000 + i, 2, &mut c);
    }
    ppu.ppu_write(0x3F00, 0x0D, &mut c);
    ppu.ppu_write(0x3F01, 0x21, &mut c);
    ppu.cpu_write(0x2001, 0x08, &mut c);
    step_to(&mut ppu, &c, -1, 0);
    step_to(&mut ppu, &c, 50, 0);
    assert_eq!(pixel(&ppu, 7, 20), (0, 0, 0));
    assert_eq!(pixel(&ppu, 8, 20), (76, 154, 236));
}

#[test]
fn reset_clears_registers_and_keeps_memory() {
    let mut c = cart(false, 0);
    let mut ppu = PPU::new();
    ppu.ppu_write(0x2000, 0x42, &mut c);
    ppu.cpu_write(0x2000, 0x80, &mut c);
    ppu.cpu_write(0x2001, 0x1E, &mut c);
    step_to(&mut ppu, &c, 5, 5);
    ppu.reset();
    assert_eq!(ppu.regs.ctrl, 0);
    assert_eq!(ppu.regs.mask, 0);
    assert_eq!(ppu.regs.scanline, 0);
    assert_eq!(ppu.regs.cycle, 0);
    assert!(!ppu.regs.write_toggle);
    assert_eq!(ppu.vram[0], 0x42);
}

#[test]
fn background_tiles_line_up_with_their_columns() {
    let mut c = cart(false, 0);
    let mut ppu = PPU::new();
    solid_tile(&mut c, 0, 1, 0xFF, 0x00);
    solid_tile(&mut c, 0, 2, 0x00, 0xFF);
    // Row 2 of the nametable: tile 1 in column 0, tile 2 in column 1, tile 1
    // in column 31.
    ppu.ppu_write(0x2040, 1, &mut c);
    ppu.ppu_write(0x2041, 2, &mut c);
    ppu.ppu_write(0x205F, 1, &mut c);
    ppu.ppu_write(0x3F00, 0x0D, &mut c);
    ppu.ppu_write(0x3F01, 0x21, &mut c);
    ppu.ppu_write(0x3F02, 0x16, &mut c);
    ppu.cpu_write(0x2001, 0x0A, &mut c);
    step_to(&mut ppu, &c, -1, 0);
    step_to(&mut ppu, &c, 30, 0);
    for y in 16..24 {
        for x in 0..8 {
            assert_eq!(pixel(&ppu, x, y), (76, 154, 236));
        }
        for x in 8..16 {
            assert_eq!(pixel(&ppu, x, y), (152, 34, 32));
        }
        for x in 16..248 {
            assert_eq!(pixel(&ppu, x, y), (0, 0, 0));
        }
        for x in 248..256 {
            assert_eq!(pixel(&ppu, x, y), (76, 154, 236));
        }
    }
    assert_eq!(pixel(&ppu, 0, 15), (0, 0, 0));
    assert_eq!(pixel(&ppu, 0, 24), (0, 0, 0));
}

#[test]
fn attribute_bytes_choose_the_background_palette() {
    let mut c = cart(false, 0);
    let mut ppu = PPU::new();
    solid_tile(&mut c, 0, 1, 0xFF, 0x00);
    for i in 0..960u16 {
        ppu.ppu_write(0x2000 + i, 1, &mut c);
    }
    // Top-left quadrant palette 0, top-right 1, bottom-left 2, bottom-right 3.
    for i in 0..64u16 {
        ppu.ppu_write(0x23C0 + i, 0xE4, &mut c);
    }
    ppu.ppu_write(0x3F01, 0x01, &mut c);
    ppu.ppu_write(0x3F05, 0x02, &mut c);
    ppu.ppu_write(0x3F09, 0x03, &mut c);
    ppu.ppu_write(0x3F0D, 0x04, &mut c);
    ppu.cpu_write(0x2001, 0x0A, &mut c);
    step_to(&mut ppu, &c, -1, 0);
    step_to(&mut ppu, &c, 40, 0);
    assert_eq!(pixel(&ppu, 3, 3), (0, 30, 116));
    assert_eq!(pixel(&ppu, 19, 3), (8, 16, 144));
    assert_eq!(pixel(&ppu, 3, 19), (48, 0, 136));
    assert_eq!(pixel(&ppu, 19, 19), (68, 0, 100));
    assert_eq!(pixel(&ppu, 35, 3), (0, 30, 116));
}

#[test]
fn fine_x_scroll_shifts_the_background_left() {
    let mut c = cart(false, 0);
    let mut ppu = PPU::new();
    solid_tile(&mut c, 0, 1, 0xFF, 0x00);
    ppu.ppu_write(0x2041, 1, &mut c);
    ppu.ppu_write(0x3F00, 0x0D, &mut c);
    ppu.ppu_write(0x3F01, 0x21, &mut c);
    ppu.cpu_write(0x2001, 0x0A, &mut c);
    ppu.cpu_write(0x2005, 0x03, &mut c);
    ppu.cpu_write(0x2005, 0x00, &mut c);
    step_to(&mut ppu, &c, -1, 0);
    step_to(&mut ppu, &c, 30, 0);
    assert_eq!(pixel(&ppu, 4, 18), (0, 0, 0));
    assert_eq!(pixel(&ppu, 5, 18), (76, 154, 236));
    assert_eq!(pixel(&ppu, 12, 18), (76, 154, 236));
    assert_eq!(pixel(&ppu, 13, 18), (0, 0, 0));
}
