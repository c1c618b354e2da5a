use zetr::bits::{hi, lo, make_word, reverse};
use zetr::cartridge::{Cartridge, LoadError, Mirroring};
use zetr::palette::color_of;

fn image(prg_units: u8, chr_units: u8, flags6: u8, flags7: u8) -> Vec<u8> {
    let mut data = vec![0x4E, 0x45, 0x53, 0x1A, prg_units, chr_units, flags6, flags7];
    data.resize(16, 0);
    if flags6 & 0x04 != 0 {
        data.extend(std::iter::repeat(0xEE).take(512));
    }
    for i in 0..(prg_units as usize * 16384) {
        data.push((i % 251) as u8);
    }
    for i in 0..(chr_units as usize * 8192) {
        data.push((i % 241) as u8 ^ 0x55);
    }
    data
}

#[test]
fn loads_a_16k_image() {
    let cart = Cartridge::new(&image(1, 1, 0, 0)).unwrap();
    assert_eq!(cart.prg_rom.len(), 16384);
    assert_eq!(cart.chr_rom.len(), 8192);
    assert_eq!(cart.mapper, 0);
    assert_eq!(cart.mirroring, Mirroring::Horizontal);
    assert!(!cart.chr_ram);
    assert_eq!(cart.prg_rom[0], 0);
    assert_eq!(cart.prg_rom[300], (300 % 251) as u8);
    assert_eq!(cart.chr_rom[7], 7 ^ 0x55);
}

#[test]
fn bit_0_of_flags_selects_vertical_mirroring() {
    let cart = Cartridge::new(&image(1, 1, 1, 0)).unwrap();
    assert_eq!(cart.mirroring, Mirroring::Vertical);
}

#[test]
fn trainer_is_skipped() {
    let cart = Cartridge::new(&image(1, 1, 0x04, 0)).unwrap();
    assert_eq!(cart.prg_rom[0], 0);
    assert_eq!(cart.prg_rom[1], 1);
    assert_eq!(cart.prg_rom.len(), 16384);
}

#[test]
fn no_chr_rom_means_8k_of_chr_ram() {
    let mut cart = Cartridge::new(&image(2, 0, 0, 0)).unwrap();
    assert!(cart.chr_ram);
    assert_eq!(cart.chr_rom.len(), 8192);
    assert_eq!(cart.read_chr(0x0123), 0);
    cart.write_chr(0x0123, 0xAB);
    assert_eq!(cart.read_chr(0x0123), 0xAB);
}

#[test]
fn chr_rom_ignores_writes() {
    let mut cart = Cartridge::new(&image(1, 1, 0, 0)).unwrap();
    let before = cart.read_chr(0x0010);
    cart.write_chr(0x0010, before.wrapping_add(1));
    assert_eq!(cart.read_chr(0x0010), before);
}

#[test]
fn bad_magic_is_refused() {
    let mut data = image(1, 1, 0, 0);
    data[3] = 0x1B;
    assert_eq!(Cartridge::new(&data).err(), Some(LoadError::BadMagic));
}

#[test]
fn short_header_is_truncated() {
    assert_eq!(Cartridge::new(&[0x4E, 0x45, 0x53, 0x1A]).err(), Some(LoadError::Truncated));
    assert_eq!(Cartridge::new(&[]).err(), Some(LoadError::Truncated));
}

#[test]
fn short_prg_is_truncated() {
    let mut data = image(1, 1, 0, 0);
    data.truncate(16 + 16384 + 8191);
    assert_eq!(Cartridge::new(&data).err(), Some(LoadError::Truncated));
    let mut data = image(1, 0, 0, 0);
    data.truncate(16 + 100);
    assert_eq!(Cartridge::new(&data).err(), Some(LoadError::Truncated));
}

#[test]
fn other_mappers_are_refused() {
    assert_eq!(Cartridge::new(&image(1, 1, 0x10, 0)).err(), Some(LoadError::UnsupportedMapper));
    assert_eq!(Cartridge::new(&image(1, 1, 0, 0x40)).err(), Some(LoadError::UnsupportedMapper));
    assert!(Cartridge::new(&image(1, 1, 0, 0x0F)).is_ok());
}

#[test]
fn a_16k_program_is_mirrored() {
    let cart = Cartridge::new(&image(1, 1, 0, 0)).unwrap();
    assert_eq!(cart.read_prg(0x0005), 5);
    assert_eq!(cart.read_prg(0x4005), 5);
    assert_eq!(cart.read_prg(0x7FFF), (0x3FFF % 251) as u8);
}

#[test]
fn a_32k_program_is_read_directly() {
    let cart = Cartridge::new(&image(2, 1, 0, 0)).unwrap();
    assert_eq!(cart.read_prg(0x4005), (0x4005 % 251) as u8);
    assert_eq!(cart.read_prg(0x7FFF), (0x7FFF % 251) as u8);
}

#[test]
fn program_rom_ignores_writes() {
    let mut cart = Cartridge::new(&image(1, 1, 0, 0)).unwrap();
    cart.write_prg(0x0005, 0xFF);
    assert_eq!(cart.read_prg(0x0005), 5);
}

#[test]
fn dummy_cartridge_reads_zero() {
    let mut cart = Cartridge::dummy();
    assert_eq!(cart.read_prg(0x1234), 0);
    assert_eq!(cart.read_chr(0x0234), 0);
    cart.write_chr(0x0234, 9);
    assert_eq!(cart.read_chr(0x0234), 0);
    assert_eq!(cart.mirroring, Mirroring::Horizontal);
}

#[test]
fn words_and_bytes() {
    assert_eq!(make_word(0x12, 0x34), 0x1234);
    assert_eq!(lo(0xABCD), 0xCD);
    assert_eq!(hi(0xABCD), 0xAB);
}

#[test]
fn reverse_matches_std() {
    for b in 0..=255u8 {
        assert_eq!(reverse(b), b.reverse_bits());
    }
    assert_eq!(reverse(0x01), 0x80);
    assert_eq!(reverse(0xB0), 0x0D);
}

#[test]
fn master_palette_entries() {
    assert_eq!(color_of(0x00), (84, 84, 84));
    assert_eq!(color_of(0x01), (0, 30, 116));
    assert_eq!(color_of(0x0D), (0, 0, 0));
    assert_eq!(color_of(0x20), (236, 238, 236));
    assert_eq!(color_of(0x3D), (160, 162, 160));
    assert_eq!(color_of(0x3F), (0, 0, 0));
    assert_eq!(color_of(0x41), (0, 30, 116));
}
