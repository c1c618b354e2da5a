use zetr::bus::Bus;
use zetr::cartridge::{Cartridge, LoadError};
use zetr::nes::{Key, NES};
use zetr::ppu::PPU;

fn image(code: &[u8], nmi: &[u8]) -> Vec<u8> {
    let mut data = vec![0x4E, 0x45, 0x53, 0x1A, 1, 1, 0, 0];
    data.resize(16 + 16384 + 8192, 0xEA);
    for (i, b) in code.iter().enumerate() {
        data[16 + i] = *b;
    }
    for (i, b) in nmi.iter().enumerate() {
        data[16 + 0x1000 + i] = *b;
    }
    // NMI vector $9000, reset vector $8000, IRQ vector $8000.
    data[16 + 0x3FFA] = 0x00;
    data[16 + 0x3FFB] = 0x90;
    data[16 + 0x3FFC] = 0x00;
    data[16 + 0x3FFD] = 0x80;
    data[16 + 0x3FFE] = 0x00;
    data[16 + 0x3FFF] = 0x80;
    data
}

fn console(code: &[u8], nmi: &[u8]) -> NES {
    let mut nes = NES::new();
    nes.load_cartridge(&image(code, nmi)).unwrap();
    nes
}

fn plain_bus() -> Bus {
    Bus::new(PPU::new(), Cartridge::dummy(), vec![0; 2048])
}

#[test]
fn ram_is_mirrored_four_times() {
    let mut bus = plain_bus();
    bus.write(0x0001, 0xAB);
    assert_eq!(bus.read(0x0801), 0xAB);
    assert_eq!(bus.read(0x1001), 0xAB);
    assert_eq!(bus.read(0x1801), 0xAB);
    bus.write(0x1FFF, 0xCD);
    assert_eq!(bus.read(0x07FF), 0xCD);
}

#[test]
fn ppu_registers_are_mirrored_every_eight_bytes() {
    let mut bus = plain_bus();
    bus.write(0x2001, 0x1E);
    assert_eq!(bus.ppu.regs.mask, 0x1E);
    bus.write(0x3FF9, 0x01);
    assert_eq!(bus.ppu.regs.mask, 0x01);
    bus.ppu.regs.status = 0x80;
    assert_eq!(bus.read(0x3FFA), 0x80);
    assert_eq!(bus.ppu.regs.status, 0x00);
}

#[test]
fn unmapped_addresses_read_zero() {
    let mut bus = plain_bus();
    bus.write(0x4000, 0xFF);
    bus.write(0x4017, 0xFF);
    bus.write(0x5000, 0xFF);
    assert_eq!(bus.read(0x4000), 0);
    assert_eq!(bus.read(0x4014), 0);
    assert_eq!(bus.read(0x4015), 0);
    assert_eq!(bus.read(0x4017), 0);
    assert_eq!(bus.read(0x401F), 0);
    assert_eq!(bus.read(0x5000), 0);
    assert_eq!(bus.read(0x8000), 0);
}

#[test]
fn cartridge_is_read_above_8000() {
    let cart = Cartridge::new(&image(&[0x11, 0x22], &[])).unwrap();
    let mut bus = Bus::new(PPU::new(), cart, vec![0; 2048]);
    assert_eq!(bus.read(0x8000), 0x11);
    assert_eq!(bus.read(0xC001), 0x22);
    assert_eq!(bus.read(0xFFFD), 0x80);
    bus.write(0x8000, 0x99);
    assert_eq!(bus.read(0x8000), 0x11);
}

#[test]
fn controller_reads_a_first_from_bit_0() {
    let mut nes = NES::new();
    nes.set_controller_state(0b1010_0101);
    nes.cpu_write(0x4016, 1);
    nes.cpu_write(0x4016, 0);
    let mut bits = Vec::new();
    for _ in 0..8 {
        bits.push(nes.cpu_read(0x4016));
    }
    assert_eq!(bits, vec![1, 0, 1, 0, 0, 1, 0, 1]);
    assert_eq!(nes.cpu_read(0x4016), 0);
}

#[test]
fn controller_returns_a_while_the_strobe_is_high() {
    let mut nes = NES::new();
    nes.set_controller_state(0x01);
    nes.cpu_write(0x4016, 1);
    for _ in 0..10 {
        assert_eq!(nes.cpu_read(0x4016), 1);
    }
    nes.set_controller_state(0x02);
    assert_eq!(nes.cpu_read(0x4016), 0);
    nes.cpu_write(0x4016, 0);
    assert_eq!(nes.cpu_read(0x4016), 0);
    assert_eq!(nes.cpu_read(0x4016), 1);
}

#[test]
fn buttons_set_after_the_strobe_fell_do_not_reach_the_snapshot() {
    let mut nes = NES::new();
    nes.set_controller_state(0x08);
    nes.cpu_write(0x4016, 1);
    nes.cpu_write(0x4016, 0);
    nes.set_controller_state(0xFF);
    nes.set_controller_state(0xFF);
    assert_eq!(nes.bus.ports.controller1_shift, 0x08);
    nes.cpu_write(0x4016, 1);
    nes.cpu_write(0x4016, 0);
    assert_eq!(nes.bus.ports.controller1_shift, 0xFF);
}

#[test]
fn keys_map_to_buttons() {
    let mut nes = NES::new();
    let keys = [
        (Key::Z, 0x01u8),
        (Key::X, 0x02),
        (Key::A, 0x04),
        (Key::S, 0x08),
        (Key::Up, 0x10),
        (Key::Down, 0x20),
        (Key::Left, 0x40),
        (Key::Right, 0x80),
    ];
    let mut held = 0u8;
    for (key, mask) in keys {
        nes.handle_key_down(key);
        held |= mask;
        assert_eq!(nes.bus.ports.controller1, held);
    }
    nes.handle_key_down(Key::Other);
    assert_eq!(nes.bus.ports.controller1, 0xFF);
    nes.handle_key_up(Key::S);
    assert_eq!(nes.bus.ports.controller1, 0xF7);
    nes.handle_key_up(Key::Other);
    assert_eq!(nes.bus.ports.controller1, 0xF7);
    nes.handle_key_up(Key::Z);
    assert_eq!(nes.bus.ports.controller1, 0xF6);
}

#[test]
fn a_console_without_a_cartridge_does_not_run() {
    let mut nes = NES::new();
    nes.run_frame();
    assert_eq!(nes.control.cycles, 0);
    assert_eq!(nes.cpu_cycles(), 0);
    assert!(!nes.frame_ready());
    nes.reset();
    assert_eq!(nes.cpu.pc, 0);
}

#[test]
fn a_refused_image_leaves_the_console_as_it_was() {
    let mut nes = console(&[0x4C, 0x00, 0x80], &[]);
    nes.run_frame();
    let cycles = nes.control.cycles;
    let pc = nes.cpu.pc;
    assert_eq!(nes.load_cartridge(&[1, 2, 3]), Err(LoadError::Truncated));
    let mut bad = image(&[], &[]);
    bad[0] = 0;
    assert_eq!(nes.load_cartridge(&bad), Err(LoadError::BadMagic));
    let mut other = image(&[], &[]);
    other[6] = 0x10;
    assert_eq!(nes.load_cartridge(&other), Err(LoadError::UnsupportedMapper));
    assert_eq!(nes.control.cycles, cycles);
    assert_eq!(nes.cpu.pc, pc);
    assert!(nes.control.loaded);
}

#[test]
fn load_resets_through_the_reset_vector() {
    let nes = console(&[0xEA], &[]);
    assert_eq!(nes.cpu.pc, 0x8000);
    assert_eq!(nes.cpu.sp, 0xFD);
    assert_eq!(nes.cpu.status, 0x24);
    assert_eq!(nes.control.cycles, 0);
    assert!(nes.control.loaded);
}

#[test]
fn load_reset_load_reset_gives_the_same_state() {
    let code = [0xA9, 0x1E, 0x8D, 0x01, 0x20, 0x4C, 0x05, 0x80];
    let mut a = console(&code, &[0x40]);
    a.reset();
    let mut b = console(&code, &[0x40]);
    b.run_frame();
    b.set_controller_state(0x55);
    b.load_cartridge(&image(&code, &[0x40])).unwrap();
    b.reset();
    b.load_cartridge(&image(&code, &[0x40])).unwrap();
    b.reset();
    assert_eq!(a.cpu, b.cpu);
    assert_eq!(a.control, b.control);
    assert_eq!(a.bus.ppu.regs, b.bus.ppu.regs);
    assert_eq!(a.bus.ppu.vram, b.bus.ppu.vram);
    assert_eq!(a.bus.ppu.oam, b.bus.ppu.oam);
    assert_eq!(a.bus.ppu.palette_ram, b.bus.ppu.palette_ram);
    assert_eq!(a.bus.ppu.frame_buffer, b.bus.ppu.frame_buffer);
    assert_eq!(a.bus.ram, b.bus.ram);
    assert_eq!(a.bus.ports, b.bus.ports);
}

#[test]
fn three_dots_for_each_cpu_cycle() {
    let mut nes = console(&[0xA9, 0x01, 0x4C, 0x00, 0x80], &[]);
    for k in 1..=1000u64 {
        nes.clock();
        let dots = nes.control.cycles;
        let cpu = nes.cpu_cycles();
        assert_eq!(dots, k);
        assert!(cpu * 3 <= dots && dots <= cpu * 3 + 2);
        assert_eq!(cpu, k / 3);
    }
}

#[test]
fn instructions_are_charged_their_cycles() {
    // LDA #1 (2), STA $10 (3), JMP $8000 (3): eight CPU cycles a round.
    let mut nes = console(&[0xA9, 0x01, 0x85, 0x10, 0x4C, 0x00, 0x80], &[]);
    for _ in 0..(3 * 8 * 5) {
        nes.clock();
    }
    assert_eq!(nes.cpu_cycles(), 40);
    assert_eq!(nes.cpu.cycles, 40);
    assert_eq!(nes.cpu.pc, 0x8000);
    assert_eq!(nes.control.stall, 0);
}

#[test]
fn run_frame_stops_at_the_end_of_the_frame_and_takes_it() {
    let mut nes = console(&[0x4C, 0x00, 0x80], &[]);
    nes.run_frame();
    assert!(!nes.frame_ready());
    assert_eq!(nes.bus.ppu.regs.scanline, -1);
    assert_eq!(nes.bus.ppu.regs.cycle, 0);
    assert_eq!(nes.control.cycles, 341 * 261);
    let before = nes.control.cycles;
    nes.run_frame();
    assert_eq!(nes.control.cycles - before, 341 * 262);
    assert_eq!(nes.get_frame_buffer().len(), 256 * 240 * 3);
}

#[test]
fn odd_frames_are_a_dot_shorter_with_the_background_on() {
    let mut nes = console(&[0xA9, 0x08, 0x8D, 0x01, 0x20, 0x4C, 0x05, 0x80], &[]);
    nes.run_frame();
    let mut lengths = Vec::new();
    for _ in 0..4 {
        let before = nes.control.cycles;
        nes.run_frame();
        lengths.push(nes.control.cycles - before);
    }
    lengths.sort();
    assert_eq!(lengths, vec![341 * 262 - 1, 341 * 262 - 1, 341 * 262, 341 * 262]);
}

#[test]
fn frame_done_clears_the_latch() {
    let mut nes = console(&[0x4C, 0x00, 0x80], &[]);
    while !nes.frame_ready() {
        nes.clock();
    }
    assert!(nes.frame_ready());
    nes.frame_done();
    assert!(!nes.frame_ready());
}

#[test]
fn one_nmi_is_delivered_each_frame() {
    // LDA #$01; STA $2001; LDA #$80; STA $2000; loop: JMP loop
    // NMI handler: INC $10; RTI
    let code = [0xA9, 0x01, 0x8D, 0x01, 0x20, 0xA9, 0x80, 0x8D, 0x00, 0x20, 0x4C, 0x0A, 0x80];
    let handler = [0xE6, 0x10, 0x40];
    let mut nes = console(&code, &handler);
    nes.run_frame();
    assert_eq!(nes.cpu_read(0x0010), 1);
    for frame in 2..=6u8 {
        nes.run_frame();
        assert_eq!(nes.cpu_read(0x0010), frame);
    }
    assert_eq!(nes.cpu.pc, 0x800A);
    assert_eq!(nes.cpu.sp, 0xFD);
}

#[test]
fn nmi_pushes_the_interrupted_pc_and_jumps_through_fffa() {
    let code = [0xA9, 0x80, 0x8D, 0x00, 0x20, 0x4C, 0x05, 0x80];
    // The handler loops on itself so that the stack can be inspected.
    let handler = [0x4C, 0x00, 0x90];
    let mut nes = console(&code, &handler);
    nes.run_frame();
    assert_eq!(nes.cpu.pc, 0x9000);
    assert_eq!(nes.cpu.sp, 0xFA);
    assert_eq!(nes.cpu_read(0x01FD), 0x80);
    assert_eq!(nes.cpu_read(0x01FC), 0x05);
    assert_eq!(nes.cpu_read(0x01FB) & 0x30, 0x20);
    assert_eq!(nes.cpu.status & 0x04, 0x04);
}

#[test]
fn nmi_is_not_masked_by_the_interrupt_flag() {
    let code = [0x78, 0xA9, 0x80, 0x8D, 0x00, 0x20, 0x4C, 0x06, 0x80];
    let handler = [0xE6, 0x10, 0x40];
    let mut nes = console(&code, &handler);
    nes.run_frame();
    nes.run_frame();
    assert_eq!(nes.cpu_read(0x0010), 2);
}

fn dma_stall(padding: usize) -> u64 {
    // Fill page 2 with a pattern, then three-cycle loads to choose the
    // parity, then LDA #$02; STA $4014; and a loop.
    let mut code = vec![0xA2, 0x00, 0x8A, 0x9D, 0x00, 0x02, 0xE8, 0xD0, 0xF9];
    for _ in 0..padding {
        code.extend_from_slice(&[0xA5, 0x00]);
    }
    let at = 0x8000 + code.len() as u16;
    code.extend_from_slice(&[0xA9, 0x02, 0x8D, 0x14, 0x40]);
    let spin = at + 5;
    code.extend_from_slice(&[0x4C, spin as u8, (spin >> 8) as u8]);
    let mut nes = console(&code, &[]);
    while !nes.bus.ports.dma_request {
        nes.clock();
    }
    // The first stolen cycle is the one after the write.
    let first_stolen = nes.cpu_cycles();
    let mut stalled = 0u64;
    loop {
        let active = nes.bus.ports.dma_request || nes.control.dma.transfer;
        let before = nes.cpu_cycles();
        nes.clock();
        if nes.cpu_cycles() != before {
            if active {
                stalled += 1;
            } else {
                break;
            }
        }
    }
    for i in 0..256usize {
        assert_eq!(nes.bus.ppu.oam[i], i as u8);
    }
    assert_eq!(nes.cpu.pc, spin);
    let expected = if first_stolen % 2 == 0 { 513 } else { 514 };
    assert_eq!(stalled, expected);
    stalled
}

#[test]
fn oam_dma_stalls_513_or_514_cycles() {
    let a = dma_stall(0);
    let b = dma_stall(1);
    let mut both = vec![a, b];
    both.sort();
    assert_eq!(both, vec![513, 514]);
}

#[test]
fn oam_dma_starts_at_the_oam_address_and_wraps() {
    let code = [
        0xA9, 0x07, 0x85, 0x00, 0xA9, 0x09, 0x85, 0xFF, 0xA9, 0x10, 0x8D, 0x03, 0x20, 0xA9, 0x00,
        0x8D, 0x14, 0x40, 0x4C, 0x12, 0x80,
    ];
    let mut nes = console(&code, &[]);
    for _ in 0..(3 * 600) {
        nes.clock();
    }
    assert!(!nes.control.dma.transfer);
    assert_eq!(nes.bus.ppu.oam[0x10], 0x07);
    assert_eq!(nes.bus.ppu.oam[0x0F], 0x09);
    assert_eq!(nes.bus.ppu.regs.oam_addr, 0x10);
}
