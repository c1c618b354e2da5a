use zetr::bus::Bus;
use zetr::cartridge::Cartridge;
use zetr::cpu::CPU;
use zetr::ppu::PPU;

/// Opcode, length in bytes, base cycles, and whether the instruction moves
/// the program counter itself.
const DOCUMENTED: [(u8, u16, u8, bool); 151] = [
    (0x00, 1, 7, true), (0x01, 2, 6, false), (0x05, 2, 3, false), (0x06, 2, 5, false),
    (0x08, 1, 3, false), (0x09, 2, 2, false), (0x0A, 1, 2, false), (0x0D, 3, 4, false),
    (0x0E, 3, 6, false), (0x10, 2, 2, true), (0x11, 2, 5, false), (0x15, 2, 4, false),
    (0x16, 2, 6, false), (0x18, 1, 2, false), (0x19, 3, 4, false), (0x1D, 3, 4, false),
    (0x1E, 3, 7, false), (0x20, 3, 6, true), (0x21, 2, 6, false), (0x24, 2, 3, false),
    (0x25, 2, 3, false), (0x26, 2, 5, false), (0x28, 1, 4, false), (0x29, 2, 2, false),
    (0x2A, 1, 2, false), (0x2C, 3, 4, false), (0x2D, 3, 4, false), (0x2E, 3, 6, false),
    (0x30, 2, 2, true), (0x31, 2, 5, false), (0x35, 2, 4, false), (0x36, 2, 6, false),
    (0x38, 1, 2, false), (0x39, 3, 4, false), (0x3D, 3, 4, false), (0x3E, 3, 7, false),
    (0x40, 1, 6, true), (0x41, 2, 6, false), (0x45, 2, 3, false), (0x46, 2, 5, false),
    (0x48, 1, 3, false), (0x49, 2, 2, false), (0x4A, 1, 2, false), (0x4C, 3, 3, true),
    (0x4D, 3, 4, false), (0x4E, 3, 6, false), (0x50, 2, 2, true), (0x51, 2, 5, false),
    (0x55, 2, 4, false), (0x56, 2, 6, false), (0x58, 1, 2, false), (0x59, 3, 4, false),
    (0x5D, 3, 4, false), (0x5E, 3, 7, false), (0x60, 1, 6, true), (0x61, 2, 6, false),
    (0x65, 2, 3, false), (0x66, 2, 5, false), (0x68, 1, 4, false), (0x69, 2, 2, false),
    (0x6A, 1, 2, false), (0x6C, 3, 5, true), (0x6D, 3, 4, false), (0x6E, 3, 6, false),
    (0x70, 2, 2, true), (0x71, 2, 5, false), (0x75, 2, 4, false), (0x76, 2, 6, false),
    (0x78, 1, 2, false), (0x79, 3, 4, false), (0x7D, 3, 4, false), (0x7E, 3, 7, false),
    (0x81, 2, 6, false), (0x84, 2, 3, false), (0x85, 2, 3, false), (0x86, 2, 3, false),
    (0x88, 1, 2, false), (0x8A, 1, 2, false), (0x8C, 3, 4, false), (0x8D, 3, 4, false),
    (0x8E, 3, 4, false), (0x90, 2, 2, true), (0x91, 2, 6, false), (0x94, 2, 4, false),
    (0x95, 2, 4, false), (0x96, 2, 4, false), (0x98, 1, 2, false), (0x99, 3, 5, false),
    (0x9A, 1, 2, false), (0x9D, 3, 5, false), (0xA0, 2, 2, false), (0xA1, 2, 6, false),
    (0xA2, 2, 2, false), (0xA4, 2, 3, false), (0xA5, 2, 3, false), (0xA6, 2, 3, false),
    (0xA8, 1, 2, false), (0xA9, 2, 2, false), (0xAA, 1, 2, false), (0xAC, 3, 4, false),
    (0xAD, 3, 4, false), (0xAE, 3, 4, false), (0xB0, 2, 2, true), (0xB1, 2, 5, false),
    (0xB4, 2, 4, false), (0xB5, 2, 4, false), (0xB6, 2, 4, false), (0xB8, 1, 2, false),
    (0xB9, 3, 4, false), (0xBA, 1, 2, false), (0xBC, 3, 4, false), (0xBD, 3, 4, false),
    (0xBE, 3, 4, false), (0xC0, 2, 2, false), (0xC1, 2, 6, false), (0xC4, 2, 3, false),
    (0xC5, 2, 3, false), (0xC6, 2, 5, false), (0xC8, 1, 2, false), (0xC9, 2, 2, false),
    (0xCA, 1, 2, false), (0xCC, 3, 4, false), (0xCD, 3, 4, false), (0xCE, 3, 6, false),
    (0xD0, 2, 2, true), (0xD1, 2, 5, false), (0xD5, 2, 4, false), (0xD6, 2, 6, false),
    (0xD8, 1, 2, false), (0xD9, 3, 4, false), (0xDD, 3, 4, false), (0xDE, 3, 7, false),
    (0xE0, 2, 2, false), (0xE1, 2, 6, false), (0xE4, 2, 3, false), (0xE5, 2, 3, false),
    (0xE6, 2, 5, false), (0xE8, 1, 2, false), (0xE9, 2, 2, false), (0xEA, 1, 2, false),
    (0xEC, 3, 4, false), (0xED, 3, 4, false), (0xEE, 3, 6, false), (0xF0, 2, 2, true),
    (0xF1, 2, 5, false), (0xF5, 2, 4, false), (0xF6, 2, 6, false), (0xF8, 1, 2, false),
    (0xF9, 3, 4, false), (0xFD, 3, 4, false), (0xFE, 3, 7, false),
];

fn machine_with(opcode: u8) -> (CPU, Bus) {
    let mut bus = Bus::new(PPU::new(), Cartridge::dummy(), vec![0; 2048]);
    bus.write(0x0200, opcode);
    bus.write(0x0201, 0x10);
    bus.write(0x0202, 0x03);
    let mut cpu = CPU::new();
    cpu.pc = 0x0200;
    (cpu, bus)
}

#[test]
fn every_documented_opcode_has_its_length_and_cost() {
    for (opcode, length, cycles, transfers) in DOCUMENTED {
        let (mut cpu, mut bus) = machine_with(opcode);
        let spent = cpu.step(&mut bus);
        if transfers {
            assert!(spent >= cycles && spent <= cycles + 2, "opcode {:02X}", opcode);
        } else {
            assert_eq!(spent, cycles, "opcode {:02X}", opcode);
            assert_eq!(cpu.pc, 0x0200 + length, "opcode {:02X}", opcode);
        }
        assert_eq!(cpu.cycles, spent as u64);
    }
}

#[test]
fn every_other_opcode_is_a_two_cycle_one_byte_nop() {
    let mut seen = 0;
    for opcode in 0..=255u8 {
        if DOCUMENTED.iter().any(|row| row.0 == opcode) {
            continue;
        }
        seen += 1;
        let (mut cpu, mut bus) = machine_with(opcode);
        let before = cpu;
        assert_eq!(cpu.step(&mut bus), 2);
        assert_eq!(cpu.pc, 0x0201);
        assert_eq!((cpu.a, cpu.x, cpu.y, cpu.sp, cpu.status), (before.a, before.x, before.y, before.sp, before.status));
    }
    assert_eq!(seen, 105);
}

#[test]
fn untaken_branches_move_past_their_two_bytes() {
    for opcode in [0x90u8, 0xD0, 0x10, 0x50] {
        let (mut cpu, mut bus) = machine_with(opcode);
        cpu.status = 0xFF;
        assert_eq!(cpu.step(&mut bus), 2);
        assert_eq!(cpu.pc, 0x0202);
    }
    for opcode in [0xB0u8, 0xF0, 0x30, 0x70] {
        let (mut cpu, mut bus) = machine_with(opcode);
        cpu.status = 0x00;
        assert_eq!(cpu.step(&mut bus), 2);
        assert_eq!(cpu.pc, 0x0202);
    }
}
