//! The opcode table of the 6502: which operation and addressing mode each
//! opcode selects, and the documented length and base cost of each.

use vstd::prelude::*;

verus! {

/// The operations of the documented instruction set.
#[derive(Clone, Copy, Debug, PartialEq, Eq, Structural)]
pub enum Op {
    Adc,
    And,
    Asl,
    Bcc,
    Bcs,
    Beq,
    Bmi,
    Bne,
    Bpl,
    Bvc,
    Bvs,
    Bit,
    Brk,
    Clc,
    Cld,
    Cli,
    Clv,
    Cmp,
    Cpx,
    Cpy,
    Dec,
    Dex,
    Dey,
    Eor,
    Inc,
    Inx,
    Iny,
    Jmp,
    Jsr,
    Lda,
    Ldx,
    Ldy,
    Lsr,
    Nop,
    Ora,
    Pha,
    Php,
    Pla,
    Plp,
    Rol,
    Ror,
    Rti,
    Rts,
    Sbc,
    Sec,
    Sed,
    Sei,
    Sta,
    Stx,
    Sty,
    Tax,
    Tay,
    Tsx,
    Txa,
    Txs,
    Tya,
}

/// The addressing modes.
#[derive(Clone, Copy, Debug, PartialEq, Eq, Structural)]
pub enum Mode {
    Implied,
    Accumulator,
    Immediate,
    ZeroPage,
    ZeroPageX,
    ZeroPageY,
    Absolute,
    AbsoluteX,
    AbsoluteY,
    Indirect,
    IndexedIndirect,
    IndirectIndexed,
    Relative,
}

/// The operation and addressing mode of an opcode. An opcode outside the
/// documented set runs as a one-byte `NOP`.
pub open spec fn decode(opcode: u8) -> (Op, Mode) {
    match opcode {
        0x00 => (Op::Brk, Mode::Implied),
        0x01 => (Op::Ora, Mode::IndexedIndirect),
        0x05 => (Op::Ora, Mode::ZeroPage),
        0x06 => (Op::Asl, Mode::ZeroPage),
        0x08 => (Op::Php, Mode::Implied),
        0x09 => (Op::Ora, Mode::Immediate),
        0x0A => (Op::Asl, Mode::Accumulator),
        0x0D => (Op::Ora, Mode::Absolute),
        0x0E => (Op::Asl, Mode::Absolute),
        0x10 => (Op::Bpl, Mode::Relative),
        0x11 => (Op::Ora, Mode::IndirectIndexed),
        0x15 => (Op::Ora, Mode::ZeroPageX),
        0x16 => (Op::Asl, Mode::ZeroPageX),
        0x18 => (Op::Clc, Mode::Implied),
        0x19 => (Op::Ora, Mode::AbsoluteY),
        0x1D => (Op::Ora, Mode::AbsoluteX),
        0x1E => (Op::Asl, Mode::AbsoluteX),
        0x20 => (Op::Jsr, Mode::Absolute),
        0x21 => (Op::And, Mode::IndexedIndirect),
        0x24 => (Op::Bit, Mode::ZeroPage),
        0x25 => (Op::And, Mode::ZeroPage),
        0x26 => (Op::Rol, Mode::ZeroPage),
        0x28 => (Op::Plp, Mode::Implied),
        0x29 => (Op::And, Mode::Immediate),
        0x2A => (Op::Rol, Mode::Accumulator),
        0x2C => (Op::Bit, Mode::Absolute),
        0x2D => (Op::And, Mode::Absolute),
        0x2E => (Op::Rol, Mode::Absolute),
        0x30 => (Op::Bmi, Mode::Relative),
        0x31 => (Op::And, Mode::IndirectIndexed),
        0x35 => (Op::And, Mode::ZeroPageX),
        0x36 => (Op::Rol, Mode::ZeroPageX),
        0x38 => (Op::Sec, Mode::Implied),
        0x39 => (Op::And, Mode::AbsoluteY),
        0x3D => (Op::And, Mode::AbsoluteX),
        0x3E => (Op::Rol, Mode::AbsoluteX),
        0x40 => (Op::Rti, Mode::Implied),
        0x41 => (Op::Eor, Mode::IndexedIndirect),
        0x45 => (Op::Eor, Mode::ZeroPage),
        0x46 => (Op::Lsr, Mode::ZeroPage),
        0x48 => (Op::Pha, Mode::Implied),
        0x49 => (Op::Eor, Mode::Immediate),
        0x4A => (Op::Lsr, Mode::Accumulator),
        0x4C => (Op::Jmp, Mode::Absolute),
        0x4D => (Op::Eor, Mode::Absolute),
        0x4E => (Op::Lsr, Mode::Absolute),
        0x50 => (Op::Bvc, Mode::Relative),
        0x51 => (Op::Eor, Mode::IndirectIndexed),
        0x55 => (Op::Eor, Mode::ZeroPageX),
        0x56 => (Op::Lsr, Mode::ZeroPageX),
        0x58 => (Op::Cli, Mode::Implied),
        0x59 => (Op::Eor, Mode::AbsoluteY),
        0x5D => (Op::Eor, Mode::AbsoluteX),
        0x5E => (Op::Lsr, Mode::AbsoluteX),
        0x60 => (Op::Rts, Mode::Implied),
        0x61 => (Op::Adc, Mode::IndexedIndirect),
        0x65 => (Op::Adc, Mode::ZeroPage),
        0x66 => (Op::Ror, Mode::ZeroPage),
        0x68 => (Op::Pla, Mode::Implied),
        0x69 => (Op::Adc, Mode::Immediate),
        0x6A => (Op::Ror, Mode::Accumulator),
        0x6C => (Op::Jmp, Mode::Indirect),
        0x6D => (Op::Adc, Mode::Absolute),
        0x6E => (Op::Ror, Mode::Absolute),
        0x70 => (Op::Bvs, Mode::Relative),
        0x71 => (Op::Adc, Mode::IndirectIndexed),
        0x75 => (Op::Adc, Mode::ZeroPageX),
        0x76 => (Op::Ror, Mode::ZeroPageX),
        0x78 => (Op::Sei, Mode::Implied),
        0x79 => (Op::Adc, Mode::AbsoluteY),
        0x7D => (Op::Adc, Mode::AbsoluteX),
        0x7E => (Op::Ror, Mode::AbsoluteX),
        0x81 => (Op::Sta, Mode::IndexedIndirect),
        0x84 => (Op::Sty, Mode::ZeroPage),
        0x85 => (Op::Sta, Mode::ZeroPage),
        0x86 => (Op::Stx, Mode::ZeroPage),
        0x88 => (Op::Dey, Mode::Implied),
        0x8A => (Op::Txa, Mode::Implied),
        0x8C => (Op::Sty, Mode::Absolute),
        0x8D => (Op::Sta, Mode::Absolute),
        0x8E => (Op::Stx, Mode::Absolute),
        0x90 => (Op::Bcc, Mode::Relative),
        0x91 => (Op::Sta, Mode::IndirectIndexed),
        0x94 => (Op::Sty, Mode::ZeroPageX),
        0x95 => (Op::Sta, Mode::ZeroPageX),
        0x96 => (Op::Stx, Mode::ZeroPageY),
        0x98 => (Op::Tya, Mode::Implied),
        0x99 => (Op::Sta, Mode::AbsoluteY),
        0x9A => (Op::Txs, Mode::Implied),
        0x9D => (Op::Sta, Mode::AbsoluteX),
        0xA0 => (Op::Ldy, Mode::Immediate),
        0xA1 => (Op::Lda, Mode::IndexedIndirect),
        0xA2 => (Op::Ldx, Mode::Immediate),
        0xA4 => (Op::Ldy, Mode::ZeroPage),
        0xA5 => (Op::Lda, Mode::ZeroPage),
        0xA6 => (Op::Ldx, Mode::ZeroPage),
        0xA8 => (Op::Tay, Mode::Implied),
        0xA9 => (Op::Lda, Mode::Immediate),
        0xAA => (Op::Tax, Mode::Implied),
        0xAC => (Op::Ldy, Mode::Absolute),
        0xAD => (Op::Lda, Mode::Absolute),
        0xAE => (Op::Ldx, Mode::Absolute),
        0xB0 => (Op::Bcs, Mode::Relative),
        0xB1 => (Op::Lda, Mode::IndirectIndexed),
        0xB4 => (Op::Ldy, Mode::ZeroPageX),
        0xB5 => (Op::Lda, Mode::ZeroPageX),
        0xB6 => (Op::Ldx, Mode::ZeroPageY),
        0xB8 => (Op::Clv, Mode::Implied),
        0xB9 => (Op::Lda, Mode::AbsoluteY),
        0xBA => (Op::Tsx, Mode::Implied),
        0xBC => (Op::Ldy, Mode::AbsoluteX),
        0xBD => (Op::Lda, Mode::AbsoluteX),
        0xBE => (Op::Ldx, Mode::AbsoluteY),
        0xC0 => (Op::Cpy, Mode::Immediate),
        0xC1 => (Op::Cmp, Mode::IndexedIndirect),
        0xC4 => (Op::Cpy, Mode::ZeroPage),
        0xC5 => (Op::Cmp, Mode::ZeroPage),
        0xC6 => (Op::Dec, Mode::ZeroPage),
        0xC8 => (Op::Iny, Mode::Implied),
        0xC9 => (Op::Cmp, Mode::Immediate),
        0xCA => (Op::Dex, Mode::Implied),
        0xCC => (Op::Cpy, Mode::Absolute),
        0xCD => (Op::Cmp, Mode::Absolute),
        0xCE => (Op::Dec, Mode::Absolute),
        0xD0 => (Op::Bne, Mode::Relative),
        0xD1 => (Op::Cmp, Mode::IndirectIndexed),
        0xD5 => (Op::Cmp, Mode::ZeroPageX),
        0xD6 => (Op::Dec, Mode::ZeroPageX),
        0xD8 => (Op::Cld, Mode::Implied),
        0xD9 => (Op::Cmp, Mode::AbsoluteY),
        0xDD => (Op::Cmp, Mode::AbsoluteX),
        0xDE => (Op::Dec, Mode::AbsoluteX),
        0xE0 => (Op::Cpx, Mode::Immediate),
        0xE1 => (Op::Sbc, Mode::IndexedIndirect),
        0xE4 => (Op::Cpx, Mode::ZeroPage),
        0xE5 => (Op::Sbc, Mode::ZeroPage),
        0xE6 => (Op::Inc, Mode::ZeroPage),
        0xE8 => (Op::Inx, Mode::Implied),
        0xE9 => (Op::Sbc, Mode::Immediate),
        0xEA => (Op::Nop, Mode::Implied),
        0xEC => (Op::Cpx, Mode::Absolute),
        0xED => (Op::Sbc, Mode::Absolute),
        0xEE => (Op::Inc, Mode::Absolute),
        0xF0 => (Op::Beq, Mode::Relative),
        0xF1 => (Op::Sbc, Mode::IndirectIndexed),
        0xF5 => (Op::Sbc, Mode::ZeroPageX),
        0xF6 => (Op::Inc, Mode::ZeroPageX),
        0xF8 => (Op::Sed, Mode::Implied),
        0xF9 => (Op::Sbc, Mode::AbsoluteY),
        0xFD => (Op::Sbc, Mode::AbsoluteX),
        0xFE => (Op::Inc, Mode::AbsoluteX),
        _ => (Op::Nop, Mode::Implied),
    }
}

/// The documented length in bytes and base cost in cycles of an opcode; an
/// opcode outside the documented set takes one byte and two cycles.
pub open spec fn documented(opcode: u8) -> (int, int) {
    match opcode {
        0x00 => (1, 7),
        0x01 => (2, 6),
        0x05 => (2, 3),
        0x06 => (2, 5),
        0x08 => (1, 3),
        0x09 => (2, 2),
        0x0A => (1, 2),
        0x0D => (3, 4),
        0x0E => (3, 6),
        0x10 => (2, 2),
        0x11 => (2, 5),
        0x15 => (2, 4),
        0x16 => (2, 6),
        0x18 => (1, 2),
        0x19 => (3, 4),
        0x1D => (3, 4),
        0x1E => (3, 7),
        0x20 => (3, 6),
        0x21 => (2, 6),
        0x24 => (2, 3),
        0x25 => (2, 3),
        0x26 => (2, 5),
        0x28 => (1, 4),
        0x29 => (2, 2),
        0x2A => (1, 2),
        0x2C => (3, 4),
        0x2D => (3, 4),
        0x2E => (3, 6),
        0x30 => (2, 2),
        0x31 => (2, 5),
        0x35 => (2, 4),
        0x36 => (2, 6),
        0x38 => (1, 2),
        0x39 => (3, 4),
        0x3D => (3, 4),
        0x3E => (3, 7),
        0x40 => (1, 6),
        0x41 => (2, 6),
        0x45 => (2, 3),
        0x46 => (2, 5),
        0x48 => (1, 3),
        0x49 => (2, 2),
        0x4A => (1, 2),
        0x4C => (3, 3),
        0x4D => (3, 4),
        0x4E => (3, 6),
        0x50 => (2, 2),
        0x51 => (2, 5),
        0x55 => (2, 4),
        0x56 => (2, 6),
        0x58 => (1, 2),
        0x59 => (3, 4),
        0x5D => (3, 4),
        0x5E => (3, 7),
        0x60 => (1, 6),
        0x61 => (2, 6),
        0x65 => (2, 3),
        0x66 => (2, 5),
        0x68 => (1, 4),
        0x69 => (2, 2),
        0x6A => (1, 2),
        0x6C => (3, 5),
        0x6D => (3, 4),
        0x6E => (3, 6),
        0x70 => (2, 2),
        0x71 => (2, 5),
        0x75 => (2, 4),
        0x76 => (2, 6),
        0x78 => (1, 2),
        0x79 => (3, 4),
        0x7D => (3, 4),
        0x7E => (3, 7),
        0x81 => (2, 6),
        0x84 => (2, 3),
        0x85 => (2, 3),
        0x86 => (2, 3),
        0x88 => (1, 2),
        0x8A => (1, 2),
        0x8C => (3, 4),
        0x8D => (3, 4),
        0x8E => (3, 4),
        0x90 => (2, 2),
        0x91 => (2, 6),
        0x94 => (2, 4),
        0x95 => (2, 4),
        0x96 => (2, 4),
        0x98 => (1, 2),
        0x99 => (3, 5),
        0x9A => (1, 2),
        0x9D => (3, 5),
        0xA0 => (2, 2),
        0xA1 => (2, 6),
        0xA2 => (2, 2),
        0xA4 => (2, 3),
        0xA5 => (2, 3),
        0xA6 => (2, 3),
        0xA8 => (1, 2),
        0xA9 => (2, 2),
        0xAA => (1, 2),
        0xAC => (3, 4),
        0xAD => (3, 4),
        0xAE => (3, 4),
        0xB0 => (2, 2),
        0xB1 => (2, 5),
        0xB4 => (2, 4),
        0xB5 => (2, 4),
        0xB6 => (2, 4),
        0xB8 => (1, 2),
        0xB9 => (3, 4),
        0xBA => (1, 2),
        0xBC => (3, 4),
        0xBD => (3, 4),
        0xBE => (3, 4),
        0xC0 => (2, 2),
        0xC1 => (2, 6),
        0xC4 => (2, 3),
        0xC5 => (2, 3),
        0xC6 => (2, 5),
        0xC8 => (1, 2),
        0xC9 => (2, 2),
        0xCA => (1, 2),
        0xCC => (3, 4),
        0xCD => (3, 4),
        0xCE => (3, 6),
        0xD0 => (2, 2),
        0xD1 => (2, 5),
        0xD5 => (2, 4),
        0xD6 => (2, 6),
        0xD8 => (1, 2),
        0xD9 => (3, 4),
        0xDD => (3, 4),
        0xDE => (3, 7),
        0xE0 => (2, 2),
        0xE1 => (2, 6),
        0xE4 => (2, 3),
        0xE5 => (2, 3),
        0xE6 => (2, 5),
        0xE8 => (1, 2),
        0xE9 => (2, 2),
        0xEA => (1, 2),
        0xEC => (3, 4),
        0xED => (3, 4),
        0xEE => (3, 6),
        0xF0 => (2, 2),
        0xF1 => (2, 5),
        0xF5 => (2, 4),
        0xF6 => (2, 6),
        0xF8 => (1, 2),
        0xF9 => (3, 4),
        0xFD => (3, 4),
        0xFE => (3, 7),
        _ => (1, 2),
    }
}

pub fn decode_opcode(opcode: u8) -> (d: (Op, Mode))
    ensures
        d == decode(opcode),
{
    match opcode {
        0x00 => (Op::Brk, Mode::Implied),
        0x01 => (Op::Ora, Mode::IndexedIndirect),
        0x05 => (Op::Ora, Mode::ZeroPage),
        0x06 => (Op::Asl, Mode::ZeroPage),
        0x08 => (Op::Php, Mode::Implied),
        0x09 => (Op::Ora, Mode::Immediate),
        0x0A => (Op::Asl, Mode::Accumulator),
        0x0D => (Op::Ora, Mode::Absolute),
        0x0E => (Op::Asl, Mode::Absolute),
        0x10 => (Op::Bpl, Mode::Relative),
        0x11 => (Op::Ora, Mode::IndirectIndexed),
        0x15 => (Op::Ora, Mode::ZeroPageX),
        0x16 => (Op::Asl, Mode::ZeroPageX),
        0x18 => (Op::Clc, Mode::Implied),
        0x19 => (Op::Ora, Mode::AbsoluteY),
        0x1D => (Op::Ora, Mode::AbsoluteX),
        0x1E => (Op::Asl, Mode::AbsoluteX),
        0x20 => (Op::Jsr, Mode::Absolute),
        0x21 => (Op::And, Mode::IndexedIndirect),
        0x24 => (Op::Bit, Mode::ZeroPage),
        0x25 => (Op::And, Mode::ZeroPage),
        0x26 => (Op::Rol, Mode::ZeroPage),
        0x28 => (Op::Plp, Mode::Implied),
        0x29 => (Op::And, Mode::Immediate),
        0x2A => (Op::Rol, Mode::Accumulator),
        0x2C => (Op::Bit, Mode::Absolute),
        0x2D => (Op::And, Mode::Absolute),
        0x2E => (Op::Rol, Mode::Absolute),
        0x30 => (Op::Bmi, Mode::Relative),
        0x31 => (Op::And, Mode::IndirectIndexed),
        0x35 => (Op::And, Mode::ZeroPageX),
        0x36 => (Op::Rol, Mode::ZeroPageX),
        0x38 => (Op::Sec, Mode::Implied),
        0x39 => (Op::And, Mode::AbsoluteY),
        0x3D => (Op::And, Mode::AbsoluteX),
        0x3E => (Op::Rol, Mode::AbsoluteX),
        0x40 => (Op::Rti, Mode::Implied),
        0x41 => (Op::Eor, Mode::IndexedIndirect),
        0x45 => (Op::Eor, Mode::ZeroPage),
        0x46 => (Op::Lsr, Mode::ZeroPage),
        0x48 => (Op::Pha, Mode::Implied),
        0x49 => (Op::Eor, Mode::Immediate),
        0x4A => (Op::Lsr, Mode::Accumulator),
        0x4C => (Op::Jmp, Mode::Absolute),
        0x4D => (Op::Eor, Mode::Absolute),
        0x4E => (Op::Lsr, Mode::Absolute),
        0x50 => (Op::Bvc, Mode::Relative),
        0x51 => (Op::Eor, Mode::IndirectIndexed),
        0x55 => (Op::Eor, Mode::ZeroPageX),
        0x56 => (Op::Lsr, Mode::ZeroPageX),
        0x58 => (Op::Cli, Mode::Implied),
        0x59 => (Op::Eor, Mode::AbsoluteY),
        0x5D => (Op::Eor, Mode::AbsoluteX),
        0x5E => (Op::Lsr, Mode::AbsoluteX),
        0x60 => (Op::Rts, Mode::Implied),
        0x61 => (Op::Adc, Mode::IndexedIndirect),
        0x65 => (Op::Adc, Mode::ZeroPage),
        0x66 => (Op::Ror, Mode::ZeroPage),
        0x68 => (Op::Pla, Mode::Implied),
        0x69 => (Op::Adc, Mode::Immediate),
        0x6A => (Op::Ror, Mode::Accumulator),
        0x6C => (Op::Jmp, Mode::Indirect),
        0x6D => (Op::Adc, Mode::Absolute),
        0x6E => (Op::Ror, Mode::Absolute),
        0x70 => (Op::Bvs, Mode::Relative),
        0x71 => (Op::Adc, Mode::IndirectIndexed),
        0x75 => (Op::Adc, Mode::ZeroPageX),
        0x76 => (Op::Ror, Mode::ZeroPageX),
        0x78 => (Op::Sei, Mode::Implied),
        0x79 => (Op::Adc, Mode::AbsoluteY),
        0x7D => (Op::Adc, Mode::AbsoluteX),
        0x7E => (Op::Ror, Mode::AbsoluteX),
        0x81 => (Op::Sta, Mode::IndexedIndirect),
        0x84 => (Op::Sty, Mode::ZeroPage),
        0x85 => (Op::Sta, Mode::ZeroPage),
        0x86 => (Op::Stx, Mode::ZeroPage),
        0x88 => (Op::Dey, Mode::Implied),
        0x8A => (Op::Txa, Mode::Implied),
        0x8C => (Op::Sty, Mode::Absolute),
        0x8D => (Op::Sta, Mode::Absolute),
        0x8E => (Op::Stx, Mode::Absolute),
        0x90 => (Op::Bcc, Mode::Relative),
        0x91 => (Op::Sta, Mode::IndirectIndexed),
        0x94 => (Op::Sty, Mode::ZeroPageX),
        0x95 => (Op::Sta, Mode::ZeroPageX),
        0x96 => (Op::Stx, Mode::ZeroPageY),
        0x98 => (Op::Tya, Mode::Implied),
        0x99 => (Op::Sta, Mode::AbsoluteY),
        0x9A => (Op::Txs, Mode::Implied),
        0x9D => (Op::Sta, Mode::AbsoluteX),
        0xA0 => (Op::Ldy, Mode::Immediate),
        0xA1 => (Op::Lda, Mode::IndexedIndirect),
        0xA2 => (Op::Ldx, Mode::Immediate),
        0xA4 => (Op::Ldy, Mode::ZeroPage),
        0xA5 => (Op::Lda, Mode::ZeroPage),
        0xA6 => (Op::Ldx, Mode::ZeroPage),
        0xA8 => (Op::Tay, Mode::Implied),
        0xA9 => (Op::Lda, Mode::Immediate),
        0xAA => (Op::Tax, Mode::Implied),
        0xAC => (Op::Ldy, Mode::Absolute),
        0xAD => (Op::Lda, Mode::Absolute),
        0xAE => (Op::Ldx, Mode::Absolute),
        0xB0 => (Op::Bcs, Mode::Relative),
        0xB1 => (Op::Lda, Mode::IndirectIndexed),
        0xB4 => (Op::Ldy, Mode::ZeroPageX),
        0xB5 => (Op::Lda, Mode::ZeroPageX),
        0xB6 => (Op::Ldx, Mode::ZeroPageY),
        0xB8 => (Op::Clv, Mode::Implied),
        0xB9 => (Op::Lda, Mode::AbsoluteY),
        0xBA => (Op::Tsx, Mode::Implied),
        0xBC => (Op::Ldy, Mode::AbsoluteX),
        0xBD => (Op::Lda, Mode::AbsoluteX),
        0xBE => (Op::Ldx, Mode::AbsoluteY),
        0xC0 => (Op::Cpy, Mode::Immediate),
        0xC1 => (Op::Cmp, Mode::IndexedIndirect),
        0xC4 => (Op::Cpy, Mode::ZeroPage),
        0xC5 => (Op::Cmp, Mode::ZeroPage),
        0xC6 => (Op::Dec, Mode::ZeroPage),
        0xC8 => (Op::Iny, Mode::Implied),
        0xC9 => (Op::Cmp, Mode::Immediate),
        0xCA => (Op::Dex, Mode::Implied),
        0xCC => (Op::Cpy, Mode::Absolute),
        0xCD => (Op::Cmp, Mode::Absolute),
        0xCE => (Op::Dec, Mode::Absolute),
        0xD0 => (Op::Bne, Mode::Relative),
        0xD1 => (Op::Cmp, Mode::IndirectIndexed),
        0xD5 => (Op::Cmp, Mode::ZeroPageX),
        0xD6 => (Op::Dec, Mode::ZeroPageX),
        0xD8 => (Op::Cld, Mode::Implied),
        0xD9 => (Op::Cmp, Mode::AbsoluteY),
        0xDD => (Op::Cmp, Mode::AbsoluteX),
        0xDE => (Op::Dec, Mode::AbsoluteX),
        0xE0 => (Op::Cpx, Mode::Immediate),
        0xE1 => (Op::Sbc, Mode::IndexedIndirect),
        0xE4 => (Op::Cpx, Mode::ZeroPage),
        0xE5 => (Op::Sbc, Mode::ZeroPage),
        0xE6 => (Op::Inc, Mode::ZeroPage),
        0xE8 => (Op::Inx, Mode::Implied),
        0xE9 => (Op::Sbc, Mode::Immediate),
        0xEA => (Op::Nop, Mode::Implied),
        0xEC => (Op::Cpx, Mode::Absolute),
        0xED => (Op::Sbc, Mode::Absolute),
        0xEE => (Op::Inc, Mode::Absolute),
        0xF0 => (Op::Beq, Mode::Relative),
        0xF1 => (Op::Sbc, Mode::IndirectIndexed),
        0xF5 => (Op::Sbc, Mode::ZeroPageX),
        0xF6 => (Op::Inc, Mode::ZeroPageX),
        0xF8 => (Op::Sed, Mode::Implied),
        0xF9 => (Op::Sbc, Mode::AbsoluteY),
        0xFD => (Op::Sbc, Mode::AbsoluteX),
        0xFE => (Op::Inc, Mode::AbsoluteX),
        _ => (Op::Nop, Mode::Implied),
    }
}

} // verus!
