//! The 6502 interpreter: registers and flags, addressing modes, the
//! documented instruction set, the stack and the interrupt sequences.

use vstd::prelude::*;
use crate::bits::{displacement, hi, high_byte, lo, low_byte, make_word, sign_extend, widen, word};
use crate::bus::{Bus, BusView};
use crate::ppu::same_beam;
use crate::opcodes::{decode, decode_opcode, Mode, Op};

verus! {

pub const FLAG_CARRY: u8 = 0x01;
pub const FLAG_ZERO: u8 = 0x02;
pub const FLAG_INTERRUPT: u8 = 0x04;
pub const FLAG_DECIMAL: u8 = 0x08;
pub const FLAG_BREAK: u8 = 0x10;
pub const FLAG_UNUSED: u8 = 0x20;
pub const FLAG_OVERFLOW: u8 = 0x40;
pub const FLAG_NEGATIVE: u8 = 0x80;

/// The registers of the processor and its count of cycles spent.
#[derive(Clone, Copy, Debug, PartialEq, Eq, Structural)]
pub struct CPU {
    pub a: u8,
    pub x: u8,
    pub y: u8,
    pub pc: u16,
    pub sp: u8,
    pub status: u8,
    pub cycles: u64,
}

/// The address that an instruction works on, and whether it lies in another
/// page than the address that was indexed or, for a branch, than the
/// branch instruction.
#[derive(Clone, Copy, Debug, PartialEq, Eq, Structural)]
pub struct Operand {
    pub addr: u16,
    pub crossed: bool,
}

/// The processor together with everything it reaches through the bus.
pub ghost struct Machine {
    pub cpu: CPU,
    pub bus: BusView,
}

pub open spec fn machine(cpu: CPU, bus: BusView) -> Machine {
    Machine { cpu, bus }
}

/// A status byte with one flag set or cleared.
pub open spec fn flag_set(status: u8, flag: u8, value: bool) -> u8 {
    if value {
        status | flag
    } else {
        status & !flag
    }
}

/// A status byte as the stack holds it after `PHP` or `BRK`: B and the
/// unused bit set.
pub open spec fn pushed_status(status: u8) -> u8 {
    status | 0x30
}

/// A status byte as an interrupt pushes it: B clear, the unused bit set.
pub open spec fn interrupt_status(status: u8) -> u8 {
    (status & 0xEF) | 0x20
}

/// A status byte as `PLP` and `RTI` take it from the stack: B is dropped
/// and the unused bit is forced.
pub open spec fn pulled_status(byte: u8) -> u8 {
    (byte & 0xEF) | 0x20
}

pub open spec fn stack_address(sp: u8) -> u16 {
    (0x0100 + sp) as u16
}

/// Two addresses lie in different 256-byte pages.
pub open spec fn page_crossed(from: u16, to: u16) -> bool {
    from / 256 != to / 256
}

/// The operation reads its operand and pays for an index that leaves the
/// page; stores and read-modify-write operations pay that cycle always.
pub open spec fn reads_operand(op: Op) -> bool {
    op == Op::Lda || op == Op::Ldx || op == Op::Ldy || op == Op::Adc || op == Op::Sbc || op
        == Op::And || op == Op::Ora || op == Op::Eor || op == Op::Cmp || op == Op::Cpx || op
        == Op::Cpy || op == Op::Bit
}

pub open spec fn indexes_memory(mode: Mode) -> bool {
    mode == Mode::AbsoluteX || mode == Mode::AbsoluteY || mode == Mode::IndirectIndexed
}

/// The length in bytes of an instruction in a mode, opcode included.
pub open spec fn mode_length(mode: Mode) -> int {
    match mode {
        Mode::Implied => 1,
        Mode::Accumulator => 1,
        Mode::Absolute => 3,
        Mode::AbsoluteX => 3,
        Mode::AbsoluteY => 3,
        Mode::Indirect => 3,
        _ => 2,
    }
}

/// The cost in cycles of an operation in a mode, before the cycles that a
/// page crossing or a taken branch add.
pub open spec fn base_cycles(op: Op, mode: Mode) -> u8 {
    match op {
        Op::Brk => 7,
        Op::Jsr => 6,
        Op::Rts => 6,
        Op::Rti => 6,
        Op::Pha => 3,
        Op::Php => 3,
        Op::Pla => 4,
        Op::Plp => 4,
        Op::Jmp => match mode {
            Mode::Indirect => 5,
            _ => 3,
        },
        Op::Sta | Op::Stx | Op::Sty => match mode {
            Mode::ZeroPage => 3,
            Mode::ZeroPageX => 4,
            Mode::ZeroPageY => 4,
            Mode::Absolute => 4,
            Mode::AbsoluteX => 5,
            Mode::AbsoluteY => 5,
            _ => 6,
        },
        Op::Asl | Op::Lsr | Op::Rol | Op::Ror | Op::Inc | Op::Dec => match mode {
            Mode::Accumulator => 2,
            Mode::ZeroPage => 5,
            Mode::ZeroPageX => 6,
            Mode::Absolute => 6,
            _ => 7,
        },
        _ => match mode {
            Mode::ZeroPage => 3,
            Mode::ZeroPageX => 4,
            Mode::ZeroPageY => 4,
            Mode::Absolute => 4,
            Mode::AbsoluteX => 4,
            Mode::AbsoluteY => 4,
            Mode::IndexedIndirect => 6,
            Mode::IndirectIndexed => 5,
            Mode::Indirect => 5,
            _ => 2,
        },
    }
}

/// The cost in cycles of one execution: a reading operation pays one more
/// for an index that crosses a page; a taken branch pays one more, and a
/// second if it lands in another page than the branch.
pub open spec fn instruction_cycles(op: Op, mode: Mode, crossed: bool, taken: bool) -> u8 {
    let base = base_cycles(op, mode);
    if taken {
        if crossed {
            (base + 2) as u8
        } else {
            (base + 1) as u8
        }
    } else if crossed && reads_operand(op) && indexes_memory(mode) {
        (base + 1) as u8
    } else {
        base
    }
}

impl CPU {
    /// The registers as they are at power-on.
    pub open spec fn power_on() -> CPU {
        CPU { a: 0, x: 0, y: 0, pc: 0, sp: 0xFD, status: 0x24, cycles: 0 }
    }

    pub open spec fn flag(self, flag: u8) -> bool {
        self.status & flag != 0
    }

    pub open spec fn with_flag(self, flag: u8, value: bool) -> CPU {
        CPU { status: flag_set(self.status, flag, value), ..self }
    }

    /// Z and N as a result byte sets them: Z iff it is zero, N iff its bit 7
    /// is set.
    pub open spec fn with_zn(self, val: u8) -> CPU {
        self.with_flag(FLAG_ZERO, val == 0).with_flag(FLAG_NEGATIVE, val >= 128)
    }

    pub open spec fn after_lda(self, val: u8) -> CPU {
        CPU { a: val, ..self }.with_zn(val)
    }

    pub open spec fn after_ldx(self, val: u8) -> CPU {
        CPU { x: val, ..self }.with_zn(val)
    }

    pub open spec fn after_ldy(self, val: u8) -> CPU {
        CPU { y: val, ..self }.with_zn(val)
    }

    /// A register compared with a value: C iff the register is not below
    /// it, Z and N from the difference.
    pub open spec fn after_compare(self, reg: u8, val: u8) -> CPU {
        self.with_flag(FLAG_CARRY, reg >= val).with_zn(reg.wrapping_sub(val))
    }

    /// Add with carry. C iff the unsigned sum exceeds `$FF`; V iff both
    /// operands differ in sign from the result. Decimal mode has no effect.
    pub open spec fn after_adc(self, val: u8) -> CPU {
        let carry: int = if self.flag(FLAG_CARRY) {
            1
        } else {
            0
        };
        let sum: int = self.a + val + carry;
        let result: u8 = (sum % 256) as u8;
        CPU { a: result, ..self }.with_flag(FLAG_CARRY, sum > 0xFF).with_flag(
            FLAG_OVERFLOW,
            (self.a ^ result) & (val ^ result) & 0x80 != 0,
        ).with_zn(result)
    }

    /// Subtract with borrow. C iff no borrow is needed; V iff the
    /// accumulator differs in sign from both the operand and the result.
    pub open spec fn after_sbc(self, val: u8) -> CPU {
        let borrow: int = if self.flag(FLAG_CARRY) {
            0
        } else {
            1
        };
        let diff: int = self.a - val - borrow;
        let result: u8 = (diff % 256) as u8;
        CPU { a: result, ..self }.with_flag(FLAG_CARRY, diff >= 0).with_flag(
            FLAG_OVERFLOW,
            (self.a ^ result) & (self.a ^ val) & 0x80 != 0,
        ).with_zn(result)
    }

    pub open spec fn after_bit(self, val: u8) -> CPU {
        self.with_flag(FLAG_ZERO, self.a & val == 0).with_flag(
            FLAG_NEGATIVE,
            val & 0x80 != 0,
        ).with_flag(FLAG_OVERFLOW, val & 0x40 != 0)
    }

    /// A shift, rotate, increment or decrement of a byte: the new byte and
    /// the registers with the flags it sets.
    pub open spec fn modified(self, op: Op, val: u8) -> (u8, CPU) {
        let carry: int = if self.flag(FLAG_CARRY) {
            1
        } else {
            0
        };
        match op {
            Op::Asl => {
                let r = ((val * 2) % 256) as u8;
                (r, self.with_flag(FLAG_CARRY, val >= 128).with_zn(r))
            },
            Op::Lsr => {
                let r = (val / 2) as u8;
                (r, self.with_flag(FLAG_CARRY, val % 2 == 1).with_zn(r))
            },
            Op::Rol => {
                let r = ((val * 2 + carry) % 256) as u8;
                (r, self.with_flag(FLAG_CARRY, val >= 128).with_zn(r))
            },
            Op::Ror => {
                let r = (val / 2 + carry * 128) as u8;
                (r, self.with_flag(FLAG_CARRY, val % 2 == 1).with_zn(r))
            },
            Op::Inc => {
                let r = val.wrapping_add(1);
                (r, self.with_zn(r))
            },
            _ => {
                let r = val.wrapping_sub(1);
                (r, self.with_zn(r))
            },
        }
    }
}

impl Machine {
    pub open spec fn with_cpu(self, cpu: CPU) -> Machine {
        Machine { cpu, ..self }
    }

    pub open spec fn with_pc(self, pc: u16) -> Machine {
        Machine { cpu: CPU { pc, ..self.cpu }, ..self }
    }

    pub open spec fn read(self, addr: u16) -> (u8, Machine) {
        let (data, bus) = self.bus.read(addr);
        (data, Machine { bus, ..self })
    }

    pub open spec fn write(self, addr: u16, data: u8) -> Machine {
        Machine { bus: self.bus.write(addr, data), ..self }
    }

    /// The byte at the program counter, which moves past it.
    pub open spec fn fetch(self) -> (u8, Machine) {
        let (data, m) = self.read(self.cpu.pc);
        (data, m.with_pc(self.cpu.pc.wrapping_add(1)))
    }

    /// The little-endian word at the program counter, which moves past it.
    pub open spec fn fetch_word(self) -> (u16, Machine) {
        let (low, m1) = self.fetch();
        let (high, m2) = m1.fetch();
        (word(high, low), m2)
    }

    /// The little-endian word at a zero-page address; the second byte wraps
    /// within the zero page.
    pub open spec fn read_zero_page_word(self, at: u8) -> (u16, Machine) {
        let (low, m1) = self.read(at as u16);
        let (high, m2) = m1.read(at.wrapping_add(1) as u16);
        (word(high, low), m2)
    }

    /// The little-endian word at `ptr`, whose second byte is taken from the
    /// same page as the first: after `$xxFF` comes `$xx00`.
    pub open spec fn read_word_in_page(self, ptr: u16) -> (u16, Machine) {
        let (low, m1) = self.read(ptr);
        let (high, m2) = m1.read(word(high_byte(ptr), low_byte(ptr).wrapping_add(1)));
        (word(high, low), m2)
    }

    pub open spec fn push(self, data: u8) -> Machine {
        let m = self.write(stack_address(self.cpu.sp), data);
        m.with_cpu(CPU { sp: self.cpu.sp.wrapping_sub(1), ..m.cpu })
    }

    pub open spec fn pull(self) -> (u8, Machine) {
        let sp = self.cpu.sp.wrapping_add(1);
        self.with_cpu(CPU { sp, ..self.cpu }).read(stack_address(sp))
    }

    /// The word at a vector, low byte first.
    pub open spec fn read_vector(self, at: u16) -> (u16, Machine) {
        let (low, m1) = self.read(at);
        let (high, m2) = m1.read((at + 1) as u16);
        (word(high, low), m2)
    }

    /// The operand of an instruction in a mode, the opcode just fetched: the
    /// operand bytes are fetched and the effective address is formed. A
    /// branch target is the address after the operand plus the signed
    /// offset, and counts as crossing if it leaves the page of the opcode.
    #[verifier::opaque]
    pub open spec fn operand(self, mode: Mode) -> (Operand, Machine) {
        let c = self.cpu;
        match mode {
            Mode::Implied => (Operand { addr: 0, crossed: false }, self),
            Mode::Accumulator => (Operand { addr: 0, crossed: false }, self),
            Mode::Immediate => (
                Operand { addr: c.pc, crossed: false },
                self.with_pc(c.pc.wrapping_add(1)),
            ),
            Mode::ZeroPage => {
                let (b, m) = self.fetch();
                (Operand { addr: b as u16, crossed: false }, m)
            },
            Mode::ZeroPageX => {
                let (b, m) = self.fetch();
                (Operand { addr: b.wrapping_add(c.x) as u16, crossed: false }, m)
            },
            Mode::ZeroPageY => {
                let (b, m) = self.fetch();
                (Operand { addr: b.wrapping_add(c.y) as u16, crossed: false }, m)
            },
            Mode::Absolute => {
                let (w, m) = self.fetch_word();
                (Operand { addr: w, crossed: false }, m)
            },
            Mode::AbsoluteX => {
                let (w, m) = self.fetch_word();
                let addr = w.wrapping_add(c.x as u16);
                (Operand { addr, crossed: page_crossed(w, addr) }, m)
            },
            Mode::AbsoluteY => {
                let (w, m) = self.fetch_word();
                let addr = w.wrapping_add(c.y as u16);
                (Operand { addr, crossed: page_crossed(w, addr) }, m)
            },
            Mode::Indirect => {
                let (ptr, m1) = self.fetch_word();
                let (w, m2) = m1.read_word_in_page(ptr);
                (Operand { addr: w, crossed: false }, m2)
            },
            Mode::IndexedIndirect => {
                let (b, m1) = self.fetch();
                let (w, m2) = m1.read_zero_page_word(b.wrapping_add(c.x));
                (Operand { addr: w, crossed: false }, m2)
            },
            Mode::IndirectIndexed => {
                let (b, m1) = self.fetch();
                let (w, m2) = m1.read_zero_page_word(b);
                let addr = w.wrapping_add(c.y as u16);
                (Operand { addr, crossed: page_crossed(w, addr) }, m2)
            },
            Mode::Relative => {
                let (b, m) = self.fetch();
                let addr = m.cpu.pc.wrapping_add(sign_extend(b));
                (Operand { addr, crossed: page_crossed(c.pc.wrapping_sub(1), addr) }, m)
            },
        }
    }

    pub open spec fn branch(self, condition: bool, target: u16) -> (bool, Machine) {
        if condition {
            (true, self.with_pc(target))
        } else {
            (false, self)
        }
    }

    /// A shift, rotate, increment or decrement of the accumulator or of the
    /// byte at `addr`.
    pub open spec fn modify(self, op: Op, mode: Mode, addr: u16) -> Machine {
        if mode == Mode::Accumulator {
            let (r, c) = self.cpu.modified(op, self.cpu.a);
            self.with_cpu(CPU { a: r, ..c })
        } else {
            let (val, m) = self.read(addr);
            let (r, c) = m.cpu.modified(op, val);
            m.with_cpu(c).write(addr, r)
        }
    }

    /// `JSR`: the address of the last byte of the instruction is pushed,
    /// high byte first.
    pub open spec fn jsr(self, target: u16) -> Machine {
        let ret = self.cpu.pc.wrapping_sub(1);
        self.push(high_byte(ret)).push(low_byte(ret)).with_pc(target)
    }

    pub open spec fn rts(self) -> Machine {
        let (low, m1) = self.pull();
        let (high, m2) = m1.pull();
        m2.with_pc(word(high, low).wrapping_add(1))
    }

    pub open spec fn rti(self) -> Machine {
        let (p, m1) = self.pull();
        let (low, m2) = m1.pull();
        let (high, m3) = m2.pull();
        m3.with_cpu(CPU { status: pulled_status(p), pc: word(high, low), ..m3.cpu })
    }

    /// The interrupt sequence: the return address and the given status
    /// byte are pushed, I is set, and the program counter is loaded from a
    /// vector.
    #[verifier::opaque]
    pub open spec fn interrupt(self, ret: u16, status: u8, vector: u16) -> Machine {
        let m1 = self.push(high_byte(ret)).push(low_byte(ret)).push(status);
        let m2 = m1.with_cpu(m1.cpu.with_flag(FLAG_INTERRUPT, true));
        let (target, m3) = m2.read_vector(vector);
        m3.with_pc(target)
    }

    /// `BRK`: the byte after the opcode is skipped, and the status is pushed
    /// with B set.
    pub open spec fn brk(self) -> Machine {
        self.interrupt(self.cpu.pc.wrapping_add(1), pushed_status(self.cpu.status), 0xFFFE)
    }

    /// The non-maskable interrupt: the status is pushed with B clear, and
    /// seven cycles are spent.
    pub open spec fn nmi(self) -> Machine {
        let m = self.interrupt(self.cpu.pc, interrupt_status(self.cpu.status), 0xFFFA);
        m.with_cpu(CPU { cycles: m.cpu.cycles.wrapping_add(7), ..m.cpu })
    }

    /// Reset: registers cleared, the stack pointer at `$FD`, I and the
    /// unused bit set, the program counter from the vector at `$FFFC`.
    pub open spec fn reset(self) -> Machine {
        let (target, m) = self.read_vector(0xFFFC);
        m.with_cpu(CPU { pc: target, ..CPU::power_on() })
    }

    /// The effect of an operation on its operand, and whether a branch was
    /// taken.
    #[verifier::opaque]
    pub open spec fn perform(self, op: Op, mode: Mode, addr: u16) -> (bool, Machine) {
        let c = self.cpu;
        match op {
            Op::Lda => {
                let (v, m) = self.read(addr);
                (false, m.with_cpu(m.cpu.after_lda(v)))
            },
            Op::Ldx => {
                let (v, m) = self.read(addr);
                (false, m.with_cpu(m.cpu.after_ldx(v)))
            },
            Op::Ldy => {
                let (v, m) = self.read(addr);
                (false, m.with_cpu(m.cpu.after_ldy(v)))
            },
            Op::Sta => (false, self.write(addr, c.a)),
            Op::Stx => (false, self.write(addr, c.x)),
            Op::Sty => (false, self.write(addr, c.y)),
            Op::Adc => {
                let (v, m) = self.read(addr);
                (false, m.with_cpu(m.cpu.after_adc(v)))
            },
            Op::Sbc => {
                let (v, m) = self.read(addr);
                (false, m.with_cpu(m.cpu.after_sbc(v)))
            },
            Op::And => {
                let (v, m) = self.read(addr);
                (false, m.with_cpu(m.cpu.after_lda(m.cpu.a & v)))
            },
            Op::Ora => {
                let (v, m) = self.read(addr);
                (false, m.with_cpu(m.cpu.after_lda(m.cpu.a | v)))
            },
            Op::Eor => {
                let (v, m) = self.read(addr);
                (false, m.with_cpu(m.cpu.after_lda(m.cpu.a ^ v)))
            },
            Op::Cmp => {
                let (v, m) = self.read(addr);
                (false, m.with_cpu(m.cpu.after_compare(m.cpu.a, v)))
            },
            Op::Cpx => {
                let (v, m) = self.read(addr);
                (false, m.with_cpu(m.cpu.after_compare(m.cpu.x, v)))
            },
            Op::Cpy => {
                let (v, m) = self.read(addr);
                (false, m.with_cpu(m.cpu.after_compare(m.cpu.y, v)))
            },
            Op::Bit => {
                let (v, m) = self.read(addr);
                (false, m.with_cpu(m.cpu.after_bit(v)))
            },
            Op::Asl => (false, self.modify(op, mode, addr)),
            Op::Lsr => (false, self.modify(op, mode, addr)),
            Op::Rol => (false, self.modify(op, mode, addr)),
            Op::Ror => (false, self.modify(op, mode, addr)),
            Op::Inc => (false, self.modify(op, mode, addr)),
            Op::Dec => (false, self.modify(op, mode, addr)),
            Op::Inx => (false, self.with_cpu(c.after_ldx(c.x.wrapping_add(1)))),
            Op::Iny => (false, self.with_cpu(c.after_ldy(c.y.wrapping_add(1)))),
            Op::Dex => (false, self.with_cpu(c.after_ldx(c.x.wrapping_sub(1)))),
            Op::Dey => (false, self.with_cpu(c.after_ldy(c.y.wrapping_sub(1)))),
            Op::Tax => (false, self.with_cpu(c.after_ldx(c.a))),
            Op::Tay => (false, self.with_cpu(c.after_ldy(c.a))),
            Op::Txa => (false, self.with_cpu(c.after_lda(c.x))),
            Op::Tya => (false, self.with_cpu(c.after_lda(c.y))),
            Op::Tsx => (false, self.with_cpu(c.after_ldx(c.sp))),
            Op::Txs => (false, self.with_cpu(CPU { sp: c.x, ..c })),
            Op::Clc => (false, self.with_cpu(c.with_flag(FLAG_CARRY, false))),
            Op::Sec => (false, self.with_cpu(c.with_flag(FLAG_CARRY, true))),
            Op::Cli => (false, self.with_cpu(c.with_flag(FLAG_INTERRUPT, false))),
            Op::Sei => (false, self.with_cpu(c.with_flag(FLAG_INTERRUPT, true))),
            Op::Cld => (false, self.with_cpu(c.with_flag(FLAG_DECIMAL, false))),
            Op::Sed => (false, self.with_cpu(c.with_flag(FLAG_DECIMAL, true))),
            Op::Clv => (false, self.with_cpu(c.with_flag(FLAG_OVERFLOW, false))),
            Op::Bcc => self.branch(!c.flag(FLAG_CARRY), addr),
            Op::Bcs => self.branch(c.flag(FLAG_CARRY), addr),
            Op::Bne => self.branch(!c.flag(FLAG_ZERO), addr),
            Op::Beq => self.branch(c.flag(FLAG_ZERO), addr),
            Op::Bpl => self.branch(!c.flag(FLAG_NEGATIVE), addr),
            Op::Bmi => self.branch(c.flag(FLAG_NEGATIVE), addr),
            Op::Bvc => self.branch(!c.flag(FLAG_OVERFLOW), addr),
            Op::Bvs => self.branch(c.flag(FLAG_OVERFLOW), addr),
            Op::Jmp => (false, self.with_pc(addr)),
            Op::Jsr => (false, self.jsr(addr)),
            Op::Rts => (false, self.rts()),
            Op::Rti => (false, self.rti()),
            Op::Brk => (false, self.brk()),
            Op::Pha => (false, self.push(c.a)),
            Op::Php => (false, self.push(pushed_status(c.status))),
            Op::Pla => {
                let (v, m) = self.pull();
                (false, m.with_cpu(m.cpu.after_lda(v)))
            },
            Op::Plp => {
                let (v, m) = self.pull();
                (false, m.with_cpu(CPU { status: pulled_status(v), ..m.cpu }))
            },
            Op::Nop => (false, self),
        }
    }

    /// The instruction with the given opcode, its opcode already fetched:
    /// the cycles it costs and the machine after.
    #[verifier::opaque]
    pub open spec fn execute(self, opcode: u8) -> (u8, Machine) {
        let (op, mode) = decode(opcode);
        let (operand, m1) = self.operand(mode);
        let (taken, m2) = m1.perform(op, mode, operand.addr);
        (instruction_cycles(op, mode, operand.crossed, taken), m2)
    }

    /// One instruction: the cycles it costs and the machine after, with the
    /// cycles added to the processor's count.
    #[verifier::opaque]
    pub open spec fn step(self) -> (u8, Machine) {
        let (opcode, m1) = self.fetch();
        let (cycles, m2) = m1.execute(opcode);
        (cycles, m2.with_cpu(CPU { cycles: m2.cpu.cycles.wrapping_add(cycles as u64), ..m2.cpu }))
    }
}


// ---------------------------------------------------------------------------
// The executable processor
// ---------------------------------------------------------------------------

fn crossed(from: u16, to: u16) -> (b: bool)
    ensures
        b == page_crossed(from, to),
{
    from / 256 != to / 256
}

fn stack_slot(sp: u8) -> (addr: u16)
    ensures
        addr == stack_address(sp),
{
    0x0100 + (sp as u16)
}

fn cost(op: Op, mode: Mode) -> (n: u8)
    ensures
        n == base_cycles(op, mode),
        2 <= n <= 7,
{
    match op {
        Op::Brk => 7,
        Op::Jsr => 6,
        Op::Rts => 6,
        Op::Rti => 6,
        Op::Pha => 3,
        Op::Php => 3,
        Op::Pla => 4,
        Op::Plp => 4,
        Op::Jmp => match mode {
            Mode::Indirect => 5,
            _ => 3,
        },
        Op::Sta | Op::Stx | Op::Sty => match mode {
            Mode::ZeroPage => 3,
            Mode::ZeroPageX => 4,
            Mode::ZeroPageY => 4,
            Mode::Absolute => 4,
            Mode::AbsoluteX => 5,
            Mode::AbsoluteY => 5,
            _ => 6,
        },
        Op::Asl | Op::Lsr | Op::Rol | Op::Ror | Op::Inc | Op::Dec => match mode {
            Mode::Accumulator => 2,
            Mode::ZeroPage => 5,
            Mode::ZeroPageX => 6,
            Mode::Absolute => 6,
            _ => 7,
        },
        _ => match mode {
            Mode::ZeroPage => 3,
            Mode::ZeroPageX => 4,
            Mode::ZeroPageY => 4,
            Mode::Absolute => 4,
            Mode::AbsoluteX => 4,
            Mode::AbsoluteY => 4,
            Mode::IndexedIndirect => 6,
            Mode::IndirectIndexed => 5,
            Mode::Indirect => 5,
            _ => 2,
        },
    }
}

fn pays_for_crossing(op: Op, mode: Mode) -> (b: bool)
    ensures
        b == (reads_operand(op) && indexes_memory(mode)),
{
    let reads: bool = match op {
        Op::Lda | Op::Ldx | Op::Ldy | Op::Adc | Op::Sbc | Op::And | Op::Ora | Op::Eor => true,
        Op::Cmp | Op::Cpx | Op::Cpy | Op::Bit => true,
        _ => false,
    };
    let indexes: bool = match mode {
        Mode::AbsoluteX | Mode::AbsoluteY | Mode::IndirectIndexed => true,
        _ => false,
    };
    reads && indexes
}

impl CPU {
    /// The processor at power-on.
    pub fn new() -> (cpu: CPU)
        ensures
            cpu == CPU::power_on(),
    {
        CPU { a: 0, x: 0, y: 0, pc: 0, sp: 0xFD, status: 0x24, cycles: 0 }
    }

    pub fn get_flag(&self, flag: u8) -> (set: bool)
        ensures
            set == self.flag(flag),
    {
        self.status & flag != 0
    }

    pub fn set_flag(&mut self, flag: u8, value: bool)
        ensures
            *final(self) == old(self).with_flag(flag, value),
    {
        if value {
            self.status = self.status | flag;
        } else {
            self.status = self.status & !flag;
        }
    }

    pub fn set_zn(&mut self, val: u8)
        ensures
            *final(self) == old(self).with_zn(val),
    {
        self.set_flag(FLAG_ZERO, val == 0);
        self.set_flag(FLAG_NEGATIVE, val >= 128);
    }

    pub fn lda(&mut self, val: u8)
        ensures
            *final(self) == old(self).after_lda(val),
    {
        self.a = val;
        self.set_zn(val);
    }

    pub fn ldx(&mut self, val: u8)
        ensures
            *final(self) == old(self).after_ldx(val),
    {
        self.x = val;
        self.set_zn(val);
    }

    pub fn ldy(&mut self, val: u8)
        ensures
            *final(self) == old(self).after_ldy(val),
    {
        self.y = val;
        self.set_zn(val);
    }

    /// Compares a register with a value and sets C, Z and N.
    pub fn compare(&mut self, reg: u8, val: u8)
        ensures
            *final(self) == old(self).after_compare(reg, val),
    {
        self.set_flag(FLAG_CARRY, reg >= val);
        self.set_zn(reg.wrapping_sub(val));
    }

    /// Compares the accumulator with a value.
    pub fn cmp(&mut self, val: u8)
        ensures
            *final(self) == old(self).after_compare(old(self).a, val),
    {
        self.compare(self.a, val);
    }

    /// Adds a value and the carry to the accumulator.
    pub fn adc(&mut self, val: u8)
        ensures
            *final(self) == old(self).after_adc(val),
    {
        let carry: u16 = if self.get_flag(FLAG_CARRY) {
            1
        } else {
            0
        };
        let sum: u16 = (self.a as u16) + (val as u16) + carry;
        let result: u8 = (sum % 256) as u8;
        let overflow: bool = (self.a ^ result) & (val ^ result) & 0x80 != 0;
        self.a = result;
        self.set_flag(FLAG_CARRY, sum > 0xFF);
        self.set_flag(FLAG_OVERFLOW, overflow);
        self.set_zn(result);
    }

    /// Subtracts a value and the borrow from the accumulator.
    pub fn sbc(&mut self, val: u8)
        ensures
            *final(self) == old(self).after_sbc(val),
    {
        let borrow: u16 = if self.get_flag(FLAG_CARRY) {
            0
        } else {
            1
        };
        let raised: u16 = 256 + (self.a as u16) - (val as u16) - borrow;
        let result: u8 = (raised % 256) as u8;
        let overflow: bool = (self.a ^ result) & (self.a ^ val) & 0x80 != 0;
        self.a = result;
        self.set_flag(FLAG_CARRY, raised >= 256);
        self.set_flag(FLAG_OVERFLOW, overflow);
        self.set_zn(result);
    }

    /// Tests the bits of a value against the accumulator.
    pub fn bit(&mut self, val: u8)
        ensures
            *final(self) == old(self).after_bit(val),
    {
        self.set_flag(FLAG_ZERO, self.a & val == 0);
        self.set_flag(FLAG_NEGATIVE, val & 0x80 != 0);
        self.set_flag(FLAG_OVERFLOW, val & 0x40 != 0);
    }

    /// Shifts, rotates, increments or decrements a byte and sets the flags.
    pub fn modified_byte(&mut self, op: Op, val: u8) -> (r: u8)
        ensures
            (r, *final(self)) == old(self).modified(op, val),
    {
        let carry: u16 = if self.get_flag(FLAG_CARRY) {
            1
        } else {
            0
        };
        let wide: u16 = val as u16;
        match op {
            Op::Asl => {
                let r: u8 = ((wide * 2) % 256) as u8;
                self.set_flag(FLAG_CARRY, val >= 128);
                self.set_zn(r);
                r
            },
            Op::Lsr => {
                let r: u8 = val / 2;
                self.set_flag(FLAG_CARRY, val % 2 == 1);
                self.set_zn(r);
                r
            },
            Op::Rol => {
                let r: u8 = ((wide * 2 + carry) % 256) as u8;
                self.set_flag(FLAG_CARRY, val >= 128);
                self.set_zn(r);
                r
            },
            Op::Ror => {
                let r: u8 = (wide / 2 + carry * 128) as u8;
                self.set_flag(FLAG_CARRY, val % 2 == 1);
                self.set_zn(r);
                r
            },
            Op::Inc => {
                let r: u8 = val.wrapping_add(1);
                self.set_zn(r);
                r
            },
            _ => {
                let r: u8 = val.wrapping_sub(1);
                self.set_zn(r);
                r
            },
        }
    }

    pub fn inx(&mut self)
        ensures
            *final(self) == old(self).after_ldx(old(self).x.wrapping_add(1)),
    {
        self.ldx(self.x.wrapping_add(1));
    }

    pub fn iny(&mut self)
        ensures
            *final(self) == old(self).after_ldy(old(self).y.wrapping_add(1)),
    {
        self.ldy(self.y.wrapping_add(1));
    }

    pub fn dex(&mut self)
        ensures
            *final(self) == old(self).after_ldx(old(self).x.wrapping_sub(1)),
    {
        self.ldx(self.x.wrapping_sub(1));
    }

    pub fn dey(&mut self)
        ensures
            *final(self) == old(self).after_ldy(old(self).y.wrapping_sub(1)),
    {
        self.ldy(self.y.wrapping_sub(1));
    }

    pub fn tax(&mut self)
        ensures
            *final(self) == old(self).after_ldx(old(self).a),
    {
        self.ldx(self.a);
    }

    pub fn tay(&mut self)
        ensures
            *final(self) == old(self).after_ldy(old(self).a),
    {
        self.ldy(self.a);
    }

    pub fn txa(&mut self)
        ensures
            *final(self) == old(self).after_lda(old(self).x),
    {
        self.lda(self.x);
    }

    pub fn tya(&mut self)
        ensures
            *final(self) == old(self).after_lda(old(self).y),
    {
        self.lda(self.y);
    }

    /// Fetches the byte at the program counter.
    pub fn immediate(&mut self, bus: &mut Bus) -> (val: u8)
        requires
            old(bus).wf(),
        ensures
            final(bus).wf(),
            same_beam(old(bus)@.ppu, final(bus)@.ppu),
            (val, machine(*final(self), final(bus)@)) == machine(*old(self), old(bus)@).fetch(),
    {
        let val: u8 = bus.read(self.pc);
        self.pc = self.pc.wrapping_add(1);
        val
    }

    /// Fetches the word at the program counter.
    pub fn absolute_address(&mut self, bus: &mut Bus) -> (addr: u16)
        requires
            old(bus).wf(),
        ensures
            final(bus).wf(),
            same_beam(old(bus)@.ppu, final(bus)@.ppu),
            (addr, machine(*final(self), final(bus)@)) == machine(
                *old(self),
                old(bus)@,
            ).fetch_word(),
    {
        let low: u8 = self.immediate(bus);
        let high: u8 = self.immediate(bus);
        make_word(high, low)
    }

    fn zero_page_word(&mut self, at: u8, bus: &mut Bus) -> (w: u16)
        requires
            old(bus).wf(),
        ensures
            final(bus).wf(),
            same_beam(old(bus)@.ppu, final(bus)@.ppu),
            (w, machine(*final(self), final(bus)@)) == machine(
                *old(self),
                old(bus)@,
            ).read_zero_page_word(at),
    {
        let low: u8 = bus.read(widen(at));
        let high: u8 = bus.read(widen(at.wrapping_add(1)));
        make_word(high, low)
    }

    fn vector(&mut self, at: u16, bus: &mut Bus) -> (w: u16)
        requires
            old(bus).wf(),
            at < 0xFFFF,
        ensures
            final(bus).wf(),
            same_beam(old(bus)@.ppu, final(bus)@.ppu),
            (w, machine(*final(self), final(bus)@)) == machine(
                *old(self),
                old(bus)@,
            ).read_vector(at),
    {
        let low: u8 = bus.read(at);
        let high: u8 = bus.read(at + 1);
        make_word(high, low)
    }

    /// The target of an indirect jump. The pointer's second byte is read
    /// from the page of its first.
    pub fn indirect_address(&mut self, bus: &mut Bus) -> (addr: u16)
        requires
            old(bus).wf(),
        ensures
            final(bus).wf(),
            same_beam(old(bus)@.ppu, final(bus)@.ppu),
            (Operand { addr, crossed: false }, machine(*final(self), final(bus)@)) == machine(
                *old(self),
                old(bus)@,
            ).operand(Mode::Indirect),
    {
        proof {
            reveal(Machine::operand);
        }
        let ptr: u16 = self.absolute_address(bus);
        let low: u8 = bus.read(ptr);
        let high: u8 = bus.read(make_word(hi(ptr), lo(ptr).wrapping_add(1)));
        make_word(high, low)
    }

    /// Fetches the operand bytes of an instruction and forms its effective
    /// address.
    #[verifier::spinoff_prover]
    #[verifier::rlimit(60)]
    pub fn operand(&mut self, mode: Mode, bus: &mut Bus) -> (operand: Operand)
        requires
            old(bus).wf(),
        ensures
            final(bus).wf(),
            same_beam(old(bus)@.ppu, final(bus)@.ppu),
            (operand, machine(*final(self), final(bus)@)) == machine(
                *old(self),
                old(bus)@,
            ).operand(mode),
    {
        proof {
            reveal(Machine::operand);
        }
        match mode {
            Mode::Implied => Operand { addr: 0, crossed: false },
            Mode::Accumulator => Operand { addr: 0, crossed: false },
            Mode::Immediate => {
                let addr: u16 = self.pc;
                self.pc = self.pc.wrapping_add(1);
                Operand { addr, crossed: false }
            },
            Mode::ZeroPage => {
                let b: u8 = self.immediate(bus);
                Operand { addr: widen(b), crossed: false }
            },
            Mode::ZeroPageX => {
                let b: u8 = self.immediate(bus);
                Operand { addr: widen(b.wrapping_add(self.x)), crossed: false }
            },
            Mode::ZeroPageY => {
                let b: u8 = self.immediate(bus);
                Operand { addr: widen(b.wrapping_add(self.y)), crossed: false }
            },
            Mode::Absolute => {
                let w: u16 = self.absolute_address(bus);
                Operand { addr: w, crossed: false }
            },
            Mode::AbsoluteX => {
                let w: u16 = self.absolute_address(bus);
                let addr: u16 = w.wrapping_add(widen(self.x));
                Operand { addr, crossed: crossed(w, addr) }
            },
            Mode::AbsoluteY => {
                let w: u16 = self.absolute_address(bus);
                let addr: u16 = w.wrapping_add(widen(self.y));
                Operand { addr, crossed: crossed(w, addr) }
            },
            Mode::Indirect => {
                let addr: u16 = self.indirect_address(bus);
                Operand { addr, crossed: false }
            },
            Mode::IndexedIndirect => {
                let b: u8 = self.immediate(bus);
                let w: u16 = self.zero_page_word(b.wrapping_add(self.x), bus);
                Operand { addr: w, crossed: false }
            },
            Mode::IndirectIndexed => {
                let b: u8 = self.immediate(bus);
                let w: u16 = self.zero_page_word(b, bus);
                let addr: u16 = w.wrapping_add(widen(self.y));
                Operand { addr, crossed: crossed(w, addr) }
            },
            Mode::Relative => {
                let opcode_at: u16 = self.pc.wrapping_sub(1);
                let b: u8 = self.immediate(bus);
                let addr: u16 = self.pc.wrapping_add(displacement(b));
                Operand { addr, crossed: crossed(opcode_at, addr) }
            },
        }
    }

    /// Pushes a byte on the stack in page `$01`.
    pub fn push(&mut self, bus: &mut Bus, data: u8)
        requires
            old(bus).wf(),
        ensures
            final(bus).wf(),
            same_beam(old(bus)@.ppu, final(bus)@.ppu),
            machine(*final(self), final(bus)@) == machine(*old(self), old(bus)@).push(data),
    {
        bus.write(stack_slot(self.sp), data);
        self.sp = self.sp.wrapping_sub(1);
    }

    /// Pulls a byte from the stack.
    pub fn pull(&mut self, bus: &mut Bus) -> (data: u8)
        requires
            old(bus).wf(),
        ensures
            final(bus).wf(),
            same_beam(old(bus)@.ppu, final(bus)@.ppu),
            (data, machine(*final(self), final(bus)@)) == machine(*old(self), old(bus)@).pull(),
    {
        self.sp = self.sp.wrapping_add(1);
        bus.read(stack_slot(self.sp))
    }

    /// Moves the program counter to the target if the condition holds.
    pub fn branch(&mut self, condition: bool, target: u16) -> (taken: bool)
        ensures
            forall|bus: BusView|
                (taken, machine(*final(self), bus)) == machine(*old(self), bus).branch(
                    condition,
                    target,
                ),
    {
        if condition {
            self.pc = target;
        }
        condition
    }

    fn modify(&mut self, op: Op, mode: Mode, addr: u16, bus: &mut Bus)
        requires
            old(bus).wf(),
        ensures
            final(bus).wf(),
            same_beam(old(bus)@.ppu, final(bus)@.ppu),
            machine(*final(self), final(bus)@) == machine(
                *old(self),
                old(bus)@,
            ).modify(op, mode, addr),
    {
        match mode {
            Mode::Accumulator => {
                let r: u8 = self.modified_byte(op, self.a);
                self.a = r;
            },
            _ => {
                let val: u8 = bus.read(addr);
                let r: u8 = self.modified_byte(op, val);
                bus.write(addr, r);
            },
        }
    }

    /// Calls a subroutine.
    pub fn jsr(&mut self, target: u16, bus: &mut Bus)
        requires
            old(bus).wf(),
        ensures
            final(bus).wf(),
            same_beam(old(bus)@.ppu, final(bus)@.ppu),
            machine(*final(self), final(bus)@) == machine(*old(self), old(bus)@).jsr(target),
    {
        let ret: u16 = self.pc.wrapping_sub(1);
        self.push(bus, hi(ret));
        self.push(bus, lo(ret));
        self.pc = target;
    }

    /// Returns from a subroutine.
    pub fn rts(&mut self, bus: &mut Bus)
        requires
            old(bus).wf(),
        ensures
            final(bus).wf(),
            same_beam(old(bus)@.ppu, final(bus)@.ppu),
            machine(*final(self), final(bus)@) == machine(*old(self), old(bus)@).rts(),
    {
        let low: u8 = self.pull(bus);
        let high: u8 = self.pull(bus);
        self.pc = make_word(high, low).wrapping_add(1);
    }

    /// Returns from an interrupt.
    pub fn rti(&mut self, bus: &mut Bus)
        requires
            old(bus).wf(),
        ensures
            final(bus).wf(),
            same_beam(old(bus)@.ppu, final(bus)@.ppu),
            machine(*final(self), final(bus)@) == machine(*old(self), old(bus)@).rti(),
    {
        let p: u8 = self.pull(bus);
        let low: u8 = self.pull(bus);
        let high: u8 = self.pull(bus);
        self.status = (p & 0xEF) | 0x20;
        self.pc = make_word(high, low);
    }

    fn interrupt(&mut self, ret: u16, status: u8, at: u16, bus: &mut Bus)
        requires
            old(bus).wf(),
            at < 0xFFFF,
        ensures
            final(bus).wf(),
            same_beam(old(bus)@.ppu, final(bus)@.ppu),
            machine(*final(self), final(bus)@) == machine(
                *old(self),
                old(bus)@,
            ).interrupt(ret, status, at),
    {
        proof {
            reveal(Machine::interrupt);
        }
        self.push(bus, hi(ret));
        self.push(bus, lo(ret));
        self.push(bus, status);
        self.set_flag(FLAG_INTERRUPT, true);
        let target: u16 = self.vector(at, bus);
        self.pc = target;
    }

    /// Takes the software interrupt.
    pub fn brk(&mut self, bus: &mut Bus)
        requires
            old(bus).wf(),
        ensures
            final(bus).wf(),
            same_beam(old(bus)@.ppu, final(bus)@.ppu),
            machine(*final(self), final(bus)@) == machine(*old(self), old(bus)@).brk(),
    {
        self.interrupt(self.pc.wrapping_add(1), self.status | 0x30, 0xFFFE, bus);
    }

    /// Takes a non-maskable interrupt.
    pub fn nmi(&mut self, bus: &mut Bus)
        requires
            old(bus).wf(),
        ensures
            final(bus).wf(),
            same_beam(old(bus)@.ppu, final(bus)@.ppu),
            machine(*final(self), final(bus)@) == machine(*old(self), old(bus)@).nmi(),
    {
        self.interrupt(self.pc, (self.status & 0xEF) | 0x20, 0xFFFA, bus);
        self.cycles = self.cycles.wrapping_add(7);
    }

    /// Resets the processor and loads the program counter from `$FFFC`.
    pub fn reset(&mut self, bus: &mut Bus)
        requires
            old(bus).wf(),
        ensures
            final(bus).wf(),
            same_beam(old(bus)@.ppu, final(bus)@.ppu),
            machine(*final(self), final(bus)@) == machine(*old(self), old(bus)@).reset(),
    {
        let target: u16 = self.vector(0xFFFC, bus);
        self.a = 0;
        self.x = 0;
        self.y = 0;
        self.sp = 0xFD;
        self.status = 0x24;
        self.pc = target;
        self.cycles = 0;
    }

    #[verifier::spinoff_prover]
    #[verifier::rlimit(60)]
    fn perform(&mut self, op: Op, mode: Mode, addr: u16, bus: &mut Bus) -> (taken: bool)
        requires
            old(bus).wf(),
        ensures
            final(bus).wf(),
            same_beam(old(bus)@.ppu, final(bus)@.ppu),
            (taken, machine(*final(self), final(bus)@)) == machine(
                *old(self),
                old(bus)@,
            ).perform(op, mode, addr),
    {
        proof {
            reveal(Machine::perform);
        }
        match op {
            Op::Lda => {
                let v: u8 = bus.read(addr);
                self.lda(v);
                false
            },
            Op::Ldx => {
                let v: u8 = bus.read(addr);
                self.ldx(v);
                false
            },
            Op::Ldy => {
                let v: u8 = bus.read(addr);
                self.ldy(v);
                false
            },
            Op::Sta => {
                bus.write(addr, self.a);
                false
            },
            Op::Stx => {
                bus.write(addr, self.x);
                false
            },
            Op::Sty => {
                bus.write(addr, self.y);
                false
            },
            Op::Adc => {
                let v: u8 = bus.read(addr);
                self.adc(v);
                false
            },
            Op::Sbc => {
                let v: u8 = bus.read(addr);
                self.sbc(v);
                false
            },
            Op::And => {
                let v: u8 = bus.read(addr);
                self.lda(self.a & v);
                false
            },
            Op::Ora => {
                let v: u8 = bus.read(addr);
                self.lda(self.a | v);
                false
            },
            Op::Eor => {
                let v: u8 = bus.read(addr);
                self.lda(self.a ^ v);
                false
            },
            Op::Cmp => {
                let v: u8 = bus.read(addr);
                self.cmp(v);
                false
            },
            Op::Cpx => {
                let v: u8 = bus.read(addr);
                self.compare(self.x, v);
                false
            },
            Op::Cpy => {
                let v: u8 = bus.read(addr);
                self.compare(self.y, v);
                false
            },
            Op::Bit => {
                let v: u8 = bus.read(addr);
                self.bit(v);
                false
            },
            Op::Asl => {
                self.modify(op, mode, addr, bus);
                false
            },
            Op::Lsr => {
                self.modify(op, mode, addr, bus);
                false
            },
            Op::Rol => {
                self.modify(op, mode, addr, bus);
                false
            },
            Op::Ror => {
                self.modify(op, mode, addr, bus);
                false
            },
            Op::Inc => {
                self.modify(op, mode, addr, bus);
                false
            },
            Op::Dec => {
                self.modify(op, mode, addr, bus);
                false
            },
            Op::Inx => {
                self.inx();
                false
            },
            Op::Iny => {
                self.iny();
                false
            },
            Op::Dex => {
                self.dex();
                false
            },
            Op::Dey => {
                self.dey();
                false
            },
            Op::Tax => {
                self.tax();
                false
            },
            Op::Tay => {
                self.tay();
                false
            },
            Op::Txa => {
                self.txa();
                false
            },
            Op::Tya => {
                self.tya();
                false
            },
            Op::Tsx => {
                self.ldx(self.sp);
                false
            },
            Op::Txs => {
                self.sp = self.x;
                false
            },
            Op::Clc => {
                self.set_flag(FLAG_CARRY, false);
                false
            },
            Op::Sec => {
                self.set_flag(FLAG_CARRY, true);
                false
            },
            Op::Cli => {
                self.set_flag(FLAG_INTERRUPT, false);
                false
            },
            Op::Sei => {
                self.set_flag(FLAG_INTERRUPT, true);
                false
            },
            Op::Cld => {
                self.set_flag(FLAG_DECIMAL, false);
                false
            },
            Op::Sed => {
                self.set_flag(FLAG_DECIMAL, true);
                false
            },
            Op::Clv => {
                self.set_flag(FLAG_OVERFLOW, false);
                false
            },
            Op::Bcc => {
                let condition: bool = !self.get_flag(FLAG_CARRY);
                self.branch(condition, addr)
            },
            Op::Bcs => {
                let condition: bool = self.get_flag(FLAG_CARRY);
                self.branch(condition, addr)
            },
            Op::Bne => {
                let condition: bool = !self.get_flag(FLAG_ZERO);
                self.branch(condition, addr)
            },
            Op::Beq => {
                let condition: bool = self.get_flag(FLAG_ZERO);
                self.branch(condition, addr)
            },
            Op::Bpl => {
                let condition: bool = !self.get_flag(FLAG_NEGATIVE);
                self.branch(condition, addr)
            },
            Op::Bmi => {
                let condition: bool = self.get_flag(FLAG_NEGATIVE);
                self.branch(condition, addr)
            },
            Op::Bvc => {
                let condition: bool = !self.get_flag(FLAG_OVERFLOW);
                self.branch(condition, addr)
            },
            Op::Bvs => {
                let condition: bool = self.get_flag(FLAG_OVERFLOW);
                self.branch(condition, addr)
            },
            Op::Jmp => {
                self.pc = addr;
                false
            },
            Op::Jsr => {
                self.jsr(addr, bus);
                false
            },
            Op::Rts => {
                self.rts(bus);
                false
            },
            Op::Rti => {
                self.rti(bus);
                false
            },
            Op::Brk => {
                self.brk(bus);
                false
            },
            Op::Pha => {
                self.push(bus, self.a);
                false
            },
            Op::Php => {
                self.push(bus, self.status | 0x30);
                false
            },
            Op::Pla => {
                let v: u8 = self.pull(bus);
                self.lda(v);
                false
            },
            Op::Plp => {
                let v: u8 = self.pull(bus);
                self.status = (v & 0xEF) | 0x20;
                false
            },
            Op::Nop => false,
        }
    }

    /// Runs the instruction with the given opcode, its opcode already
    /// fetched, and returns the cycles it costs.
    pub fn execute_instruction(&mut self, opcode: u8, bus: &mut Bus) -> (cycles: u8)
        requires
            old(bus).wf(),
        ensures
            final(bus).wf(),
            same_beam(old(bus)@.ppu, final(bus)@.ppu),
            (cycles, machine(*final(self), final(bus)@)) == machine(
                *old(self),
                old(bus)@,
            ).execute(opcode),
            2 <= cycles <= 9,
    {
        proof {
            reveal(Machine::execute);
        }
        let (op, mode) = decode_opcode(opcode);
        let operand: Operand = self.operand(mode, bus);
        let taken: bool = self.perform(op, mode, operand.addr, bus);
        let base: u8 = cost(op, mode);
        if taken {
            if operand.crossed {
                base + 2
            } else {
                base + 1
            }
        } else if operand.crossed && pays_for_crossing(op, mode) {
            base + 1
        } else {
            base
        }
    }

    /// Fetches and runs one instruction and returns the cycles it costs.
    pub fn step(&mut self, bus: &mut Bus) -> (cycles: u8)
        requires
            old(bus).wf(),
        ensures
            final(bus).wf(),
            same_beam(old(bus)@.ppu, final(bus)@.ppu),
            (cycles, machine(*final(self), final(bus)@)) == machine(*old(self), old(bus)@).step(),
            2 <= cycles <= 9,
    {
        proof {
            reveal(Machine::step);
        }
        let opcode: u8 = self.immediate(bus);
        let cycles: u8 = self.execute_instruction(opcode, bus);
        self.cycles = self.cycles.wrapping_add(cycles as u64);
        cycles
    }
}

} // verus!
