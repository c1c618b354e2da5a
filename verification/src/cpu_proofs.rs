//! What holds of every instruction: its documented length and cost, how the
//! program counter moves, and how the stack gives back what it was given.

use vstd::prelude::*;
use crate::bits::{low_byte, word};
use crate::bus::BusView;
use crate::cpu::{
    base_cycles, flag_set, instruction_cycles, interrupt_status, mode_length, pulled_status,
    pushed_status, stack_address, Machine, Operand, CPU,
};
use crate::opcodes::{decode, documented, Mode, Op};

verus! {

/// The operation moves the program counter itself.
pub open spec fn transfers_control(op: Op) -> bool {
    op == Op::Jmp || op == Op::Jsr || op == Op::Rts || op == Op::Rti || op == Op::Brk
        || is_branch(op)
}

pub open spec fn is_branch(op: Op) -> bool {
    op == Op::Bcc || op == Op::Bcs || op == Op::Beq || op == Op::Bne || op == Op::Bpl || op
        == Op::Bmi || op == Op::Bvc || op == Op::Bvs
}

/// The decoder and the cost rules give every opcode its documented length
/// and base cost.
pub proof fn lemma_documented_timing(opcode: u8)
    ensures
        mode_length(decode(opcode).1) == documented(opcode).0,
        base_cycles(decode(opcode).0, decode(opcode).1) == documented(opcode).1,
{
}

/// A single-bit flag reads back as it was set, and setting it leaves the
/// other bits of the status byte alone.
pub proof fn lemma_flag_set(status: u8, bit: u8, value: bool)
    requires
        bit < 8,
    ensures
        (flag_set(status, 1u8 << bit, value) & (1u8 << bit) != 0) == value,
        forall|other: u8|
            other < 8 && other != bit ==> (#[trigger] (flag_set(status, 1u8 << bit, value) & (1u8
                << other))) == status & (1u8 << other),
{
    let f = 1u8 << bit;
    assert((status | f) & f != 0) by (bit_vector)
        requires
            f == 1u8 << bit,
            bit < 8,
    ;
    assert((status & !f) & f == 0) by (bit_vector);
    assert forall|other: u8| other < 8 && other != bit implies (#[trigger] (flag_set(
        status,
        1u8 << bit,
        value,
    ) & (1u8 << other))) == status & (1u8 << other) by {
        let g = 1u8 << other;
        assert((status | f) & g == status & g) by (bit_vector)
            requires
                f == 1u8 << bit,
                g == 1u8 << other,
                bit < 8,
                other < 8,
                other != bit,
        ;
        assert((status & !f) & g == status & g) by (bit_vector)
            requires
                f == 1u8 << bit,
                g == 1u8 << other,
                bit < 8,
                other < 8,
                other != bit,
        ;
    }
}

/// Fetching the operand moves the program counter past the operand bytes
/// of the mode and changes no other register.
#[verifier::spinoff_prover]
#[verifier::rlimit(60)]
pub proof fn lemma_operand_advances(m: Machine, mode: Mode)
    ensures
        m.operand(mode).1.cpu == (CPU {
            pc: m.cpu.pc.wrapping_add((mode_length(mode) - 1) as u16),
            ..m.cpu
        }),
{
    reveal(Machine::operand);
}

/// An operation that does not transfer control leaves the program counter
/// where the operand fetch put it; a branch moves it only if taken, and
/// then to its target. No operation touches the count of cycles.
#[verifier::spinoff_prover]
#[verifier::rlimit(60)]
pub proof fn lemma_perform_program_counter(m: Machine, op: Op, mode: Mode, addr: u16)
    ensures
        !transfers_control(op) ==> m.perform(op, mode, addr).1.cpu.pc == m.cpu.pc && !m.perform(
            op,
            mode,
            addr,
        ).0,
        is_branch(op) ==> m.perform(op, mode, addr).1.cpu.pc == (if m.perform(op, mode, addr).0 {
            addr
        } else {
            m.cpu.pc
        }),
        !is_branch(op) ==> !m.perform(op, mode, addr).0,
        m.perform(op, mode, addr).1.cpu.cycles == m.cpu.cycles,
{
    reveal(Machine::perform);
    reveal(Machine::interrupt);
}

/// Every instruction costs its documented base cycles, plus one where a
/// reading operation indexes across a page, plus one for a taken branch and
/// one more if the branch lands in another page; and an instruction that
/// does not transfer control, or a branch not taken, moves the program
/// counter by its documented length.
#[verifier::spinoff_prover]
#[verifier::rlimit(60)]
pub proof fn lemma_step_timing(m: Machine)
    ensures
        ({
            let (opcode, m1) = m.fetch();
            let (op, mode) = decode(opcode);
            let (operand, m2) = m1.operand(mode);
            let (taken, m3) = m2.perform(op, mode, operand.addr);
            let (cycles, after) = m.step();
            &&& cycles == instruction_cycles(op, mode, operand.crossed, taken)
            &&& documented(opcode).1 <= cycles <= documented(
                opcode,
            ).1 + 2
            &&& (taken ==> is_branch(op))
            &&& (!transfers_control(op) || (is_branch(op) && !taken) ==> after.cpu.pc
                == m.cpu.pc.wrapping_add(documented(opcode).0 as u16))
            &&& (is_branch(op) && taken ==> after.cpu.pc == operand.addr)
            &&& after.cpu.cycles == m.cpu.cycles.wrapping_add(cycles as u64)
        }),
{
    reveal(Machine::step);
    reveal(Machine::execute);
    let (opcode, m1) = m.fetch();
    let (op, mode) = decode(opcode);
    let (operand, m2) = m1.operand(mode);
    lemma_documented_timing(opcode);
    lemma_operand_advances(m1, mode);
    lemma_perform_program_counter(m2, op, mode, operand.addr);
}

/// A taken branch whose target lies in another page than the branch costs
/// four cycles, one in the same page three, and a branch not taken two.
pub proof fn lemma_branch_cost(op: Op, crossed: bool, taken: bool)
    requires
        is_branch(op),
    ensures
        instruction_cycles(op, Mode::Relative, crossed, taken) == (if !taken {
            2int
        } else if crossed {
            4int
        } else {
            3int
        }),
{
}

/// A byte pushed on the stack is the byte pulled next, and the stack
/// pointer is back where it was.
pub proof fn lemma_push_pull(m: Machine, data: u8)
    requires
        m.bus.wf(),
    ensures
        m.push(data).pull().0 == data,
        m.push(data).pull().1.cpu == m.cpu,
        m.push(data).bus.ram[stack_address(m.cpu.sp) as int] == data,
{
    reveal(BusView::read);
    reveal(BusView::write);
}

/// `PHA` followed by `PLA` restores the accumulator and the stack pointer.
pub proof fn lemma_pha_pla(m: Machine)
    requires
        m.bus.wf(),
    ensures
        ({
            let pushed = m.perform(Op::Pha, Mode::Implied, 0).1;
            let pulled = pushed.perform(Op::Pla, Mode::Implied, 0).1;
            pulled.cpu.a == m.cpu.a && pulled.cpu.sp == m.cpu.sp
        }),
{
    let pushed = m.push(m.cpu.a);
    assert(m.perform(Op::Pha, Mode::Implied, 0).1 == pushed) by {
        reveal(Machine::perform);
    }
    assert(pushed.perform(Op::Pla, Mode::Implied, 0).1 == pushed.pull().1.with_cpu(
        pushed.pull().1.cpu.after_lda(pushed.pull().0),
    )) by {
        reveal(Machine::perform);
    }
    lemma_push_pull(m, m.cpu.a);
}

/// `PHP` followed by `PLP` restores the status with B clear and the unused
/// bit set, and the byte on the stack has both set.
pub proof fn lemma_php_plp(m: Machine)
    requires
        m.bus.wf(),
    ensures
        ({
            let pushed = m.perform(Op::Php, Mode::Implied, 0).1;
            let pulled = pushed.perform(Op::Plp, Mode::Implied, 0).1;
            &&& pushed.bus.ram[stack_address(m.cpu.sp) as int] == m.cpu.status | 0x30
            &&& pulled.cpu.status == (m.cpu.status & 0xEF) | 0x20
            &&& pulled.cpu.sp == m.cpu.sp
        }),
{
    let s = m.cpu.status;
    let pushed = m.push(pushed_status(s));
    assert(m.perform(Op::Php, Mode::Implied, 0).1 == pushed) by {
        reveal(Machine::perform);
    }
    assert(pushed.perform(Op::Plp, Mode::Implied, 0).1 == pushed.pull().1.with_cpu(
        CPU { status: pulled_status(pushed.pull().0), ..pushed.pull().1.cpu },
    )) by {
        reveal(Machine::perform);
    }
    lemma_push_pull(m, pushed_status(s));
    assert(((s | 0x30) & 0xEF) | 0x20 == (s & 0xEF) | 0x20) by (bit_vector);
}

/// An indirect jump through a pointer at `$xxFF` takes the high byte of its
/// target from `$xx00`, not from the next page.
pub proof fn lemma_indirect_jump_wraps(m: Machine)
    requires
        low_byte(m.fetch_word().0) == 0xFF,
    ensures
        ({
            let (ptr, m1) = m.fetch_word();
            let (low, m2) = m1.read(ptr);
            let (high, m3) = m2.read((ptr - 0xFF) as u16);
            m.operand(Mode::Indirect) == (Operand { addr: word(high, low), crossed: false }, m3)
        }),
{
    reveal(Machine::operand);
}


/// A byte read as a two's-complement number.
pub open spec fn signed(b: u8) -> int {
    if b >= 128 {
        b - 256
    } else {
        b as int
    }
}

/// C, V, Z and N set one after the other read back as they were set, and
/// I, D, B and the unused bit are as before.
pub proof fn lemma_arithmetic_flags(status: u8, c: bool, v: bool, z: bool, n: bool)
    ensures
        ({
            let t = flag_set(
                flag_set(flag_set(flag_set(status, 0x01, c), 0x40, v), 0x02, z),
                0x80,
                n,
            );
            &&& (t & 0x01 != 0) == c
            &&& (t & 0x40 != 0) == v
            &&& (t & 0x02 != 0) == z
            &&& (t & 0x80 != 0) == n
            &&& t & 0x3C == status & 0x3C
        }),
{
    let t1 = flag_set(status, 0x01, c);
    let t2 = flag_set(t1, 0x40, v);
    let t3 = flag_set(t2, 0x02, z);
    let t4 = flag_set(t3, 0x80, n);
    assert(t1 == (if c {
        status | 0x01
    } else {
        status & !0x01u8
    }));
    assert(t2 == (if v {
        t1 | 0x40
    } else {
        t1 & !0x40u8
    }));
    assert(t3 == (if z {
        t2 | 0x02
    } else {
        t2 & !0x02u8
    }));
    assert(t4 == (if n {
        t3 | 0x80
    } else {
        t3 & !0x80u8
    }));
    assert((t4 & 0x01 != 0) == c && (t4 & 0x40 != 0) == v && (t4 & 0x02 != 0) == z && (t4 & 0x80
        != 0) == n && t4 & 0x3C == status & 0x3C) by (bit_vector)
        requires
            t1 == (if c {
                status | 0x01
            } else {
                status & !0x01u8
            }),
            t2 == (if v {
                t1 | 0x40
            } else {
                t1 & !0x40u8
            }),
            t3 == (if z {
                t2 | 0x02
            } else {
                t2 & !0x02u8
            }),
            t4 == (if n {
                t3 | 0x80
            } else {
                t3 & !0x80u8
            }),
    ;
}

/// `ADC` leaves the sum modulo 256 in the accumulator; C is set iff the
/// unsigned sum exceeds 255, V iff the signed sum lies outside -128 to
/// 127, Z iff the result is zero, N iff its bit 7 is set; the other flags
/// are untouched.
pub proof fn lemma_adc_flags(c: CPU, val: u8)
    ensures
        ({
            let carry: int = if c.flag(0x01) {
                1
            } else {
                0
            };
            let r = c.after_adc(val);
            &&& r.a == (c.a + val + carry) % 256
            &&& r.flag(0x01) == (c.a + val + carry > 255)
            &&& r.flag(0x40) == !(-128 <= signed(c.a) + signed(val) + carry <= 127)
            &&& r.flag(0x02) == (r.a == 0)
            &&& r.flag(0x80) == (r.a >= 128)
            &&& r.status & 0x3C == c.status & 0x3C
        }),
{
    let carry: int = if c.flag(0x01) {
        1
    } else {
        0
    };
    let sum = c.a + val + carry;
    let result = (sum % 256) as u8;
    let a = c.a;
    let v = (a ^ result) & (val ^ result) & 0x80 != 0;
    assert(v == ((a >= 128) == (val >= 128) && (result >= 128) != (a >= 128))) by (bit_vector)
        requires
            v == ((a ^ result) & (val ^ result) & 0x80 != 0),
    ;
    lemma_arithmetic_flags(c.status, sum > 0xFF, v, result == 0, result >= 128);
}

/// `SBC` leaves the difference modulo 256 in the accumulator; C is set iff
/// no borrow is needed, V iff the signed difference lies outside -128 to
/// 127, Z iff the result is zero, N iff its bit 7 is set; the other flags
/// are untouched.
pub proof fn lemma_sbc_flags(c: CPU, val: u8)
    ensures
        ({
            let borrow: int = if c.flag(0x01) {
                0
            } else {
                1
            };
            let r = c.after_sbc(val);
            &&& r.a == (c.a - val - borrow) % 256
            &&& r.flag(0x01) == (c.a - val - borrow >= 0)
            &&& r.flag(0x40) == !(-128 <= signed(c.a) - signed(val) - borrow <= 127)
            &&& r.flag(0x02) == (r.a == 0)
            &&& r.flag(0x80) == (r.a >= 128)
            &&& r.status & 0x3C == c.status & 0x3C
        }),
{
    let borrow: int = if c.flag(0x01) {
        0
    } else {
        1
    };
    let diff = c.a - val - borrow;
    let result = (diff % 256) as u8;
    let a = c.a;
    let v = (a ^ result) & (a ^ val) & 0x80 != 0;
    assert(v == ((a >= 128) != (val >= 128) && (result >= 128) != (a >= 128))) by (bit_vector)
        requires
            v == ((a ^ result) & (a ^ val) & 0x80 != 0),
    ;
    lemma_arithmetic_flags(c.status, diff >= 0, v, result == 0, result >= 128);
}

/// A comparison sets C iff the register is not below the value, Z iff they
/// are equal, and N from bit 7 of their difference modulo 256; V and the
/// other flags are untouched.
pub proof fn lemma_compare_flags(c: CPU, reg: u8, val: u8)
    ensures
        ({
            let r = c.after_compare(reg, val);
            &&& r.flag(0x01) == (reg >= val)
            &&& r.flag(0x02) == (reg == val)
            &&& r.flag(0x80) == ((reg - val) % 256 >= 128)
            &&& r.status & 0x7C == c.status & 0x7C
            &&& r.a == c.a
        }),
{
    let d = reg.wrapping_sub(val);
    let keep = c.status & 0x40 != 0;
    assert(flag_set(c.status, 0x40, keep) == c.status) by {
        let s = c.status;
        assert((s & 0x40 != 0) ==> s | 0x40 == s) by (bit_vector);
        assert((s & 0x40 == 0) ==> s & !0x40u8 == s) by (bit_vector);
    }
    lemma_arithmetic_flags(c.status, reg >= val, keep, d == 0, d >= 128);
    let s1 = flag_set(c.status, 0x01, reg >= val);
    assert(flag_set(s1, 0x40, keep) == s1) by {
        assert((s1 & 0x40 != 0) == keep) by {
            let s = c.status;
            assert((s | 0x01) & 0x40 == s & 0x40) by (bit_vector);
            assert((s & !0x01u8) & 0x40 == s & 0x40) by (bit_vector);
        }
        assert((s1 & 0x40 != 0) ==> s1 | 0x40 == s1) by (bit_vector);
        assert((s1 & 0x40 == 0) ==> s1 & !0x40u8 == s1) by (bit_vector);
    }
    let t = c.after_compare(reg, val).status;
    let s = c.status;
    assert(t & 0x7C == s & 0x7C) by (bit_vector)
        requires
            t & 0x3C == s & 0x3C,
            (t & 0x40 != 0) == (s & 0x40 != 0),
    ;
}


/// Every status byte that reaches the stack has the unused bit set; B is
/// set in the byte that `PHP` and `BRK` push and clear in the byte that an
/// interrupt pushes; and a status taken from the stack has B clear and the
/// unused bit set, whatever the byte was.
pub proof fn lemma_status_bytes(status: u8)
    ensures
        pushed_status(status) & 0x30 == 0x30,
        interrupt_status(status) & 0x30 == 0x20,
        pulled_status(status) & 0x30 == 0x20,
        pushed_status(status) & 0xCF == status & 0xCF,
        interrupt_status(status) & 0xCF == status & 0xCF,
        pulled_status(status) & 0xCF == status & 0xCF,
{
    assert((status | 0x30) & 0x30 == 0x30) by (bit_vector);
    assert(((status & 0xEF) | 0x20) & 0x30 == 0x20) by (bit_vector);
    assert((status | 0x30) & 0xCF == status & 0xCF) by (bit_vector);
    assert(((status & 0xEF) | 0x20) & 0xCF == status & 0xCF) by (bit_vector);
}

} // verus!
