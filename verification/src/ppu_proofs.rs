//! What holds of the PPU: how the beam moves through a frame, how the
//! address and data registers behave, how memory is mirrored, and which
//! sprites evaluation chooses.

use vstd::prelude::*;
use crate::cartridge::{CartridgeView, Mirroring};
use crate::ppu::{
    beam_index, blank_edges, copy_x, count_in_range, data_writes, nametable_index, palette_mask,
    rendering_enabled, same_beam, scroll_y, select_sprites, skips_dot, sprite_at, sprite_height,
    sprite_in_range, vram_step, PpuRegs, PpuView, Sprite,
};

verus! {

/// The work of a dot moves neither the beam nor the frame latch.
#[verifier::spinoff_prover]
#[verifier::rlimit(60)]
pub proof fn lemma_line_dot_keeps_beam(p: PpuView, c: CartridgeView)
    ensures
        same_beam(p, p.line_dot(c)),
{
    reveal(PpuView::line_dot);
}

/// One step moves the beam on by one dot, or by two where an odd frame
/// leaves a dot out. A frame has 341 dots on each of 262 lines; the step
/// from its last dot returns the beam to the start, latches
/// `frame_complete` and changes the frame parity, and no other step does.
#[verifier::spinoff_prover]
#[verifier::rlimit(60)]
pub proof fn lemma_step_advances_beam(p: PpuView, c: CartridgeView)
    requires
        p.wf(),
    ensures
        ({
            let q = p.step(c).regs;
            let next = beam_index(p.regs) + 1 + (if skips_dot(p.regs) {
                1int
            } else {
                0int
            });
            if next < 89342 {
                beam_index(q) == next && q.frame_complete == p.regs.frame_complete && q.odd_frame
                    == p.regs.odd_frame
            } else {
                beam_index(q) == 0 && q.frame_complete && q.odd_frame != p.regs.odd_frame
            }
        }),
        0 <= beam_index(p.regs) < 89342,
{
    reveal(PpuView::step);
    let p0 = if skips_dot(p.regs) {
        p.with_regs(PpuRegs { cycle: 1, ..p.regs })
    } else {
        p
    };
    let p1 = p0.with_regs(blank_edges(p0.regs));
    lemma_line_dot_keeps_beam(p1, c);
}

/// Two writes to `$2006` with the write toggle clear set the VRAM address
/// to the low six bits of the first byte and the whole of the second.
pub proof fn lemma_address_writes(p: PpuView, c: CartridgeView, first: u8, second: u8)
    requires
        !p.regs.write_toggle,
    ensures
        ({
            let (p1, c1) = p.cpu_write(c, 0x2006, first);
            let (p2, c2) = p1.cpu_write(c1, 0x2006, second);
            p2.regs.vram_addr == ((first as u16 & 0x3F) << 8) | second as u16 && c2 == c
                && !p2.regs.write_toggle
        }),
{
    reveal(PpuView::cpu_write);
    let t = p.regs.temp_vram_addr;
    let f = first as u16;
    let s = second as u16;
    assert((((t & 0x00FF) | ((f & 0x3F) << 8)) & 0xFF00) | s == ((f & 0x3F) << 8) | s)
        by (bit_vector)
        requires
            s < 256,
    ;
}

/// Every access to `$2007` moves the VRAM address on by 1, or by 32 if bit
/// 2 of the control register is set.
pub proof fn lemma_data_access_steps(p: PpuView, c: CartridgeView, data: u8)
    ensures
        p.cpu_read(c, 0x2007).1.regs.vram_addr == p.regs.vram_addr.wrapping_add(
            vram_step(p.regs.ctrl),
        ),
        p.cpu_write(c, 0x2007, data).0.regs.vram_addr == p.regs.vram_addr.wrapping_add(
            vram_step(p.regs.ctrl),
        ),
        p.cpu_write(c, 0x2007, data) == ({
            let (q, d) = p.write(c, p.regs.vram_addr, data);
            (
                q.with_regs(
                    PpuRegs {
                        vram_addr: p.regs.vram_addr.wrapping_add(vram_step(p.regs.ctrl)),
                        ..p.regs
                    },
                ),
                d,
            )
        }),
{
    reveal(PpuView::cpu_read);
    reveal(PpuView::cpu_write);
}

/// Under horizontal mirroring the first two nametables share one KiB of
/// VRAM and the last two the other; under vertical mirroring the first and
/// third share one and the second and fourth the other; and `$3000` up
/// mirrors `$2000` up.
pub proof fn lemma_nametable_mirrors(offset: u16)
    requires
        offset < 0x400,
    ensures
        ({
            let a = (0x2000 + offset) as u16;
            let b = (0x2400 + offset) as u16;
            let c = (0x2800 + offset) as u16;
            let d = (0x2C00 + offset) as u16;
            let h = Mirroring::Horizontal;
            let v = Mirroring::Vertical;
            &&& nametable_index(h, a) == offset
            &&& nametable_index(h, b) == offset
            &&& nametable_index(h, c) == 0x400 + offset
            &&& nametable_index(h, d) == 0x400 + offset
            &&& nametable_index(v, a) == offset
            &&& nametable_index(v, b) == 0x400 + offset
            &&& nametable_index(v, c) == offset
            &&& nametable_index(v, d) == 0x400 + offset
            &&& nametable_index(h, (0x3000 + offset) as u16) == nametable_index(h, a)
            &&& nametable_index(v, (0x3400 + offset) as u16) == nametable_index(v, b)
        }),
{
}

/// Adding a step of 1 or 32 modulo 2^16 to an address that is `n - 1` steps
/// on gives the address that is `n` steps on.
proof fn lemma_one_more_step(v: int, n: int, step: int)
    requires
        0 <= v < 65536,
        n >= 1,
        step == 1 || step == 32,
    ensures
        ((v + (n - 1) * step) % 65536 + step) % 65536 == (v + n * step) % 65536,
        0 * step == 0,
{
    if step == 1 {
        assert((n - 1) * step == n - 1 && n * step == n) by (nonlinear_arith)
            requires
                step == 1,
        ;
    } else {
        assert((n - 1) * step == 32 * n - 32 && n * step == 32 * n) by (nonlinear_arith)
            requires
                step == 32,
        ;
    }
}

/// After a sequence of writes to `$2007` the VRAM address has moved on by
/// the number of writes times the step, modulo 2^16; the step is that of
/// the control register, which the writes leave alone.
pub proof fn lemma_data_writes_address(p: PpuView, c: CartridgeView, bytes: Seq<u8>)
    ensures
        data_writes(p, c, bytes).0.regs.ctrl == p.regs.ctrl,
        data_writes(p, c, bytes).0.regs.vram_addr == (p.regs.vram_addr + bytes.len() * vram_step(
            p.regs.ctrl,
        )) % 65536,
    decreases bytes.len(),
{
    let step = vram_step(p.regs.ctrl) as int;
    let v = p.regs.vram_addr as int;
    lemma_one_more_step(v, 1, step);
    if bytes.len() > 0 {
        let n = bytes.len() as int;
        lemma_data_writes_address(p, c, bytes.drop_last());
        let (q, d) = data_writes(p, c, bytes.drop_last());
        lemma_data_access_steps(q, d, bytes.last());
        lemma_one_more_step(v, n, step);
        assert(bytes.drop_last().len() == n - 1);
        assert(q.regs.vram_addr == (v + (n - 1) * step) % 65536);
        assert(data_writes(p, c, bytes).0.regs.vram_addr == q.regs.vram_addr.wrapping_add(
            vram_step(p.regs.ctrl),
        ));
    }
}

/// A byte written to `$3F10`, `$3F14`, `$3F18` or `$3F1C` is read back at
/// `$3F00`, `$3F04`, `$3F08`, `$3F0C`, through the greyscale mask; and the
/// other way round.
pub proof fn lemma_palette_mirrors(p: PpuView, c: CartridgeView, k: u16, data: u8)
    requires
        p.wf(),
        k < 4,
    ensures
        ({
            let low = (0x3F00 + 4 * k) as u16;
            let high = (0x3F10 + 4 * k) as u16;
            &&& p.write(c, high, data).0.read(c, low) == data & palette_mask(p.regs.mask)
            &&& p.write(c, low, data).0.read(c, high) == data & palette_mask(p.regs.mask)
            &&& p.read(c, high) == p.read(c, low)
        }),
{
}

/// Sprite evaluation that starts with `found` chosen reports overflow
/// exactly when the sprites still to come hold more in range than the
/// buffer has room for.
pub proof fn lemma_select_overflow(
    oam: Seq<u8>,
    scanline: int,
    height: int,
    i: int,
    found: Seq<Sprite>,
)
    requires
        0 <= i <= 64,
        found.len() <= 8,
    ensures
        select_sprites(oam, scanline, height, i, found).1 == (found.len() + count_in_range(
            oam,
            scanline,
            height,
            64,
        ) - count_in_range(oam, scanline, height, i) > 8),
        select_sprites(oam, scanline, height, i, found).0.len() <= 8,
    decreases 64 - i,
{
    if i < 64 {
        assert(count_in_range(oam, scanline, height, i + 1) == count_in_range(
            oam,
            scanline,
            height,
            i,
        ) + (if sprite_in_range(oam, i, scanline, height) {
            1int
        } else {
            0int
        }));
        lemma_count_monotone(oam, scanline, height, i + 1, 64);
        if sprite_in_range(oam, i, scanline, height) {
            if found.len() < 8 {
                lemma_select_overflow(oam, scanline, height, i + 1, found.push(sprite_at(oam, i)));
            }
        } else {
            lemma_select_overflow(oam, scanline, height, i + 1, found);
        }
    }
}

/// The count of sprites in range does not fall as more sprites are
/// counted.
pub proof fn lemma_count_monotone(oam: Seq<u8>, scanline: int, height: int, i: int, j: int)
    requires
        0 <= i <= j,
    ensures
        count_in_range(oam, scanline, height, i) <= count_in_range(oam, scanline, height, j),
    decreases j - i,
{
    if i < j {
        lemma_count_monotone(oam, scanline, height, i, j - 1);
    }
}

/// The sprites below `n` that are in range, in OAM order, as fresh buffer
/// entries.
pub open spec fn sprites_in_range(oam: Seq<u8>, scanline: int, height: int, n: int) -> Seq<
    Sprite,
>
    decreases n,
{
    if n <= 0 {
        Seq::empty()
    } else if sprite_in_range(oam, n - 1, scanline, height) {
        sprites_in_range(oam, scanline, height, n - 1).push(sprite_at(oam, n - 1))
    } else {
        sprites_in_range(oam, scanline, height, n - 1)
    }
}

/// The sprites in range below `i` are the first of those below `j`.
proof fn lemma_in_range_prefix(oam: Seq<u8>, scanline: int, height: int, i: int, j: int)
    requires
        0 <= i <= j,
    ensures
        sprites_in_range(oam, scanline, height, i).len() <= sprites_in_range(
            oam,
            scanline,
            height,
            j,
        ).len(),
        sprites_in_range(oam, scanline, height, j).take(
            sprites_in_range(oam, scanline, height, i).len() as int,
        ) =~= sprites_in_range(oam, scanline, height, i),
    decreases j - i,
{
    if i < j {
        lemma_in_range_prefix(oam, scanline, height, i, j - 1);
    }
}

/// Sprite evaluation that has chosen all the sprites in range below `i`
/// ends with the first eight of all the sprites in range, in OAM order.
proof fn lemma_select_from(oam: Seq<u8>, scanline: int, height: int, i: int, found: Seq<Sprite>)
    requires
        0 <= i <= 64,
        found.len() <= 8,
        found == sprites_in_range(oam, scanline, height, i),
    ensures
        ({
            let all = sprites_in_range(oam, scanline, height, 64);
            select_sprites(oam, scanline, height, i, found).0 == (if all.len() > 8 {
                all.take(8)
            } else {
                all
            })
        }),
    decreases 64 - i,
{
    let all = sprites_in_range(oam, scanline, height, 64);
    if i < 64 {
        if sprite_in_range(oam, i, scanline, height) {
            if found.len() < 8 {
                lemma_select_from(oam, scanline, height, i + 1, found.push(sprite_at(oam, i)));
            } else {
                lemma_in_range_prefix(oam, scanline, height, i + 1, 64);
                let next = sprites_in_range(oam, scanline, height, i + 1);
                assert(next == found.push(sprite_at(oam, i)));
                assert(all.take(9) =~= next);
                assert(all.take(8) =~= found);
            }
        } else {
            lemma_select_from(oam, scanline, height, i + 1, found);
        }
    }
}

/// While rendering is enabled, sprite evaluation fills the buffer with the
/// first eight of the sprites in range of the line, in OAM order, or with
/// all of them if they are fewer.
pub proof fn lemma_evaluation_takes_the_first_eight(p: PpuView)
    requires
        rendering_enabled(p.regs.mask),
    ensures
        ({
            let all = sprites_in_range(
                p.oam,
                p.regs.scanline as int,
                sprite_height(p.regs.ctrl),
                64,
            );
            p.evaluate_sprites().sprites == (if all.len() > 8 {
                all.take(8)
            } else {
                all
            })
        }),
{
    lemma_select_from(
        p.oam,
        p.regs.scanline as int,
        sprite_height(p.regs.ctrl),
        0,
        Seq::empty(),
    );
}

/// No sprite is in range of the pre-render line.
pub proof fn lemma_none_in_range_before_the_frame(oam: Seq<u8>, height: int, n: int)
    ensures
        count_in_range(oam, -1, height, n) == 0,
    decreases n,
{
    if n > 0 {
        lemma_none_in_range_before_the_frame(oam, height, n - 1);
    }
}

/// While rendering is enabled, sprite evaluation raises the overflow flag
/// exactly when more than eight of the 64 sprites are in range of the
/// line, and leaves it as it was otherwise; while rendering is disabled it
/// changes nothing.
pub proof fn lemma_overflow_flag(p: PpuView)
    requires
        p.wf(),
    ensures
        ({
            let over = rendering_enabled(p.regs.mask) && count_in_range(
                p.oam,
                p.regs.scanline as int,
                sprite_height(p.regs.ctrl),
                64,
            ) > 8;
            p.evaluate_sprites().regs.status == if over {
                p.regs.status | 0x20
            } else {
                p.regs.status
            }
        }),
        p.evaluate_sprites().sprites.len() <= 8,
        !rendering_enabled(p.regs.mask) ==> p.evaluate_sprites() == p,
{
    lemma_select_overflow(
        p.oam,
        p.regs.scanline as int,
        sprite_height(p.regs.ctrl),
        0,
        Seq::empty(),
    );
}

/// Bit 5 of a status byte is untouched by what a step does to the other
/// status bits, and set by raising the overflow flag.
proof fn lemma_overflow_bit(s: u8)
    ensures
        (s | 0x80) & 0x20 == s & 0x20,
        (s | 0x40) & 0x20 == s & 0x20,
        (s | 0x20) & 0x20 != 0,
        s & 0x20 == 0 ==> (s & 0x1F) & 0x20 == 0,
{
    assert((s | 0x80) & 0x20 == s & 0x20) by (bit_vector);
    assert((s | 0x40) & 0x20 == s & 0x20) by (bit_vector);
    assert((s | 0x20) & 0x20 != 0) by (bit_vector);
    assert(s & 0x20 == 0 ==> (s & 0x1F) & 0x20 == 0) by (bit_vector);
}

/// The sprite overflow flag rises on a step exactly when that step is dot
/// 257 of a visible scanline, rendering is enabled, and more than eight
/// sprites are in range of the scanline.
#[verifier::spinoff_prover]
#[verifier::rlimit(60)]
pub proof fn lemma_overflow_rises(p: PpuView, c: CartridgeView)
    requires
        p.wf(),
        p.regs.status & 0x20 == 0,
    ensures
        (p.step(c).regs.status & 0x20 != 0) == (0 <= p.regs.scanline < 240 && p.regs.cycle == 257
            && rendering_enabled(p.regs.mask) && count_in_range(
            p.oam,
            p.regs.scanline as int,
            sprite_height(p.regs.ctrl),
            64,
        ) > 8),
{
    reveal(PpuView::step);
    reveal(PpuView::line_dot);
    let p0 = if skips_dot(p.regs) {
        p.with_regs(PpuRegs { cycle: 1, ..p.regs })
    } else {
        p
    };
    let p1 = p0.with_regs(blank_edges(p0.regs));
    lemma_overflow_bit(p.regs.status);
    assert(p1.regs.status & 0x20 == 0);
    assert(p1.oam == p.oam && p1.regs.mask == p.regs.mask && p1.regs.ctrl == p.regs.ctrl);
    if p1.regs.scanline < 240 {
        let cycle = p1.regs.cycle;
        let a = if (2 <= cycle < 258) || (321 <= cycle < 338) {
            p1.update_shifters().fetch_cell(c)
        } else {
            p1
        };
        let b = if cycle == 256 {
            a.with_regs(scroll_y(a.regs))
        } else {
            a
        };
        assert(b.regs.status == p1.regs.status && b.oam == p.oam && b.regs.mask == p.regs.mask
            && b.regs.ctrl == p.regs.ctrl && b.regs.scanline == p1.regs.scanline);
        let e = if cycle == 257 {
            b.with_regs(copy_x(b.regs)).evaluate_sprites()
        } else {
            b
        };
        if cycle == 257 {
            let b2 = b.with_regs(copy_x(b.regs));
            lemma_overflow_flag(b2);
            lemma_none_in_range_before_the_frame(p.oam, sprite_height(p.regs.ctrl), 64);
        }
        lemma_overflow_bit(e.regs.status);
    }
}

} // verus!
