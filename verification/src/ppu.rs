//! The picture processing unit: a state machine that advances one dot per
//! step, fetches background tiles and sprites through the cartridge, and
//! writes a 256 by 240 RGB frame.

use vstd::prelude::*;
use crate::bits::{mirror_bits, reverse, zeroed};
use crate::cartridge::{Cartridge, CartridgeView, Mirroring};
use crate::palette::{color_of, system_color};

verus! {

pub const SCREEN_WIDTH: usize = 256;
pub const SCREEN_HEIGHT: usize = 240;
pub const FRAME_BYTES: usize = 184320;
pub const DOTS_PER_LINE: u16 = 341;
pub const LAST_LINE: i16 = 260;

/// One entry of the secondary sprite buffer: a sprite chosen for the next
/// scanline, with the pattern row fetched for it.
#[derive(Clone, Copy, Debug, PartialEq, Eq, Structural)]
pub struct Sprite {
    pub y: u8,
    pub tile_id: u8,
    pub attributes: u8,
    pub x: u8,
    pub pattern_lo: u8,
    pub pattern_hi: u8,
}

/// The registers, latches and counters of the PPU.
#[derive(Clone, Copy, Debug, PartialEq, Eq, Structural)]
pub struct PpuRegs {
    pub ctrl: u8,
    pub mask: u8,
    pub status: u8,
    pub oam_addr: u8,
    /// `v`: the current VRAM address.
    pub vram_addr: u16,
    /// `t`: the temporary VRAM address.
    pub temp_vram_addr: u16,
    pub fine_x_scroll: u8,
    /// `w`: set between the first and the second write of a register pair.
    pub write_toggle: bool,
    pub read_buffer: u8,
    pub scanline: i16,
    pub cycle: u16,
    pub frame_complete: bool,
    pub odd_frame: bool,
    pub bg_next_tile_id: u8,
    pub bg_next_tile_attrib: u8,
    pub bg_next_tile_lsb: u8,
    pub bg_next_tile_msb: u8,
    pub bg_shifter_pattern_lo: u16,
    pub bg_shifter_pattern_hi: u16,
    pub bg_shifter_attrib_lo: u16,
    pub bg_shifter_attrib_hi: u16,
    /// The first entry of the sprite buffer is a copy of sprite 0.
    pub sprite_zero_on_line: bool,
    /// An NMI has been raised and not yet taken by the console.
    pub nmi_occurred: bool,
    /// Bit 7 of the control register as last written.
    pub nmi_output: bool,
}

pub struct PPU {
    pub regs: PpuRegs,
    pub vram: Vec<u8>,
    pub palette_ram: Vec<u8>,
    pub oam: Vec<u8>,
    pub frame_buffer: Vec<u8>,
    pub scanline_sprites: Vec<Sprite>,
}

/// The mathematical state of the PPU.
pub ghost struct PpuView {
    pub regs: PpuRegs,
    pub vram: Seq<u8>,
    pub palette: Seq<u8>,
    pub oam: Seq<u8>,
    pub frame: Seq<u8>,
    pub sprites: Seq<Sprite>,
}

/// Background or sprite rendering is switched on.
pub open spec fn rendering_enabled(mask: u8) -> bool {
    mask & 0x18 != 0
}

/// Where a nametable address lands in the 2 KiB of VRAM. Horizontal
/// mirroring pairs the tables as A, A, B, B; vertical as A, B, A, B. Without
/// the extra RAM of a four-screen board the tables fold as in vertical.
pub open spec fn nametable_index(mirroring: Mirroring, addr: u16) -> int {
    let a = (addr % 4096) as int;
    match mirroring {
        Mirroring::Horizontal => a % 1024 + (a / 2048) * 1024,
        Mirroring::Vertical => a % 2048,
        Mirroring::FourScreen => a % 2048,
    }
}

/// Where a palette address lands in the 32 bytes of palette RAM: entries
/// `$10`, `$14`, `$18`, `$1C` are those of `$00`, `$04`, `$08`, `$0C`.
pub open spec fn palette_index(addr: u16) -> int {
    let a = (addr % 32) as int;
    if a >= 16 && a % 4 == 0 {
        a - 16
    } else {
        a
    }
}

/// The bits of a palette entry that are shown: greyscale keeps the
/// luminance only.
pub open spec fn palette_mask(mask: u8) -> u8 {
    if mask & 0x01 != 0 {
        0x30
    } else {
        0x3F
    }
}

/// The step by which `$2007` accesses advance the VRAM address.
pub open spec fn vram_step(ctrl: u8) -> u16 {
    if ctrl & 0x04 != 0 {
        32
    } else {
        1
    }
}

/// The sprite height selected by the control register.
pub open spec fn sprite_height(ctrl: u8) -> int {
    if ctrl & 0x20 != 0 {
        16
    } else {
        8
    }
}

/// The registers as they are at power-on.
pub open spec fn power_on_regs() -> PpuRegs {
    PpuRegs {
        ctrl: 0,
        mask: 0,
        status: 0,
        oam_addr: 0,
        vram_addr: 0,
        temp_vram_addr: 0,
        fine_x_scroll: 0,
        write_toggle: false,
        read_buffer: 0,
        scanline: 0,
        cycle: 0,
        frame_complete: false,
        odd_frame: false,
        bg_next_tile_id: 0,
        bg_next_tile_attrib: 0,
        bg_next_tile_lsb: 0,
        bg_next_tile_msb: 0,
        bg_shifter_pattern_lo: 0,
        bg_shifter_pattern_hi: 0,
        bg_shifter_attrib_lo: 0,
        bg_shifter_attrib_hi: 0,
        sprite_zero_on_line: false,
        nmi_occurred: false,
        nmi_output: false,
    }
}

/// The PPU as it is at power-on: every register and every byte zero.
pub open spec fn power_on() -> PpuView {
    PpuView {
        regs: power_on_regs(),
        vram: Seq::new(2048, |i: int| 0u8),
        palette: Seq::new(32, |i: int| 0u8),
        oam: Seq::new(256, |i: int| 0u8),
        frame: Seq::new(184320, |i: int| 0u8),
        sprites: Seq::empty(),
    }
}

// ---------------------------------------------------------------------------
// Register-only transitions
// ---------------------------------------------------------------------------

/// The dot that an odd frame leaves out: dot 0 of scanline 0, when the
/// background is shown.
pub open spec fn skips_dot(r: PpuRegs) -> bool {
    r.scanline == 0 && r.cycle == 0 && r.odd_frame && r.mask & 0x08 != 0
}

/// The status flags at the two edges of vertical blanking: set at scanline
/// 241 dot 1, raising an NMI if the control register asks for one; cleared,
/// with sprite-0 hit and overflow, at dot 1 of the pre-render line.
pub open spec fn blank_edges(r: PpuRegs) -> PpuRegs {
    if r.scanline == 241 && r.cycle == 1 {
        PpuRegs {
            status: r.status | 0x80,
            nmi_occurred: r.nmi_occurred || r.ctrl & 0x80 != 0,
            ..r
        }
    } else if r.scanline == -1 && r.cycle == 1 {
        PpuRegs { status: r.status & 0x1F, ..r }
    } else {
        r
    }
}

/// The beam moved on by one dot, wrapping at the end of a line and of a
/// frame; the end of a frame latches `frame_complete`.
pub open spec fn advance(r: PpuRegs) -> PpuRegs {
    if r.cycle + 1 < 341 {
        PpuRegs { cycle: (r.cycle + 1) as u16, ..r }
    } else if r.scanline + 1 <= 260 {
        PpuRegs { cycle: 0, scanline: (r.scanline + 1) as i16, ..r }
    } else {
        PpuRegs { cycle: 0, scanline: -1i16, frame_complete: true, odd_frame: !r.odd_frame, ..r }
    }
}

pub open spec fn shift_background(r: PpuRegs) -> PpuRegs {
    if r.mask & 0x08 != 0 {
        PpuRegs {
            bg_shifter_pattern_lo: r.bg_shifter_pattern_lo << 1,
            bg_shifter_pattern_hi: r.bg_shifter_pattern_hi << 1,
            bg_shifter_attrib_lo: r.bg_shifter_attrib_lo << 1,
            bg_shifter_attrib_hi: r.bg_shifter_attrib_hi << 1,
            ..r
        }
    } else {
        r
    }
}

/// A sprite one dot later: its counter runs down, then its pattern shifts.
pub open spec fn shift_sprite(s: Sprite) -> Sprite {
    if s.x > 0 {
        Sprite { x: (s.x - 1) as u8, ..s }
    } else {
        Sprite { pattern_lo: s.pattern_lo << 1, pattern_hi: s.pattern_hi << 1, ..s }
    }
}

pub open spec fn load_shifters(r: PpuRegs) -> PpuRegs {
    PpuRegs {
        bg_shifter_pattern_lo: (r.bg_shifter_pattern_lo & 0xFF00) | r.bg_next_tile_lsb as u16,
        bg_shifter_pattern_hi: (r.bg_shifter_pattern_hi & 0xFF00) | r.bg_next_tile_msb as u16,
        bg_shifter_attrib_lo: (r.bg_shifter_attrib_lo & 0xFF00) | (if r.bg_next_tile_attrib & 1
            != 0 {
            0xFFu16
        } else {
            0u16
        }),
        bg_shifter_attrib_hi: (r.bg_shifter_attrib_hi & 0xFF00) | (if r.bg_next_tile_attrib & 2
            != 0 {
            0xFFu16
        } else {
            0u16
        }),
        ..r
    }
}

/// Coarse X moved on by one tile, into the next nametable after tile 31.
pub open spec fn scroll_x(r: PpuRegs) -> PpuRegs {
    if !rendering_enabled(r.mask) {
        r
    } else if r.vram_addr & 0x001F == 31 {
        PpuRegs { vram_addr: (r.vram_addr & 0xFFE0) ^ 0x0400, ..r }
    } else {
        PpuRegs { vram_addr: r.vram_addr.wrapping_add(1), ..r }
    }
}

/// The coarse Y that follows `y`, and whether the nametable changes: row 29
/// wraps into the other nametable, row 31 wraps within the same.
pub open spec fn next_coarse_y(y: u16) -> (u16, bool) {
    if y == 29 {
        (0, true)
    } else if y == 31 {
        (0, false)
    } else {
        (y.wrapping_add(1), false)
    }
}

/// Fine Y moved on by one line, carrying into coarse Y.
pub open spec fn scroll_y(r: PpuRegs) -> PpuRegs {
    if !rendering_enabled(r.mask) {
        r
    } else if r.vram_addr & 0x7000 != 0x7000 {
        PpuRegs { vram_addr: r.vram_addr.wrapping_add(0x1000), ..r }
    } else {
        let v = r.vram_addr & 0x8FFF;
        let (y, flip) = next_coarse_y((v & 0x03E0) >> 5);
        let v2 = if flip {
            v ^ 0x0800
        } else {
            v
        };
        PpuRegs { vram_addr: (v2 & 0xFC1F) | (y << 5), ..r }
    }
}

pub open spec fn copy_x(r: PpuRegs) -> PpuRegs {
    if rendering_enabled(r.mask) {
        PpuRegs { vram_addr: (r.vram_addr & 0xFBE0) | (r.temp_vram_addr & 0x041F), ..r }
    } else {
        r
    }
}

pub open spec fn copy_y(r: PpuRegs) -> PpuRegs {
    if rendering_enabled(r.mask) {
        PpuRegs { vram_addr: (r.vram_addr & 0x841F) | (r.temp_vram_addr & 0x7BE0), ..r }
    } else {
        r
    }
}

/// The address of the attribute byte for the tile that `v` points at.
pub open spec fn attribute_address(v: u16) -> u16 {
    0x23C0 | (v & 0x0C00) | ((v >> 4) & 0x38) | ((v >> 2) & 0x07)
}

/// How far the attribute byte is shifted to reach the two bits of the
/// quadrant that `v` points at.
pub open spec fn attribute_shift(v: u16) -> u8 {
    (((v / 64) % 2) * 4 + ((v / 2) % 2) * 2) as u8
}

/// The address of the low pattern byte of a background tile row.
pub open spec fn pattern_address(ctrl: u8, tile: u8, v: u16) -> u16 {
    ((if ctrl & 0x10 != 0 {
        0x1000int
    } else {
        0int
    }) + tile * 16 + (v / 4096) % 8) as u16
}

// ---------------------------------------------------------------------------
// Sprites
// ---------------------------------------------------------------------------

/// Sprite `i` of the OAM covers the line after `scanline`.
pub open spec fn sprite_in_range(oam: Seq<u8>, i: int, scanline: int, height: int) -> bool {
    0 <= scanline - oam[4 * i] < height
}

/// Sprite `i` of the OAM as a fresh buffer entry.
pub open spec fn sprite_at(oam: Seq<u8>, i: int) -> Sprite {
    Sprite {
        y: oam[4 * i],
        tile_id: oam[4 * i + 1],
        attributes: oam[4 * i + 2],
        x: oam[4 * i + 3],
        pattern_lo: 0,
        pattern_hi: 0,
    }
}

/// Sprite evaluation from sprite `i` on, with `found` chosen so far: the
/// sprites in range are taken in OAM order until eight are found; a ninth
/// reports overflow and ends the scan.
pub open spec fn select_sprites(
    oam: Seq<u8>,
    scanline: int,
    height: int,
    i: int,
    found: Seq<Sprite>,
) -> (Seq<Sprite>, bool)
    decreases 64 - i,
{
    if i >= 64 || i < 0 {
        (found, false)
    } else if sprite_in_range(oam, i, scanline, height) {
        if found.len() < 8 {
            select_sprites(oam, scanline, height, i + 1, found.push(sprite_at(oam, i)))
        } else {
            (found, true)
        }
    } else {
        select_sprites(oam, scanline, height, i + 1, found)
    }
}

/// How many of the sprites below `n` are in range.
pub open spec fn count_in_range(oam: Seq<u8>, scanline: int, height: int, n: int) -> int
    decreases n,
{
    if n <= 0 {
        0
    } else {
        count_in_range(oam, scanline, height, n - 1) + (if sprite_in_range(
            oam,
            n - 1,
            scanline,
            height,
        ) {
            1int
        } else {
            0int
        })
    }
}

/// The row of a sprite's pattern that the line after `scanline` shows,
/// before any vertical flip.
pub open spec fn sprite_row(scanline: i16, s: Sprite, height: int) -> int {
    (scanline + 256 - s.y) % height
}

/// The address of the low pattern byte of the row that a buffered sprite
/// shows. A tall sprite takes its table from bit 0 of the tile number and
/// its lower half from the following tile.
pub open spec fn sprite_pattern_address(ctrl: u8, scanline: i16, s: Sprite) -> u16 {
    let height = sprite_height(ctrl);
    let plain = sprite_row(scanline, s, height);
    let row = if s.attributes & 0x80 != 0 {
        height - 1 - plain
    } else {
        plain
    };
    if height == 16 {
        ((if s.tile_id & 0x01 != 0 {
            0x1000int
        } else {
            0int
        }) + ((s.tile_id & 0xFE) + (if row >= 8 {
            1int
        } else {
            0int
        })) * 16 + row % 8) as u16
    } else {
        ((if ctrl & 0x08 != 0 {
            0x1000int
        } else {
            0int
        }) + s.tile_id * 16 + row % 8) as u16
    }
}

/// The two-bit pattern value that a buffered sprite shows at the current
/// dot: 0 while its counter runs.
pub open spec fn sprite_dot(s: Sprite) -> u8 {
    if s.x == 0 {
        ((s.pattern_hi / 128) * 2 + s.pattern_lo / 128) as u8
    } else {
        0
    }
}

/// The index of the first buffered sprite from `from` on that shows an
/// opaque dot, or the length of the buffer if there is none.
pub open spec fn first_opaque(sprites: Seq<Sprite>, from: int) -> int
    decreases sprites.len() - from,
{
    if from >= sprites.len() || from < 0 {
        sprites.len() as int
    } else if sprite_dot(sprites[from]) != 0 {
        from
    } else {
        first_opaque(sprites, from + 1)
    }
}

/// Bit `bit` of a shift register, as 0 or 1.
pub open spec fn shifter_bit(reg: u16, bit: u16) -> u8 {
    ((reg >> bit) % 2) as u8
}

/// What one dot of a visible line shows, before the palette is looked up.
pub struct Dot {
    /// The address into palette RAM of the colour shown.
    pub palette_addr: u8,
    /// An opaque dot of sprite 0 lies over an opaque background dot.
    pub sprite_zero_hit: bool,
}

impl PpuView {
    pub open spec fn wf(self) -> bool {
        &&& self.vram.len() == 2048
        &&& self.palette.len() == 32
        &&& self.oam.len() == 256
        &&& self.frame.len() == 184320
        &&& self.sprites.len() <= 8
        &&& -1 <= self.regs.scanline <= 260
        &&& self.regs.cycle <= 340
        &&& self.regs.fine_x_scroll <= 7
    }

    pub open spec fn with_regs(self, regs: PpuRegs) -> PpuView {
        PpuView { regs, ..self }
    }

    /// The byte at an address of the PPU's own 14-bit address space:
    /// pattern tables in the cartridge, nametables in VRAM, then palette.
    pub open spec fn read(self, c: CartridgeView, addr: u16) -> u8 {
        let a = (addr % 0x4000) as u16;
        if a < 0x2000 {
            c.read_chr(a)
        } else if a < 0x3F00 {
            self.vram[nametable_index(c.mirroring, a)]
        } else {
            self.palette[palette_index(a)] & palette_mask(self.regs.mask)
        }
    }

    /// The PPU and the cartridge after a byte is stored at an address of the
    /// PPU's address space.
    pub open spec fn write(self, c: CartridgeView, addr: u16, data: u8) -> (
        PpuView,
        CartridgeView,
    ) {
        let a = (addr % 0x4000) as u16;
        if a < 0x2000 {
            (self, c.write_chr(a, data))
        } else if a < 0x3F00 {
            (PpuView { vram: self.vram.update(nametable_index(c.mirroring, a), data), ..self }, c)
        } else {
            (PpuView { palette: self.palette.update(palette_index(a), data), ..self }, c)
        }
    }

    /// A read of a register by the CPU: the byte returned and the PPU after.
    #[verifier::opaque]
    pub open spec fn cpu_read(self, c: CartridgeView, addr: u16) -> (u8, PpuView) {
        let r = self.regs;
        if addr == 0x2002 {
            (
                (r.status & 0xE0) | (r.read_buffer & 0x1F),
                self.with_regs(PpuRegs { status: r.status & 0x7F, write_toggle: false, ..r }),
            )
        } else if addr == 0x2004 {
            (self.oam[r.oam_addr as int], self)
        } else if addr == 0x2007 {
            let fresh = self.read(c, r.vram_addr);
            let in_palette = r.vram_addr % 0x4000 >= 0x3F00;
            (
                if in_palette {
                    fresh
                } else {
                    r.read_buffer
                },
                self.with_regs(
                    PpuRegs {
                        read_buffer: if in_palette {
                            self.read(c, (r.vram_addr % 0x4000 - 0x1000) as u16)
                        } else {
                            fresh
                        },
                        vram_addr: r.vram_addr.wrapping_add(vram_step(r.ctrl)),
                        ..r
                    },
                ),
            )
        } else {
            (0, self)
        }
    }

    /// A write of a register by the CPU: the PPU and the cartridge after.
    #[verifier::opaque]
    pub open spec fn cpu_write(self, c: CartridgeView, addr: u16, data: u8) -> (
        PpuView,
        CartridgeView,
    ) {
        let r = self.regs;
        if addr == 0x2000 {
            (
                self.with_regs(
                    PpuRegs {
                        ctrl: data,
                        temp_vram_addr: (r.temp_vram_addr & 0xF3FF) | ((data as u16 & 3) << 10),
                        nmi_output: data & 0x80 != 0,
                        nmi_occurred: r.nmi_occurred || (r.ctrl & 0x80 == 0 && data & 0x80 != 0
                            && r.status & 0x80 != 0),
                        ..r
                    },
                ),
                c,
            )
        } else if addr == 0x2001 {
            (self.with_regs(PpuRegs { mask: data, ..r }), c)
        } else if addr == 0x2003 {
            (self.with_regs(PpuRegs { oam_addr: data, ..r }), c)
        } else if addr == 0x2004 {
            (
                PpuView {
                    regs: PpuRegs { oam_addr: r.oam_addr.wrapping_add(1), ..r },
                    oam: self.oam.update(r.oam_addr as int, data),
                    ..self
                },
                c,
            )
        } else if addr == 0x2005 {
            if !r.write_toggle {
                (
                    self.with_regs(
                        PpuRegs {
                            fine_x_scroll: data % 8,
                            temp_vram_addr: (r.temp_vram_addr & 0xFFE0) | (data as u16 >> 3),
                            write_toggle: true,
                            ..r
                        },
                    ),
                    c,
                )
            } else {
                (
                    self.with_regs(
                        PpuRegs {
                            temp_vram_addr: (r.temp_vram_addr & 0x8C1F) | ((data as u16 & 0xF8)
                                << 2) | ((data as u16 & 7) << 12),
                            write_toggle: false,
                            ..r
                        },
                    ),
                    c,
                )
            }
        } else if addr == 0x2006 {
            if !r.write_toggle {
                (
                    self.with_regs(
                        PpuRegs {
                            temp_vram_addr: (r.temp_vram_addr & 0x00FF) | ((data as u16 & 0x3F)
                                << 8),
                            write_toggle: true,
                            ..r
                        },
                    ),
                    c,
                )
            } else {
                let t = (r.temp_vram_addr & 0xFF00) | data as u16;
                (
                    self.with_regs(
                        PpuRegs { temp_vram_addr: t, vram_addr: t, write_toggle: false, ..r },
                    ),
                    c,
                )
            }
        } else if addr == 0x2007 {
            let (p, c2) = self.write(c, r.vram_addr, data);
            (
                p.with_regs(
                    PpuRegs { vram_addr: r.vram_addr.wrapping_add(vram_step(r.ctrl)), ..r },
                ),
                c2,
            )
        } else {
            (self, c)
        }
    }

    /// The shift registers one dot later: the background shifts while it is
    /// shown; the sprites count down or shift on dots 1 to 257 while they
    /// are shown.
    pub open spec fn update_shifters(self) -> PpuView {
        PpuView {
            regs: shift_background(self.regs),
            sprites: if self.regs.mask & 0x10 != 0 && 1 <= self.regs.cycle < 258 {
                Seq::new(self.sprites.len(), |i: int| shift_sprite(self.sprites[i]))
            } else {
                self.sprites
            },
            ..self
        }
    }

    pub open spec fn fetch_nametable_byte(self, c: CartridgeView) -> PpuView {
        self.with_regs(
            PpuRegs {
                bg_next_tile_id: self.read(c, 0x2000 | (self.regs.vram_addr & 0x0FFF)),
                ..self.regs
            },
        )
    }

    pub open spec fn fetch_attribute_table_byte(self, c: CartridgeView) -> PpuView {
        let v = self.regs.vram_addr;
        self.with_regs(
            PpuRegs {
                bg_next_tile_attrib: (self.read(c, attribute_address(v)) >> attribute_shift(v))
                    % 4,
                ..self.regs
            },
        )
    }

    pub open spec fn fetch_low_bg_tile_byte(self, c: CartridgeView) -> PpuView {
        let r = self.regs;
        self.with_regs(
            PpuRegs {
                bg_next_tile_lsb: self.read(
                    c,
                    pattern_address(r.ctrl, r.bg_next_tile_id, r.vram_addr),
                ),
                ..r
            },
        )
    }

    pub open spec fn fetch_high_bg_tile_byte(self, c: CartridgeView) -> PpuView {
        let r = self.regs;
        self.with_regs(
            PpuRegs {
                bg_next_tile_msb: self.read(
                    c,
                    (pattern_address(r.ctrl, r.bg_next_tile_id, r.vram_addr) + 8) as u16,
                ),
                ..r
            },
        )
    }

    /// Sprite evaluation, which runs only while rendering is enabled: the
    /// buffer is refilled from the OAM, the overflow flag is raised by a
    /// ninth sprite in range, and the PPU remembers whether sprite 0 was
    /// chosen.
    pub open spec fn evaluate_sprites(self) -> PpuView {
        let r = self.regs;
        let height = sprite_height(r.ctrl);
        let (found, overflow) = select_sprites(
            self.oam,
            r.scanline as int,
            height,
            0,
            Seq::empty(),
        );
        if !rendering_enabled(r.mask) {
            self
        } else {
            PpuView {
                regs: PpuRegs {
                    status: if overflow {
                        r.status | 0x20
                    } else {
                        r.status
                    },
                    sprite_zero_on_line: sprite_in_range(self.oam, 0, r.scanline as int, height),
                    ..r
                },
                sprites: found,
                ..self
            }
        }
    }

    /// A buffered sprite with the pattern row fetched for it, reversed if
    /// the sprite is flipped horizontally.
    pub open spec fn fetched_sprite(self, c: CartridgeView, s: Sprite) -> Sprite {
        let addr = sprite_pattern_address(self.regs.ctrl, self.regs.scanline, s);
        let lo = self.read(c, addr);
        let hi = self.read(c, (addr + 8) as u16);
        if s.attributes & 0x40 != 0 {
            Sprite { pattern_lo: mirror_bits(lo), pattern_hi: mirror_bits(hi), ..s }
        } else {
            Sprite { pattern_lo: lo, pattern_hi: hi, ..s }
        }
    }

    pub open spec fn fetch_sprite_patterns(self, c: CartridgeView) -> PpuView {
        PpuView {
            sprites: Seq::new(
                self.sprites.len(),
                |i: int| self.fetched_sprite(c, self.sprites[i]),
            ),
            ..self
        }
    }

    /// The two-bit background pattern value at screen column `x`.
    pub open spec fn background_dot(self, x: int) -> u8 {
        let r = self.regs;
        if r.mask & 0x08 != 0 && (r.mask & 0x02 != 0 || x >= 8) {
            let bit = (15 - r.fine_x_scroll) as u16;
            (shifter_bit(r.bg_shifter_pattern_hi, bit) * 2 + shifter_bit(
                r.bg_shifter_pattern_lo,
                bit,
            )) as u8
        } else {
            0
        }
    }

    /// The two-bit background palette number at the current dot.
    pub open spec fn background_palette(self) -> u8 {
        let r = self.regs;
        let bit = (15 - r.fine_x_scroll) as u16;
        (shifter_bit(r.bg_shifter_attrib_hi, bit) * 2 + shifter_bit(
            r.bg_shifter_attrib_lo,
            bit,
        )) as u8
    }

    /// The index of the buffered sprite shown at screen column `x`, or the
    /// length of the buffer if none is.
    pub open spec fn sprite_shown(self, x: int) -> int {
        let r = self.regs;
        if r.mask & 0x10 != 0 && (r.mask & 0x04 != 0 || x >= 8) {
            first_opaque(self.sprites, 0)
        } else {
            self.sprites.len() as int
        }
    }

    /// What the dot at screen column `x` shows: a sprite dot over a
    /// transparent background or in front of it, else the background.
    pub open spec fn dot(self, x: int) -> Dot {
        let bg = self.background_dot(x);
        let k = self.sprite_shown(x);
        if k < self.sprites.len() {
            let s = self.sprites[k];
            let sp = sprite_dot(s);
            Dot {
                palette_addr: if bg == 0 || s.attributes & 0x20 == 0 {
                    (((s.attributes % 4) + 4) * 4 + sp) as u8
                } else {
                    (self.background_palette() * 4 + bg) as u8
                },
                sprite_zero_hit: k == 0 && self.regs.sprite_zero_on_line && bg != 0 && x != 255,
            }
        } else {
            Dot {
                palette_addr: if bg == 0 {
                    0
                } else {
                    (self.background_palette() * 4 + bg) as u8
                },
                sprite_zero_hit: false,
            }
        }
    }

    /// The PPU after the dot at the beam's position is drawn into the frame.
    pub open spec fn render_pixel(self) -> PpuView {
        let r = self.regs;
        let x = r.cycle - 1;
        let d = self.dot(x);
        let rgb = system_color(
            self.palette[palette_index(d.palette_addr as u16)] & palette_mask(r.mask),
        );
        let at = (r.scanline * 256 + x) * 3;
        PpuView {
            regs: PpuRegs {
                status: if d.sprite_zero_hit {
                    r.status | 0x40
                } else {
                    r.status
                },
                ..r
            },
            frame: self.frame.update(at, rgb.0).update(at + 1, rgb.1).update(at + 2, rgb.2),
            ..self
        }
    }

    /// The background work of one dot of a fetch cell.
    pub open spec fn fetch_cell(self, c: CartridgeView) -> PpuView {
        let phase = (self.regs.cycle - 1) % 8;
        if phase == 0 {
            self.with_regs(load_shifters(self.regs))
        } else if phase == 1 {
            self.fetch_nametable_byte(c)
        } else if phase == 3 {
            self.fetch_attribute_table_byte(c)
        } else if phase == 5 {
            self.fetch_low_bg_tile_byte(c)
        } else if phase == 7 {
            let p = self.fetch_high_bg_tile_byte(c);
            p.with_regs(scroll_x(p.regs))
        } else {
            self
        }
    }

    /// The work of one dot of a visible or the pre-render line.
    #[verifier::opaque]
    pub open spec fn line_dot(self, c: CartridgeView) -> PpuView {
        let cycle = self.regs.cycle;
        let scanline = self.regs.scanline;
        let p1 = if (2 <= cycle < 258) || (321 <= cycle < 338) {
            self.update_shifters().fetch_cell(c)
        } else {
            self
        };
        let p2 = if cycle == 256 {
            p1.with_regs(scroll_y(p1.regs))
        } else {
            p1
        };
        let p3 = if cycle == 257 {
            p2.with_regs(copy_x(p2.regs)).evaluate_sprites()
        } else {
            p2
        };
        let p4 = if cycle == 320 {
            p3.fetch_sprite_patterns(c)
        } else {
            p3
        };
        let p5 = if scanline == -1 && 280 <= cycle < 305 {
            p4.with_regs(copy_y(p4.regs))
        } else {
            p4
        };
        if scanline >= 0 && 1 <= cycle <= 256 {
            p5.render_pixel()
        } else {
            p5
        }
    }

    /// The PPU one dot later.
    #[verifier::opaque]
    pub open spec fn step(self, c: CartridgeView) -> PpuView {
        let p0 = if skips_dot(self.regs) {
            self.with_regs(PpuRegs { cycle: 1, ..self.regs })
        } else {
            self
        };
        let p1 = p0.with_regs(blank_edges(p0.regs));
        let p2 = if p1.regs.scanline < 240 {
            p1.line_dot(c)
        } else {
            p1
        };
        p2.with_regs(advance(p2.regs))
    }

    /// The PPU after a reset: registers and latches as at power-on, the
    /// sprite buffer empty, memory and frame kept.
    pub open spec fn reset(self) -> PpuView {
        PpuView { regs: power_on_regs(), sprites: Seq::empty(), ..self }
    }
}


// ---------------------------------------------------------------------------
// The executable PPU
// ---------------------------------------------------------------------------

fn power_on_registers() -> (r: PpuRegs)
    ensures
        r == power_on_regs(),
{
    PpuRegs {
        ctrl: 0,
        mask: 0,
        status: 0,
        oam_addr: 0,
        vram_addr: 0,
        temp_vram_addr: 0,
        fine_x_scroll: 0,
        write_toggle: false,
        read_buffer: 0,
        scanline: 0,
        cycle: 0,
        frame_complete: false,
        odd_frame: false,
        bg_next_tile_id: 0,
        bg_next_tile_attrib: 0,
        bg_next_tile_lsb: 0,
        bg_next_tile_msb: 0,
        bg_shifter_pattern_lo: 0,
        bg_shifter_pattern_hi: 0,
        bg_shifter_attrib_lo: 0,
        bg_shifter_attrib_hi: 0,
        sprite_zero_on_line: false,
        nmi_occurred: false,
        nmi_output: false,
    }
}

fn nametable_slot(mirroring: Mirroring, addr: u16) -> (i: usize)
    ensures
        i == nametable_index(mirroring, addr),
        i < 2048,
{
    let a: usize = (addr % 4096) as usize;
    match mirroring {
        Mirroring::Horizontal => a % 1024 + (a / 2048) * 1024,
        Mirroring::Vertical => a % 2048,
        Mirroring::FourScreen => a % 2048,
    }
}

fn palette_slot(addr: u16) -> (i: usize)
    ensures
        i == palette_index(addr),
        i < 32,
{
    let a: usize = (addr % 32) as usize;
    if a >= 16 && a % 4 == 0 {
        a - 16
    } else {
        a
    }
}

fn grey_mask(mask: u8) -> (m: u8)
    ensures
        m == palette_mask(mask),
{
    if mask & 0x01 != 0 {
        0x30
    } else {
        0x3F
    }
}

fn address_step(ctrl: u8) -> (n: u16)
    ensures
        n == vram_step(ctrl),
{
    if ctrl & 0x04 != 0 {
        32
    } else {
        1
    }
}

fn bit_of(reg: u16, bit: u16) -> (b: u8)
    requires
        bit < 16,
    ensures
        b == shifter_bit(reg, bit),
        b <= 1,
{
    ((reg >> bit) % 2) as u8
}

fn dot_of(s: Sprite) -> (d: u8)
    ensures
        d == sprite_dot(s),
        d <= 3,
{
    if s.x == 0 {
        (s.pattern_hi / 128) * 2 + s.pattern_lo / 128
    } else {
        0
    }
}

fn shifted(s: Sprite) -> (r: Sprite)
    ensures
        r == shift_sprite(s),
{
    if s.x > 0 {
        Sprite { x: s.x - 1, ..s }
    } else {
        Sprite { pattern_lo: s.pattern_lo << 1, pattern_hi: s.pattern_hi << 1, ..s }
    }
}

fn sprite_address(ctrl: u8, scanline: i16, s: Sprite) -> (addr: u16)
    requires
        -1 <= scanline <= 260,
    ensures
        addr == sprite_pattern_address(ctrl, scanline, s),
        addr <= 0x2007,
{
    let height: u16 = if ctrl & 0x20 != 0 {
        16
    } else {
        8
    };
    let plain: u16 = ((scanline + 256 - (s.y as i16)) as u16) % height;
    let row: u16 = if s.attributes & 0x80 != 0 {
        height - 1 - plain
    } else {
        plain
    };
    if height == 16 {
        let table: u16 = if s.tile_id & 0x01 != 0 {
            0x1000
        } else {
            0
        };
        let half: u16 = if row >= 8 {
            1
        } else {
            0
        };
        table + (((s.tile_id & 0xFE) as u16) + half) * 16 + row % 8
    } else {
        let table: u16 = if ctrl & 0x08 != 0 {
            0x1000
        } else {
            0
        };
        table + (s.tile_id as u16) * 16 + row % 8
    }
}

impl PPU {
    pub open spec fn view(&self) -> PpuView {
        PpuView {
            regs: self.regs,
            vram: self.vram@,
            palette: self.palette_ram@,
            oam: self.oam@,
            frame: self.frame_buffer@,
            sprites: self.scanline_sprites@,
        }
    }

    /// The memories have their sizes and the counters are in range.
    pub open spec fn wf(&self) -> bool {
        self@.wf()
    }

    pub fn new() -> (p: PPU)
        ensures
            p.wf(),
            p@ == power_on(),
    {
        let p = PPU {
            regs: power_on_registers(),
            vram: zeroed(2048),
            palette_ram: zeroed(32),
            oam: zeroed(256),
            frame_buffer: zeroed(FRAME_BYTES),
            scanline_sprites: Vec::new(),
        };
        assert(p@ =~= power_on());
        p
    }

    pub fn reset(&mut self)
        requires
            old(self).wf(),
        ensures
            final(self).wf(),
            final(self)@ == old(self)@.reset(),
    {
        self.regs = power_on_registers();
        self.scanline_sprites.clear();
        assert(self@ =~= old(self)@.reset());
    }

    pub fn frame_ready(&self) -> (ready: bool)
        ensures
            ready == self.regs.frame_complete,
    {
        self.regs.frame_complete
    }

    pub fn frame_done(&mut self)
        ensures
            final(self)@ == old(self)@.with_regs(
                PpuRegs { frame_complete: false, ..old(self).regs },
            ),
    {
        self.regs.frame_complete = false;
    }

    /// The frame as 256 by 240 pixels of three bytes, red, green and blue,
    /// row by row from the top left.
    pub fn get_frame_buffer(&self) -> (frame: &[u8])
        ensures
            frame@ == self@.frame,
            self.wf() ==> frame@.len() == 256 * 240 * 3,
    {
        self.frame_buffer.as_slice()
    }

    pub fn ppu_read(&self, addr: u16, cartridge: &Cartridge) -> (data: u8)
        requires
            self.wf(),
        ensures
            data == self@.read(cartridge@, addr),
    {
        let a: u16 = addr % 0x4000;
        if a < 0x2000 {
            cartridge.read_chr(a)
        } else if a < 0x3F00 {
            self.vram[nametable_slot(cartridge.mirroring, a)]
        } else {
            self.palette_ram[palette_slot(a)] & grey_mask(self.regs.mask)
        }
    }

    pub fn ppu_write(&mut self, addr: u16, data: u8, cartridge: &mut Cartridge)
        requires
            old(self).wf(),
        ensures
            final(self).wf(),
            (final(self)@, final(cartridge)@) == old(self)@.write(old(cartridge)@, addr, data),
    {
        let a: u16 = addr % 0x4000;
        if a < 0x2000 {
            cartridge.write_chr(a, data);
        } else if a < 0x3F00 {
            let i: usize = nametable_slot(cartridge.mirroring, a);
            self.vram[i] = data;
        } else {
            let i: usize = palette_slot(a);
            self.palette_ram[i] = data;
        }
        assert(self@ =~= old(self)@.write(old(cartridge)@, addr, data).0);
    }

    pub fn cpu_read(&mut self, addr: u16, cartridge: &Cartridge) -> (data: u8)
        requires
            old(self).wf(),
        ensures
            final(self).wf(),
            (data, final(self)@) == old(self)@.cpu_read(cartridge@, addr),
            same_beam(old(self)@, final(self)@),
    {
        proof {
            reveal(PpuView::cpu_read);
        }
        if addr == 0x2002 {
            let data: u8 = (self.regs.status & 0xE0) | (self.regs.read_buffer & 0x1F);
            self.regs.status = self.regs.status & 0x7F;
            self.regs.write_toggle = false;
            data
        } else if addr == 0x2004 {
            self.oam[self.regs.oam_addr as usize]
        } else if addr == 0x2007 {
            let v: u16 = self.regs.vram_addr;
            let fresh: u8 = self.ppu_read(v, cartridge);
            let in_palette: bool = v % 0x4000 >= 0x3F00;
            let data: u8 = if in_palette {
                fresh
            } else {
                self.regs.read_buffer
            };
            let buffer: u8 = if in_palette {
                self.ppu_read(v % 0x4000 - 0x1000, cartridge)
            } else {
                fresh
            };
            self.regs.read_buffer = buffer;
            self.regs.vram_addr = v.wrapping_add(address_step(self.regs.ctrl));
            data
        } else {
            0
        }
    }

    pub fn cpu_write(&mut self, addr: u16, data: u8, cartridge: &mut Cartridge)
        requires
            old(self).wf(),
        ensures
            final(self).wf(),
            (final(self)@, final(cartridge)@) == old(self)@.cpu_write(old(cartridge)@, addr, data),
            same_beam(old(self)@, final(self)@),
    {
        proof {
            reveal(PpuView::cpu_write);
        }
        let wide: u16 = data as u16;
        if addr == 0x2000 {
            let raise: bool = self.regs.ctrl & 0x80 == 0 && data & 0x80 != 0 && self.regs.status
                & 0x80 != 0;
            self.regs.ctrl = data;
            self.regs.temp_vram_addr = (self.regs.temp_vram_addr & 0xF3FF) | ((wide & 3) << 10);
            self.regs.nmi_output = data & 0x80 != 0;
            self.regs.nmi_occurred = self.regs.nmi_occurred || raise;
        } else if addr == 0x2001 {
            self.regs.mask = data;
        } else if addr == 0x2003 {
            self.regs.oam_addr = data;
        } else if addr == 0x2004 {
            let at: usize = self.regs.oam_addr as usize;
            self.oam[at] = data;
            self.regs.oam_addr = self.regs.oam_addr.wrapping_add(1);
        } else if addr == 0x2005 {
            if !self.regs.write_toggle {
                self.regs.fine_x_scroll = data % 8;
                self.regs.temp_vram_addr = (self.regs.temp_vram_addr & 0xFFE0) | (wide >> 3);
                self.regs.write_toggle = true;
            } else {
                self.regs.temp_vram_addr = (self.regs.temp_vram_addr & 0x8C1F) | ((wide & 0xF8)
                    << 2) | ((wide & 7) << 12);
                self.regs.write_toggle = false;
            }
        } else if addr == 0x2006 {
            if !self.regs.write_toggle {
                self.regs.temp_vram_addr = (self.regs.temp_vram_addr & 0x00FF) | ((wide & 0x3F)
                    << 8);
                self.regs.write_toggle = true;
            } else {
                let t: u16 = (self.regs.temp_vram_addr & 0xFF00) | wide;
                self.regs.temp_vram_addr = t;
                self.regs.vram_addr = t;
                self.regs.write_toggle = false;
            }
        } else if addr == 0x2007 {
            let v: u16 = self.regs.vram_addr;
            self.ppu_write(v, data, cartridge);
            self.regs.vram_addr = v.wrapping_add(address_step(self.regs.ctrl));
        }
        assert(self@ =~= old(self)@.cpu_write(old(cartridge)@, addr, data).0);
    }

    fn update_shifters(&mut self)
        requires
            old(self).wf(),
        ensures
            final(self).wf(),
            final(self)@ == old(self)@.update_shifters(),
    {
        if self.regs.mask & 0x08 != 0 {
            self.regs.bg_shifter_pattern_lo = self.regs.bg_shifter_pattern_lo << 1;
            self.regs.bg_shifter_pattern_hi = self.regs.bg_shifter_pattern_hi << 1;
            self.regs.bg_shifter_attrib_lo = self.regs.bg_shifter_attrib_lo << 1;
            self.regs.bg_shifter_attrib_hi = self.regs.bg_shifter_attrib_hi << 1;
        }
        if self.regs.mask & 0x10 != 0 && self.regs.cycle >= 1 && self.regs.cycle < 258 {
            let n: usize = self.scanline_sprites.len();
            let mut i: usize = 0;
            while i < n
                invariant
                    i <= n,
                    n == self.scanline_sprites@.len(),
                    n == old(self).scanline_sprites@.len(),
                    self.regs == shift_background(old(self).regs),
                    self.vram == old(self).vram,
                    self.palette_ram == old(self).palette_ram,
                    self.oam == old(self).oam,
                    self.frame_buffer == old(self).frame_buffer,
                    forall|j: int|
                        0 <= j < i ==> self.scanline_sprites@[j] == shift_sprite(
                            #[trigger] old(self).scanline_sprites@[j],
                        ),
                    forall|j: int|
                        i <= j < n ==> self.scanline_sprites@[j]
                            == #[trigger] old(self).scanline_sprites@[j],
                decreases n - i,
            {
                let s: Sprite = shifted(self.scanline_sprites[i]);
                self.scanline_sprites[i] = s;
                i += 1;
            }
        }
        assert(self@.regs == old(self)@.update_shifters().regs);
        assert(self@.sprites =~= old(self)@.update_shifters().sprites);
        assert(self@ =~= old(self)@.update_shifters());
    }

    fn load_background_shifters(&mut self)
        ensures
            final(self)@ == old(self)@.with_regs(load_shifters(old(self).regs)),
    {
        let lo_fill: u16 = if self.regs.bg_next_tile_attrib & 1 != 0 {
            0xFF
        } else {
            0
        };
        let hi_fill: u16 = if self.regs.bg_next_tile_attrib & 2 != 0 {
            0xFF
        } else {
            0
        };
        self.regs.bg_shifter_pattern_lo = (self.regs.bg_shifter_pattern_lo & 0xFF00)
            | self.regs.bg_next_tile_lsb as u16;
        self.regs.bg_shifter_pattern_hi = (self.regs.bg_shifter_pattern_hi & 0xFF00)
            | self.regs.bg_next_tile_msb as u16;
        self.regs.bg_shifter_attrib_lo = (self.regs.bg_shifter_attrib_lo & 0xFF00) | lo_fill;
        self.regs.bg_shifter_attrib_hi = (self.regs.bg_shifter_attrib_hi & 0xFF00) | hi_fill;
    }

    fn fetch_nametable_byte(&mut self, cartridge: &Cartridge)
        requires
            old(self).wf(),
        ensures
            final(self).wf(),
            final(self)@ == old(self)@.fetch_nametable_byte(cartridge@),
    {
        let addr: u16 = 0x2000 | (self.regs.vram_addr & 0x0FFF);
        self.regs.bg_next_tile_id = self.ppu_read(addr, cartridge);
    }

    fn fetch_attribute_table_byte(&mut self, cartridge: &Cartridge)
        requires
            old(self).wf(),
        ensures
            final(self).wf(),
            final(self)@ == old(self)@.fetch_attribute_table_byte(cartridge@),
    {
        let v: u16 = self.regs.vram_addr;
        let addr: u16 = 0x23C0 | (v & 0x0C00) | ((v >> 4) & 0x38) | ((v >> 2) & 0x07);
        let attribute: u8 = self.ppu_read(addr, cartridge);
        let shift: u8 = (((v / 64) % 2) * 4 + ((v / 2) % 2) * 2) as u8;
        self.regs.bg_next_tile_attrib = (attribute >> shift) % 4;
    }

    fn background_pattern_address(&self) -> (addr: u16)
        ensures
            addr == pattern_address(
                self.regs.ctrl,
                self.regs.bg_next_tile_id,
                self.regs.vram_addr,
            ),
            addr <= 0x1FF7,
    {
        let table: u16 = if self.regs.ctrl & 0x10 != 0 {
            0x1000
        } else {
            0
        };
        table + (self.regs.bg_next_tile_id as u16) * 16 + (self.regs.vram_addr / 4096) % 8
    }

    fn fetch_low_bg_tile_byte(&mut self, cartridge: &Cartridge)
        requires
            old(self).wf(),
        ensures
            final(self).wf(),
            final(self)@ == old(self)@.fetch_low_bg_tile_byte(cartridge@),
    {
        let addr: u16 = self.background_pattern_address();
        self.regs.bg_next_tile_lsb = self.ppu_read(addr, cartridge);
    }

    fn fetch_high_bg_tile_byte(&mut self, cartridge: &Cartridge)
        requires
            old(self).wf(),
        ensures
            final(self).wf(),
            final(self)@ == old(self)@.fetch_high_bg_tile_byte(cartridge@),
    {
        let addr: u16 = self.background_pattern_address();
        self.regs.bg_next_tile_msb = self.ppu_read(addr + 8, cartridge);
    }

    fn increment_scroll_x(&mut self)
        ensures
            final(self)@ == old(self)@.with_regs(scroll_x(old(self).regs)),
    {
        if self.regs.mask & 0x18 != 0 {
            if self.regs.vram_addr & 0x001F == 31 {
                self.regs.vram_addr = (self.regs.vram_addr & 0xFFE0) ^ 0x0400;
            } else {
                self.regs.vram_addr = self.regs.vram_addr.wrapping_add(1);
            }
        }
    }

    fn increment_scroll_y(&mut self)
        ensures
            final(self)@ == old(self)@.with_regs(scroll_y(old(self).regs)),
    {
        if self.regs.mask & 0x18 != 0 {
            if self.regs.vram_addr & 0x7000 != 0x7000 {
                self.regs.vram_addr = self.regs.vram_addr.wrapping_add(0x1000);
            } else {
                let v: u16 = self.regs.vram_addr & 0x8FFF;
                let y: u16 = (v & 0x03E0) >> 5;
                if y == 29 {
                    self.regs.vram_addr = ((v ^ 0x0800) & 0xFC1F) | (0 << 5);
                } else if y == 31 {
                    self.regs.vram_addr = (v & 0xFC1F) | (0 << 5);
                } else {
                    self.regs.vram_addr = (v & 0xFC1F) | (y.wrapping_add(1) << 5);
                }
            }
        }
    }

    fn transfer_address_x(&mut self)
        ensures
            final(self)@ == old(self)@.with_regs(copy_x(old(self).regs)),
    {
        if self.regs.mask & 0x18 != 0 {
            self.regs.vram_addr = (self.regs.vram_addr & 0xFBE0) | (self.regs.temp_vram_addr
                & 0x041F);
        }
    }

    fn transfer_address_y(&mut self)
        ensures
            final(self)@ == old(self)@.with_regs(copy_y(old(self).regs)),
    {
        if self.regs.mask & 0x18 != 0 {
            self.regs.vram_addr = (self.regs.vram_addr & 0x841F) | (self.regs.temp_vram_addr
                & 0x7BE0);
        }
    }

    fn evaluate_sprites(&mut self)
        requires
            old(self).wf(),
        ensures
            final(self).wf(),
            final(self)@ == old(self)@.evaluate_sprites(),
    {
        if self.regs.mask & 0x18 == 0 {
            return ;
        }
        let height: i16 = if self.regs.ctrl & 0x20 != 0 {
            16
        } else {
            8
        };
        let scanline: i16 = self.regs.scanline;
        let first: i16 = scanline - (self.oam[0] as i16);
        self.regs.sprite_zero_on_line = 0 <= first && first < height;
        self.scanline_sprites.clear();
        let ghost regs = self.regs;
        let mut overflow: bool = false;
        let mut i: usize = 0;
        while i < 64 && !overflow
            invariant
                i <= 64,
                self.regs == regs,
                self.vram == old(self).vram,
                self.palette_ram == old(self).palette_ram,
                self.frame_buffer == old(self).frame_buffer,
                height == sprite_height(old(self).regs.ctrl),
                scanline == old(self).regs.scanline,
                -1 <= scanline <= 260,
                self.oam == old(self).oam,
                self.oam@.len() == 256,
                self.scanline_sprites@.len() <= 8,
                select_sprites(old(self).oam@, scanline as int, height as int, 0, Seq::empty())
                    == (if overflow {
                    (self.scanline_sprites@, true)
                } else {
                    select_sprites(
                        old(self).oam@,
                        scanline as int,
                        height as int,
                        i as int,
                        self.scanline_sprites@,
                    )
                }),
            decreases 64 - i + (if overflow { 0int } else { 1int }),
        {
            let diff: i16 = scanline - (self.oam[i * 4] as i16);
            if 0 <= diff && diff < height {
                if self.scanline_sprites.len() < 8 {
                    self.scanline_sprites.push(
                        Sprite {
                            y: self.oam[i * 4],
                            tile_id: self.oam[i * 4 + 1],
                            attributes: self.oam[i * 4 + 2],
                            x: self.oam[i * 4 + 3],
                            pattern_lo: 0,
                            pattern_hi: 0,
                        },
                    );
                    i += 1;
                } else {
                    overflow = true;
                }
            } else {
                i += 1;
            }
        }
        if overflow {
            self.regs.status = self.regs.status | 0x20;
        }
        assert(self@.regs == old(self)@.evaluate_sprites().regs);
        assert(self@.sprites =~= old(self)@.evaluate_sprites().sprites);
        assert(self@ =~= old(self)@.evaluate_sprites());
    }

    fn fetch_sprite_patterns(&mut self, cartridge: &Cartridge)
        requires
            old(self).wf(),
        ensures
            final(self).wf(),
            final(self)@ == old(self)@.fetch_sprite_patterns(cartridge@),
    {
        let n: usize = self.scanline_sprites.len();
        let mut i: usize = 0;
        while i < n
            invariant
                i <= n,
                n == self.scanline_sprites@.len(),
                n == old(self).scanline_sprites@.len(),
                self.wf(),
                self.regs == old(self).regs,
                self.vram == old(self).vram,
                self.palette_ram == old(self).palette_ram,
                self.oam == old(self).oam,
                self.frame_buffer == old(self).frame_buffer,
                forall|j: int|
                    0 <= j < i ==> self.scanline_sprites@[j] == old(self)@.fetched_sprite(
                        cartridge@,
                        #[trigger] old(self).scanline_sprites@[j],
                    ),
                forall|j: int|
                    i <= j < n ==> self.scanline_sprites@[j]
                        == #[trigger] old(self).scanline_sprites@[j],
            decreases n - i,
        {
            let s: Sprite = self.scanline_sprites[i];
            let addr: u16 = sprite_address(self.regs.ctrl, self.regs.scanline, s);
            let lo: u8 = self.ppu_read(addr, cartridge);
            let hi: u8 = self.ppu_read(addr + 8, cartridge);
            let fetched: Sprite = if s.attributes & 0x40 != 0 {
                Sprite { pattern_lo: reverse(lo), pattern_hi: reverse(hi), ..s }
            } else {
                Sprite { pattern_lo: lo, pattern_hi: hi, ..s }
            };
            self.scanline_sprites[i] = fetched;
            i += 1;
        }
        assert(self@.regs == old(self)@.fetch_sprite_patterns(cartridge@).regs);
        assert(self@.sprites =~= old(self)@.fetch_sprite_patterns(cartridge@).sprites);
        assert(self@ =~= old(self)@.fetch_sprite_patterns(cartridge@));
    }

    /// The index of the first buffered sprite that shows an opaque dot.
    fn find_opaque(&self) -> (k: usize)
        ensures
            k == first_opaque(self.scanline_sprites@, 0),
            k <= self.scanline_sprites@.len(),
            k < self.scanline_sprites@.len() ==> sprite_dot(self.scanline_sprites@[k as int]) != 0,
    {
        let n: usize = self.scanline_sprites.len();
        let mut k: usize = 0;
        let mut hit: usize = n;
        while k < n
            invariant
                k <= n,
                hit <= n,
                n == self.scanline_sprites@.len(),
                hit == n ==> first_opaque(self.scanline_sprites@, 0) == first_opaque(
                    self.scanline_sprites@,
                    k as int,
                ),
                hit < n ==> k == n && first_opaque(self.scanline_sprites@, 0) == hit
                    && sprite_dot(self.scanline_sprites@[hit as int]) != 0,
            decreases n - k,
        {
            if dot_of(self.scanline_sprites[k]) != 0 {
                hit = k;
                k = n;
            } else {
                k += 1;
            }
        }
        hit
    }

    fn current_dot(&self, x: u16) -> (d: Dot)
        requires
            self.wf(),
            x <= 255,
        ensures
            d == self@.dot(x as int),
            d.palette_addr <= 31,
    {
        let mask: u8 = self.regs.mask;
        let bit: u16 = 15 - (self.regs.fine_x_scroll as u16);
        let bg: u8 = if mask & 0x08 != 0 && (mask & 0x02 != 0 || x >= 8) {
            bit_of(self.regs.bg_shifter_pattern_hi, bit) * 2 + bit_of(
                self.regs.bg_shifter_pattern_lo,
                bit,
            )
        } else {
            0
        };
        let bg_palette: u8 = bit_of(self.regs.bg_shifter_attrib_hi, bit) * 2 + bit_of(
            self.regs.bg_shifter_attrib_lo,
            bit,
        );
        let n: usize = self.scanline_sprites.len();
        let k: usize = if mask & 0x10 != 0 && (mask & 0x04 != 0 || x >= 8) {
            self.find_opaque()
        } else {
            n
        };
        if k < n {
            let s: Sprite = self.scanline_sprites[k];
            let sp: u8 = dot_of(s);
            Dot {
                palette_addr: if bg == 0 || s.attributes & 0x20 == 0 {
                    ((s.attributes % 4) + 4) * 4 + sp
                } else {
                    bg_palette * 4 + bg
                },
                sprite_zero_hit: k == 0 && self.regs.sprite_zero_on_line && bg != 0 && x != 255,
            }
        } else {
            Dot {
                palette_addr: if bg == 0 {
                    0
                } else {
                    bg_palette * 4 + bg
                },
                sprite_zero_hit: false,
            }
        }
    }

    fn render_pixel(&mut self)
        requires
            old(self).wf(),
            0 <= old(self).regs.scanline < 240,
            1 <= old(self).regs.cycle <= 256,
        ensures
            final(self).wf(),
            final(self)@ == old(self)@.render_pixel(),
    {
        let x: u16 = self.regs.cycle - 1;
        let d: Dot = self.current_dot(x);
        let entry: u8 = self.palette_ram[palette_slot(d.palette_addr as u16)] & grey_mask(
            self.regs.mask,
        );
        let rgb: (u8, u8, u8) = color_of(entry);
        let at: usize = ((self.regs.scanline as usize) * 256 + (x as usize)) * 3;
        if d.sprite_zero_hit {
            self.regs.status = self.regs.status | 0x40;
        }
        self.frame_buffer[at] = rgb.0;
        self.frame_buffer[at + 1] = rgb.1;
        self.frame_buffer[at + 2] = rgb.2;
        assert(self@ =~= old(self)@.render_pixel());
    }

    fn fetch_cell(&mut self, cartridge: &Cartridge)
        requires
            old(self).wf(),
            old(self).regs.cycle >= 1,
        ensures
            final(self).wf(),
            final(self)@ == old(self)@.fetch_cell(cartridge@),
    {
        let phase: u16 = (self.regs.cycle - 1) % 8;
        if phase == 0 {
            self.load_background_shifters();
        } else if phase == 1 {
            self.fetch_nametable_byte(cartridge);
        } else if phase == 3 {
            self.fetch_attribute_table_byte(cartridge);
        } else if phase == 5 {
            self.fetch_low_bg_tile_byte(cartridge);
        } else if phase == 7 {
            self.fetch_high_bg_tile_byte(cartridge);
            self.increment_scroll_x();
        }
    }

    #[verifier::spinoff_prover]
    #[verifier::rlimit(60)]
    fn line_dot(&mut self, cartridge: &Cartridge)
        requires
            old(self).wf(),
            old(self).regs.scanline < 240,
        ensures
            final(self).wf(),
            final(self)@ == old(self)@.line_dot(cartridge@),
    {
        proof {
            reveal(PpuView::line_dot);
        }
        let cycle: u16 = self.regs.cycle;
        let scanline: i16 = self.regs.scanline;
        if (2 <= cycle && cycle < 258) || (321 <= cycle && cycle < 338) {
            self.update_shifters();
            self.fetch_cell(cartridge);
        }
        if cycle == 256 {
            self.increment_scroll_y();
        }
        if cycle == 257 {
            self.transfer_address_x();
            self.evaluate_sprites();
        }
        if cycle == 320 {
            self.fetch_sprite_patterns(cartridge);
        }
        if scanline == -1 && 280 <= cycle && cycle < 305 {
            self.transfer_address_y();
        }
        if scanline >= 0 && 1 <= cycle && cycle <= 256 {
            self.render_pixel();
        }
    }

    fn blank_edges(&mut self)
        ensures
            final(self)@ == old(self)@.with_regs(blank_edges(old(self).regs)),
    {
        if self.regs.scanline == 241 && self.regs.cycle == 1 {
            self.regs.status = self.regs.status | 0x80;
            self.regs.nmi_occurred = self.regs.nmi_occurred || self.regs.ctrl & 0x80 != 0;
        } else if self.regs.scanline == -1 && self.regs.cycle == 1 {
            self.regs.status = self.regs.status & 0x1F;
        }
    }

    fn advance(&mut self)
        requires
            old(self).wf(),
        ensures
            final(self).wf(),
            final(self)@ == old(self)@.with_regs(advance(old(self).regs)),
    {
        if self.regs.cycle + 1 < DOTS_PER_LINE {
            self.regs.cycle = self.regs.cycle + 1;
        } else if self.regs.scanline + 1 <= LAST_LINE {
            self.regs.cycle = 0;
            self.regs.scanline = self.regs.scanline + 1;
        } else {
            self.regs.cycle = 0;
            self.regs.scanline = -1;
            self.regs.frame_complete = true;
            self.regs.odd_frame = !self.regs.odd_frame;
        }
    }

    /// Advances the PPU by one dot.
    pub fn step(&mut self, cartridge: &Cartridge)
        requires
            old(self).wf(),
        ensures
            final(self).wf(),
            final(self)@ == old(self)@.step(cartridge@),
    {
        proof {
            reveal(PpuView::step);
        }
        if self.regs.scanline == 0 && self.regs.cycle == 0 && self.regs.odd_frame
            && self.regs.mask & 0x08 != 0 {
            self.regs.cycle = 1;
        }
        self.blank_edges();
        if self.regs.scanline < 240 {
            self.line_dot(cartridge);
        }
        self.advance();
    }
}

pub const DOTS_PER_FRAME: u32 = 89342;

/// The position of the beam within the frame, counted in dots from dot 0
/// of the pre-render line.
pub open spec fn beam_index(r: PpuRegs) -> int {
    (r.scanline + 1) * 341 + r.cycle
}

/// The beam, the frame latch and the frame parity are the same in both
/// states.
pub open spec fn same_beam(a: PpuView, b: PpuView) -> bool {
    &&& a.regs.scanline == b.regs.scanline
    &&& a.regs.cycle == b.regs.cycle
    &&& a.regs.frame_complete == b.regs.frame_complete
    &&& a.regs.odd_frame == b.regs.odd_frame
}

/// The PPU and the cartridge after the bytes of a sequence are written to
/// `$2007` one after the other.
pub open spec fn data_writes(p: PpuView, c: CartridgeView, bytes: Seq<u8>) -> (
    PpuView,
    CartridgeView,
)
    decreases bytes.len(),
{
    if bytes.len() == 0 {
        (p, c)
    } else {
        let (q, d) = data_writes(p, c, bytes.drop_last());
        q.cpu_write(d, 0x2007, bytes.last())
    }
}

} // verus!
