//! Pixel processing unit: the mode state machine over 456 dots per scanline
//! and 154 lines, the background/window scanline renderer, sprite rendering
//! with the 10-per-line limit, and the STAT/LYC interrupt sources.

use crate::framebuffer::Framebuffer;
use crate::cpu::Interrupt;
use crate::mmu::Mmu;
use crate::mmu::MmuView;
use vstd::prelude::*;

verus! {

/// The PPU mode, whose number forms STAT bits 1..0: HBlank 0, VBlank 1,
/// OAM scan 2, drawing 3.
#[derive(Clone, Copy, PartialEq, Eq, Structural, Debug)]
pub enum PpuMode {
    HBlank,
    VBlank,
    OamScan,
    Drawing,
}

impl PpuMode {
    /// The two STAT bits of this mode.
    pub open spec fn spec_bits(self) -> u8 {
        match self {
            PpuMode::HBlank => 0,
            PpuMode::VBlank => 1,
            PpuMode::OamScan => 2,
            PpuMode::Drawing => 3,
        }
    }

    fn bits(self) -> (r: u8)
        ensures
            r == self.spec_bits(),
    {
        match self {
            PpuMode::HBlank => 0,
            PpuMode::VBlank => 1,
            PpuMode::OamScan => 2,
            PpuMode::Drawing => 3,
        }
    }
}

/// A palette lookup: two bits per color index.
pub open spec fn spec_apply_palette(color_index: u8, palette: u8) -> u8 {
    if color_index == 0 {
        palette & 0x03
    } else if color_index == 1 {
        (palette >> 2) & 0x03
    } else if color_index == 2 {
        (palette >> 4) & 0x03
    } else {
        (palette >> 6) & 0x03
    }
}

/// The fixed four-entry ARGB palette, light to dark.
pub open spec fn spec_color(color: u8) -> u32 {
    if color == 0 {
        0xFFE0F8D0u32
    } else if color == 1 {
        0xFF88C070u32
    } else if color == 2 {
        0xFF346856u32
    } else {
        0xFF081820u32
    }
}

/// One tile fetch: the pre-palette color index of source pixel (u, v) in the
/// map at `map_base`, with the tile data area selected by LCDC bit 4.
pub open spec fn spec_tile_pixel(m: Mmu, lcdc: u8, map_base: u16, u: u16, v: u16) -> u8 {
    let tile_index = m.spec_read((map_base + (v / 8) * 32 + (u / 8)) as u16);
    let tile_addr: u16 = if lcdc & 0x10 != 0 {
        (0x8000 + (tile_index as u16) * 16) as u16
    } else {
        (0x9000 as u16).wrapping_add((((tile_index as i8) as i16) * 16) as u16)
    };
    let row_addr = tile_addr.wrapping_add(((v % 8) * 2) as u16);
    let b1 = m.spec_read(row_addr);
    let b2 = m.spec_read(row_addr.wrapping_add(1));
    let bit = (7 - (u % 8)) as u8;
    (((b2 >> bit) & 1) << 1) | ((b1 >> bit) & 1)
}

/// The background or window pixel of column `x` at line `ly`: the pre-palette
/// color index and the rendered ARGB color. The window wins where it is
/// active; a globally disabled background renders as color index 0 through
/// the palette.
pub open spec fn spec_bg_pixel(m: Mmu, ly: u16, x: u16) -> (u8, u32) {
    let lcdc = m.spec_read(0xFF40);
    let bgp = m.spec_read(0xFF47);
    let scx = m.spec_read(0xFF43) as u16;
    let scy = m.spec_read(0xFF42) as u16;
    let wy = m.spec_read(0xFF4A) as u16;
    let wx = m.spec_read(0xFF4B).wrapping_sub(7) as u16;
    let use_window = (lcdc & 0x20 != 0) && ly >= wy && x >= wx;
    let index: u8 = if use_window {
        spec_tile_pixel(
            m,
            lcdc,
            if lcdc & 0x40 != 0 {
                0x9C00
            } else {
                0x9800
            },
            (x - wx) as u16,
            (ly - wy) as u16,
        )
    } else if lcdc & 0x01 != 0 {
        spec_tile_pixel(
            m,
            lcdc,
            if lcdc & 0x08 != 0 {
                0x9C00
            } else {
                0x9800
            },
            ((x + scx) as u16) & 0xFF,
            ((ly + scy) as u16) & 0xFF,
        )
    } else {
        0
    };
    (index, spec_color(spec_apply_palette(index, bgp)))
}

/// Whether OAM sprite `i` covers line `ly` with sprite height `h`: its Y byte
/// minus 16 is the top line.
pub open spec fn spec_sprite_overlaps(m: Mmu, ly: int, h: int, i: int) -> bool {
    let y = m.spec_read((0xFE00 + i * 4) as u16) - 16;
    y <= ly && ly < y + h
}

/// The OAM indices below `n` that cover line `ly`, in OAM order.
pub open spec fn spec_sprite_hits(m: Mmu, ly: int, h: int, n: nat) -> Seq<u8>
    decreases n,
{
    if n == 0 {
        Seq::empty()
    } else {
        let rest = spec_sprite_hits(m, ly, h, (n - 1) as nat);
        if spec_sprite_overlaps(m, ly, h, n - 1) {
            rest.push((n - 1) as u8)
        } else {
            rest
        }
    }
}

/// Two bitplane bits form a color index of at most 3.
pub proof fn lemma_plane_bits(b1: u8, b2: u8, bit: u8)
    requires
        bit <= 7,
    ensures
        ((((b2 >> bit) & 1) << 1) | ((b1 >> bit) & 1)) <= 3,
{
    assert(bit <= 7 ==> ((((b2 >> bit) & 1) << 1) | ((b1 >> bit) & 1)) <= 3) by (bit_vector);
}

/// What OAM sprite `i` contributes at column `x` of line `ly` with sprite
/// height `h` and latched background indices `bg`: `None` where the sprite
/// does not cover the pixel, its color index is zero (transparent), or its
/// behind-background priority bit defers to a nonzero background index;
/// otherwise the OBP0/OBP1 color.
pub open spec fn spec_sprite_pixel(m: Mmu, bg: Seq<u8>, ly: int, h: int, i: int, x: int) -> Option<
    u32,
> {
    let base = (0xFE00 + i * 4) as u16;
    let y = m.spec_read(base) - 16;
    let sx = m.spec_read(base.wrapping_add(1)) - 8;
    let flags = m.spec_read(base.wrapping_add(3));
    if !(y <= ly && ly < y + h) {
        None
    } else if sx <= -8 || sx >= 160 {
        None
    } else if !(sx <= x && x < sx + 8) {
        None
    } else {
        let px = x - sx;
        let tile0 = m.spec_read(base.wrapping_add(2));
        let tile: u8 = if h == 16 {
            tile0 & 0xFE
        } else {
            tile0
        };
        let line: int = if flags & 0x40 != 0 {
            h - 1 - (ly - y)
        } else {
            ly - y
        };
        let actual: u8 = if h == 16 && line >= 8 {
            tile | 0x01
        } else {
            tile
        };
        let tile_addr = (0x8000u16).wrapping_add(((actual as u16) * 16) as u16).wrapping_add(
            (((line % 8) as u16) * 2) as u16,
        );
        let b1 = m.spec_read(tile_addr);
        let b2 = m.spec_read(tile_addr.wrapping_add(1));
        let pixel_x: int = if flags & 0x20 != 0 {
            7 - px
        } else {
            px
        };
        let bit = (7 - pixel_x) as u8;
        let ci = (((b2 >> bit) & 1) << 1) | ((b1 >> bit) & 1);
        if ci == 0 {
            None
        } else if flags & 0x80 != 0 && bg[x] != 0 {
            None
        } else {
            let obp = if flags & 0x10 != 0 {
                m.spec_read(0xFF49)
            } else {
                m.spec_read(0xFF48)
            };
            Some(spec_color(spec_apply_palette(ci, obp)))
        }
    }
}

/// The color of column `x` after the sprites in `sel` draw over `base_color`
/// in order: each sprite that contributes overwrites what came before it, so
/// of two selected sprites covering the same pixel the later one in OAM order
/// shows.
pub open spec fn spec_sprite_overlay(
    m: Mmu,
    bg: Seq<u8>,
    ly: int,
    h: int,
    sel: Seq<u8>,
    x: int,
    base_color: u32,
) -> u32
    decreases sel.len(),
{
    if sel.len() == 0 {
        base_color
    } else {
        let first = spec_sprite_pixel(m, bg, ly, h, sel[0] as int, x);
        spec_sprite_overlay(
            m,
            bg,
            ly,
            h,
            sel.skip(1),
            x,
            match first {
                Some(c) => c,
                None => base_color,
            },
        )
    }
}

/// Appending one sprite to the overlay draws it last: it wins where it
/// contributes and changes nothing elsewhere.
pub proof fn lemma_overlay_push(
    m: Mmu,
    bg: Seq<u8>,
    ly: int,
    h: int,
    sel: Seq<u8>,
    e: u8,
    x: int,
    base_color: u32,
)
    ensures
        spec_sprite_overlay(m, bg, ly, h, sel.push(e), x, base_color) == (
        match spec_sprite_pixel(m, bg, ly, h, e as int, x) {
            Some(c) => c,
            None => spec_sprite_overlay(m, bg, ly, h, sel, x, base_color),
        }),
    decreases sel.len(),
{
    reveal_with_fuel(spec_sprite_overlay, 3);
    if sel.len() == 0 {
        assert(sel.push(e)[0] == e);
        assert(sel.push(e).skip(1) =~= Seq::<u8>::empty());
        assert(spec_sprite_overlay(m, bg, ly, h, sel.push(e), x, base_color) == (
        match spec_sprite_pixel(m, bg, ly, h, e as int, x) {
            Some(c) => c,
            None => base_color,
        }));
    } else {
        assert(sel.push(e)[0] == sel[0]);
        assert(sel.push(e).skip(1) =~= sel.skip(1).push(e));
        let base2: u32 = match spec_sprite_pixel(m, bg, ly, h, sel[0] as int, x) {
            Some(c) => c,
            None => base_color,
        };
        lemma_overlay_push(m, bg, ly, h, sel.skip(1), e, x, base2);
        assert(spec_sprite_overlay(m, bg, ly, h, sel.push(e), x, base_color)
            == spec_sprite_overlay(m, bg, ly, h, sel.skip(1).push(e), x, base2));
        assert(spec_sprite_overlay(m, bg, ly, h, sel, x, base_color) == spec_sprite_overlay(
            m,
            bg,
            ly,
            h,
            sel.skip(1),
            x,
            base2,
        ));
    }
}

/// The sprites the OAM scan keeps for a line: the hits in OAM order, cut to
/// the first ten.
pub open spec fn spec_selected_sprites(m: Mmu, ly: int, h: int) -> Seq<u8> {
    let hits = spec_sprite_hits(m, ly, h, 40);
    if hits.len() <= 10 {
        hits
    } else {
        hits.take(10)
    }
}

/// The final color of column `x` at line `ly` once the scanline renders: the
/// background or window pixel, overlaid — when LCDC bit 1 enables sprites —
/// by the first at most ten OAM-ordered sprites covering the line.
pub open spec fn spec_rendered_pixel(m: Mmu, ly: u16, x: u16) -> u32 {
    let base = spec_bg_pixel(m, ly, x).1;
    let lcdc = m.spec_read(0xFF40);
    if lcdc & 0x02 == 0 {
        base
    } else {
        let h: int = if lcdc & 0x04 != 0 {
            16
        } else {
            8
        };
        let bg = Seq::new(160, |j: int| spec_bg_pixel(m, ly, j as u16).0);
        spec_sprite_overlay(
            m,
            bg,
            ly as int,
            h,
            spec_selected_sprites(m, ly as int, h),
            x as int,
            base,
        )
    }
}

/// The I/O bytes after a mode transition: entering the mode already current
/// changes nothing; otherwise STAT bits 1..0 take the new mode and, when the
/// matching STAT source bit (3 for HBlank, 4 for VBlank, 5 for OAM scan) is
/// set, the LCDStat bit of IF is raised.
pub open spec fn spec_mode_stat_io(io: Seq<u8>, cur: PpuMode, new_mode: PpuMode) -> Seq<u8> {
    if cur == new_mode {
        io
    } else {
        let stat1 = ((io[0x41] & 0xFC) | new_mode.spec_bits()) as u8;
        let io1 = io.update(0x41, stat1);
        let fire = match new_mode {
            PpuMode::HBlank => stat1 & 0x08 != 0,
            PpuMode::VBlank => stat1 & 0x10 != 0,
            PpuMode::OamScan => stat1 & 0x20 != 0,
            PpuMode::Drawing => false,
        };
        if fire {
            io1.update(0x0F, (io1[0x0F] | 0x02) as u8)
        } else {
            io1
        }
    }
}

/// The I/O bytes after the LY = LYC comparison at the given line: STAT bit 2
/// follows the comparison, and a match with STAT bit 6 set raises LCDStat.
pub open spec fn spec_lyc_io(io: Seq<u8>, scanline: u8) -> Seq<u8> {
    let lyc = io[0x45];
    let stat = io[0x41];
    if scanline == lyc {
        let stat1 = (stat | 0x04) as u8;
        let io1 = io.update(0x41, stat1);
        if stat1 & 0x40 != 0 {
            io1.update(0x0F, (io1[0x0F] | 0x02) as u8)
        } else {
            io1
        }
    } else {
        io.update(0x41, (stat & 0xFB) as u8)
    }
}

/// The line after `s`: LY wraps from 153 back to 0.
pub open spec fn spec_next_scanline(s: u8) -> u8 {
    if s >= 153 {
        0u8
    } else {
        (s + 1) as u8
    }
}

/// The I/O bytes after a line rollover from `old_scanline` in `old_mode`: LY
/// takes the next line, the LYC compare runs, entering line 144 switches to
/// VBlank and raises the VBlank bit of IF, and lines below 144 restart the
/// OAM scan.
pub open spec fn spec_advance_io(io: Seq<u8>, old_scanline: u8, old_mode: PpuMode) -> Seq<u8> {
    let s2 = spec_next_scanline(old_scanline);
    let io2 = spec_lyc_io(io.update(0x44, s2), s2);
    if s2 == 144 {
        let io3 = spec_mode_stat_io(io2, old_mode, PpuMode::VBlank);
        io3.update(0x0F, (io3[0x0F] | 0x01) as u8)
    } else if s2 < 144 {
        spec_mode_stat_io(io2, old_mode, PpuMode::OamScan)
    } else {
        io2
    }
}

/// PPU state: the current mode, scanline and dot accumulator, the latched
/// per-scanline background color indices used for sprite priority, and the
/// output image.
pub struct Ppu {
    pub frame_ready: bool,
    pub framebuffer: Framebuffer,
    pub mode: PpuMode,
    pub scanline: u8,
    pub dot_counter: u16,
    pub bg_color_index: Vec<u8>,
}

/// The full effect of one PPU step, relating the PPU and bus before (`p0`,
/// `m0`) to the PPU and bus after (`p1`, `m1`) for the elapsed cycles: the
/// LCD-disabled reset, the pure dot accumulation cases, and the four mode
/// transitions with their rendering, STAT/LY/LYC and interrupt effects.
pub open spec fn spec_ppu_step_rel(p0: Ppu, m0: Mmu, p1: Ppu, m1: Mmu, cycles: u16) -> bool {
    m0.spec_read(0xFF40) & 0x80 == 0 ==> p1 == (Ppu {
                dot_counter: 0,
                mode: PpuMode::OamScan,
                scanline: 0,
                ..p0
            }) && m1.view() == (MmuView {
                io: m0.view().io.update(0x44, 0u8),
                ..m0.view()
            }) && m1.apu == m0.apu && (m0.spec_read(0xFF40) & 0x80 != 0 ==> ({
                let dot = p0.dot_counter + cycles;
                let ly = p0.scanline;
                let s2 = spec_next_scanline(ly);
                (p0.mode == PpuMode::OamScan && dot < 80 ==> p1 == (Ppu {
                    dot_counter: dot as u16,
                    ..p0
                }) && m1 == m0) && (p0.mode == PpuMode::Drawing && dot < 172
                    ==> p1 == (Ppu { dot_counter: dot as u16, ..p0 }) && m1 == m0) && (p0.mode == PpuMode::HBlank && dot < 204 ==> p1
                    == (Ppu { dot_counter: dot as u16, ..p0 }) && m1 == m0) && (p0.mode == PpuMode::VBlank && dot < 456 ==> p1 == (Ppu {
                    dot_counter: dot as u16,
                    ..p0
                }) && m1 == m0) && (p0.mode == PpuMode::OamScan && dot >= 80
                    ==> p1 == (Ppu {
                    dot_counter: (dot - 80) as u16,
                    mode: PpuMode::Drawing,
                    ..p0
                }) && m1.io@ == spec_mode_stat_io(
                    m0.io@,
                    PpuMode::OamScan,
                    PpuMode::Drawing,
                ) && m1 == (Mmu { io: m1.io, ..m0 })) && (p0.mode
                    == PpuMode::Drawing && dot >= 172 && ly < 144 ==> p1 == (Ppu {
                    dot_counter: (dot - 172) as u16,
                    mode: PpuMode::HBlank,
                    framebuffer: p1.framebuffer,
                    bg_color_index: p1.bg_color_index,
                    ..p0
                }) && p1.bg_color_index@ == Seq::new(
                    160,
                    |x: int| spec_bg_pixel(m0, ly as u16, x as u16).0,
                ) && (forall|x: int|
                    0 <= x < 160 ==> p1.framebuffer.pixels@[ly * 160 + x]
                        == #[trigger] spec_rendered_pixel(m0, ly as u16, x as u16)) && (
                forall|k: int|
                    0 <= k < 160 * 144 && !(ly * 160 <= k < ly * 160 + 160) ==> p1.framebuffer.pixels@[k] == p0.framebuffer.pixels@[k]) && m1.io@ == spec_mode_stat_io(m0.io@, PpuMode::Drawing, PpuMode::HBlank)
                    && m1 == (Mmu { io: m1.io, ..m0 })) && (p0.mode
                    == PpuMode::Drawing && dot >= 172 && ly >= 144 ==> p1 == (Ppu {
                    dot_counter: (dot - 172) as u16,
                    mode: PpuMode::HBlank,
                    ..p0
                }) && m1.io@ == spec_mode_stat_io(
                    m0.io@,
                    PpuMode::Drawing,
                    PpuMode::HBlank,
                ) && m1 == (Mmu { io: m1.io, ..m0 })) && (p0.mode
                    == PpuMode::HBlank && dot >= 204 ==> p1 == (Ppu {
                    dot_counter: (dot - 204) as u16,
                    scanline: s2,
                    mode: if s2 == 144 {
                        PpuMode::VBlank
                    } else if s2 < 144 {
                        PpuMode::OamScan
                    } else {
                        PpuMode::HBlank
                    },
                    frame_ready: p0.frame_ready || s2 == 144,
                    ..p0
                }) && m1.io@ == spec_advance_io(m0.io@, ly, PpuMode::HBlank)
                    && m1 == (Mmu { io: m1.io, ..m0 })) && (p0.mode
                    == PpuMode::VBlank && dot >= 456 ==> p1 == (Ppu {
                    dot_counter: (dot - 456) as u16,
                    scanline: s2,
                    mode: if s2 == 144 {
                        PpuMode::VBlank
                    } else if s2 < 144 {
                        PpuMode::OamScan
                    } else {
                        PpuMode::VBlank
                    },
                    frame_ready: p0.frame_ready || s2 == 144,
                    ..p0
                }) && m1.io@ == spec_advance_io(m0.io@, ly, PpuMode::VBlank)
                    && m1 == (Mmu { io: m1.io, ..m0 }))
            })) && (p0.frame_ready ==> p1.frame_ready)
}

impl Ppu {
    /// Ranges that construction establishes and `step` preserves.
    pub open spec fn wf(self) -> bool {
        self.framebuffer.wf() && self.bg_color_index@.len() == 160 && self.scanline <= 153
            && self.dot_counter < 480
    }

    /// Mode OAM scan at line zero, a white frame.
    pub fn new() -> (r: Ppu)
        ensures
            !r.frame_ready,
            r.mode == PpuMode::OamScan,
            r.scanline == 0,
            r.dot_counter == 0,
            r.bg_color_index@ == Seq::new(160, |i: int| 0u8),
            r.framebuffer.pixels@ == Seq::new(160 * 144, |i: int| 0xFFFFFFFFu32),
            r.wf(),
    {
        let mut bg: Vec<u8> = Vec::new();
        let mut i: usize = 0;
        while i < 160
            invariant
                i <= 160,
                bg@ == Seq::new(i as nat, |j: int| 0u8),
            decreases 160 - i,
        {
            bg.push(0);
            proof {
                assert(bg@ =~= Seq::new((i + 1) as nat, |j: int| 0u8));
            }
            i = i + 1;
        }
        Ppu {
            framebuffer: Framebuffer::new(),
            mode: PpuMode::OamScan,
            scanline: 0,
            frame_ready: false,
            dot_counter: 0,
            bg_color_index: bg,
        }
    }

    fn lcd_enabled(&self, mmu: &Mmu) -> (r: bool)
        requires
            mmu.wf(),
        ensures
            r == (mmu.spec_read(0xFF40) & 0x80 != 0),
    {
        mmu.read8(0xFF40) & 0x80 != 0
    }

    /// The LCD-disabled reset: line zero, OAM scan, dot counter cleared, LY
    /// forced to zero on the bus.
    fn reset(&mut self, mmu: &mut Mmu)
        requires
            old(self).wf(),
            old(mmu).wf(),
        ensures
            *final(self) == (Ppu {
                dot_counter: 0,
                mode: PpuMode::OamScan,
                scanline: 0,
                ..*old(self)
            }),
            final(mmu).view() == (MmuView {
                io: old(mmu).view().io.update(0x44, 0u8),
                ..old(mmu).view()
            }),
            final(mmu).apu == old(mmu).apu,
            final(self).wf(),
            final(mmu).wf(),
    {
        self.dot_counter = 0;
        self.mode = PpuMode::OamScan;
        self.scanline = 0;
        mmu.write_ly(0);
    }

    /// Stores the mode bits into STAT bits 1..0 through the device-side path.
    fn write_stat(&self, mmu: &mut Mmu)
        requires
            old(mmu).wf(),
        ensures
            final(mmu).io@ == old(mmu).io@.update(
                0x41,
                ((old(mmu).io@[0x41] & 0xFC) | self.mode.spec_bits()) as u8,
            ),
            *final(mmu) == (Mmu { io: final(mmu).io, ..*old(mmu) }),
            final(mmu).wf(),
    {
        let stat = mmu.io[0x41];
        let bits = self.mode.bits();
        mmu.write_stat((stat & 0xFC) | bits);
    }

    /// A mode transition: the STAT mode bits follow, and the corresponding
    /// STAT interrupt source (bits 3..5 for HBlank, VBlank and OAM scan)
    /// requests the LCDStat interrupt when enabled. Entering the mode already
    /// current does nothing.
    fn enter_mode(&mut self, new_mode: PpuMode, mmu: &mut Mmu)
        requires
            old(self).wf(),
            old(mmu).wf(),
        ensures
            *final(self) == (Ppu { mode: new_mode, ..*old(self) }),
            final(mmu).io@ == spec_mode_stat_io(old(mmu).io@, old(self).mode, new_mode),
            *final(mmu) == (Mmu { io: final(mmu).io, ..*old(mmu) }),
            final(self).wf(),
            final(mmu).wf(),
    {
        if self.mode == new_mode {
            return ;
        }
        self.mode = new_mode;
        self.write_stat(mmu);
        let stat = mmu.io[0x41];
        let fire = match new_mode {
            PpuMode::HBlank => stat & 0x08 != 0,
            PpuMode::VBlank => stat & 0x10 != 0,
            PpuMode::OamScan => stat & 0x20 != 0,
            PpuMode::Drawing => false,
        };
        if fire {
            proof {
                crate::registers::lemma_bit_masks();
            }
            mmu.request_interrupt(Interrupt::LCDStat);
        }
    }

    /// The LY = LYC comparison: STAT bit 2 follows the comparison, and a
    /// match requests LCDStat when STAT bit 6 is set.
    fn check_lyc(&self, mmu: &mut Mmu)
        requires
            old(mmu).wf(),
        ensures
            final(mmu).io@ == spec_lyc_io(old(mmu).io@, self.scanline),
            *final(mmu) == (Mmu { io: final(mmu).io, ..*old(mmu) }),
            final(mmu).wf(),
    {
        let lyc = mmu.io[0x45];
        let stat = mmu.io[0x41];
        if self.scanline == lyc {
            let stat1 = stat | 0x04;
            mmu.write_stat(stat1);
            if stat1 & 0x40 != 0 {
                proof {
                    crate::registers::lemma_bit_masks();
                }
                mmu.request_interrupt(Interrupt::LCDStat);
            }
        } else {
            mmu.write_stat(stat & 0xFB);
        }
    }

    /// Line rollover: LY advances (wrapping from 153 to 0), the LYC compare
    /// runs, entering line 144 raises VBlank and marks the frame ready, and
    /// lines below 144 restart the OAM scan. Only the I/O bytes of the bus
    /// change.
    fn advance_scanline(&mut self, mmu: &mut Mmu)
        requires
            old(self).wf(),
            old(mmu).wf(),
        ensures
            ({
                let s2 = spec_next_scanline(old(self).scanline);
                *final(self) == (Ppu {
                    scanline: s2,
                    mode: if s2 == 144 {
                        PpuMode::VBlank
                    } else if s2 < 144 {
                        PpuMode::OamScan
                    } else {
                        old(self).mode
                    },
                    frame_ready: old(self).frame_ready || s2 == 144,
                    ..*old(self)
                })
            }),
            final(mmu).io@ == spec_advance_io(old(mmu).io@, old(self).scanline, old(self).mode),
            *final(mmu) == (Mmu { io: final(mmu).io, ..*old(mmu) }),
            final(self).wf(),
            final(mmu).wf(),
    {
        if self.scanline >= 153 {
            self.scanline = 0;
        } else {
            self.scanline = self.scanline + 1;
        }
        mmu.write_ly(self.scanline);
        self.check_lyc(mmu);
        if self.scanline == 144 {
            self.enter_mode(PpuMode::VBlank, mmu);
            proof {
                crate::registers::lemma_bit_masks();
            }
            mmu.request_interrupt(Interrupt::VBlank);
            self.frame_ready = true;
        }
        if self.scanline < 144 {
            self.enter_mode(PpuMode::OamScan, mmu);
        }
    }

    /// Renders the background and window of the current scanline: every
    /// column of the row takes its `spec_bg_pixel` color, and the pre-palette
    /// indices are latched for sprite priority. Nothing outside the row
    /// changes.
    #[verifier::rlimit(100)]
    #[verifier::spinoff_prover]
    fn render_scanline(&mut self, mmu: &Mmu)
        requires
            old(self).wf(),
            mmu.wf(),
            old(self).scanline < 144,
        ensures
            *final(self) == (Ppu {
                framebuffer: final(self).framebuffer,
                bg_color_index: final(self).bg_color_index,
                ..*old(self)
            }),
            final(self).bg_color_index@ == Seq::new(
                160,
                |x: int| spec_bg_pixel(*mmu, old(self).scanline as u16, x as u16).0,
            ),
            forall|x: int|
                0 <= x < 160 ==> final(self).framebuffer.pixels@[old(self).scanline * 160 + x]
                    == (#[trigger] spec_bg_pixel(*mmu, old(self).scanline as u16, x as u16)).1,
            forall|k: int|
                0 <= k < 160 * 144 && !(old(self).scanline * 160 <= k < old(self).scanline * 160
                    + 160) ==> final(self).framebuffer.pixels@[k] == old(self).framebuffer.pixels@[k],
            final(self).wf(),
    {
        let ly = self.scanline as u16;
        let lcdc = mmu.read8(0xFF40);
        let bgp = mmu.read8(0xFF47);
        let scx = mmu.read8(0xFF43) as u16;
        let scy = mmu.read8(0xFF42) as u16;
        let wy = mmu.read8(0xFF4A) as u16;
        let wx = mmu.read8(0xFF4B).wrapping_sub(7) as u16;
        let window_enabled = lcdc & 0x20 != 0;
        let bg_enabled = lcdc & 0x01 != 0;

        let mut x: u16 = 0;
        while x < 160
            invariant
                x <= 160,
                self.wf(),
                ly == old(self).scanline as u16,
                ly < 144,
                lcdc == mmu.spec_read(0xFF40),
                bgp == mmu.spec_read(0xFF47),
                scx == mmu.spec_read(0xFF43) as u16,
                scy == mmu.spec_read(0xFF42) as u16,
                wy == mmu.spec_read(0xFF4A) as u16,
                wx == mmu.spec_read(0xFF4B).wrapping_sub(7) as u16,
                window_enabled == (lcdc & 0x20 != 0),
                bg_enabled == (lcdc & 0x01 != 0),
                mmu.wf(),
                *self == (Ppu {
                    framebuffer: self.framebuffer,
                    bg_color_index: self.bg_color_index,
                    ..*old(self)
                }),
                self.bg_color_index@.len() == 160,
                forall|j: int|
                    0 <= j < x ==> self.bg_color_index@[j] == (#[trigger] spec_bg_pixel(
                        *mmu,
                        ly,
                        j as u16,
                    )).0,
                forall|j: int|
                    x <= j < 160 ==> self.bg_color_index@[j] == old(self).bg_color_index@[j],
                forall|j: int|
                    0 <= j < x ==> self.framebuffer.pixels@[ly * 160 + j] == (#[trigger] spec_bg_pixel(
                        *mmu,
                        ly,
                        j as u16,
                    )).1,
                forall|k: int|
                    0 <= k < 160 * 144 && !(ly * 160 <= k < ly * 160 + x)
                        ==> self.framebuffer.pixels@[k] == old(self).framebuffer.pixels@[k],
            decreases 160 - x,
        {
            let use_window = window_enabled && ly >= wy && x >= wx;
            let index: u8 = if use_window {
                let map_base: u16 = if lcdc & 0x40 != 0 {
                    0x9C00
                } else {
                    0x9800
                };
                self.tile_pixel(mmu, lcdc, map_base, x - wx, ly - wy)
            } else if bg_enabled {
                let map_base: u16 = if lcdc & 0x08 != 0 {
                    0x9C00
                } else {
                    0x9800
                };
                proof {
                    crate::registers::lemma_u16_bits((x + scx) as u16);
                    crate::registers::lemma_u16_bits((ly + scy) as u16);
                }
                self.tile_pixel(mmu, lcdc, map_base, (x + scx) & 0xFF, (ly + scy) & 0xFF)
            } else {
                0
            };
            let color = Self::color_index_to_color(Self::apply_palette(index, bgp));
            self.bg_color_index.set(x as usize, index);
            self.framebuffer.set_pixel(x as usize, ly as usize, color);
            proof {
                assert(index == spec_bg_pixel(*mmu, ly, x).0);
                assert(color == spec_bg_pixel(*mmu, ly, x).1);
            }
            x = x + 1;
        }
    }

    /// One tile fetch, exactly `spec_tile_pixel`.
    fn tile_pixel(&self, mmu: &Mmu, lcdc: u8, map_base: u16, u: u16, v: u16) -> (r: u8)
        requires
            mmu.wf(),
            map_base == 0x9800 || map_base == 0x9C00,
            u < 256,
            v < 256,
        ensures
            r == spec_tile_pixel(*mmu, lcdc, map_base, u, v),
            r <= 3,
    {
        let tile_x = u / 8;
        let tile_y = v / 8;
        let pixel_x = u % 8;
        let pixel_y = v % 8;
        let tile_index = mmu.read8(map_base + tile_y * 32 + tile_x);
        let tile_addr: u16 = if lcdc & 0x10 != 0 {
            0x8000 + (tile_index as u16) * 16
        } else {
            let signed_offset: i16 = (tile_index as i8) as i16 * 16;
            (0x9000 as u16).wrapping_add(signed_offset as u16)
        };
        let row_addr = tile_addr.wrapping_add(pixel_y * 2);
        let b1 = mmu.read8(row_addr);
        let b2 = mmu.read8(row_addr.wrapping_add(1));
        let bit = (7 - pixel_x) as u8;
        proof {
            lemma_plane_bits(b1, b2, bit);
        }
        (((b2 >> bit) & 1) << 1) | ((b1 >> bit) & 1)
    }

    /// A palette lookup, exactly `spec_apply_palette`.
    fn apply_palette(color_index: u8, palette: u8) -> (r: u8)
        ensures
            r == spec_apply_palette(color_index, palette),
    {
        if color_index == 0 {
            palette & 0x03
        } else if color_index == 1 {
            (palette >> 2) & 0x03
        } else if color_index == 2 {
            (palette >> 4) & 0x03
        } else {
            (palette >> 6) & 0x03
        }
    }

    /// The fixed palette, exactly `spec_color`.
    fn color_index_to_color(color: u8) -> (r: u32)
        ensures
            r == spec_color(color),
    {
        if color == 0 {
            0xFFE0F8D0
        } else if color == 1 {
            0xFF88C070
        } else if color == 2 {
            0xFF346856
        } else {
            0xFF081820
        }
    }

    /// The OAM scan: the first at most ten sprites whose Y range covers the
    /// line, in OAM order — later sprites are dropped, which is the
    /// hardware's 10-per-scanline limit.
    fn select_sprites(&self, mmu: &Mmu, sprite_height: u16) -> (r: Vec<u8>)
        requires
            mmu.wf(),
            self.scanline < 144,
            sprite_height == 8 || sprite_height == 16,
        ensures
            r@ == spec_selected_sprites(*mmu, self.scanline as int, sprite_height as int),
            r@.len() <= 10,
            forall|j: int| 0 <= j < r@.len() ==> r@[j] < 40,
    {
        let ly = self.scanline as i32;
        let h = sprite_height as i32;
        let mut out: Vec<u8> = Vec::new();
        let mut i: u16 = 0;
        proof {
            lemma_sprite_hits_bound(*mmu, ly as int, h as int, 0);
        }
        while i < 40
            invariant
                i <= 40,
                mmu.wf(),
                ly == self.scanline as int,
                h == sprite_height as int,
                ({
                    let hits = spec_sprite_hits(*mmu, ly as int, h as int, i as nat);
                    out@ == if hits.len() <= 10 {
                        hits
                    } else {
                        hits.take(10)
                    }
                }),
                out@.len() <= 10,
                forall|j: int| 0 <= j < out@.len() ==> out@[j] < 40,
            decreases 40 - i,
        {
            let base: u16 = 0xFE00 + i * 4;
            let y = (mmu.read8(base) as i32) - 16;
            let overlaps = ly >= y && ly < y + h;
            proof {
                lemma_sprite_hits_bound(*mmu, ly as int, h as int, (i + 1) as nat);
                let hits_i = spec_sprite_hits(*mmu, ly as int, h as int, i as nat);
                let hits_i1 = spec_sprite_hits(*mmu, ly as int, h as int, (i + 1) as nat);
                assert(overlaps == spec_sprite_overlaps(*mmu, ly as int, h as int, i as int));
                if overlaps {
                    assert(hits_i1 == hits_i.push(i as u8));
                    if hits_i.len() >= 10 {
                        assert(hits_i1.take(10) =~= hits_i.take(10));
                    } else {
                        assert(hits_i1 =~= hits_i.push(i as u8));
                    }
                } else {
                    assert(hits_i1 == hits_i);
                }
            }
            if overlaps && out.len() < 10 {
                out.push(i as u8);
            }
            i = i + 1;
        }
        out
    }

    /// Renders the sprites of the current scanline over the background. Only
    /// the first ten sprites covering the line, in OAM order, are drawn (see
    /// `select_sprites`); pixels outside the row, the latched background
    /// indices and the rest of the PPU state are untouched. Sprite rendering
    /// is skipped entirely when LCDC bit 1 is clear.
    fn render_sprites_scanline(&mut self, mmu: &Mmu)
        requires
            old(self).wf(),
            mmu.wf(),
            old(self).scanline < 144,
        ensures
            *final(self) == (Ppu { framebuffer: final(self).framebuffer, ..*old(self) }),
            mmu.spec_read(0xFF40) & 0x02 == 0 ==> final(self).framebuffer.pixels@ == old(self).framebuffer.pixels@,
            mmu.spec_read(0xFF40) & 0x02 != 0 ==> final(self).framebuffer.pixels@.subrange(
                old(self).scanline * 160,
                old(self).scanline * 160 + 160,
            ) == ({
                let h: int = if mmu.spec_read(0xFF40) & 0x04 != 0 {
                    16
                } else {
                    8
                };
                let sel = spec_selected_sprites(*mmu, old(self).scanline as int, h);
                Seq::new(
                    160,
                    |x: int|
                        spec_sprite_overlay(
                            *mmu,
                            old(self).bg_color_index@,
                            old(self).scanline as int,
                            h,
                            sel,
                            x,
                            old(self).framebuffer.pixels@[old(self).scanline * 160 + x],
                        ),
                )
            }),
            forall|k: int|
                0 <= k < 160 * 144 && !(old(self).scanline * 160 <= k < old(self).scanline * 160
                    + 160) ==> final(self).framebuffer.pixels@[k] == old(self).framebuffer.pixels@[k],
            final(self).framebuffer.pixels@.len() == 160 * 144,
            final(self).wf(),
    {
        let ly = self.scanline as i32;
        let lcdc = mmu.read8(0xFF40);
        if lcdc & 0x02 == 0 {
            return ;
        }
        let sprite_height: u16 = if lcdc & 0x04 != 0 {
            16
        } else {
            8
        };
        let selected = self.select_sprites(mmu, sprite_height);
        let mut s: usize = 0;
        while s < selected.len()
            invariant
                mmu.wf(),
                self.wf(),
                ly == old(self).scanline as int,
                old(self).scanline < 144,
                sprite_height == 8 || sprite_height == 16,
                selected@ == spec_selected_sprites(*mmu, ly as int, sprite_height as int),
                s <= selected@.len(),
                forall|j: int| 0 <= j < selected@.len() ==> selected@[j] < 40,
                *self == (Ppu { framebuffer: self.framebuffer, ..*old(self) }),
                forall|x: int|
                    0 <= x < 160 ==> self.framebuffer.pixels@[ly * 160 + x]
                        == #[trigger] spec_sprite_overlay(
                        *mmu,
                        old(self).bg_color_index@,
                        ly as int,
                        sprite_height as int,
                        selected@.take(s as int),
                        x,
                        old(self).framebuffer.pixels@[ly * 160 + x],
                    ),
                forall|k: int|
                    0 <= k < 160 * 144 && !(old(self).scanline * 160 <= k < old(self).scanline
                        * 160 + 160) ==> self.framebuffer.pixels@[k] == old(self).framebuffer.pixels@[k],
            decreases selected.len() - s,
        {
            let ghost fb_before = self.framebuffer.pixels@;
            let idx = selected[s] as u16;
            self.draw_sprite(mmu, idx, sprite_height);
            proof {
                assert(selected@.take((s + 1) as int) =~= selected@.take(s as int).push(
                    selected@[s as int],
                ));
                assert forall|x: int| 0 <= x < 160 implies self.framebuffer.pixels@[ly * 160 + x]
                    == #[trigger] spec_sprite_overlay(
                    *mmu,
                    old(self).bg_color_index@,
                    ly as int,
                    sprite_height as int,
                    selected@.take((s + 1) as int),
                    x,
                    old(self).framebuffer.pixels@[ly * 160 + x],
                ) by {
                    lemma_overlay_push(
                        *mmu,
                        old(self).bg_color_index@,
                        ly as int,
                        sprite_height as int,
                        selected@.take(s as int),
                        selected@[s as int],
                        x,
                        old(self).framebuffer.pixels@[ly * 160 + x],
                    );
                }
            }
            s = s + 1;
        }
        proof {
            assert(selected@.take(selected@.len() as int) =~= selected@);
            let lyi = old(self).scanline as int;
            let h: int = if mmu.spec_read(0xFF40) & 0x04 != 0 {
                16
            } else {
                8
            };
            let sel = spec_selected_sprites(*mmu, lyi, h);
            assert forall|x: int| 0 <= x < 160 implies self.framebuffer.pixels@[lyi * 160 + x]
                == #[trigger] spec_sprite_overlay(
                *mmu,
                old(self).bg_color_index@,
                lyi,
                h,
                sel,
                x,
                old(self).framebuffer.pixels@[lyi * 160 + x],
            ) by {
                assert(self.framebuffer.pixels@[lyi * 160 + x] == spec_sprite_overlay(
                    *mmu,
                    old(self).bg_color_index@,
                    lyi,
                    sprite_height as int,
                    selected@.take(selected@.len() as int),
                    x,
                    old(self).framebuffer.pixels@[lyi * 160 + x],
                ));
            }
            assert(self.framebuffer.pixels@.subrange(lyi * 160, lyi * 160 + 160) =~= Seq::new(
                160,
                |x: int|
                    spec_sprite_overlay(
                        *mmu,
                        old(self).bg_color_index@,
                        lyi,
                        h,
                        sel,
                        x,
                        old(self).framebuffer.pixels@[lyi * 160 + x],
                    ),
            ));
        }
    }

    /// Draws one OAM sprite's pixels on the current scanline: X and Y flips,
    /// the 8x16 tile pair selection, transparency of color index zero, the
    /// behind-background priority bit against the latched indices, and the
    /// OBP0/OBP1 palettes. Only the current row of the image changes.
    fn draw_sprite(&mut self, mmu: &Mmu, i: u16, sprite_height: u16)
        requires
            old(self).wf(),
            mmu.wf(),
            old(self).scanline < 144,
            i < 40,
            sprite_height == 8 || sprite_height == 16,
        ensures
            *final(self) == (Ppu { framebuffer: final(self).framebuffer, ..*old(self) }),
            forall|x: int|
                0 <= x < 160 ==> final(self).framebuffer.pixels@[old(self).scanline * 160 + x] == (
                match (#[trigger] spec_sprite_pixel(
                    *mmu,
                    old(self).bg_color_index@,
                    old(self).scanline as int,
                    sprite_height as int,
                    i as int,
                    x,
                )) {
                    Some(col) => col,
                    None => old(self).framebuffer.pixels@[old(self).scanline * 160 + x],
                }),
            forall|k: int|
                0 <= k < 160 * 144 && !(old(self).scanline * 160 <= k < old(self).scanline * 160
                    + 160) ==> final(self).framebuffer.pixels@[k] == old(self).framebuffer.pixels@[k],
            final(self).framebuffer.pixels@.len() == 160 * 144,
            final(self).wf(),
    {
        let ly = self.scanline as i32;
        let base: u16 = 0xFE00 + i * 4;
        let y = (mmu.read8(base) as i32) - 16;
        let x = (mmu.read8(base.wrapping_add(1)) as i32) - 8;
        let mut tile = mmu.read8(base.wrapping_add(2));
        let flags = mmu.read8(base.wrapping_add(3));

        if ly < y || ly >= y + (sprite_height as i32) {
            proof {
                assert(forall|col: int|
                    spec_sprite_pixel(
                        *mmu,
                        old(self).bg_color_index@,
                        ly as int,
                        sprite_height as int,
                        i as int,
                        col,
                    ) is None);
            }
            return ;
        }
        if x <= -8 || x >= 160 {
            proof {
                assert(forall|col: int|
                    spec_sprite_pixel(
                        *mmu,
                        old(self).bg_color_index@,
                        ly as int,
                        sprite_height as int,
                        i as int,
                        col,
                    ) is None);
            }
            return ;
        }
        if sprite_height == 16 {
            tile = tile & 0xFE;
        }
        let mut line_in_tile = ly - y;
        if flags & 0x40 != 0 {
            line_in_tile = (sprite_height as i32) - 1 - line_in_tile;
        }
        let actual_tile: u8 = if sprite_height == 16 && line_in_tile >= 8 {
            tile | 0x01
        } else {
            tile
        };
        let tile_line = (line_in_tile % 8) as u16;
        let tile_addr = (0x8000u16).wrapping_add((actual_tile as u16) * 16).wrapping_add(
            tile_line * 2,
        );
        let byte1 = mmu.read8(tile_addr);
        let byte2 = mmu.read8(tile_addr.wrapping_add(1));
        let obp = if flags & 0x10 != 0 {
            mmu.read8(0xFF49)
        } else {
            mmu.read8(0xFF48)
        };

        let mut px: i32 = 0;
        while px < 8
            invariant
                0 <= px <= 8,
                mmu.wf(),
                self.wf(),
                ly == old(self).scanline as int,
                old(self).scanline < 144,
                i < 40,
                sprite_height == 8 || sprite_height == 16,
                -8 < x < 160,
                base == 0xFE00 + i * 4,
                y == mmu.spec_read(base) - 16,
                x == mmu.spec_read(base.wrapping_add(1)) - 8,
                flags == mmu.spec_read(base.wrapping_add(3)),
                y <= ly < y + sprite_height,
                tile == (if sprite_height == 16 {
                    mmu.spec_read(base.wrapping_add(2)) & 0xFE
                } else {
                    mmu.spec_read(base.wrapping_add(2))
                }),
                line_in_tile == (if flags & 0x40 != 0 {
                    sprite_height - 1 - (ly - y)
                } else {
                    ly - y
                }),
                actual_tile == (if sprite_height == 16 && line_in_tile >= 8 {
                    (tile | 0x01) as u8
                } else {
                    tile
                }),
                tile_addr == (0x8000u16).wrapping_add(((actual_tile as u16) * 16) as u16).wrapping_add(
                    (((line_in_tile % 8) as u16) * 2) as u16,
                ),
                byte1 == mmu.spec_read(tile_addr),
                byte2 == mmu.spec_read(tile_addr.wrapping_add(1)),
                obp == (if flags & 0x10 != 0 {
                    mmu.spec_read(0xFF49)
                } else {
                    mmu.spec_read(0xFF48)
                }),
                *self == (Ppu { framebuffer: self.framebuffer, ..*old(self) }),
                forall|col: int|
                    0 <= col < 160 && x <= col < x + px ==> self.framebuffer.pixels@[ly * 160
                        + col] == (match (#[trigger] spec_sprite_pixel(
                        *mmu,
                        old(self).bg_color_index@,
                        ly as int,
                        sprite_height as int,
                        i as int,
                        col,
                    )) {
                        Some(c) => c,
                        None => old(self).framebuffer.pixels@[ly * 160 + col],
                    }),
                forall|col: int|
                    0 <= col < 160 && !(x <= col < x + px) ==> #[trigger] self.framebuffer.pixels@[
                    ly * 160 + col] == old(self).framebuffer.pixels@[ly * 160 + col],
                forall|k: int|
                    0 <= k < 160 * 144 && !(old(self).scanline * 160 <= k < old(self).scanline
                        * 160 + 160) ==> self.framebuffer.pixels@[k] == old(self).framebuffer.pixels@[k],
            decreases 8 - px,
        {
            let framebuffer_x = x + px;
            if 0 <= framebuffer_x && framebuffer_x < 160 {
                let pixel_x: i32 = if flags & 0x20 != 0 {
                    7 - px
                } else {
                    px
                };
                let bit = (7 - pixel_x) as u8;
                proof {
                    lemma_plane_bits(byte1, byte2, bit);
                }
                let color_index = (((byte2 >> bit) & 1) << 1) | ((byte1 >> bit) & 1);
                if color_index != 0 {
                    let behind = flags & 0x80 != 0;
                    let bg_idx = self.bg_color_index[framebuffer_x as usize];
                    if !(behind && bg_idx != 0) {
                        let color = Self::color_index_to_color(
                            Self::apply_palette(color_index, obp),
                        );
                        self.framebuffer.set_pixel(
                            framebuffer_x as usize,
                            self.scanline as usize,
                            color,
                        );
                        proof {
                            assert(spec_sprite_pixel(
                                *mmu,
                                old(self).bg_color_index@,
                                ly as int,
                                sprite_height as int,
                                i as int,
                                framebuffer_x as int,
                            ) == Some(color));
                        }
                    } else {
                        proof {
                            assert(spec_sprite_pixel(
                                *mmu,
                                old(self).bg_color_index@,
                                ly as int,
                                sprite_height as int,
                                i as int,
                                framebuffer_x as int,
                            ) is None);
                        }
                    }
                } else {
                    proof {
                        assert(spec_sprite_pixel(
                            *mmu,
                            old(self).bg_color_index@,
                            ly as int,
                            sprite_height as int,
                            i as int,
                            framebuffer_x as int,
                        ) is None);
                    }
                }
            }
            px = px + 1;
        }
        proof {
            assert forall|col: int| 0 <= col < 160 && !(x <= col < x + 8) implies spec_sprite_pixel(
                *mmu,
                old(self).bg_color_index@,
                ly as int,
                sprite_height as int,
                i as int,
                col,
            ) is None by {}
        }
    }

    /// One PPU step over the elapsed T-cycles. With the LCD disabled, the
    /// unit resets and LY reads zero from the first step on. Enabled, the dot
    /// counter accumulates and at most one mode transition fires: the OAM
    /// scan gives way to drawing at 80 dots; drawing renders the scanline
    /// (background, then sprites) and enters HBlank at 172; HBlank rolls the
    /// line over at 204; VBlank lines are 456 dots each.
    pub fn step(&mut self, cycles: u16, mmu: &mut Mmu)
        requires
            old(self).wf(),
            old(mmu).wf(),
            cycles <= 24,
        ensures
            spec_ppu_step_rel(*old(self), *old(mmu), *final(self), *final(mmu), cycles),
            final(self).wf(),
            final(mmu).wf(),
    {
        if !self.lcd_enabled(mmu) {
            self.reset(mmu);
            return ;
        }
        self.dot_counter = self.dot_counter + cycles;
        match self.mode {
            PpuMode::OamScan => {
                if self.dot_counter >= 80 {
                    self.dot_counter = self.dot_counter - 80;
                    self.enter_mode(PpuMode::Drawing, mmu);
                }
            },
            PpuMode::Drawing => {
                if self.dot_counter >= 172 {
                    self.dot_counter = self.dot_counter - 172;
                    if self.scanline < 144 {
                        self.render_scanline(mmu);
                        let ghost mid = *self;
                        self.render_sprites_scanline(mmu);
                        proof {
                            let m = *old(mmu);
                            let ly16 = old(self).scanline as u16;
                            let lyi = old(self).scanline as int;
                            let lcdc = m.spec_read(0xFF40);
                            assert(mid.bg_color_index@ =~= Seq::new(
                                160,
                                |j: int| spec_bg_pixel(m, ly16, j as u16).0,
                            ));
                            assert forall|x: int| 0 <= x < 160 implies self.framebuffer.pixels@[
                            lyi * 160 + x] == #[trigger] spec_rendered_pixel(
                                m,
                                ly16,
                                x as u16,
                            ) by {
                                assert(mid.framebuffer.pixels@[lyi * 160 + x] == spec_bg_pixel(
                                    m,
                                    ly16,
                                    x as u16,
                                ).1);
                                if lcdc & 0x02 != 0 {
                                    let h: int = if lcdc & 0x04 != 0 {
                                        16
                                    } else {
                                        8
                                    };
                                    let row = self.framebuffer.pixels@.subrange(
                                        lyi * 160,
                                        lyi * 160 + 160,
                                    );
                                    assert(self.framebuffer.pixels@[lyi * 160 + x] == row[x]);
                                    assert(row[x] == spec_sprite_overlay(
                                        m,
                                        mid.bg_color_index@,
                                        lyi,
                                        h,
                                        spec_selected_sprites(m, lyi, h),
                                        x,
                                        mid.framebuffer.pixels@[lyi * 160 + x],
                                    ));
                                }
                            }
                        }
                    }
                    self.enter_mode(PpuMode::HBlank, mmu);
                }
            },
            PpuMode::HBlank => {
                if self.dot_counter >= 204 {
                    self.dot_counter = self.dot_counter - 204;
                    self.advance_scanline(mmu);
                }
            },
            PpuMode::VBlank => {
                if self.dot_counter >= 456 {
                    self.dot_counter = self.dot_counter - 456;
                    self.advance_scanline(mmu);
                }
            },
        }
    }
}

/// Every sprite index collected for a line is below the scan bound.
pub proof fn lemma_sprite_hits_bound(m: Mmu, ly: int, h: int, n: nat)
    ensures
        forall|j: int|
            0 <= j < spec_sprite_hits(m, ly, h, n).len() ==> #[trigger] spec_sprite_hits(
                m,
                ly,
                h,
                n,
            )[j] < n,
    decreases n,
{
    if n > 0 {
        lemma_sprite_hits_bound(m, ly, h, (n - 1) as nat);
        let rest = spec_sprite_hits(m, ly, h, (n - 1) as nat);
        let cur = spec_sprite_hits(m, ly, h, n);
        assert forall|j: int| 0 <= j < cur.len() implies cur[j] < n by {
            if j < rest.len() {
                assert(cur[j] == rest[j]);
                assert(rest[j] < n - 1 + 1);
            }
        }
    }
}

} // verus!
