//! The PPU: scanline counter, LCD registers, VRAM/OAM, and a 160x144
//! framebuffer of RGBA pixels.
//!
//! Time is counted in dots (one CPU T-cycle each): 456 dots per scanline,
//! 154 scanlines per frame, 70224 dots in all. The mode and the STAT
//! interrupt line are derived from the dot position, so the contracts can
//! speak of a single `frame_pos` number.
use vstd::prelude::*;

verus! {

use crate::alu::p2;
use crate::alu::signed8;

/// Dots per scanline.
pub const LINE_DOTS: u16 = 456;

/// Dots per frame: 154 lines of 456 dots.
pub const FRAME_DOTS: u32 = 70224;

/// Dot position at which the VBlank line (144) begins.
pub const VBLANK_POS: u32 = 65664;

/// The four DMG shades as RGBA words, lightest first.
pub const SHADE_RGBA_0: u32 = 0xE0F8D0FF;

/// Light grey.
pub const SHADE_RGBA_1: u32 = 0x88C070FF;

/// Dark grey.
pub const SHADE_RGBA_2: u32 = 0x346856FF;

/// Black.
pub const SHADE_RGBA_3: u32 = 0x101820FF;

/// An interrupt source, in priority order: the bit in IF/IE is the
/// variant's position, and the vector is 0x40 + 8 * position.
pub enum Interrupt {
    /// Raised at the 143 -> 144 scanline transition.
    VBlank,
    /// Raised on enabled STAT events (mode change, LYC match).
    Status,
    /// Timer overflow (the timer itself is stubbed).
    Timer,
    /// Serial transfer completion (the port is stubbed).
    Serial,
    /// A joypad button edge from released to pressed.
    Joypad,
}

/// The picture processing unit.
pub struct Gpu {
    /// 8 KiB of tile data and the two 32x32 tile maps.
    pub vram: Vec<u8>,
    /// 40 sprite attribute entries of 4 bytes.
    pub oam: Vec<u8>,
    /// 160x144 RGBA pixels, row-major.
    pub frame: Vec<u32>,
    /// Current scanline, 0 to 153.
    pub ly: u8,
    /// Dots consumed within the current scanline, below 456.
    pub line_dots: u16,
    /// Background scroll.
    pub scy: u8,
    /// Background scroll.
    pub scx: u8,
    /// LCD control register.
    pub lcdc: u8,
    /// The writable part of STAT: the interrupt-source enables, bits 3-6.
    pub stat: u8,
    /// Scanline compare register.
    pub lyc: u8,
    /// Background palette.
    pub bgp: u8,
    /// Sprite palette 0.
    pub obp0: u8,
    /// Sprite palette 1.
    pub obp1: u8,
    /// Window position.
    pub wy: u8,
    /// Window position.
    pub wx: u8,
    /// Last value written to the DMA register.
    pub dma: u8,
    /// Edge detector for the STAT interrupt: the OR of the enabled
    /// sources, as of the last change.
    pub stat_line: bool,
}

impl Gpu {
    /// The dot position within the frame, 0 to 70223.
    pub open spec fn frame_pos(self) -> int {
        self.ly * 456 + self.line_dots
    }

    /// The scanline a dot position falls in.
    pub open spec fn ly_at(pos: int) -> int {
        pos / 456
    }

    /// The STAT mode at a dot position: VBlank on lines 144 and up,
    /// otherwise OAM scan, drawing, then HBlank within the line.
    pub open spec fn mode_at(pos: int) -> u8 {
        if pos / 456 >= 144 {
            1
        } else if pos % 456 < 80 {
            2
        } else if pos % 456 < 252 {
            3
        } else {
            0
        }
    }

    /// The STAT interrupt line at a dot position: the OR of the enabled
    /// sources (HBlank, VBlank, OAM scan, LYC match).
    pub open spec fn stat_level(stat: u8, lyc: u8, pos: int) -> bool {
        (Self::mode_at(pos) == 0 && stat & 0x08 != 0) || (Self::mode_at(pos) == 1 && stat & 0x10
            != 0) || (Self::mode_at(pos) == 2 && stat & 0x20 != 0) || (pos / 456 == lyc && stat
            & 0x40 != 0)
    }

    /// Well-formed PPU state: memory sizes, counter ranges, only the
    /// enable bits stored in STAT, and the edge detector agreeing with
    /// the derived line level.
    pub open spec fn wf(self) -> bool {
        &&& self.vram.len() == 0x2000
        &&& self.oam.len() == 0xa0
        &&& self.frame.len() == 160 * 144
        &&& self.ly <= 153
        &&& self.line_dots < 456
        &&& self.stat % 8 == 0
        &&& self.stat < 128
        &&& self.stat_line == Self::stat_level(self.stat, self.lyc, self.frame_pos())
    }

    /// The value a read of the STAT register returns: bit 7 set, the
    /// stored enables, the LYC match bit, and the derived mode.
    pub open spec fn stat_read(self) -> u8 {
        (128 + self.stat + (if self.ly == self.lyc {
            4int
        } else {
            0int
        }) + Self::mode_at(self.frame_pos())) as u8
    }

    /// What a read at `address` returns: VRAM, OAM, or a register;
    /// unmapped addresses read as zero.
    pub open spec fn spec_read(self, address: u16) -> u8 {
        if 0x8000 <= address <= 0x9fff {
            self.vram[address - 0x8000]
        } else if 0xfe00 <= address <= 0xfe9f {
            self.oam[address - 0xfe00]
        } else if address == 0xff40 {
            self.lcdc
        } else if address == 0xff41 {
            self.stat_read()
        } else if address == 0xff42 {
            self.scy
        } else if address == 0xff43 {
            self.scx
        } else if address == 0xff44 {
            self.ly
        } else if address == 0xff45 {
            self.lyc
        } else if address == 0xff46 {
            self.dma
        } else if address == 0xff47 {
            self.bgp
        } else if address == 0xff48 {
            self.obp0
        } else if address == 0xff49 {
            self.obp1
        } else if address == 0xff4a {
            self.wy
        } else if address == 0xff4b {
            self.wx
        } else {
            0
        }
    }

    /// Read VRAM, OAM, or a PPU register.
    pub fn read(&self, address: u16) -> (r: u8)
        requires
            self.wf(),
        ensures
            r == self.spec_read(address),
    {
        if 0x8000 <= address && address <= 0x9fff {
            self.vram[(address - 0x8000) as usize]
        } else if 0xfe00 <= address && address <= 0xfe9f {
            self.oam[(address - 0xfe00) as usize]
        } else if address == 0xff40 {
            self.lcdc
        } else if address == 0xff41 {
            let coincidence: u8 = if self.ly == self.lyc {
                4
            } else {
                0
            };
            let mode: u8 = self.mode();
            128 + self.stat + coincidence + mode
        } else if address == 0xff42 {
            self.scy
        } else if address == 0xff43 {
            self.scx
        } else if address == 0xff44 {
            self.ly
        } else if address == 0xff45 {
            self.lyc
        } else if address == 0xff46 {
            self.dma
        } else if address == 0xff47 {
            self.bgp
        } else if address == 0xff48 {
            self.obp0
        } else if address == 0xff49 {
            self.obp1
        } else if address == 0xff4a {
            self.wy
        } else if address == 0xff4b {
            self.wx
        } else {
            0
        }
    }

    /// The current STAT mode.
    pub fn mode(&self) -> (m: u8)
        requires
            self.wf(),
        ensures
            m == Self::mode_at(self.frame_pos()),
    {
        if self.ly >= 144 {
            1
        } else if self.line_dots < 80 {
            2
        } else if self.line_dots < 252 {
            3
        } else {
            0
        }
    }

    /// Recompute the STAT edge detector after a state change; true means
    /// the line rose, which requests a Status interrupt.
    fn update_stat_line(&mut self) -> (rose: bool)
        requires
            old(self).vram.len() == 0x2000,
            old(self).oam.len() == 0xa0,
            old(self).frame.len() == 160 * 144,
            old(self).ly <= 153,
            old(self).line_dots < 456,
            old(self).stat % 8 == 0,
            old(self).stat < 128,
        ensures
            final(self).wf(),
            *final(self) == (Gpu {
                stat_line: Self::stat_level(
                    old(self).stat,
                    old(self).lyc,
                    old(self).frame_pos(),
                ),
                ..*old(self)
            }),
            rose == (!old(self).stat_line && final(self).stat_line),
    {
        let mode: u8 = if self.ly >= 144 {
            1
        } else if self.line_dots < 80 {
            2
        } else if self.line_dots < 252 {
            3
        } else {
            0
        };
        let level: bool = (mode == 0 && self.stat & 0x08 != 0) || (mode == 1 && self.stat & 0x10
            != 0) || (mode == 2 && self.stat & 0x20 != 0) || (self.ly == self.lyc && self.stat
            & 0x40 != 0);
        let rose: bool = !self.stat_line && level;
        self.stat_line = level;
        rose
    }

    /// The effect of a write: which field changes, with LY writes
    /// resetting the scanline counter and STAT keeping only bits 3-6.
    /// The edge detector is refreshed; a swallowed rising edge does not
    /// raise an interrupt.
    pub open spec fn write_effect(old: Gpu, new: Gpu, address: u16, value: u8) -> bool {
        if 0x8000 <= address <= 0x9fff {
            new == (Gpu { vram: new.vram, ..old }) && new.vram@ == old.vram@.update(
                address - 0x8000,
                value,
            )
        } else if 0xfe00 <= address <= 0xfe9f {
            new == (Gpu { oam: new.oam, ..old }) && new.oam@ == old.oam@.update(
                address - 0xfe00,
                value,
            )
        } else if address == 0xff40 {
            new == (Gpu { lcdc: value, ..old })
        } else if address == 0xff41 {
            new == (Gpu {
                stat: ((value / 8) % 16 * 8) as u8,
                stat_line: Self::stat_level(((value / 8) % 16 * 8) as u8, old.lyc, old.frame_pos()),
                ..old
            })
        } else if address == 0xff42 {
            new == (Gpu { scy: value, ..old })
        } else if address == 0xff43 {
            new == (Gpu { scx: value, ..old })
        } else if address == 0xff44 {
            new == (Gpu {
                ly: 0,
                line_dots: 0,
                stat_line: Self::stat_level(old.stat, old.lyc, 0),
                ..old
            })
        } else if address == 0xff45 {
            new == (Gpu {
                lyc: value,
                stat_line: Self::stat_level(old.stat, value, old.frame_pos()),
                ..old
            })
        } else if address == 0xff46 {
            new == (Gpu { dma: value, ..old })
        } else if address == 0xff47 {
            new == (Gpu { bgp: value, ..old })
        } else if address == 0xff48 {
            new == (Gpu { obp0: value, ..old })
        } else if address == 0xff49 {
            new == (Gpu { obp1: value, ..old })
        } else if address == 0xff4a {
            new == (Gpu { wy: value, ..old })
        } else if address == 0xff4b {
            new == (Gpu { wx: value, ..old })
        } else {
            new == old
        }
    }

    /// Write VRAM, OAM, or a PPU register.
    pub fn write(&mut self, address: u16, value: u8)
        requires
            old(self).wf(),
        ensures
            final(self).wf(),
            Self::write_effect(*old(self), *final(self), address, value),
    {
        if 0x8000 <= address && address <= 0x9fff {
            self.vram[(address - 0x8000) as usize] = value;
        } else if 0xfe00 <= address && address <= 0xfe9f {
            self.oam[(address - 0xfe00) as usize] = value;
        } else if address == 0xff40 {
            self.lcdc = value;
        } else if address == 0xff41 {
            self.stat = (value / 8) % 16 * 8;
            let _ = self.update_stat_line();
        } else if address == 0xff44 {
            self.ly = 0;
            self.line_dots = 0;
            let _ = self.update_stat_line();
        } else if address == 0xff45 {
            self.lyc = value;
            let _ = self.update_stat_line();
        } else if address == 0xff42 {
            self.scy = value;
        } else if address == 0xff43 {
            self.scx = value;
        } else if address == 0xff46 {
            self.dma = value;
        } else if address == 0xff47 {
            self.bgp = value;
        } else if address == 0xff48 {
            self.obp0 = value;
        } else if address == 0xff49 {
            self.obp1 = value;
        } else if address == 0xff4a {
            self.wy = value;
        } else if address == 0xff4b {
            self.wx = value;
        }
    }

    /// A fresh PPU: cleared memories, the counter at the top of the
    /// frame, everything disabled.
    pub fn new() -> (g: Gpu)
        ensures
            g.wf(),
            g.vram@ == Seq::<u8>::new(0x2000, |i: int| 0u8),
            g.oam@ == Seq::<u8>::new(0xa0, |i: int| 0u8),
            g.frame@ == Seq::<u32>::new(160 * 144, |i: int| SHADE_RGBA_0),
            g.ly == 0,
            g.line_dots == 0,
            g.scy == 0 && g.scx == 0 && g.lcdc == 0 && g.stat == 0 && g.lyc == 0,
            g.bgp == 0 && g.obp0 == 0 && g.obp1 == 0 && g.wy == 0 && g.wx == 0 && g.dma == 0,
            g.stat_line == false,
    {
        let mut vram: Vec<u8> = Vec::new();
        let mut i: usize = 0;
        while i < 0x2000
            invariant
                i <= 0x2000,
                vram@ =~= Seq::<u8>::new(i as nat, |j: int| 0u8),
            decreases 0x2000 - i,
        {
            vram.push(0);
            i += 1;
        }
        let mut oam: Vec<u8> = Vec::new();
        let mut i: usize = 0;
        while i < 0xa0
            invariant
                i <= 0xa0,
                oam@ =~= Seq::<u8>::new(i as nat, |j: int| 0u8),
            decreases 0xa0 - i,
        {
            oam.push(0);
            i += 1;
        }
        let mut frame: Vec<u32> = Vec::new();
        let mut i: usize = 0;
        while i < 160 * 144
            invariant
                i <= 160 * 144,
                frame@ =~= Seq::<u32>::new(i as nat, |j: int| SHADE_RGBA_0),
            decreases 160 * 144 - i,
        {
            frame.push(SHADE_RGBA_0);
            i += 1;
        }
        proof {
            assert(0u8 & 0x08u8 == 0 && 0u8 & 0x10u8 == 0 && 0u8 & 0x20u8 == 0 && 0u8 & 0x40u8
                == 0) by (bit_vector);
        }
        Gpu {
            vram,
            oam,
            frame,
            ly: 0,
            line_dots: 0,
            scy: 0,
            scx: 0,
            lcdc: 0,
            stat: 0,
            lyc: 0,
            bgp: 0,
            obp0: 0,
            obp1: 0,
            wy: 0,
            wx: 0,
            dma: 0,
            stat_line: false,
        }
    }
}

/// The 2-bit shade a palette register assigns to a colour index:
/// bits 2i+1..2i hold the shade for index i.
pub open spec fn shade_of(palette: u8, idx: u8) -> u8 {
    if idx == 0 {
        palette % 4
    } else if idx == 1 {
        (palette / 4) % 4
    } else if idx == 2 {
        (palette / 16) % 4
    } else {
        (palette / 64) % 4
    }
}

/// The RGBA word for a shade.
pub open spec fn shade_rgba(s: u8) -> u32 {
    if s == 0 {
        SHADE_RGBA_0
    } else if s == 1 {
        SHADE_RGBA_1
    } else if s == 2 {
        SHADE_RGBA_2
    } else {
        SHADE_RGBA_3
    }
}

/// The 2-bit colour index of pixel `k` (counted from the left) in a tile
/// row encoded as a low-bit byte and a high-bit byte.
pub open spec fn tile_pixel(lo: u8, hi: u8, k: u8) -> u8 {
    ((lo / p2((7 - k) as u8)) % 2 + 2 * ((hi / p2((7 - k) as u8)) % 2)) as u8
}

/// VRAM offset of the background tile map selected by LCDC bit 3.
pub open spec fn bg_map_base(lcdc: u8) -> int {
    if lcdc & 0x08 != 0 {
        0x1c00
    } else {
        0x1800
    }
}

/// VRAM offset of the window tile map selected by LCDC bit 6.
pub open spec fn win_map_base(lcdc: u8) -> int {
    if lcdc & 0x40 != 0 {
        0x1c00
    } else {
        0x1800
    }
}

/// VRAM offset of a tile's data: unsigned from 0x8000 or signed from
/// 0x9000, selected by LCDC bit 4.
pub open spec fn tile_data_addr(lcdc: u8, t: u8) -> int {
    if lcdc & 0x10 != 0 {
        16 * t
    } else {
        0x1000 + 16 * signed8(t)
    }
}

/// The colour index the 32x32 tile map at `base` yields for pixel (x, y)
/// of the 256x256 plane.
pub open spec fn map_color_index(vram: Seq<u8>, lcdc: u8, base: int, x: int, y: int) -> u8 {
    let t = vram[base + 32 * (y / 8) + x / 8];
    let row = tile_data_addr(lcdc, t) + 2 * (y % 8);
    tile_pixel(vram[row], vram[row + 1], (x % 8) as u8)
}

/// Sprite height in pixels, 8 or 16, selected by LCDC bit 2.
pub open spec fn sprite_height(lcdc: u8) -> int {
    if lcdc & 0x04 != 0 {
        16
    } else {
        8
    }
}

/// Whether OAM entry `i` covers scanline `ly` (OAM stores Y + 16).
pub open spec fn sprite_covers_line(oam: Seq<u8>, i: int, ly: int, h: int) -> bool {
    oam[4 * i] <= ly + 16 < oam[4 * i] + h
}

/// Whether OAM entry `i` covers pixel column `px` (OAM stores X + 8).
pub open spec fn sprite_covers_px(oam: Seq<u8>, i: int, px: int) -> bool {
    oam[4 * i + 1] <= px + 8 < oam[4 * i + 1] + 8
}

impl Gpu {
    /// The OAM indices below `i` that cover scanline `ly`, in OAM order,
    /// capped at the hardware limit of 10 per line.
    pub open spec fn cands_upto(oam: Seq<u8>, ly: int, h: int, i: int) -> Seq<int>
        decreases i,
    {
        if i <= 0 {
            Seq::empty()
        } else {
            let p = Self::cands_upto(oam, ly, h, i - 1);
            if p.len() < 10 && sprite_covers_line(oam, i - 1, ly, h) {
                p.push(i - 1)
            } else {
                p
            }
        }
    }

    /// The colour index sprite `i` produces at (ly, px), honouring the
    /// X and Y flip attribute bits; 0 is transparent. In 8x16 mode the
    /// tile index's low bit is ignored.
    pub open spec fn sprite_pixel_index(
        vram: Seq<u8>,
        oam: Seq<u8>,
        lcdc: u8,
        i: int,
        ly: int,
        px: int,
    ) -> u8 {
        let y = oam[4 * i];
        let x = oam[4 * i + 1];
        let t = oam[4 * i + 2];
        let fl = oam[4 * i + 3];
        let h = sprite_height(lcdc);
        let row = if fl & 0x40 != 0 {
            h - 1 - (ly + 16 - y)
        } else {
            ly + 16 - y
        };
        let col = if fl & 0x20 != 0 {
            7 - (px + 8 - x)
        } else {
            px + 8 - x
        };
        let tbase = if h == 16 {
            (t - t % 2) * 16
        } else {
            t * 16
        };
        tile_pixel(vram[tbase + 2 * row], vram[tbase + 2 * row + 1], col as u8)
    }

    /// The stronger of the current winner and candidate `i`: an opaque
    /// covering sprite beats nothing, and a strictly lower X beats an
    /// earlier winner (ties keep the earlier OAM entry).
    pub open spec fn better(
        vram: Seq<u8>,
        oam: Seq<u8>,
        lcdc: u8,
        cur: Option<int>,
        i: int,
        ly: int,
        px: int,
    ) -> Option<int> {
        if sprite_covers_px(oam, i, px) && Self::sprite_pixel_index(vram, oam, lcdc, i, ly, px)
            != 0 {
            match cur {
                Option::None => Option::Some(i),
                Option::Some(b) => if oam[4 * i + 1] < oam[4 * b + 1] {
                    Option::Some(i)
                } else {
                    Option::Some(b)
                },
            }
        } else {
            cur
        }
    }

    /// The winning sprite among the first `j` candidates.
    pub open spec fn best_upto(
        vram: Seq<u8>,
        oam: Seq<u8>,
        lcdc: u8,
        cands: Seq<int>,
        ly: int,
        px: int,
        j: int,
    ) -> Option<int>
        decreases j,
    {
        if j <= 0 {
            Option::None
        } else {
            Self::better(
                vram,
                oam,
                lcdc,
                Self::best_upto(vram, oam, lcdc, cands, ly, px, j - 1),
                cands[j - 1],
                ly,
                px,
            )
        }
    }

    /// The sprite shown at (ly, px), if sprites are enabled and one of
    /// the line's candidates has an opaque pixel there.
    pub open spec fn sprite_winner(vram: Seq<u8>, oam: Seq<u8>, lcdc: u8, ly: int, px: int) -> Option<
        int,
    > {
        if lcdc & 0x02 != 0 {
            let c = Self::cands_upto(oam, ly, sprite_height(lcdc), 40);
            Self::best_upto(vram, oam, lcdc, c, ly, px, c.len() as int)
        } else {
            Option::None
        }
    }

    /// Whether the window overlays pixel (ly, px): enabled, started at or
    /// above this line, and reaching this column (WX holds X + 7).
    pub open spec fn window_covers(self, ly: int, px: int) -> bool {
        self.lcdc & 0x20 != 0 && self.wy <= ly && self.wx <= px + 7 && self.wx <= 166
    }

    /// The background or window colour index at (ly, px): the window when
    /// it covers the pixel, else the scrolled background when enabled,
    /// else 0.
    pub open spec fn bgwin_index(self, ly: int, px: int) -> u8 {
        if self.window_covers(ly, px) {
            map_color_index(
                self.vram@,
                self.lcdc,
                win_map_base(self.lcdc),
                px + 7 - self.wx,
                ly - self.wy,
            )
        } else if self.lcdc & 0x01 != 0 {
            map_color_index(
                self.vram@,
                self.lcdc,
                bg_map_base(self.lcdc),
                (self.scx + px) % 256,
                (self.scy + ly) % 256,
            )
        } else {
            0
        }
    }

    /// The background or window pixel colour: the index through BGP, or
    /// the lightest shade when both layers are off.
    pub open spec fn bgwin_rgba(self, ly: int, px: int) -> u32 {
        if self.window_covers(ly, px) || self.lcdc & 0x01 != 0 {
            shade_rgba(shade_of(self.bgp, self.bgwin_index(ly, px)))
        } else {
            SHADE_RGBA_0
        }
    }

    /// The colour of pixel (ly, px): the winning sprite through its
    /// palette, except that a sprite with the priority attribute yields
    /// to non-zero background colour; else the background or window.
    pub open spec fn pixel_spec(self, ly: int, px: int) -> u32 {
        let bgcol = self.bgwin_rgba(ly, px);
        match Self::sprite_winner(self.vram@, self.oam@, self.lcdc, ly, px) {
            Option::None => bgcol,
            Option::Some(i) => {
                let fl = self.oam@[4 * i + 3];
                if fl & 0x80 != 0 && self.bgwin_index(ly, px) != 0 {
                    bgcol
                } else {
                    let pal = if fl & 0x10 != 0 {
                        self.obp1
                    } else {
                        self.obp0
                    };
                    shade_rgba(
                        shade_of(
                            pal,
                            Self::sprite_pixel_index(self.vram@, self.oam@, self.lcdc, i, ly, px),
                        ),
                    )
                }
            },
        }
    }
}

/// The 2-bit colour index of tile-row pixel `k`, executable form.
pub fn tile_pixel_at(lo: u8, hi: u8, k: u8) -> (r: u8)
    requires
        k < 8,
    ensures
        r == tile_pixel(lo, hi, k),
        r < 4,
{
    let m: u8 = crate::alu::bit_mask(7 - k);
    (lo / m) % 2 + 2 * ((hi / m) % 2)
}

/// The shade a palette assigns to a colour index, executable form.
pub fn shade_of_at(palette: u8, idx: u8) -> (s: u8)
    requires
        idx < 4,
    ensures
        s == shade_of(palette, idx),
        s < 4,
{
    if idx == 0 {
        palette % 4
    } else if idx == 1 {
        (palette / 4) % 4
    } else if idx == 2 {
        (palette / 16) % 4
    } else {
        (palette / 64) % 4
    }
}

/// The RGBA word for a shade, executable form.
pub fn shade_rgba_at(s: u8) -> (c: u32)
    ensures
        c == shade_rgba(s),
{
    if s == 0 {
        SHADE_RGBA_0
    } else if s == 1 {
        SHADE_RGBA_1
    } else if s == 2 {
        SHADE_RGBA_2
    } else {
        SHADE_RGBA_3
    }
}

impl Gpu {
    /// Fetch the colour index the tile map at `base` yields for (x, y).
    fn map_color_index_at(&self, base: usize, x: usize, y: usize) -> (r: u8)
        requires
            self.wf(),
            base == 0x1800 || base == 0x1c00,
            x < 256,
            y < 256,
        ensures
            r == map_color_index(self.vram@, self.lcdc, base as int, x as int, y as int),
            r < 4,
    {
        let t: u8 = self.vram[base + 32 * (y / 8) + x / 8];
        let tbase: usize = if self.lcdc & 0x10 != 0 {
            16 * (t as usize)
        } else if t >= 128 {
            16 * (t as usize)
        } else {
            0x1000 + 16 * (t as usize)
        };
        let row: usize = tbase + 2 * (y % 8);
        tile_pixel_at(self.vram[row], self.vram[row + 1], (x % 8) as u8)
    }

    /// The colour index sprite `i` produces at column `px` of the
    /// current scanline, executable form.
    fn sprite_pixel_at(&self, i: usize, px: usize) -> (r: u8)
        requires
            self.wf(),
            i < 40,
            px < 160,
            self.ly < 144,
            sprite_covers_line(self.oam@, i as int, self.ly as int, sprite_height(self.lcdc)),
            sprite_covers_px(self.oam@, i as int, px as int),
        ensures
            r == Self::sprite_pixel_index(
                self.vram@,
                self.oam@,
                self.lcdc,
                i as int,
                self.ly as int,
                px as int,
            ),
            r < 4,
    {
        let y: u16 = self.oam[4 * i] as u16;
        let x: u16 = self.oam[4 * i + 1] as u16;
        let t: u8 = self.oam[4 * i + 2];
        let fl: u8 = self.oam[4 * i + 3];
        let h: u16 = if self.lcdc & 0x04 != 0 {
            16
        } else {
            8
        };
        let row0: u16 = self.ly as u16 + 16 - y;
        let row: u16 = if fl & 0x40 != 0 {
            h - 1 - row0
        } else {
            row0
        };
        let col0: u16 = px as u16 + 8 - x;
        let col: u16 = if fl & 0x20 != 0 {
            7 - col0
        } else {
            col0
        };
        let tbase: usize = if h == 16 {
            ((t - t % 2) as usize) * 16
        } else {
            (t as usize) * 16
        };
        let addr: usize = tbase + 2 * (row as usize);
        tile_pixel_at(self.vram[addr], self.vram[addr + 1], col as u8)
    }

    /// Render the current scanline into the framebuffer: background and
    /// window first, then the line's sprites with their priority rules.
    #[verifier::loop_isolation(false)]
    pub fn render_scanline(&mut self)
        requires
            old(self).wf(),
            old(self).ly < 144,
        ensures
            final(self).wf(),
            *final(self) == (Gpu { frame: final(self).frame, ..*old(self) }),
            final(self).frame.len() == old(self).frame.len(),
            forall|k: int|
                0 <= k < 160 * 144 && !(old(self).ly * 160 <= k < old(self).ly * 160 + 160)
                    ==> final(self).frame@[k] == old(self).frame@[k],
            forall|px: int|
                0 <= px < 160 ==> final(self).frame@[old(self).ly * 160 + px] == old(
                    self,
                ).pixel_spec(old(self).ly as int, px),
    {
        let ly: usize = self.ly as usize;
        let ghost h_spec: int = sprite_height(self.lcdc);
        let h: u16 = if self.lcdc & 0x04 != 0 {
            16
        } else {
            8
        };
        let mut cands: Vec<u8> = Vec::new();
        let mut i: usize = 0;
        while i < 40
            invariant
                self.wf(),
                self.ly < 144,
                ly == self.ly,
                h == h_spec,
                h_spec == sprite_height(self.lcdc),
                i <= 40,
                cands.len() <= 10,
                cands.len() == Self::cands_upto(self.oam@, ly as int, h_spec, i as int).len(),
                forall|k: int|
                    0 <= k < cands.len() ==> cands@[k] < i && cands@[k] as int == Self::cands_upto(
                        self.oam@,
                        ly as int,
                        h_spec,
                        i as int,
                    )[k],
            decreases 40 - i,
        {
            let y: u16 = self.oam[4 * i] as u16;
            let covers: bool = y <= ly as u16 + 16 && (ly as u16) + 16 < y + h;
            if cands.len() < 10 && covers {
                cands.push(i as u8);
            }
            i += 1;
        }
        let ghost cseq: Seq<int> = Gpu::cands_upto(self.oam@, ly as int, h_spec, 40);
        proof {
            lemma_cands_covers(self.oam@, ly as int, h_spec, 40);
            assert(cands.len() == cseq.len());
            assert forall|k: int| 0 <= k < cands.len() implies cands@[k] < 40 && cands@[k] as int
                == cseq[k] && sprite_covers_line(
                self.oam@,
                cands@[k] as int,
                ly as int,
                h_spec,
            ) by {
                assert(cands@[k] as int == cseq[k]);
            }
        }
        let mut px: usize = 0;
        while px < 160
            invariant
                self.wf(),
                self.ly < 144,
                ly == self.ly,
                h == h_spec,
                h_spec == sprite_height(self.lcdc),
                px <= 160,
                cands.len() == cseq.len(),
                cands.len() <= 10,
                cseq == Gpu::cands_upto(self.oam@, ly as int, h_spec, 40),
                forall|k: int|
                    0 <= k < cands.len() ==> cands@[k] < 40 && cands@[k] as int == cseq[k],
                forall|k: int|
                    0 <= k < cands.len() ==> sprite_covers_line(
                        self.oam@,
                        cands@[k] as int,
                        ly as int,
                        h_spec,
                    ),
                self.frame.len() == 160 * 144,
                *self == (Gpu { frame: self.frame, ..*old(self) }),
                forall|k: int|
                    0 <= k < 160 * 144 && !(ly * 160 <= k < ly * 160 + px) ==> self.frame@[k]
                        == old(self).frame@[k],
                forall|q: int|
                    0 <= q < px ==> self.frame@[ly * 160 + q] == old(self).pixel_spec(
                        ly as int,
                        q,
                    ),
            decreases 160 - px,
        {
            let wc: bool = self.lcdc & 0x20 != 0 && self.wy as usize <= ly && self.wx as usize
                <= px + 7 && self.wx <= 166;
            let bg_idx: u8 = if wc {
                let base: usize = if self.lcdc & 0x40 != 0 {
                    0x1c00
                } else {
                    0x1800
                };
                self.map_color_index_at(base, px + 7 - self.wx as usize, ly - self.wy as usize)
            } else if self.lcdc & 0x01 != 0 {
                let base: usize = if self.lcdc & 0x08 != 0 {
                    0x1c00
                } else {
                    0x1800
                };
                self.map_color_index_at(
                    base,
                    (self.scx as usize + px) % 256,
                    (self.scy as usize + ly) % 256,
                )
            } else {
                0
            };
            let bg_col: u32 = if wc || self.lcdc & 0x01 != 0 {
                shade_rgba_at(shade_of_at(self.bgp, bg_idx))
            } else {
                SHADE_RGBA_0
            };
            assert(bg_idx == self.bgwin_index(ly as int, px as int));
            assert(bg_col == self.bgwin_rgba(ly as int, px as int));
            let mut best: Option<u8> = Option::None;
            if self.lcdc & 0x02 != 0 {
                let mut j: usize = 0;
                while j < cands.len()
                    invariant
                        self.wf(),
                        self.ly < 144,
                        ly == self.ly,
                        px < 160,
                        j <= cands.len(),
                        cands.len() == cseq.len(),
                        cands.len() <= 10,
                        forall|k: int|
                            0 <= k < cands.len() ==> cands@[k] < 40 && cands@[k] as int == cseq[k],
                        forall|k: int|
                            0 <= k < cands.len() ==> sprite_covers_line(
                                self.oam@,
                                cands@[k] as int,
                                ly as int,
                                h_spec,
                            ),
                        h_spec == sprite_height(self.lcdc),
                        opt_matches(
                            best,
                            Gpu::best_upto(
                                self.vram@,
                                self.oam@,
                                self.lcdc,
                                cseq,
                                ly as int,
                                px as int,
                                j as int,
                            ),
                        ),
                        (match best {
                            Option::Some(b) => b < 40 && sprite_covers_line(
                                self.oam@,
                                b as int,
                                ly as int,
                                h_spec,
                            ) && sprite_covers_px(self.oam@, b as int, px as int)
                                && Gpu::sprite_pixel_index(
                                self.vram@,
                                self.oam@,
                                self.lcdc,
                                b as int,
                                ly as int,
                                px as int,
                            ) != 0,
                            Option::None => true,
                        }),
                    decreases cands.len() - j,
                {
                    let ci: usize = cands[j] as usize;
                    let x: u16 = self.oam[4 * ci + 1] as u16;
                    let covers_px: bool = x <= px as u16 + 8 && (px as u16) + 8 < x + 8;
                    if covers_px {
                        let idx: u8 = self.sprite_pixel_at(ci, px);
                        if idx != 0 {
                            match best {
                                Option::None => {
                                    best = Option::Some(ci as u8);
                                },
                                Option::Some(b) => {
                                    let xb: u8 = self.oam[4 * (b as usize) + 1];
                                    if (x as u8) < xb {
                                        best = Option::Some(ci as u8);
                                    }
                                },
                            }
                        }
                    }
                    j += 1;
                }
            }
            let color: u32 = match best {
                Option::None => bg_col,
                Option::Some(b) => {
                    let fl: u8 = self.oam[4 * (b as usize) + 3];
                    if fl & 0x80 != 0 && bg_idx != 0 {
                        bg_col
                    } else {
                        let pal: u8 = if fl & 0x10 != 0 {
                            self.obp1
                        } else {
                            self.obp0
                        };
                        let sidx: u8 = self.sprite_pixel_at(b as usize, px);
                        shade_rgba_at(shade_of_at(pal, sidx))
                    }
                },
            };
            assert(color == old(self).pixel_spec(ly as int, px as int));
            self.frame[ly * 160 + px] = color;
            px += 1;
        }
    }
}

/// How many of the `n` dots following position `pos` land on `target`
/// (positions advance modulo the frame length).
pub open spec fn crossings(pos: int, n: nat, target: int) -> nat
    decreases n,
{
    if n == 0 {
        0
    } else {
        crossings(pos, (n - 1) as nat, target) + if (pos + n) % 70224 == target {
            1nat
        } else {
            0nat
        }
    }
}

/// How many of the `n` dots following position `pos` see the STAT line
/// rise, for fixed STAT enables and LYC.
pub open spec fn stat_rises(stat: u8, lyc: u8, pos: int, n: nat) -> nat
    decreases n,
{
    if n == 0 {
        0
    } else {
        stat_rises(stat, lyc, pos, (n - 1) as nat) + if !Gpu::stat_level(
            stat,
            lyc,
            (pos + n - 1) % 70224,
        ) && Gpu::stat_level(stat, lyc, (pos + n) % 70224) {
            1nat
        } else {
            0nat
        }
    }
}

/// The transition of a PPU tick: with the LCD off nothing moves;
/// otherwise the dot position advances by `cycles` modulo the frame,
/// `vb` counts every VBlank entry and `st` every STAT rise, and a
/// scanline holds its freshly rendered pixels exactly when its drawing
/// phase was entered during the tick.
pub open spec fn tick_effect(g0: Gpu, g1: Gpu, cycles: u32, vb: u32, st: u32) -> bool {
    &&& g1 == (Gpu {
        ly: g1.ly,
        line_dots: g1.line_dots,
        stat_line: g1.stat_line,
        frame: g1.frame,
        ..g0
    })
    &&& if g0.lcdc & 0x80 == 0 {
        g1 == g0 && vb == 0 && st == 0
    } else {
        &&& g1.frame_pos() == (g0.frame_pos() + cycles) % 70224
        &&& vb == crossings(g0.frame_pos(), cycles as nat, 65664)
        &&& st == stat_rises(g0.stat, g0.lyc, g0.frame_pos(), cycles as nat)
        &&& (cycles == 70224 ==> g1.ly == g0.ly && g1.line_dots == g0.line_dots)
        &&& g1.frame.len() == g0.frame.len()
        &&& forall|k: int|
            0 <= k < 160 * 144 ==> #[trigger] g1.frame@[k] == (if crossings(
                g0.frame_pos(),
                cycles as nat,
                (k / 160) * 456 + 80,
            ) > 0 {
                g0.pixel_spec(k / 160, k % 160)
            } else {
                g0.frame@[k]
            })
    }
}

impl Gpu {
    /// Advance one dot: bump the counters, render a scanline on entry to
    /// its drawing mode, and refresh the STAT edge detector. Returns
    /// whether this dot starts the VBlank period and whether the STAT
    /// line rose.
    fn tick_dot(&mut self) -> (r: (bool, bool))
        requires
            old(self).wf(),
        ensures
            final(self).wf(),
            *final(self) == (Gpu {
                ly: final(self).ly,
                line_dots: final(self).line_dots,
                stat_line: final(self).stat_line,
                frame: final(self).frame,
                ..*old(self)
            }),
            final(self).frame_pos() == (old(self).frame_pos() + 1) % 70224,
            r.0 == (final(self).frame_pos() == 65664),
            r.1 == (!old(self).stat_line && final(self).stat_line),
            ({
                let p = final(self).frame_pos();
                let row = p / 456;
                if p % 456 == 80 && row < 144 {
                    forall|k: int|
                        0 <= k < 160 * 144 ==> #[trigger] final(self).frame@[k] == (if row * 160
                            <= k < row * 160 + 160 {
                            old(self).pixel_spec(row, k - row * 160)
                        } else {
                            old(self).frame@[k]
                        })
                } else {
                    final(self).frame@ == old(self).frame@
                }
            }),
    {
        let mut vb: bool = false;
        self.line_dots += 1;
        if self.line_dots == 456 {
            self.line_dots = 0;
            self.ly = if self.ly == 153 {
                0
            } else {
                self.ly + 1
            };
            if self.ly == 144 {
                vb = true;
            }
        }
        let rose: bool = self.update_stat_line();
        proof {
            assert(self.frame_pos() / 456 == self.ly && self.frame_pos() % 456 == self.line_dots)
                by (nonlinear_arith)
                requires
                    self.line_dots < 456,
                    self.ly <= 153,
                    self.frame_pos() == self.ly * 456 + self.line_dots,
            ;
        }
        let render_now: bool = self.line_dots == 80 && self.ly < 144;
        let ghost mid = *self;
        if render_now {
            self.render_scanline();
        }
        proof {
            let p = self.frame_pos();
            let row = p / 456;
            if render_now {
                assert(row == mid.ly);
                assert forall|k: int| 0 <= k < 160 * 144 implies #[trigger] self.frame@[k] == (
                if row * 160 <= k < row * 160 + 160 {
                    old(self).pixel_spec(row, k - row * 160)
                } else {
                    old(self).frame@[k]
                }) by {
                    if row * 160 <= k < row * 160 + 160 {
                        let q = k - row * 160;
                        assert(self.frame@[row * 160 + q] == mid.pixel_spec(row, q));
                        assert(mid.pixel_spec(row, q) == old(self).pixel_spec(row, q));
                    }
                }
            }
        }
        (vb, rose)
    }

    /// Advance the PPU by `cycles` dots. With the LCD off nothing moves;
    /// otherwise the dot position advances modulo the frame length, so a
    /// full frame of 70224 dots brings LY back to its starting value.
    /// Returns how many times the VBlank period began and how many times
    /// the STAT line rose; `tick_effect` is the whole transition, down
    /// to which scanlines were re-rendered.
    #[verifier::rlimit(100)]
    #[verifier::spinoff_prover]
    pub fn tick(&mut self, cycles: u32) -> (r: (u32, u32))
        requires
            old(self).wf(),
        ensures
            final(self).wf(),
            final(self).ly <= 153,
            tick_effect(*old(self), *final(self), cycles, r.0, r.1),
    {
        if self.lcdc & 0x80 == 0 {
            return (0, 0);
        }
        let ghost pos0: int = self.frame_pos();
        let mut vb: u32 = 0;
        let mut st: u32 = 0;
        let mut j: u32 = 0;
        while j < cycles
            invariant
                self.wf(),
                j <= cycles,
                vb <= j,
                st <= j,
                *self == (Gpu {
                    ly: self.ly,
                    line_dots: self.line_dots,
                    stat_line: self.stat_line,
                    frame: self.frame,
                    ..*old(self)
                }),
                pos0 == old(self).frame_pos(),
                self.frame_pos() == (pos0 + j) % 70224,
                vb == crossings(pos0, j as nat, 65664),
                st == stat_rises(old(self).stat, old(self).lyc, pos0, j as nat),
                self.frame.len() == old(self).frame.len(),
                forall|k: int|
                    0 <= k < 160 * 144 ==> #[trigger] self.frame@[k] == (if crossings(
                        pos0,
                        j as nat,
                        (k / 160) * 456 + 80,
                    ) > 0 {
                        old(self).pixel_spec(k / 160, k % 160)
                    } else {
                        old(self).frame@[k]
                    }),
            decreases cycles - j,
        {
            let ghost pre = *self;
            let (v, s) = self.tick_dot();
            proof {
                assert(self.frame_pos() == (pos0 + j + 1) % 70224) by {
                    assert(pre.frame_pos() == (pos0 + j) % 70224);
                    assert(self.frame_pos() == (pre.frame_pos() + 1) % 70224);
                };
                assert forall|k: int| 0 <= k < 160 * 144 implies #[trigger] self.frame@[k] == (
                if crossings(pos0, (j + 1) as nat, (k / 160) * 456 + 80) > 0 {
                    old(self).pixel_spec(k / 160, k % 160)
                } else {
                    old(self).frame@[k]
                }) by {
                    let row = k / 160;
                    let q = k % 160;
                    let t = row * 456 + 80;
                    let p = self.frame_pos();
                    assert(0 <= row < 144 && 0 <= q < 160 && k == row * 160 + q);
                    assert(t / 456 == row && t % 456 == 80) by (nonlinear_arith)
                        requires
                            0 <= row < 144,
                            t == row * 456 + 80,
                    ;
                    assert(crossings(pos0, (j + 1) as nat, t) == crossings(pos0, j as nat, t) + (
                    if (pos0 + j + 1) % 70224 == t {
                        1int
                    } else {
                        0int
                    }));
                    if p == t {
                        // this dot entered the row's drawing phase: re-rendered
                        assert(p % 456 == 80 && p / 456 == row);
                        assert(row * 160 <= k < row * 160 + 160);
                        assert(self.frame@[k] == pre.pixel_spec(row, k - row * 160));
                        assert(pre.pixel_spec(row, q) == old(self).pixel_spec(row, q));
                    } else {
                        // no crossing of this row's entry; the byte is untouched
                        if p % 456 == 80 && p / 456 < 144 {
                            let rr = p / 456;
                            assert(rr != row);
                            assert(!(rr * 160 <= k < rr * 160 + 160)) by (nonlinear_arith)
                                requires
                                    rr != row,
                                    row == k / 160,
                                    0 <= k,
                            ;
                        }
                        assert(self.frame@[k] == pre.frame@[k]);
                    }
                }
            }
            if v {
                vb += 1;
            }
            if s {
                st += 1;
            }
            j += 1;
        }
        proof {
            if cycles == 70224 {
                assert((pos0 + 70224) % 70224 == pos0) by {
                    assert(pos0 < 70224);
                };
                assert(self.frame_pos() == pos0);
                assert(self.ly == old(self).ly && self.line_dots == old(self).line_dots) by {
                    assert(self.ly * 456 + self.line_dots == old(self).ly * 456 + old(
                        self,
                    ).line_dots);
                    assert(self.line_dots < 456 && old(self).line_dots < 456);
                };
            }
        }
        (vb, st)
    }
}

/// The number of dots after `pos` until `target` is reached, between 1
/// and a whole frame.
pub open spec fn first_hit(pos: int, target: int) -> int {
    if target > pos {
        target - pos
    } else {
        target - pos + 70224
    }
}

/// Up to one whole frame, the crossing count is 0 before the first hit
/// and 1 from it on.
pub proof fn lemma_crossings_count(pos: int, target: int, n: nat)
    requires
        0 <= pos < 70224,
        0 <= target < 70224,
        n <= 70224,
    ensures
        crossings(pos, n, target) == if n < first_hit(pos, target) {
            0nat
        } else {
            1nat
        },
    decreases n,
{
    if n > 0 {
        lemma_crossings_count(pos, target, (n - 1) as nat);
        if pos + n < 70224 {
            assert((pos + n) % 70224 == pos + n);
        } else {
            assert((pos + n) % 70224 == pos + n - 70224);
        }
    }
}

/// Over any stretch of exactly one frame of dots, each dot position is
/// passed exactly once; in particular the VBlank entry is.
pub proof fn lemma_one_crossing_per_frame(pos: int, target: int)
    requires
        0 <= pos < 70224,
        0 <= target < 70224,
    ensures
        crossings(pos, 70224, target) == 1,
{
    lemma_crossings_count(pos, target, 70224);
}

impl Gpu {
    /// The VBlank period begins exactly once per frame: ticking a
    /// well-formed PPU for 70224 dots yields a VBlank count of one.
    pub proof fn lemma_one_vblank_per_frame(self)
        requires
            self.wf(),
        ensures
            crossings(self.frame_pos(), 70224, VBLANK_POS as int) == 1,
    {
        lemma_one_crossing_per_frame(self.frame_pos(), VBLANK_POS as int);
    }
}

/// Whether an executable winner matches the specification's.
pub open spec fn opt_matches(e: Option<u8>, s: Option<int>) -> bool {
    match e {
        Option::None => s is None,
        Option::Some(b) => s == Option::Some(b as int),
    }
}

/// Every candidate the selection keeps covers the scanline and names a
/// valid OAM entry.
pub proof fn lemma_cands_covers(oam: Seq<u8>, ly: int, h: int, i: int)
    ensures
        forall|k: int|
            0 <= k < Gpu::cands_upto(oam, ly, h, i).len() ==> {
                let c = #[trigger] Gpu::cands_upto(oam, ly, h, i)[k];
                0 <= c < i && sprite_covers_line(oam, c, ly, h)
            },
    decreases i,
{
    if i > 0 {
        lemma_cands_covers(oam, ly, h, i - 1);
        let p = Gpu::cands_upto(oam, ly, h, i - 1);
        let c = Gpu::cands_upto(oam, ly, h, i);
        assert forall|k: int| 0 <= k < c.len() implies {
            let x = #[trigger] c[k];
            0 <= x < i && sprite_covers_line(oam, x, ly, h)
        } by {
            if p.len() < 10 && sprite_covers_line(oam, i - 1, ly, h) {
                if k < p.len() {
                    assert(c[k] == p[k]);
                } else {
                    assert(c[k] == i - 1);
                }
            } else {
                assert(c[k] == p[k]);
            }
        }
    }
}

} // verus!
