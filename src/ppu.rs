use vstd::prelude::*;

verus! {

pub const WIDTH: usize = 160;
pub const HEIGHT: usize = 144;

pub const VRAM_ADDRESS_BASE: u16 = 0x8000;

// greenscale shades, lightest to darkest, as ARGB8888
pub const LIGHTEST_GREEN: u32 = 0xFF9BBC0F;
pub const LIGHT_GREEN: u32 = 0xFF8BAC0F;
pub const DARK_GREEN: u32 = 0xFF306230;
pub const DARKEST_GREEN: u32 = 0xFF0F380F;

/// Clocks in one scanline, and lines in one frame.
pub const LINE_CLOCKS: u32 = 456;
pub const FRAME_LINES: u8 = 154;

/// What the PPU holds, as plain values. `clocks` counts the clocks already
/// spent on line `ly`.
pub struct PpuState {
    pub mode: u8,
    pub vram: Seq<u8>,
    pub oam: Seq<u8>,
    pub buffer: Seq<u32>,
    pub clocks: u32,
    pub lcdc: u8,
    pub stat: u8,
    pub scy: u8,
    pub scx: u8,
    pub ly: u8,
    pub lyc: u8,
    pub bgp: u8,
    pub obp0: u8,
    pub obp1: u8,
    pub wy: u8,
    pub wx: u8,
    pub window_line: u8,
    pub vblank: bool,
}

/// The mode of a visible line after `clocks` of it: OAM scan for 80
/// clocks, pixel transfer for 172, then HBlank.
pub open spec fn visible_mode(clocks: u32) -> u8 {
    if clocks < 80 {
        2
    } else if clocks < 252 {
        3
    } else {
        0
    }
}

/// Color number (0..=3) of column `col` of a tile row given by its two bytes.
pub open spec fn tile_color(lo: u8, hi: u8, col: int) -> u8 {
    (((hi >> ((7 - col) as u8)) & 1u8) * 2 + ((lo >> ((7 - col) as u8)) & 1u8)) as u8
}

/// Shade (0..=3) that palette register `pal` gives color number `idx`.
pub open spec fn palette_shade(pal: u8, idx: u8) -> u8 {
    (pal >> ((idx * 2) as u8)) & 3u8
}

/// Output color of a shade.
pub open spec fn shade_rgb(shade: u8) -> u32 {
    if shade == 0 {
        LIGHTEST_GREEN
    } else if shade == 1 {
        LIGHT_GREEN
    } else if shade == 2 {
        DARK_GREEN
    } else {
        DARKEST_GREEN
    }
}

/// VRAM offset of a background or window tile, by the addressing mode of
/// LCDC bit 4: unsigned from 0x8000, or signed from 0x9000.
pub open spec fn bg_tile_offset(lcdc: u8, tile: u8) -> int {
    if lcdc & 0x10 != 0 {
        tile * 16
    } else if tile < 128 {
        0x1000 + tile * 16
    } else {
        0x1000 + (tile - 256) * 16
    }
}

/// Whether an address belongs to the PPU: VRAM, OAM or an LCD register.
pub open spec fn is_ppu_address(address: u16) -> bool {
    (0x8000 <= address <= 0x9fff) || (0xfe00 <= address <= 0xfe9f) || (0xff40 <= address
        <= 0xff45) || (0xff47 <= address <= 0xff4b)
}

impl PpuState {
    pub open spec fn wf(self) -> bool {
        &&& self.vram.len() == 0x2000
        &&& self.oam.len() == 0xa0
        &&& self.buffer.len() == WIDTH * HEIGHT
        &&& self.clocks < LINE_CLOCKS
        &&& if self.ly < 144 {
            self.mode == visible_mode(self.clocks)
        } else {
            self.ly < FRAME_LINES && self.mode == 1
        }
    }

    pub open spec fn enabled(self) -> bool {
        self.lcdc & 0x80 != 0
    }

    /// Whether the window covers part of the current line.
    pub open spec fn window_on_line(self) -> bool {
        self.lcdc & 0x20 != 0 && self.ly >= self.wy && self.wx <= 166
    }

    /// Background or window color number at column `x` of the current line.
    pub open spec fn bg_index(self, x: int) -> u8 {
        let in_window = self.window_on_line() && x + 7 >= self.wx;
        let map_base: int = if in_window {
            if self.lcdc & 0x40 != 0 {
                0x1c00
            } else {
                0x1800
            }
        } else if self.lcdc & 0x08 != 0 {
            0x1c00
        } else {
            0x1800
        };
        let px: int = if in_window {
            x + 7 - self.wx
        } else {
            (self.scx + x) % 256
        };
        let py: int = if in_window {
            self.window_line as int
        } else {
            (self.scy + self.ly) % 256
        };
        let tile = self.vram[map_base + (py / 8) * 32 + px / 8];
        let offset = bg_tile_offset(self.lcdc, tile) + (py % 8) * 2;
        tile_color(self.vram[offset], self.vram[offset + 1], px % 8)
    }

    /// Color number of the background layer, 0 when LCDC bit 0 blanks it.
    pub open spec fn bg_pixel(self, x: int) -> u8 {
        if self.lcdc & 0x01 != 0 {
            self.bg_index(x)
        } else {
            0
        }
    }

    pub open spec fn sprite_height(self) -> int {
        if self.lcdc & 0x04 != 0 {
            16
        } else {
            8
        }
    }

    /// Whether sprite `i` of OAM covers the current line.
    pub open spec fn sprite_on_line(self, i: int) -> bool {
        let y = self.oam[4 * i] as int;
        y <= self.ly + 16 < y + self.sprite_height()
    }

    /// The sprites among the first `n` OAM entries drawn on this line: those
    /// covering it, at most ten, in OAM order.
    pub open spec fn line_sprites(self, n: int) -> Seq<usize>
        decreases n,
    {
        if n <= 0 {
            seq![]
        } else {
            let s = self.line_sprites(n - 1);
            if self.sprite_on_line(n - 1) && s.len() < 10 {
                s.push((n - 1) as usize)
            } else {
                s
            }
        }
    }

    /// Color number of sprite `i` at column `x`; 0 where it is transparent
    /// or does not reach.
    pub open spec fn sprite_color(self, i: int, x: int) -> u8 {
        let sx = self.oam[4 * i + 1] as int;
        let flags = self.oam[4 * i + 3];
        if sx <= x + 8 < sx + 8 {
            let row0 = self.ly + 16 - self.oam[4 * i];
            let row = if flags & 0x40 != 0 {
                self.sprite_height() - 1 - row0
            } else {
                row0
            };
            let tile: u8 = if self.sprite_height() == 16 {
                self.oam[4 * i + 2] & 0xfe
            } else {
                self.oam[4 * i + 2]
            };
            let offset = tile * 16 + row * 2;
            let col0 = x + 8 - sx;
            let col = if flags & 0x20 != 0 {
                7 - col0
            } else {
                col0
            };
            tile_color(self.vram[offset], self.vram[offset + 1], col)
        } else {
            0
        }
    }

    /// The first sprite of `sel`, from position `k` on, that is opaque at `x`.
    pub open spec fn first_opaque(self, sel: Seq<usize>, k: int, x: int) -> Option<usize>
        decreases sel.len() - k,
    {
        if k < 0 || k >= sel.len() {
            None
        } else if self.sprite_color(sel[k] as int, x) != 0 {
            Some(sel[k])
        } else {
            self.first_opaque(sel, k + 1, x)
        }
    }

    /// Shade at column `x` of the current line: the first opaque sprite in
    /// OAM order wins, unless its BG-priority flag is set and the background
    /// there is not color 0.
    pub open spec fn pixel_shade(self, x: int) -> u8 {
        let bg = self.bg_pixel(x);
        let bg_shade = if self.lcdc & 0x01 != 0 {
            palette_shade(self.bgp, bg)
        } else {
            0
        };
        let top = if self.lcdc & 0x02 != 0 {
            self.first_opaque(self.line_sprites(40), 0, x)
        } else {
            None
        };
        match top {
            Some(i) => {
                let flags = self.oam[4 * i + 3];
                if flags & 0x80 != 0 && bg != 0 {
                    bg_shade
                } else {
                    palette_shade(
                        if flags & 0x10 != 0 {
                            self.obp1
                        } else {
                            self.obp0
                        },
                        self.sprite_color(i as int, x),
                    )
                }
            },
            None => bg_shade,
        }
    }

    /// The framebuffer with the current line drawn.
    pub open spec fn rendered(self) -> Seq<u32> {
        let base = self.ly * WIDTH;
        Seq::new(
            self.buffer.len(),
            |i: int|
                if base <= i < base + WIDTH {
                    shade_rgb(self.pixel_shade(i - base))
                } else {
                    self.buffer[i]
                },
        )
    }

    /// The PPU one clock later, while the LCD is on.
    pub open spec fn tick(self) -> PpuState {
        let c = (self.clocks + 1) as u32;
        if self.ly < 144 {
            if c == 80 {
                PpuState { mode: 3, clocks: c, ..self }
            } else if c == 252 {
                PpuState {
                    mode: 0,
                    clocks: c,
                    buffer: self.rendered(),
                    window_line: if self.window_on_line() && self.window_line < 255 {
                        (self.window_line + 1) as u8
                    } else {
                        self.window_line
                    },
                    ..self
                }
            } else if c == LINE_CLOCKS {
                if self.ly + 1 == 144 {
                    PpuState { mode: 1, clocks: 0, ly: 144, vblank: true, ..self }
                } else {
                    PpuState { mode: 2, clocks: 0, ly: (self.ly + 1) as u8, ..self }
                }
            } else {
                PpuState { clocks: c, ..self }
            }
        } else if c == LINE_CLOCKS {
            if self.ly + 1 == FRAME_LINES {
                PpuState { mode: 2, clocks: 0, ly: 0, window_line: 0, ..self }
            } else {
                PpuState { clocks: 0, ly: (self.ly + 1) as u8, ..self }
            }
        } else {
            PpuState { clocks: c, ..self }
        }
    }

    /// The PPU `n` clocks later, while the LCD is on.
    pub open spec fn ticks(self, n: nat) -> PpuState
        decreases n,
    {
        if n == 0 {
            self
        } else {
            self.ticks((n - 1) as nat).tick()
        }
    }

    /// The PPU after `n` clocks: frozen while LCDC bit 7 is clear.
    pub open spec fn step(self, n: nat) -> PpuState {
        if self.enabled() {
            self.ticks(n)
        } else {
            self
        }
    }

    pub open spec fn stat_value(self) -> u8 {
        0x80u8 | (self.stat & 0x78u8) | (if self.ly == self.lyc {
            4u8
        } else {
            0u8
        }) | self.mode
    }

    pub open spec fn read(self, address: u16) -> u8 {
        if address <= 0x9fff {
            self.vram[address - 0x8000]
        } else if address <= 0xfe9f {
            self.oam[address - 0xfe00]
        } else if address == 0xff40 {
            self.lcdc
        } else if address == 0xff41 {
            self.stat_value()
        } else if address == 0xff42 {
            self.scy
        } else if address == 0xff43 {
            self.scx
        } else if address == 0xff44 {
            self.ly
        } else if address == 0xff45 {
            self.lyc
        } else if address == 0xff47 {
            self.bgp
        } else if address == 0xff48 {
            self.obp0
        } else if address == 0xff49 {
            self.obp1
        } else if address == 0xff4a {
            self.wy
        } else {
            self.wx
        }
    }

    /// A register write; LY is read-only and ignores it.
    pub open spec fn write(self, address: u16, value: u8) -> PpuState {
        if address <= 0x9fff {
            PpuState { vram: self.vram.update(address - 0x8000, value), ..self }
        } else if address <= 0xfe9f {
            PpuState { oam: self.oam.update(address - 0xfe00, value), ..self }
        } else if address == 0xff40 {
            PpuState { lcdc: value, ..self }
        } else if address == 0xff41 {
            PpuState { stat: value & 0x78, ..self }
        } else if address == 0xff42 {
            PpuState { scy: value, ..self }
        } else if address == 0xff43 {
            PpuState { scx: value, ..self }
        } else if address == 0xff44 {
            self
        } else if address == 0xff45 {
            PpuState { lyc: value, ..self }
        } else if address == 0xff47 {
            PpuState { bgp: value, ..self }
        } else if address == 0xff48 {
            PpuState { obp0: value, ..self }
        } else if address == 0xff49 {
            PpuState { obp1: value, ..self }
        } else if address == 0xff4a {
            PpuState { wy: value, ..self }
        } else {
            PpuState { wx: value, ..self }
        }
    }
}

/// The PPU at power-up: LCD on, line 0 in OAM scan, all memory clear and
/// the screen dark.
pub open spec fn ppu_power_up() -> PpuState {
    PpuState {
        mode: 2,
        vram: Seq::new(0x2000, |i: int| 0u8),
        oam: Seq::new(0xa0, |i: int| 0u8),
        buffer: Seq::new((WIDTH * HEIGHT) as nat, |i: int| DARKEST_GREEN),
        clocks: 0,
        lcdc: 0x80,
        stat: 0,
        scy: 0,
        scx: 0,
        ly: 0,
        lyc: 0,
        bgp: 0,
        obp0: 0,
        obp1: 0,
        wy: 0,
        wx: 0,
        window_line: 0,
        vblank: false,
    }
}

proof fn lemma_low_bits(x: u8)
    ensures
        x & 1 <= 1,
        x & 3 <= 3,
{
    assert(x & 1 <= 1) by (bit_vector);
    assert(x & 3 <= 3) by (bit_vector);
}

pub struct PPU {
    mode: u8,
    vram: Vec<u8>,
    oam: Vec<u8>,
    buffer: Vec<u32>,
    clocks: u32,
    lcdc: u8,
    stat: u8,
    scy: u8,
    scx: u8,
    ly: u8,
    lyc: u8,
    bgp: u8,
    obp0: u8,
    obp1: u8,
    wy: u8,
    wx: u8,
    window_line: u8,
    vblank: bool,
}

impl View for PPU {
    type V = PpuState;

    closed spec fn view(&self) -> PpuState {
        PpuState {
            mode: self.mode,
            vram: self.vram@,
            oam: self.oam@,
            buffer: self.buffer@,
            clocks: self.clocks,
            lcdc: self.lcdc,
            stat: self.stat,
            scy: self.scy,
            scx: self.scx,
            ly: self.ly,
            lyc: self.lyc,
            bgp: self.bgp,
            obp0: self.obp0,
            obp1: self.obp1,
            wy: self.wy,
            wx: self.wx,
            window_line: self.window_line,
            vblank: self.vblank,
        }
    }
}

fn tile_color_at(lo: u8, hi: u8, col: usize) -> (r: u8)
    requires
        col < 8,
    ensures
        r == tile_color(lo, hi, col as int),
        r <= 3,
{
    let shift: u8 = (7 - col) as u8;
    proof {
        lemma_low_bits(hi >> shift);
        lemma_low_bits(lo >> shift);
    }
    ((hi >> shift) & 1) * 2 + ((lo >> shift) & 1)
}

fn shade_of(pal: u8, idx: u8) -> (r: u8)
    requires
        idx <= 3,
    ensures
        r == palette_shade(pal, idx),
        r <= 3,
{
    proof {
        lemma_low_bits(pal >> (idx * 2));
    }
    (pal >> (idx * 2)) & 3
}

impl PPU {
    pub fn new() -> (r: PPU)
        ensures
            r@ == ppu_power_up(),
    {
        let p = PPU {
            mode: 2,
            vram: vec![0u8; 0x2000],
            oam: vec![0u8; 0xa0],
            buffer: vec![DARKEST_GREEN; WIDTH * HEIGHT],
            clocks: 0,
            lcdc: 0b1000_0000,
            stat: 0,
            scy: 0,
            scx: 0,
            ly: 0,
            lyc: 0,
            bgp: 0,
            obp0: 0,
            obp1: 0,
            wy: 0,
            wx: 0,
            window_line: 0,
            vblank: false,
        };
        assert(p@.vram =~= Seq::new(0x2000, |i: int| 0u8));
        assert(p@.oam =~= Seq::new(0xa0, |i: int| 0u8));
        assert(p@.buffer =~= Seq::new((WIDTH * HEIGHT) as nat, |i: int| DARKEST_GREEN));
        assert(p@ == ppu_power_up());
        p
    }

    /// The framebuffer: 160x144 ARGB8888 pixels, row by row.
    pub fn framebuffer(&self) -> (r: &Vec<u32>)
        ensures
            r@ == self@.buffer,
    {
        &self.buffer
    }

    pub fn vblank_pending(&self) -> (r: bool)
        ensures
            r == self@.vblank,
    {
        self.vblank
    }

    pub fn clear_vblank(&mut self)
        ensures
            final(self)@ == (PpuState { vblank: false, ..old(self)@ }),
    {
        self.vblank = false;
    }

    /// Advances the PPU by `clocks` clocks.
    pub fn step(&mut self, clocks: usize)
        requires
            old(self)@.wf(),
        ensures
            final(self)@ == old(self)@.step(clocks as nat),
            final(self)@.wf(),
    {
        if self.lcdc & 0b1000_0000 == 0 {
            return;
        }
        let ghost start = self@;
        let mut i: usize = 0;
        while i < clocks
            invariant
                start.enabled(),
                start.wf(),
                i <= clocks,
                self@ == start.ticks(i as nat),
                self@.wf(),
            decreases clocks - i,
        {
            self.tick();
            i = i + 1;
        }
    }

    fn tick(&mut self)
        requires
            old(self)@.wf(),
        ensures
            final(self)@ == old(self)@.tick(),
            final(self)@.wf(),
    {
        let c: u32 = self.clocks + 1;
        if self.ly < 144 {
            if c == 80 {
                // OAM scan done: pixel transfer
                self.mode = 3;
                self.clocks = c;
            } else if c == 252 {
                // pixel transfer done: the line is drawn, HBlank
                self.render_scanline();
                if self.window_on_line() && self.window_line < 255 {
                    self.window_line = self.window_line + 1;
                }
                self.mode = 0;
                self.clocks = c;
            } else if c == LINE_CLOCKS {
                self.clocks = 0;
                self.ly = self.ly + 1;
                if self.ly == 144 {
                    self.mode = 1;
                    self.vblank = true;
                } else {
                    self.mode = 2;
                }
            } else {
                self.clocks = c;
            }
        } else if c == LINE_CLOCKS {
            self.clocks = 0;
            if self.ly + 1 == FRAME_LINES {
                self.ly = 0;
                self.mode = 2;
                self.window_line = 0;
            } else {
                self.ly = self.ly + 1;
            }
        } else {
            self.clocks = c;
        }
    }

    fn window_on_line(&self) -> (r: bool)
        ensures
            r == self@.window_on_line(),
    {
        self.lcdc & 0x20 != 0 && self.ly >= self.wy && self.wx <= 166
    }

    fn bg_index_at(&self, x: usize) -> (r: u8)
        requires
            self@.wf(),
            x < WIDTH,
        ensures
            r == self@.bg_index(x as int),
            r <= 3,
    {
        let in_window: bool = self.window_on_line() && x + 7 >= self.wx as usize;
        let map_base: usize = if in_window {
            if self.lcdc & 0x40 != 0 {
                0x1c00
            } else {
                0x1800
            }
        } else if self.lcdc & 0x08 != 0 {
            0x1c00
        } else {
            0x1800
        };
        let px: usize = if in_window {
            x + 7 - self.wx as usize
        } else {
            (self.scx as usize + x) % 256
        };
        let py: usize = if in_window {
            self.window_line as usize
        } else {
            (self.scy as usize + self.ly as usize) % 256
        };
        let tile: u8 = self.vram[map_base + (py / 8) * 32 + px / 8];
        let base: usize = if self.lcdc & 0x10 != 0 {
            tile as usize * 16
        } else if tile < 128 {
            0x1000 + tile as usize * 16
        } else {
            (tile as usize - 128) * 16 + 0x0800
        };
        let offset: usize = base + (py % 8) * 2;
        tile_color_at(self.vram[offset], self.vram[offset + 1], px % 8)
    }

    /// Background and window color numbers of the current line.
    fn render_background(&self) -> (r: Vec<u8>)
        requires
            self@.wf(),
        ensures
            r@.len() == WIDTH,
            forall|x: int| 0 <= x < WIDTH ==> #[trigger] r@[x] == self@.bg_pixel(x) && r@[x] <= 3,
    {
        let mut line: Vec<u8> = Vec::new();
        let enabled: bool = self.lcdc & 0x01 != 0;
        let mut x: usize = 0;
        while x < WIDTH
            invariant
                self@.wf(),
                x <= WIDTH,
                line@.len() == x,
                enabled == (self@.lcdc & 0x01 != 0),
                forall|k: int| 0 <= k < x ==> #[trigger] line@[k] == self@.bg_pixel(k) && line@[k] <= 3,
            decreases WIDTH - x,
        {
            let v: u8 = if enabled {
                self.bg_index_at(x)
            } else {
                0
            };
            line.push(v);
            x = x + 1;
        }
        line
    }

    /// OAM indices of the sprites drawn on the current line.
    fn select_sprites(&self) -> (r: Vec<usize>)
        requires
            self@.wf(),
        ensures
            r@ == self@.line_sprites(40),
    {
        let height: u16 = if self.lcdc & 0x04 != 0 {
            16
        } else {
            8
        };
        let mut sel: Vec<usize> = Vec::new();
        let mut i: usize = 0;
        while i < 40
            invariant
                self@.wf(),
                i <= 40,
                height == self@.sprite_height(),
                sel@ == self@.line_sprites(i as int),
                sel@.len() <= 10,
            decreases 40 - i,
        {
            let y: u16 = self.oam[4 * i] as u16;
            if y <= self.ly as u16 + 16 && (self.ly as u16 + 16) < y + height && sel.len() < 10 {
                sel.push(i);
            }
            i = i + 1;
        }
        sel
    }

    fn sprite_color_at(&self, i: usize, x: usize) -> (r: u8)
        requires
            self@.wf(),
            i < 40,
            x < WIDTH,
            self@.sprite_on_line(i as int),
        ensures
            r == self@.sprite_color(i as int, x as int),
            r <= 3,
    {
        let sx: usize = self.oam[4 * i + 1] as usize;
        let flags: u8 = self.oam[4 * i + 3];
        if sx <= x + 8 && x + 8 < sx + 8 {
            let height: usize = if self.lcdc & 0x04 != 0 {
                16
            } else {
                8
            };
            let row0: usize = self.ly as usize + 16 - self.oam[4 * i] as usize;
            let row: usize = if flags & 0x40 != 0 {
                height - 1 - row0
            } else {
                row0
            };
            let tile: u8 = if height == 16 {
                self.oam[4 * i + 2] & 0xfe
            } else {
                self.oam[4 * i + 2]
            };
            let offset: usize = tile as usize * 16 + row * 2;
            let col0: usize = x + 8 - sx;
            let col: usize = if flags & 0x20 != 0 {
                7 - col0
            } else {
                col0
            };
            tile_color_at(self.vram[offset], self.vram[offset + 1], col)
        } else {
            0
        }
    }

    /// Final shades of the current line, sprites mixed over `bg`.
    fn render_sprites(&self, bg: &Vec<u8>) -> (r: Vec<u8>)
        requires
            self@.wf(),
            bg@.len() == WIDTH,
            forall|x: int| 0 <= x < WIDTH ==> #[trigger] bg@[x] == self@.bg_pixel(x) && bg@[x] <= 3,
        ensures
            r@.len() == WIDTH,
            forall|x: int| 0 <= x < WIDTH ==> #[trigger] r@[x] == self@.pixel_shade(x),
    {
        let sel: Vec<usize> = if self.lcdc & 0x02 != 0 {
            self.select_sprites()
        } else {
            Vec::new()
        };
        proof {
            lemma_line_sprites_on_line(self@, 40);
        }
        let mut shades: Vec<u8> = Vec::new();
        let mut x: usize = 0;
        while x < WIDTH
            invariant
                self@.wf(),
                x <= WIDTH,
                shades@.len() == x,
                bg@.len() == WIDTH,
                forall|k: int| 0 <= k < WIDTH ==> #[trigger] bg@[k] == self@.bg_pixel(k) && bg@[k] <= 3,
                self@.lcdc & 0x02 != 0 ==> sel@ == self@.line_sprites(40),
                self@.lcdc & 0x02 == 0 ==> sel@.len() == 0,
                forall|j: int| 0 <= j < sel@.len() ==> #[trigger] sel@[j] < 40 && self@.sprite_on_line(sel@[j] as int),
                forall|k: int| 0 <= k < x ==> #[trigger] shades@[k] == self@.pixel_shade(k),
            decreases WIDTH - x,
        {
            let b: u8 = bg[x];
            let bg_shade: u8 = if self.lcdc & 0x01 != 0 {
                shade_of(self.bgp, b)
            } else {
                0
            };
            // first opaque sprite, in OAM order
            let mut k: usize = 0;
            let mut found: Option<usize> = None;
            while k < sel.len()
                invariant_except_break
                    found is None,
                invariant
                    self@.wf(),
                    x < WIDTH,
                    k <= sel@.len(),
                    forall|j: int| 0 <= j < sel@.len() ==> #[trigger] sel@[j] < 40 && self@.sprite_on_line(sel@[j] as int),
                    self@.first_opaque(sel@, 0, x as int) == self@.first_opaque(sel@, k as int, x as int),
                ensures
                    found == self@.first_opaque(sel@, 0, x as int),
                    found matches Some(i) ==> i < 40 && self@.sprite_on_line(i as int),
                decreases sel@.len() - k,
            {
                let c: u8 = self.sprite_color_at(sel[k], x);
                if c != 0 {
                    found = Some(sel[k]);
                    break;
                }
                k = k + 1;
            }
            let shade: u8 = match found {
                Some(i) => {
                    let flags: u8 = self.oam[4 * i + 3];
                    if flags & 0x80 != 0 && b != 0 {
                        bg_shade
                    } else {
                        let pal: u8 = if flags & 0x10 != 0 {
                            self.obp1
                        } else {
                            self.obp0
                        };
                        shade_of(pal, self.sprite_color_at(i, x))
                    }
                },
                None => bg_shade,
            };
            shades.push(shade);
            x = x + 1;
        }
        shades
    }

    /// Draws the current line into the framebuffer.
    fn render_scanline(&mut self)
        requires
            old(self)@.wf(),
            old(self)@.ly < 144,
        ensures
            final(self)@ == (PpuState { buffer: old(self)@.rendered(), ..old(self)@ }),
    {
        let bg: Vec<u8> = self.render_background();
        let shades: Vec<u8> = self.render_sprites(&bg);
        let base: usize = self.ly as usize * WIDTH;
        let ghost start = self@;
        let mut x: usize = 0;
        while x < WIDTH
            invariant
                start.wf(),
                start.ly < 144,
                base == start.ly * WIDTH,
                x <= WIDTH,
                shades@.len() == WIDTH,
                forall|k: int| 0 <= k < WIDTH ==> #[trigger] shades@[k] == start.pixel_shade(k),
                self@ == (PpuState { buffer: self@.buffer, ..start }),
                self@.buffer.len() == start.buffer.len(),
                forall|i: int|
                    0 <= i < self@.buffer.len() ==> #[trigger] self@.buffer[i] == if base <= i < base + x {
                        shade_rgb(start.pixel_shade(i - base))
                    } else {
                        start.buffer[i]
                    },
            decreases WIDTH - x,
        {
            let rgb: u32 = self.color_no_to_rgb(shades[x]);
            self.buffer.set(base + x, rgb);
            x = x + 1;
        }
        assert(self@.buffer =~= start.rendered());
    }

    fn color_no_to_rgb(&self, no: u8) -> (r: u32)
        ensures
            r == shade_rgb(no),
    {
        if no == 0 {
            LIGHTEST_GREEN
        } else if no == 1 {
            LIGHT_GREEN
        } else if no == 2 {
            DARK_GREEN
        } else {
            DARKEST_GREEN
        }
    }

    /// Replaces the whole of OAM, as an OAM DMA transfer does.
    pub fn load_oam(&mut self, data: &Vec<u8>)
        requires
            old(self)@.wf(),
            data@.len() == 0xa0,
        ensures
            final(self)@ == (PpuState { oam: data@, ..old(self)@ }),
            final(self)@.wf(),
    {
        let ghost start = self@;
        let mut i: usize = 0;
        while i < 0xa0
            invariant
                i <= 0xa0,
                data@.len() == 0xa0,
                self@ == (PpuState { oam: self@.oam, ..start }),
                self@.oam.len() == 0xa0,
                forall|k: int| 0 <= k < 0xa0 ==> #[trigger] self@.oam[k] == if k < i {
                    data@[k]
                } else {
                    start.oam[k]
                },
            decreases 0xa0 - i,
        {
            self.oam.set(i, data[i]);
            i = i + 1;
        }
        assert(self@.oam =~= data@);
    }

    pub fn read(&self, address: u16) -> (r: u8)
        requires
            self@.wf(),
            is_ppu_address(address),
        ensures
            r == self@.read(address),
    {
        if address <= 0x9fff {
            self.vram[(address - VRAM_ADDRESS_BASE) as usize]
        } else if address <= 0xfe9f {
            self.oam[(address - 0xfe00) as usize]
        } else if address == 0xff40 {
            self.lcdc
        } else if address == 0xff41 {
            0x80u8 | (self.stat & 0x78u8) | (if self.ly == self.lyc {
                4u8
            } else {
                0u8
            }) | self.mode
        } else if address == 0xff42 {
            self.scy
        } else if address == 0xff43 {
            self.scx
        } else if address == 0xff44 {
            self.ly
        } else if address == 0xff45 {
            self.lyc
        } else if address == 0xff47 {
            self.bgp
        } else if address == 0xff48 {
            self.obp0
        } else if address == 0xff49 {
            self.obp1
        } else if address == 0xff4a {
            self.wy
        } else {
            self.wx
        }
    }

    pub fn write(&mut self, address: u16, value: u8)
        requires
            old(self)@.wf(),
            is_ppu_address(address),
        ensures
            final(self)@ == old(self)@.write(address, value),
            final(self)@.wf(),
    {
        if address <= 0x9fff {
            self.vram.set((address - VRAM_ADDRESS_BASE) as usize, value);
        } else if address <= 0xfe9f {
            self.oam.set((address - 0xfe00) as usize, value);
        } else if address == 0xff40 {
            self.lcdc = value;
        } else if address == 0xff41 {
            // only the interrupt-select bits are writable
            self.stat = value & 0x78;
        } else if address == 0xff42 {
            self.scy = value;
        } else if address == 0xff43 {
            self.scx = value;
        } else if address == 0xff44 {
            // LY is read-only
        } else if address == 0xff45 {
            self.lyc = value;
        } else if address == 0xff47 {
            self.bgp = value;
        } else if address == 0xff48 {
            self.obp0 = value;
        } else if address == 0xff49 {
            self.obp1 = value;
        } else if address == 0xff4a {
            self.wy = value;
        } else {
            self.wx = value;
        }
    }
}

proof fn lemma_line_sprites_on_line(p: PpuState, n: int)
    requires
        0 <= n <= 40,
    ensures
        p.line_sprites(n).len() <= 10,
        forall|j: int|
            0 <= j < p.line_sprites(n).len() ==> #[trigger] p.line_sprites(n)[j] < n
                && p.sprite_on_line(p.line_sprites(n)[j] as int),
    decreases n,
{
    if n > 0 {
        lemma_line_sprites_on_line(p, n - 1);
    }
}

/// Clocks in a frame: 154 lines of 456 clocks.
pub open spec fn frame_clocks() -> int {
    70224
}

/// Position in the frame at which VBlank starts: line 144, clock 0.
pub open spec fn vblank_start() -> int {
    65664
}

/// Clocks since the start of the frame.
pub open spec fn frame_position(p: PpuState) -> int {
    p.ly * LINE_CLOCKS + p.clocks
}

/// With the LCD on, each clock moves the PPU one place forward in the frame,
/// wrapping at the end, and the VBlank request is raised exactly on the
/// clock that reaches line 144.
pub proof fn lemma_tick_position(p: PpuState)
    requires
        p.wf(),
    ensures
        p.tick().wf(),
        frame_position(p.tick()) == (frame_position(p) + 1) % frame_clocks(),
        p.tick().vblank == (p.vblank || frame_position(p.tick()) == vblank_start()),
{
}

/// After `n` clocks with the LCD on, the PPU is `n` places further in the
/// frame, modulo the frame length.
pub proof fn lemma_ticks_position(p: PpuState, n: nat)
    requires
        p.wf(),
    ensures
        p.ticks(n).wf(),
        frame_position(p.ticks(n)) == (frame_position(p) + n) % frame_clocks(),
    decreases n,
{
    if n > 0 {
        lemma_ticks_position(p, (n - 1) as nat);
        lemma_tick_position(p.ticks((n - 1) as nat));
        let a = frame_position(p) + n - 1;
        assert(((a % frame_clocks()) + 1) % frame_clocks() == (a + 1) % frame_clocks()) by {
            vstd::arithmetic::div_mod::lemma_add_mod_noop(a, 1, frame_clocks());
            vstd::arithmetic::div_mod::lemma_small_mod(1, frame_clocks() as nat);
        }
    }
}

/// Frame timing: with the LCD on, a frame is exactly 70 224 clocks long,
/// and among any 70 224 consecutive clocks exactly one raises VBlank.
pub proof fn lemma_one_vblank_per_frame(p: PpuState, k: nat)
    requires
        p.wf(),
        1 <= k <= frame_clocks(),
    ensures
        frame_position(p.ticks(frame_clocks() as nat)) == frame_position(p),
        p.ticks(k).vblank == (p.ticks((k - 1) as nat).vblank || frame_position(p.ticks(k))
            == vblank_start()),
        (frame_position(p.ticks(k)) == vblank_start()) == (k == (if frame_position(p)
            < vblank_start() {
            vblank_start() - frame_position(p)
        } else {
            vblank_start() + frame_clocks() - frame_position(p)
        })),
{
    lemma_ticks_position(p, frame_clocks() as nat);
    lemma_ticks_position(p, k);
    lemma_ticks_position(p, (k - 1) as nat);
    lemma_tick_position(p.ticks((k - 1) as nat));
    let pos = frame_position(p);
    assert(0 <= pos < frame_clocks());
    assert((pos + frame_clocks()) % frame_clocks() == pos) by {
        vstd::arithmetic::div_mod::lemma_mod_add_multiples_vanish(pos, frame_clocks());
        vstd::arithmetic::div_mod::lemma_small_mod(pos as nat, frame_clocks() as nat);
    }
    if pos + k < frame_clocks() {
        vstd::arithmetic::div_mod::lemma_small_mod((pos + k) as nat, frame_clocks() as nat);
    } else {
        vstd::arithmetic::div_mod::lemma_mod_sub_multiples_vanish(pos + k, frame_clocks());
        vstd::arithmetic::div_mod::lemma_small_mod((pos + k - frame_clocks()) as nat, frame_clocks() as nat);
    }
}

} // verus!
