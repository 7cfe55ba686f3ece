//! Pixel-processing unit: VRAM and OAM storage, the LCD registers, the mode
//! state machine driven one T-cycle at a time, the OAM DMA engine, palette
//! lookup tables, and the VRAM-to-debug-texture decoder.
use vstd::prelude::*;

use crate::alu::add8;
use crate::bits::zero_bytes;

verus! {

/// One sprite record of object attribute memory.
#[derive(Clone, Copy, Debug, PartialEq, Eq, Structural)]
pub struct OAMEntry {
    pub y: u8,
    pub x: u8,
    pub tile: u8,
    pub flags: u8,
}

impl OAMEntry {
    pub fn new() -> (r: OAMEntry)
        ensures
            r.y == 0 && r.x == 0 && r.tile == 0 && r.flags == 0,
    {
        OAMEntry { y: 0, x: 0, tile: 0, flags: 0 }
    }

    /// Bit 7 of the sprite flags: background priority.
    pub fn bg_priority(&self) -> (r: bool)
        ensures
            r == (self.flags & 0x80 != 0),
    {
        self.flags & 0x80 != 0
    }
}

#[derive(Clone, Copy, Debug, PartialEq, Eq, Structural)]
pub enum PPUMode {
    HBlank,
    VBlank,
    OAMScan,
    Drawing,
}

/// The two-bit encoding of a PPU mode in STAT bits 0-1.
pub open spec fn mode_bits(m: PPUMode) -> u8 {
    match m {
        PPUMode::HBlank => 0u8,
        PPUMode::VBlank => 1u8,
        PPUMode::OAMScan => 2u8,
        PPUMode::Drawing => 3u8,
    }
}

/// The PPU mode encoded in a STAT byte.
pub open spec fn ppu_mode_of(status: u8) -> PPUMode {
    if status & 0x03 == 0 {
        PPUMode::HBlank
    } else if status & 0x03 == 1 {
        PPUMode::VBlank
    } else if status & 0x03 == 2 {
        PPUMode::OAMScan
    } else {
        PPUMode::Drawing
    }
}

/// A STAT byte with its mode bits replaced.
pub open spec fn with_mode(status: u8, m: PPUMode) -> u8 {
    (status & 0xFC) | mode_bits(m)
}

/// A STAT byte with its LY==LYC coincidence bit (bit 2) replaced.
pub open spec fn with_lyc(status: u8, eq: bool) -> u8 {
    if eq {
        status | 0x04
    } else {
        status & 0xFB
    }
}

/// The STAT bookkeeping the solver needs about mode and coincidence-bit
/// updates: each touches only its own bits.
pub proof fn lemma_stat_bits(status: u8, b: u8)
    requires
        b < 4,
    ensures
        ((status & 0xFC) | b) & 0x03 == b,
        ((status & 0xFC) | b) & 0xFC == status & 0xFC,
        (status | 0x04) & 0x03 == status & 0x03,
        (status & 0xFB) & 0x03 == status & 0x03,
        (status | 0x04) & 0xFC == (status & 0xFC) | 0x04,
        status & 0x03 < 4,
        ((status & 0xFC) | b) & 0x08 == status & 0x08,
        ((status & 0xFC) | b) & 0x10 == status & 0x10,
        ((status & 0xFC) | b) & 0x20 == status & 0x20,
        ((status & 0xFC) | b) & 0x40 == status & 0x40,
        (status | 0x04) & 0x08 == status & 0x08,
        (status | 0x04) & 0x10 == status & 0x10,
        (status | 0x04) & 0x20 == status & 0x20,
        (status | 0x04) & 0x40 == status & 0x40,
        (status & 0xFB) & 0x08 == status & 0x08,
        (status & 0xFB) & 0x10 == status & 0x10,
        (status & 0xFB) & 0x20 == status & 0x20,
        (status & 0xFB) & 0x40 == status & 0x40,
        (status | 0x04) & 0x04 != 0,
        (status & 0xFB) & 0x04 == 0,
{
    assert(((status & 0xFC) | b) & 0x03 == b && ((status & 0xFC) | b) & 0xFC == status & 0xFC && (
    status | 0x04) & 0x03 == status & 0x03 && (status & 0xFB) & 0x03 == status & 0x03 && (status
        | 0x04) & 0xFC == ((status & 0xFC) | 0x04) && status & 0x03 < 4) by (bit_vector)
        requires
            b < 4,
    ;
    assert(((status & 0xFC) | b) & 0x08 == status & 0x08 && ((status & 0xFC) | b) & 0x10 == status
        & 0x10 && ((status & 0xFC) | b) & 0x20 == status & 0x20 && ((status & 0xFC) | b) & 0x40
        == status & 0x40) by (bit_vector)
        requires
            b < 4,
    ;
    assert((status | 0x04) & 0x08 == status & 0x08 && (status | 0x04) & 0x10 == status & 0x10 && (
    status | 0x04) & 0x20 == status & 0x20 && (status | 0x04) & 0x40 == status & 0x40 && (status
        & 0xFB) & 0x08 == status & 0x08 && (status & 0xFB) & 0x10 == status & 0x10 && (status
        & 0xFB) & 0x20 == status & 0x20 && (status & 0xFB) & 0x40 == status & 0x40 && (status
        | 0x04) & 0x04 != 0 && (status & 0xFB) & 0x04 == 0) by (bit_vector);
}

/// The fixed grayscale the palettes index: channel `ch` (red, green, blue,
/// alpha) of color index `idx`.
pub open spec fn tile_color(idx: u8, ch: int) -> u8 {
    if ch == 3 {
        0xFFu8
    } else if idx == 0 {
        0xFFu8
    } else if idx == 1 {
        0xAAu8
    } else if idx == 2 {
        0x55u8
    } else {
        0x00u8
    }
}

fn tile_color_exec(idx: u8, ch: usize) -> (r: u8)
    requires
        ch < 4,
    ensures
        r == tile_color(idx, ch as int),
{
    if ch == 3 {
        0xFF
    } else if idx == 0 {
        0xFF
    } else if idx == 1 {
        0xAA
    } else if idx == 2 {
        0x55
    } else {
        0x00
    }
}

/// The 2-bit color index a palette byte assigns to slot `i`.
pub open spec fn palette_index(data: u8, i: int) -> u8 {
    (data >> (2 * i) as u8) & 0x03
}

/// A 16-byte palette lookup table (four RGBA quads) built from a palette
/// byte.
pub open spec fn palette_table(data: u8) -> Seq<u8> {
    Seq::new(16, |j: int| tile_color(palette_index(data, j / 4), j % 4))
}

/// The OAM DMA engine: while active it copies one byte per T-cycle after a
/// two-cycle warm-up, 160 bytes in all.
#[derive(Clone, Copy, Debug, PartialEq, Eq, Structural)]
pub struct DMA {
    pub active: bool,
    /// The next OAM offset to fill, 0 to 0x9F while active.
    pub byte: u8,
    /// The source page: bytes come from `value << 8 | byte`.
    pub value: u8,
    pub start_delay: u8,
}

pub open spec fn dma_wf(d: DMA) -> bool {
    d.active ==> d.byte < 0xA0
}

/// The DMA engine after one T-cycle.
pub open spec fn dma_after_tick(d: DMA) -> DMA {
    if !d.active {
        d
    } else if d.start_delay != 0 {
        DMA { start_delay: (d.start_delay - 1) as u8, ..d }
    } else {
        DMA { byte: (d.byte + 1) as u8, active: d.byte + 1 < 0xA0, ..d }
    }
}

/// The transfer one T-cycle performs, if any: source address and OAM offset.
pub open spec fn dma_transfer(d: DMA) -> Option<(u16, u16)> {
    if d.active && d.start_delay == 0 {
        Some((((d.value as u16) * 0x100 + (d.byte as u16)) as u16, d.byte as u16))
    } else {
        None
    }
}

impl DMA {
    pub fn new() -> (r: DMA)
        ensures
            r.active == false,
            r.byte == 0,
            r.value == 0,
            r.start_delay == 0,
    {
        DMA { active: false, byte: 0, value: 0, start_delay: 0 }
    }

    /// A write to 0xFF46: arm the engine with a two-cycle warm-up.
    pub fn start(&mut self, start: u8)
        ensures
            *final(self) == (DMA { active: true, byte: 0, start_delay: 2, value: start }),
    {
        self.active = true;
        self.byte = 0;
        self.start_delay = 2;
        self.value = start;
    }

    /// One T-cycle: warm up, or emit the next (source, OAM offset) pair;
    /// the engine deactivates after byte 0x9F.
    pub fn tick(&mut self) -> (r: Option<(u16, u16)>)
        requires
            dma_wf(*old(self)),
        ensures
            *final(self) == dma_after_tick(*old(self)),
            r == dma_transfer(*old(self)),
            dma_wf(*final(self)),
    {
        if !self.active {
            return None;
        }
        if self.start_delay != 0 {
            self.start_delay = self.start_delay - 1;
            return None;
        }
        let from = (self.value as u16) * 0x100 + (self.byte as u16);
        let to = self.byte as u16;
        self.byte = self.byte + 1;
        self.active = self.byte < 0xA0;
        Some((from, to))
    }
}

/// The LCD registers and the three palette lookup tables.
#[derive(Debug)]
pub struct LCD {
    pub control: u8,
    pub status: u8,
    pub scroll_y: u8,
    pub scroll_x: u8,
    pub ly: u8,
    pub ly_compare: u8,
    pub bg_palette: u8,
    pub obj_palette0: u8,
    pub obj_palette1: u8,
    pub window_y: u8,
    pub window_x: u8,
    pub bg_colors: Vec<u8>,
    pub sp1_colors: Vec<u8>,
    pub sp2_colors: Vec<u8>,
}

pub open spec fn lcd_wf(lcd: LCD) -> bool {
    &&& lcd.bg_colors@.len() == 16
    &&& lcd.sp1_colors@.len() == 16
    &&& lcd.sp2_colors@.len() == 16
}

impl LCD {
    /// Power-on LCD state: LCDC 0x91, mode 2 (OAM scan), BGP 0xFC, OBP 0xFF.
    pub fn new() -> (r: LCD)
        ensures
            r.control == 0x91,
            r.status == 2,
            r.scroll_y == 0 && r.scroll_x == 0 && r.ly == 0 && r.ly_compare == 0,
            r.bg_palette == 0xFC,
            r.obj_palette0 == 0xFF && r.obj_palette1 == 0xFF,
            r.window_y == 0 && r.window_x == 0,
            r.bg_colors@ == palette_table(0xE4),
            r.sp1_colors@ == palette_table(0xE4),
            r.sp2_colors@ == palette_table(0xE4),
            lcd_wf(r),
    {
        let mut lcd = LCD {
            control: 0x91,
            status: 0,
            scroll_y: 0,
            scroll_x: 0,
            ly: 0,
            ly_compare: 0,
            bg_palette: 0xFC,
            obj_palette0: 0xFF,
            obj_palette1: 0xFF,
            window_y: 0,
            window_x: 0,
            bg_colors: identity_palette(),
            sp1_colors: identity_palette(),
            sp2_colors: identity_palette(),
        };
        lcd.set_ppu_mode(PPUMode::OAMScan);
        proof {
            lemma_stat_bits(0, 2);
            assert((0u8 & 0xFC) | 2 == 2) by (bit_vector);
        }
        lcd
    }

    pub fn is_enabled(&self) -> (r: bool)
        ensures
            r == (self.control & 0x80 != 0),
    {
        self.control & 0x80 != 0
    }

    /// VRAM range of the window tile map, as selected by LCDC bit 6.
    pub fn get_window_tile_map_area(&self) -> (r: (usize, usize))
        ensures
            self.control & 0x40 != 0 ==> r == (0x9C00usize, 0x9FFFusize),
            self.control & 0x40 == 0 ==> r == (0x9800usize, 0x9BFFusize),
    {
        if self.control & 0x40 != 0 {
            (0x9C00, 0x9FFF)
        } else {
            (0x9800, 0x9BFF)
        }
    }

    pub fn is_window_enabled(&self) -> (r: bool)
        ensures
            r == (self.control & 0x20 != 0),
    {
        self.control & 0x20 != 0
    }

    /// VRAM range of background/window tile data, as selected by LCDC bit 4.
    pub fn get_bg_window_tile_data_area(&self) -> (r: (usize, usize))
        ensures
            self.control & 0x10 != 0 ==> r == (0x8000usize, 0x8FFFusize),
            self.control & 0x10 == 0 ==> r == (0x8800usize, 0x97FFusize),
    {
        if self.control & 0x10 != 0 {
            (0x8000, 0x8FFF)
        } else {
            (0x8800, 0x97FF)
        }
    }

    /// VRAM range of the background tile map, as selected by LCDC bit 3.
    pub fn get_bg_tile_map_area(&self) -> (r: (usize, usize))
        ensures
            self.control & 0x08 != 0 ==> r == (0x9C00usize, 0x9FFFusize),
            self.control & 0x08 == 0 ==> r == (0x9800usize, 0x9BFFusize),
    {
        if self.control & 0x08 != 0 {
            (0x9C00, 0x9FFF)
        } else {
            (0x9800, 0x9BFF)
        }
    }

    /// Sprite size selected by LCDC bit 2.
    pub fn get_obj_size(&self) -> (r: (u8, u8))
        ensures
            self.control & 0x04 != 0 ==> r == (8u8, 8u8),
            self.control & 0x04 == 0 ==> r == (8u8, 16u8),
    {
        if self.control & 0x04 != 0 {
            (8, 8)
        } else {
            (8, 16)
        }
    }

    pub fn is_obj_enable(&self) -> (r: bool)
        ensures
            r == (self.control & 0x02 != 0),
    {
        self.control & 0x02 != 0
    }

    pub fn is_bg_window_enabled(&self) -> (r: bool)
        ensures
            r == (self.control & 0x01 != 0),
    {
        self.control & 0x01 != 0
    }

    pub fn get_ppu_mode(&self) -> (r: PPUMode)
        ensures
            r == ppu_mode_of(self.status),
    {
        proof {
            lemma_stat_bits(self.status, 0);
        }
        let bits = self.status & 0x03;
        if bits == 0 {
            PPUMode::HBlank
        } else if bits == 1 {
            PPUMode::VBlank
        } else if bits == 2 {
            PPUMode::OAMScan
        } else {
            PPUMode::Drawing
        }
    }

    pub fn set_ppu_mode(&mut self, mode: PPUMode)
        ensures
            final(self).status == with_mode(old(self).status, mode),
            *final(self) == (LCD { status: final(self).status, ..*old(self) }),
            ppu_mode_of(final(self).status) == mode,
            final(self).status & 0x08 == old(self).status & 0x08,
            final(self).status & 0x10 == old(self).status & 0x10,
            final(self).status & 0x20 == old(self).status & 0x20,
            final(self).status & 0x40 == old(self).status & 0x40,
    {
        let bits: u8 = match mode {
            PPUMode::HBlank => 0,
            PPUMode::VBlank => 1,
            PPUMode::OAMScan => 2,
            PPUMode::Drawing => 3,
        };
        proof {
            lemma_stat_bits(self.status, bits);
        }
        self.status = (self.status & 0xFC) | bits;
    }

    pub fn is_lyc_int_selected(&self) -> (r: bool)
        ensures
            r == (self.status & 0x40 != 0),
    {
        self.status & 0x40 != 0
    }

    pub fn is_mode2_int_selected(&self) -> (r: bool)
        ensures
            r == (self.status & 0x20 != 0),
    {
        self.status & 0x20 != 0
    }

    pub fn is_mode1_int_selected(&self) -> (r: bool)
        ensures
            r == (self.status & 0x10 != 0),
    {
        self.status & 0x10 != 0
    }

    pub fn is_mode0_int_selected(&self) -> (r: bool)
        ensures
            r == (self.status & 0x08 != 0),
    {
        self.status & 0x08 != 0
    }

    pub fn is_lyc_equals_ly(&self) -> (r: bool)
        ensures
            r == (self.status & 0x04 != 0),
    {
        self.status & 0x04 != 0
    }

    pub fn set_lyc_equals_ly(&mut self, equals: bool)
        ensures
            final(self).status == with_lyc(old(self).status, equals),
            *final(self) == (LCD { status: final(self).status, ..*old(self) }),
            ppu_mode_of(final(self).status) == ppu_mode_of(old(self).status),
            final(self).status & 0x08 == old(self).status & 0x08,
            final(self).status & 0x10 == old(self).status & 0x10,
            final(self).status & 0x20 == old(self).status & 0x20,
            final(self).status & 0x40 == old(self).status & 0x40,
            (final(self).status & 0x04 != 0) == equals,
    {
        proof {
            lemma_stat_bits(self.status, 0);
        }
        if equals {
            self.status = self.status | 0x04;
        } else {
            self.status = self.status & 0xFB;
        }
    }

    /// Rebuild one palette lookup table from a palette byte: slot i takes the
    /// grayscale quad its 2-bit field selects.
    pub fn update_palette(color: &mut Vec<u8>, data: u8)
        requires
            old(color)@.len() == 16,
        ensures
            final(color)@ == palette_table(data),
    {
        let mut i: usize = 0;
        while i < 4
            invariant
                color@.len() == 16,
                i <= 4,
                forall|j: int| 0 <= j < 4 * i ==> color@[j] == palette_table(data)[j],
            decreases 4 - i,
        {
            proof {
                crate::bits::lemma_u8_mask_bounds(data >> (2 * i) as u8);
            }
            let idx = (data >> (2 * i) as u8) & 0x03;
            let mut ch: usize = 0;
            while ch < 4
                invariant
                    color@.len() == 16,
                    i < 4,
                    ch <= 4,
                    idx == palette_index(data, i as int),
                    forall|j: int| 0 <= j < 4 * i + ch ==> color@[j] == palette_table(data)[j],
                decreases 4 - ch,
            {
                color[4 * i + ch] = tile_color_exec(idx, ch);
                ch = ch + 1;
            }
            i = i + 1;
        }
        proof {
            assert(color@ =~= palette_table(data));
        }
    }
}

/// The identity palette table, the power-on value of all three lookups:
/// palette byte 0xE4 maps each index to itself.
fn identity_palette() -> (r: Vec<u8>)
    ensures
        r@ == palette_table(0xE4),
{
    let mut v: Vec<u8> = zero_bytes(16);
    LCD::update_palette(&mut v, 0xE4);
    v
}

pub struct PPU {
    /// Object attribute memory, 160 bytes at 0xFE00.
    pub oam_ram: Vec<u8>,
    /// Video RAM, 8 KiB at 0x8000.
    pub vram: Vec<u8>,
    /// Frames completed so far (VBlank entries), wrapping.
    pub current_frame: u64,
    /// T-cycles into the current scanline; a line is 456 of them.
    pub line_ticks: u32,
    /// 144 rows of 160 color indices; reserved for rendering.
    pub video_buffer: Vec<u8>,
    /// Whether the debug tile texture is kept up to date.
    pub debug_enabled: bool,
    /// The debug tile texture: all 384 tiles as a 128x256 RGBA image.
    pub debug_screen: Vec<u8>,
    pub dma: DMA,
    pub lcd: LCD,
}

/// What the mode state machine and the bus rely on between T-cycles: buffer
/// sizes, the DMA cursor bound, LY in range for the mode, and the scanline
/// counter within the span its mode allows.
pub open spec fn ppu_wf(p: PPU) -> bool {
    &&& p.oam_ram@.len() == 0xA0
    &&& p.vram@.len() == 0x2000
    &&& p.video_buffer@.len() == 144 * 160
    &&& p.debug_screen@.len() == 0x20000
    &&& dma_wf(p.dma)
    &&& lcd_wf(p.lcd)
}

/// An LCD with LY replaced and the coincidence bit refreshed against LYC.
pub open spec fn lcd_with_ly(lcd: LCD, ly2: u8) -> LCD {
    LCD { ly: ly2, status: with_lyc(lcd.status, ly2 == lcd.ly_compare), ..lcd }
}

/// The PPU after one T-cycle of the mode state machine (DMA ticks
/// separately): OAM scan runs 80 T-cycles into drawing, drawing 172 more
/// into horizontal blank, and at T-cycle 456 the line ends, advancing LY and
/// entering OAM scan, or vertical blank for ten lines starting at LY 144.
pub open spec fn ppu_after_tick(p: PPU) -> PPU {
    let lt = if p.line_ticks == u32::MAX {
        0int
    } else {
        p.line_ticks + 1
    };
    if ppu_mode_of(p.lcd.status) == PPUMode::HBlank {
        if lt >= 456 {
            let lcd2 = lcd_with_ly(p.lcd, add8(p.lcd.ly, 1));
            if lcd2.ly >= 144 {
                PPU {
                    line_ticks: 0,
                    current_frame: if p.current_frame == u64::MAX {
                        0u64
                    } else {
                        (p.current_frame + 1) as u64
                    },
                    lcd: LCD { status: with_mode(lcd2.status, PPUMode::VBlank), ..lcd2 },
                    ..p
                }
            } else {
                PPU {
                    line_ticks: 0,
                    lcd: LCD { status: with_mode(lcd2.status, PPUMode::OAMScan), ..lcd2 },
                    ..p
                }
            }
        } else {
            PPU { line_ticks: lt as u32, ..p }
        }
    } else if ppu_mode_of(p.lcd.status) == PPUMode::VBlank {
        if lt >= 456 {
            let lcd2 = lcd_with_ly(p.lcd, add8(p.lcd.ly, 1));
            if lcd2.ly >= 154 {
                PPU {
                    line_ticks: 0,
                    lcd: LCD {
                        ly: 0,
                        status: with_mode(lcd2.status, PPUMode::OAMScan),
                        ..lcd2
                    },
                    ..p
                }
            } else {
                PPU { line_ticks: 0, lcd: lcd2, ..p }
            }
        } else {
            PPU { line_ticks: lt as u32, ..p }
        }
    } else if ppu_mode_of(p.lcd.status) == PPUMode::OAMScan {
        if lt >= 80 {
            PPU {
                line_ticks: lt as u32,
                lcd: LCD { status: with_mode(p.lcd.status, PPUMode::Drawing), ..p.lcd },
                ..p
            }
        } else {
            PPU { line_ticks: lt as u32, ..p }
        }
    } else {
        if lt >= 252 {
            PPU {
                line_ticks: lt as u32,
                lcd: LCD { status: with_mode(p.lcd.status, PPUMode::HBlank), ..p.lcd },
                ..p
            }
        } else {
            PPU { line_ticks: lt as u32, ..p }
        }
    }
}

/// The PPU mode machine after `n` T-cycles (with the DMA engine idle).
pub open spec fn ppu_after_n(p: PPU, n: nat) -> PPU
    decreases n,
{
    if n == 0 {
        p
    } else {
        ppu_after_tick(ppu_after_n(p, (n - 1) as nat))
    }
}

/// Tick counts of the mode machine compose.
pub proof fn lemma_ppu_after_n_add(p: PPU, a: nat, b: nat)
    ensures
        ppu_after_n(ppu_after_n(p, a), b) == ppu_after_n(p, a + b),
    decreases b,
{
    if b > 0 {
        lemma_ppu_after_n_add(p, a, (b - 1) as nat);
        assert(ppu_after_n(p, a + b) == ppu_after_tick(ppu_after_n(p, (a + b - 1) as nat)));
        assert(ppu_after_n(ppu_after_n(p, a), b) == ppu_after_tick(
            ppu_after_n(ppu_after_n(p, a), (b - 1) as nat),
        ));
    }
}

/// Whether two PPUs agree on everything the mode machine reads and writes:
/// the LCD registers, the scanline counter and the frame counter.
pub open spec fn ppu_video_eq(p1: PPU, p2: PPU) -> bool {
    &&& p1.lcd == p2.lcd
    &&& p1.line_ticks == p2.line_ticks
    &&& p1.current_frame == p2.current_frame
}

/// Video-equal PPUs tick to video-equal PPUs and raise the same requests.
pub proof fn lemma_ppu_tick_video_eq(p1: PPU, p2: PPU)
    requires
        ppu_video_eq(p1, p2),
    ensures
        ppu_video_eq(ppu_after_tick(p1), ppu_after_tick(p2)),
        ppu_tick_irqs(p1) == ppu_tick_irqs(p2),
{
}

/// Video equality survives any number of ticks.
pub proof fn lemma_ppu_after_n_video_eq(p1: PPU, p2: PPU, n: nat)
    requires
        ppu_video_eq(p1, p2),
    ensures
        ppu_video_eq(ppu_after_n(p1, n), ppu_after_n(p2, n)),
    decreases n,
{
    if n > 0 {
        lemma_ppu_after_n_video_eq(p1, p2, (n - 1) as nat);
        lemma_ppu_tick_video_eq(ppu_after_n(p1, (n - 1) as nat), ppu_after_n(p2, (n - 1) as nat));
    }
}

/// The mode machine and its requests read only the video-facing fields, so
/// two PPUs that differ in just the DMA engine and OAM contents tick alike.
pub proof fn lemma_ppu_tick_video(p1: PPU, p2: PPU)
    requires
        p1 == (PPU { dma: p1.dma, oam_ram: p1.oam_ram, ..p2 }),
    ensures
        ppu_after_tick(p1) == (PPU { dma: p1.dma, oam_ram: p1.oam_ram, ..ppu_after_tick(p2) }),
        ppu_tick_irqs(p1) == ppu_tick_irqs(p2),
{
}

/// The interrupt requests one T-cycle raises, as IF bits: bit 0 VBlank,
/// bit 1 LCDStat. LCDStat fires on an LY==LYC match when STAT bit 6 selects
/// it, and on entering modes 0, 1 and 2 when STAT bits 3, 4 and 5 do.
pub open spec fn ppu_tick_irqs(p: PPU) -> u8 {
    let lt = if p.line_ticks == u32::MAX {
        0int
    } else {
        p.line_ticks + 1
    };
    if ppu_mode_of(p.lcd.status) == PPUMode::HBlank && lt >= 456 {
        let ly2 = add8(p.lcd.ly, 1);
        let lyc_irq: u8 = if ly2 == p.lcd.ly_compare && p.lcd.status & 0x40 != 0 {
            2u8
        } else {
            0u8
        };
        if ly2 >= 144 {
            lyc_irq | 1 | (if p.lcd.status & 0x10 != 0 {
                2u8
            } else {
                0u8
            })
        } else {
            lyc_irq | (if p.lcd.status & 0x20 != 0 {
                2u8
            } else {
                0u8
            })
        }
    } else if ppu_mode_of(p.lcd.status) == PPUMode::VBlank && lt >= 456 {
        let ly2 = add8(p.lcd.ly, 1);
        let lyc_irq: u8 = if ly2 == p.lcd.ly_compare && p.lcd.status & 0x40 != 0 {
            2u8
        } else {
            0u8
        };
        if ly2 >= 154 {
            lyc_irq | (if p.lcd.status & 0x20 != 0 {
                2u8
            } else {
                0u8
            })
        } else {
            lyc_irq
        }
    } else if ppu_mode_of(p.lcd.status) == PPUMode::Drawing && lt >= 252 {
        if p.lcd.status & 0x08 != 0 {
            2u8
        } else {
            0u8
        }
    } else {
        0u8
    }
}

/// What a CPU read of OAM returns: 0xFF while DMA owns it.
pub open spec fn oam_read_spec(p: PPU, address: u16) -> u8 {
    if p.dma.active {
        0xFFu8
    } else {
        p.oam_ram@[address - 0xFE00]
    }
}

/// What a CPU read of a PPU register returns.
pub open spec fn ppu_reg_read_spec(p: PPU, address: u16) -> u8 {
    if address == 0xFF40 {
        p.lcd.control
    } else if address == 0xFF41 {
        p.lcd.status
    } else if address == 0xFF42 {
        p.lcd.scroll_y
    } else if address == 0xFF43 {
        p.lcd.scroll_x
    } else if address == 0xFF44 {
        p.lcd.ly
    } else if address == 0xFF45 {
        p.lcd.ly_compare
    } else if address == 0xFF46 {
        p.dma.value
    } else if address == 0xFF47 {
        p.lcd.bg_palette
    } else if address == 0xFF48 {
        p.lcd.obj_palette0
    } else if address == 0xFF49 {
        p.lcd.obj_palette1
    } else if address == 0xFF4A {
        p.lcd.window_y
    } else {
        p.lcd.window_x
    }
}

impl PPU {
    /// Power-on PPU: cleared memories, LCD at its power-on registers, DMA
    /// idle, debug texture off.
    pub fn create() -> (r: PPU)
        ensures
            ppu_wf(r),
            r.oam_ram@ =~= Seq::new(0xA0, |i: int| 0u8),
            r.vram@ =~= Seq::new(0x2000, |i: int| 0u8),
            r.current_frame == 0,
            r.line_ticks == 0,
            r.debug_enabled == false,
            r.dma == (DMA { active: false, byte: 0, value: 0, start_delay: 0 }),
            r.lcd.control == 0x91 && r.lcd.status == 2 && r.lcd.ly == 0,
            r.lcd.bg_palette == 0xFC && r.lcd.obj_palette0 == 0xFF && r.lcd.obj_palette1 == 0xFF,
            r.lcd.scroll_x == 0 && r.lcd.scroll_y == 0 && r.lcd.ly_compare == 0,
            r.lcd.window_x == 0 && r.lcd.window_y == 0,
    {
        let r = PPU {
            oam_ram: zero_bytes(0xA0),
            vram: zero_bytes(0x2000),
            current_frame: 0,
            line_ticks: 0,
            video_buffer: zero_bytes(144 * 160),
            debug_enabled: false,
            debug_screen: zero_bytes(0x20000),
            dma: DMA::new(),
            lcd: LCD::new(),
        };
        proof {
            assert(r.oam_ram@ =~= Seq::new(0xA0, |i: int| 0u8));
            assert(r.vram@ =~= Seq::new(0x2000, |i: int| 0u8));
            lemma_stat_bits(2, 0);
        }
        r
    }

    /// Keep the debug tile texture up to date from now on, and decode all of
    /// VRAM into it once: afterwards every tile line of VRAM stands decoded
    /// in the texture.
    pub fn set_debug_screen_writer(&mut self)
        requires
            ppu_wf(*old(self)),
        ensures
            ppu_wf(*final(self)),
            final(self).debug_enabled == true,
            *final(self) == (PPU {
                debug_enabled: true,
                debug_screen: final(self).debug_screen,
                ..*old(self)
            }),
            forall|a: u16| a < 0x2000 ==> debug_line_decoded(*final(self), a),
    {
        self.debug_enabled = true;
        let mut addr: u16 = 0;
        while addr < 0x2000
            invariant
                ppu_wf(*self),
                self.debug_enabled == true,
                addr % 2 == 0,
                addr <= 0x2000,
                *self == (PPU {
                    debug_enabled: true,
                    debug_screen: self.debug_screen,
                    ..*old(self)
                }),
                forall|a: u16| a < addr ==> debug_line_decoded(*self, a),
            decreases 0x2000 - addr,
        {
            let ghost prev = *self;
            self.write_to_debug_screen(addr);
            proof {
                assert forall|a: u16| a < addr + 2 implies debug_line_decoded(*self, a) by {
                    lemma_debug_parity(a);
                    lemma_debug_parity(addr);
                    lemma_debug_block_bounds(a);
                    lemma_debug_block_bounds(addr);
                    lemma_debug_layout(a);
                    lemma_debug_layout(addr);
                    assert(addr & 0xFFFE == addr) by (bit_vector)
                        requires
                            addr % 2 == 0,
                    ;
                    if a < addr {
                        lemma_debug_block_distinct(a, addr);
                        assert(debug_line_decoded(prev, a));
                        assert forall|b: int, ch: int|
                            0 <= b < 8 && 0 <= ch < 4 implies (#[trigger] self.debug_screen@[
                        debug_block_base(a) + b * 4 + ch]) == tile_color(
                            tile_line_pixel(
                                self.vram@[(a & 0xFFFE) as int],
                                self.vram@[(a | 1) as int],
                                b,
                            ),
                            ch,
                        ) by {
                            assert(self.debug_screen@[debug_block_base(a) + b * 4 + ch]
                                == prev.debug_screen@[debug_block_base(a) + b * 4 + ch]);
                        }
                    } else {
                        assert(a & 0xFFFE == addr) by (bit_vector)
                            requires
                                addr % 2 == 0,
                                addr <= a < addr + 2,
                        ;
                        assert forall|b: int, ch: int|
                            0 <= b < 8 && 0 <= ch < 4 implies (#[trigger] self.debug_screen@[
                        debug_block_base(a) + b * 4 + ch]) == tile_color(
                            tile_line_pixel(
                                self.vram@[(a & 0xFFFE) as int],
                                self.vram@[(a | 1) as int],
                                b,
                            ),
                            ch,
                        ) by {
                            assert(debug_block_base(a) == debug_block_base(addr));
                            assert(self.debug_screen@[debug_block_base(addr) + b * 4 + ch]
                                == tile_color(
                                tile_line_pixel(
                                    prev.vram@[(addr & 0xFFFE) as int],
                                    prev.vram@[(addr | 1) as int],
                                    b,
                                ),
                                ch,
                            ));
                        }
                    }
                }
            }
            addr = addr + 2;
        }
    }

    /// One T-cycle of the mode state machine; the returned bits are the
    /// interrupt requests to merge into IF (bit 0 VBlank, bit 1 LCDStat).
    pub fn tick(&mut self) -> (r: u8)
        requires
            ppu_wf(*old(self)),
        ensures
            ppu_wf(*final(self)),
            *final(self) == ppu_after_tick(*old(self)),
            r == ppu_tick_irqs(*old(self)),
    {
        proof {
            lemma_stat_bits(self.lcd.status, 0);
        }
        self.line_ticks = self.line_ticks.wrapping_add(1);
        let mode = self.lcd.get_ppu_mode();
        let mut irqs: u8 = 0;
        match mode {
            PPUMode::HBlank => {
                if self.line_ticks >= 456 {
                    irqs = self.increment_ly();
                    if self.lcd.ly >= 144 {
                        self.lcd.set_ppu_mode(PPUMode::VBlank);
                        let m1: u8 = if self.lcd.is_mode1_int_selected() {
                            2
                        } else {
                            0
                        };
                        irqs = irqs | 1 | m1;
                        self.current_frame = self.current_frame.wrapping_add(1);
                    } else {
                        self.lcd.set_ppu_mode(PPUMode::OAMScan);
                        let m2: u8 = if self.lcd.is_mode2_int_selected() {
                            2
                        } else {
                            0
                        };
                        irqs = irqs | m2;
                    }
                    self.line_ticks = 0;
                }
            },
            PPUMode::VBlank => {
                if self.line_ticks >= 456 {
                    irqs = self.increment_ly();
                    if self.lcd.ly >= 154 {
                        self.lcd.set_ppu_mode(PPUMode::OAMScan);
                        let m2: u8 = if self.lcd.is_mode2_int_selected() {
                            2
                        } else {
                            0
                        };
                        irqs = irqs | m2;
                        self.lcd.ly = 0;
                    }
                    self.line_ticks = 0;
                }
            },
            PPUMode::OAMScan => {
                if self.line_ticks >= 80 {
                    self.lcd.set_ppu_mode(PPUMode::Drawing);
                }
            },
            PPUMode::Drawing => {
                if self.line_ticks >= 252 {
                    self.lcd.set_ppu_mode(PPUMode::HBlank);
                    if self.lcd.is_mode0_int_selected() {
                        irqs = 2;
                    }
                }
            },
        }
        irqs
    }

    /// Advance LY, refresh the coincidence bit, and report the LCDStat
    /// request bits if the match interrupt is selected.
    fn increment_ly(&mut self) -> (r: u8)
        ensures
            final(self).lcd == lcd_with_ly(old(self).lcd, add8(old(self).lcd.ly, 1)),
            *final(self) == (PPU { lcd: final(self).lcd, ..*old(self) }),
            final(self).lcd.status & 0x08 == old(self).lcd.status & 0x08,
            final(self).lcd.status & 0x10 == old(self).lcd.status & 0x10,
            final(self).lcd.status & 0x20 == old(self).lcd.status & 0x20,
            final(self).lcd.status & 0x40 == old(self).lcd.status & 0x40,
            ppu_mode_of(final(self).lcd.status) == ppu_mode_of(old(self).lcd.status),
            r == (if add8(old(self).lcd.ly, 1) == old(self).lcd.ly_compare && old(self).lcd.status & 0x40 != 0 {
                2u8
            } else {
                0u8
            }),
    {
        self.lcd.ly = self.lcd.ly.wrapping_add(1);
        let eq = self.lcd.ly == self.lcd.ly_compare;
        self.lcd.set_lyc_equals_ly(eq);
        if eq && self.lcd.is_lyc_int_selected() {
            2
        } else {
            0
        }
    }

    /// A CPU read of OAM: blocked (0xFF) while DMA is running.
    pub fn oam_read(&self, address: u16) -> (r: u8)
        requires
            0xFE00 <= address < 0xFEA0,
            ppu_wf(*self),
        ensures
            r == oam_read_spec(*self, address),
    {
        if self.dma.active {
            return 0xFF;
        }
        self.oam_ram[(address - 0xFE00) as usize]
    }

    /// A CPU write of OAM: dropped while DMA is running.
    pub fn oam_write(&mut self, address: u16, value: u8)
        requires
            0xFE00 <= address < 0xFEA0,
            ppu_wf(*old(self)),
        ensures
            ppu_wf(*final(self)),
            old(self).dma.active ==> *final(self) == *old(self),
            !old(self).dma.active ==> *final(self) == (PPU {
                oam_ram: final(self).oam_ram,
                ..*old(self)
            }) && final(self).oam_ram@ == old(self).oam_ram@.update(address - 0xFE00, value),
    {
        if self.dma.active {
            return ;
        }
        self.oam_ram[(address - 0xFE00) as usize] = value;
    }

    /// Advance the DMA engine one T-cycle; the returned pair is the bus
    /// source to read and the OAM offset to fill with it, if this cycle
    /// transfers a byte.
    pub fn dma_tick(&mut self) -> (r: Option<(u16, u16)>)
        requires
            ppu_wf(*old(self)),
        ensures
            ppu_wf(*final(self)),
            *final(self) == (PPU { dma: dma_after_tick(old(self).dma), ..*old(self) }),
            r == dma_transfer(old(self).dma),
            r matches Some(t) ==> t.1 < 0xA0,
    {
        self.dma.tick()
    }

    /// The DMA engine's own OAM write: never blocked.
    pub fn oam_dma_write(&mut self, offset: u16, value: u8)
        requires
            offset < 0xA0,
            ppu_wf(*old(self)),
        ensures
            ppu_wf(*final(self)),
            *final(self) == (PPU { oam_ram: final(self).oam_ram, ..*old(self) }),
            final(self).oam_ram@ == old(self).oam_ram@.update(offset as int, value),
    {
        self.oam_ram[offset as usize] = value;
    }

    pub fn vram_read(&self, address: u16) -> (r: u8)
        requires
            0x8000 <= address < 0xA000,
            ppu_wf(*self),
        ensures
            r == self.vram@[address - 0x8000],
    {
        self.vram[(address - 0x8000) as usize]
    }

    /// A VRAM write; the debug tile texture follows it when enabled.
    pub fn vram_write(&mut self, address: u16, value: u8)
        requires
            0x8000 <= address < 0xA000,
            ppu_wf(*old(self)),
        ensures
            ppu_wf(*final(self)),
            final(self).vram@ == old(self).vram@.update(address - 0x8000, value),
            *final(self) == (PPU {
                vram: final(self).vram,
                debug_screen: final(self).debug_screen,
                ..*old(self)
            }),
            !old(self).debug_enabled ==> final(self).debug_screen == old(self).debug_screen,
            old(self).debug_enabled ==> (forall|j: int|
                0 <= j < 0x20000 && !(debug_block_base((address - 0x8000) as u16) <= j
                    < debug_block_base((address - 0x8000) as u16) + 32) ==> final(self).debug_screen@[j] == old(self).debug_screen@[j]) && (forall|b: int, ch: int|
                0 <= b < 8 && 0 <= ch < 4 ==> (#[trigger] final(self).debug_screen@[
                debug_block_base((address - 0x8000) as u16) + b * 4 + ch]) == tile_color(
                    tile_line_pixel(
                        final(self).vram@[(((address - 0x8000) as u16) & 0xFFFE) as int],
                        final(self).vram@[(((address - 0x8000) as u16) | 1) as int],
                        b,
                    ),
                    ch,
                )),
    {
        self.vram[(address - 0x8000) as usize] = value;
        if self.debug_enabled {
            self.write_to_debug_screen(address - 0x8000);
        }
    }

    pub fn registers_read(&self, address: u16) -> (r: u8)
        requires
            0xFF40 <= address <= 0xFF4B,
        ensures
            r == ppu_reg_read_spec(*self, address),
    {
        if address == 0xFF40 {
            self.lcd.control
        } else if address == 0xFF41 {
            self.lcd.status
        } else if address == 0xFF42 {
            self.lcd.scroll_y
        } else if address == 0xFF43 {
            self.lcd.scroll_x
        } else if address == 0xFF44 {
            self.lcd.ly
        } else if address == 0xFF45 {
            self.lcd.ly_compare
        } else if address == 0xFF46 {
            self.dma.value
        } else if address == 0xFF47 {
            self.lcd.bg_palette
        } else if address == 0xFF48 {
            self.lcd.obj_palette0
        } else if address == 0xFF49 {
            self.lcd.obj_palette1
        } else if address == 0xFF4A {
            self.lcd.window_y
        } else {
            self.lcd.window_x
        }
    }

    /// A CPU write of a PPU register: LY is read-only; 0xFF46 arms DMA;
    /// palette writes rebuild their lookup table, the sprite ones with the
    /// low two bits masked because index zero is transparent; everything
    /// else, STAT included, stores the byte as written.
    pub fn registers_write(&mut self, address: u16, value: u8)
        requires
            0xFF40 <= address <= 0xFF4B,
            ppu_wf(*old(self)),
        ensures
            ppu_wf(*final(self)),
            final(self).oam_ram == old(self).oam_ram,
            final(self).vram == old(self).vram,
            final(self).video_buffer == old(self).video_buffer,
            final(self).debug_screen == old(self).debug_screen,
            final(self).debug_enabled == old(self).debug_enabled,
            final(self).line_ticks == old(self).line_ticks,
            final(self).current_frame == old(self).current_frame,
            address == 0xFF40 ==> final(self).lcd.control == value,
            address == 0xFF41 ==> final(self).lcd.status == value,
            address == 0xFF42 ==> final(self).lcd.scroll_y == value,
            address == 0xFF43 ==> final(self).lcd.scroll_x == value,
            address == 0xFF44 ==> *final(self) == *old(self),
            address == 0xFF45 ==> final(self).lcd.ly_compare == value,
            address == 0xFF46 ==> final(self).dma == (DMA {
                active: true,
                byte: 0,
                start_delay: 2,
                value,
            }),
            address != 0xFF46 ==> final(self).dma == old(self).dma,
            address == 0xFF47 ==> final(self).lcd.bg_palette == value && final(self).lcd.bg_colors@ == palette_table(value),
            address == 0xFF48 ==> final(self).lcd.obj_palette0 == value && final(self).lcd.sp1_colors@ == palette_table(value & 0xFC),
            address == 0xFF49 ==> final(self).lcd.obj_palette1 == value && final(self).lcd.sp2_colors@ == palette_table(value & 0xFC),
            address == 0xFF4A ==> final(self).lcd.window_y == value,
            address == 0xFF4B ==> final(self).lcd.window_x == value,
            address != 0xFF40 ==> final(self).lcd.control == old(self).lcd.control,
            address != 0xFF41 ==> final(self).lcd.status == old(self).lcd.status,
            address != 0xFF42 ==> final(self).lcd.scroll_y == old(self).lcd.scroll_y,
            address != 0xFF43 ==> final(self).lcd.scroll_x == old(self).lcd.scroll_x,
            address != 0xFF45 ==> final(self).lcd.ly_compare == old(self).lcd.ly_compare,
            address != 0xFF47 ==> final(self).lcd.bg_palette == old(self).lcd.bg_palette && final(self).lcd.bg_colors == old(self).lcd.bg_colors,
            address != 0xFF48 ==> final(self).lcd.obj_palette0 == old(self).lcd.obj_palette0
                && final(self).lcd.sp1_colors == old(self).lcd.sp1_colors,
            address != 0xFF49 ==> final(self).lcd.obj_palette1 == old(self).lcd.obj_palette1
                && final(self).lcd.sp2_colors == old(self).lcd.sp2_colors,
            address != 0xFF4A ==> final(self).lcd.window_y == old(self).lcd.window_y,
            address != 0xFF4B ==> final(self).lcd.window_x == old(self).lcd.window_x,
            final(self).lcd.ly == old(self).lcd.ly,
    {
        if address == 0xFF40 {
            self.lcd.control = value;
        } else if address == 0xFF41 {
            self.lcd.status = value;
        } else if address == 0xFF42 {
            self.lcd.scroll_y = value;
        } else if address == 0xFF43 {
            self.lcd.scroll_x = value;
        } else if address == 0xFF44 {
            // LY is read-only.
        } else if address == 0xFF45 {
            self.lcd.ly_compare = value;
        } else if address == 0xFF46 {
            self.dma.start(value);
        } else if address == 0xFF47 {
            self.lcd.bg_palette = value;
            LCD::update_palette(&mut self.lcd.bg_colors, value);
        } else if address == 0xFF48 {
            self.lcd.obj_palette0 = value;
            LCD::update_palette(&mut self.lcd.sp1_colors, value & 0xFC);
        } else if address == 0xFF49 {
            self.lcd.obj_palette1 = value;
            LCD::update_palette(&mut self.lcd.sp2_colors, value & 0xFC);
        } else if address == 0xFF4A {
            self.lcd.window_y = value;
        } else {
            self.lcd.window_x = value;
        }
    }

    /// Redecode into the debug texture the tile line holding one VRAM
    /// address: 32 contiguous texture bytes (eight RGBA pixels) built from
    /// the line's two bytes.
    pub fn write_to_debug_screen(&mut self, address: u16)
        requires
            address < 0x2000,
            ppu_wf(*old(self)),
        ensures
            ppu_wf(*final(self)),
            *final(self) == (PPU { debug_screen: final(self).debug_screen, ..*old(self) }),
            final(self).debug_screen@.len() == old(self).debug_screen@.len(),
            forall|j: int|
                0 <= j < 0x20000 && !(debug_block_base(address) <= j < debug_block_base(address)
                    + 32) ==> final(self).debug_screen@[j] == old(self).debug_screen@[j],
            forall|b: int, ch: int|
                0 <= b < 8 && 0 <= ch < 4 ==> final(self).debug_screen@[debug_block_base(address)
                    + b * 4 + ch] == tile_color(
                    tile_line_pixel(
                        old(self).vram@[(address & 0xFFFE) as int],
                        old(self).vram@[(address | 1) as int],
                        b,
                    ),
                    ch,
                ),
    {
        proof {
            lemma_debug_layout(address);
        }
        let base_addr = address & 0xFFFE;
        let b1 = self.vram[base_addr as usize];
        let b2 = self.vram[(address | 1) as usize];
        let line = ((address & 0x0F) >> 1) as usize;
        let tile_y = ((address >> 4) >> 4) as usize;
        let tile_x = ((address >> 4) & 0x0F) as usize;
        let block = (tile_y * 1024 + line * 128 + tile_x * 8) * 4;
        let mut b: usize = 0;
        while b < 8
            invariant
                b <= 8,
                ppu_wf(*self),
                block == debug_block_base(address),
                block + 32 <= 0x20000,
                b1 == old(self).vram@[(address & 0xFFFE) as int],
                b2 == old(self).vram@[(address | 1) as int],
                *self == (PPU { debug_screen: self.debug_screen, ..*old(self) }),
                self.debug_screen@.len() == 0x20000,
                forall|j: int|
                    0 <= j < 0x20000 && !(block <= j < block + b * 4) ==> self.debug_screen@[j]
                        == old(self).debug_screen@[j],
                forall|bb: int, ch: int|
                    0 <= bb < b && 0 <= ch < 4 ==> self.debug_screen@[block + bb * 4 + ch]
                        == tile_color(tile_line_pixel(b1, b2, bb), ch),
            decreases 8 - b,
        {
            let s1 = b1 >> (7 - b) as u8;
            let s2 = b2 >> (7 - b) as u8;
            let color_index = ((s1 & 1) << 1) | (s2 & 1);
            proof {
                lemma_pixel_bound(s1, s2);
            }
            let mut ch: usize = 0;
            while ch < 4
                invariant
                    ch <= 4,
                    b < 8,
                    ppu_wf(*self),
                    block == debug_block_base(address),
                    block + 32 <= 0x20000,
                    b1 == old(self).vram@[(address & 0xFFFE) as int],
                    b2 == old(self).vram@[(address | 1) as int],
                    color_index == tile_line_pixel(b1, b2, b as int),
                    *self == (PPU { debug_screen: self.debug_screen, ..*old(self) }),
                    self.debug_screen@.len() == 0x20000,
                    forall|j: int|
                        0 <= j < 0x20000 && !(block <= j < block + b * 4 + ch) ==> self
                            .debug_screen@[j] == old(self).debug_screen@[j],
                    forall|bb: int, cc: int|
                        (0 <= bb < b && 0 <= cc < 4) || (bb == b && 0 <= cc < ch) ==> self
                            .debug_screen@[block + bb * 4 + cc] == tile_color(
                            tile_line_pixel(b1, b2, bb),
                            cc,
                        ),
                decreases 4 - ch,
            {
                self.debug_screen[block + b * 4 + ch] = tile_color_exec(color_index, ch);
                ch = ch + 1;
            }
            b = b + 1;
        }
    }
}

/// A DMA engine after `n` T-cycles.
pub open spec fn dma_after_n(d: DMA, n: nat) -> DMA
    decreases n,
{
    if n == 0 {
        d
    } else {
        dma_after_tick(dma_after_n(d, (n - 1) as nat))
    }
}

/// The engine armed with source page `src`, `k + 2` T-cycles later: the
/// two-cycle warm-up is over and the cursor stands at byte `k`.
proof fn lemma_dma_state(src: u8, k: nat)
    requires
        k < 0xA0,
    ensures
        dma_after_n(DMA { active: true, byte: 0, start_delay: 2, value: src }, k + 2) == (DMA {
            active: true,
            byte: k as u8,
            start_delay: 0,
            value: src,
        }),
    decreases k,
{
    let start = DMA { active: true, byte: 0, start_delay: 2, value: src };
    if k == 0 {
        assert(dma_after_n(start, 1) == dma_after_tick(dma_after_n(start, 0)));
        assert(dma_after_n(start, 2) == dma_after_tick(dma_after_n(start, 1)));
        assert(dma_after_n(start, 0) == start);
    } else {
        lemma_dma_state(src, (k - 1) as nat);
        assert(dma_after_n(start, k + 2) == dma_after_tick(dma_after_n(start, (k + 1) as nat)));
    }
}

/// The transfer schedule of an armed DMA engine: after the warm-up, the
/// cycle that moves the cursor past `k` copies the byte at source page
/// `src`, offset `k`, into OAM slot `k` -- for every `k` up to 0xA0, so the
/// whole 160-byte block arrives in order.
pub proof fn lemma_dma_schedule(src: u8, k: nat)
    requires
        k < 0xA0,
    ensures
        dma_transfer(dma_after_n(DMA { active: true, byte: 0, start_delay: 2, value: src }, k + 2))
            == Some((((src as u16) * 0x100 + k) as u16, k as u16)),
{
    lemma_dma_state(src, k);
}

/// A two-bit tile pixel index is below four.
proof fn lemma_pixel_bound(x: u8, y: u8)
    by (bit_vector)
    ensures
        (((x & 1) << 1) | (y & 1)) < 4,
{
}

/// The 2-bit color index of pixel `b` (leftmost first) in a tile line whose
/// two bytes are `b1` and `b2`: the high bit comes from `b1`.
pub open spec fn tile_line_pixel(b1: u8, b2: u8, b: int) -> u8 {
    (((b1 >> (7 - b) as u8) & 1) << 1) | ((b2 >> (7 - b) as u8) & 1)
}

/// Where in the debug texture the eight pixels of a tile line start: the
/// texture lays the 384 tiles out 16 per row.
pub open spec fn debug_block_base(address: u16) -> int {
    let line = ((address & 0x0F) >> 1) as int;
    let tile_y = ((address >> 4) >> 4) as int;
    let tile_x = ((address >> 4) & 0x0F) as int;
    (tile_y * 1024 + line * 128 + tile_x * 8) * 4
}

/// One tile line's eight pixels stand decoded in the debug texture: the
/// texture block of VRAM address `a` holds the grayscale quads of the line's
/// two bytes.
pub open spec fn debug_line_decoded(p: PPU, a: u16) -> bool {
    forall|b: int, ch: int|
        0 <= b < 8 && 0 <= ch < 4 ==> (#[trigger] p.debug_screen@[debug_block_base(a) + b * 4
            + ch]) == tile_color(
            tile_line_pixel(p.vram@[(a & 0xFFFE) as int], p.vram@[(a | 1) as int], b),
            ch,
        )
}

/// A tile line's layout reads the same through either of its two addresses.
proof fn lemma_debug_parity(a: u16)
    by (bit_vector)
    ensures
        (a & 0x0F) >> 1 == ((a & 0xFFFE) & 0x0F) >> 1,
        (a >> 4) == ((a & 0xFFFE) >> 4),
        (a & 0xFFFE) & 0xFFFE == a & 0xFFFE,
        (a & 0xFFFE) | 1 == a | 1,
        a & 0xFFFE <= a,
{
}

/// A VRAM address, reassembled from the texture-layout fields of its even
/// line base.
proof fn lemma_debug_fields(a: u16)
    by (bit_vector)
    requires
        a < 0x2000,
    ensures
        ((a >> 4) >> 4) * 256 + ((a >> 4) & 0x0F) * 16 + ((a & 0x0F) >> 1) * 2 == a & 0xFFFE,
        ((a >> 4) >> 4) < 32,
        ((a >> 4) & 0x0F) < 16,
        ((a & 0x0F) >> 1) < 8,
{
}

/// A tile line's texture block lies inside the texture.
proof fn lemma_debug_block_bounds(a: u16)
    requires
        a < 0x2000,
    ensures
        0 <= debug_block_base(a),
        debug_block_base(a) + 32 <= 0x20000,
{
    lemma_debug_fields(a);
}

/// Distinct tile lines decode into disjoint 32-byte texture blocks.
#[verifier::rlimit(100)]
proof fn lemma_debug_block_distinct(a1: u16, a2: u16)
    requires
        a1 < 0x2000,
        a2 < 0x2000,
        a1 & 0xFFFE != a2 & 0xFFFE,
    ensures
        debug_block_base(a1) + 32 <= debug_block_base(a2) || debug_block_base(a2) + 32
            <= debug_block_base(a1),
{
    lemma_debug_fields(a1);
    lemma_debug_fields(a2);
    let ty1 = ((a1 >> 4) >> 4) as int;
    let tx1 = ((a1 >> 4) & 0x0F) as int;
    let l1 = ((a1 & 0x0F) >> 1) as int;
    let ty2 = ((a2 >> 4) >> 4) as int;
    let tx2 = ((a2 >> 4) & 0x0F) as int;
    let l2 = ((a2 & 0x0F) >> 1) as int;
    assert(debug_block_base(a1) == 32 * (128 * ty1 + 16 * l1 + tx1));
    assert(debug_block_base(a2) == 32 * (128 * ty2 + 16 * l2 + tx2));
    assert(128 * ty1 + 16 * l1 + tx1 != 128 * ty2 + 16 * l2 + tx2) by {
        if 128 * ty1 + 16 * l1 + tx1 == 128 * ty2 + 16 * l2 + tx2 {
            assert(ty1 == ty2 && l1 == l2 && tx1 == tx2);
            assert(256 * ty1 + 16 * tx1 + 2 * l1 == 256 * ty2 + 16 * tx2 + 2 * l2);
        }
    }
}

/// Arithmetic facts about the debug-texture layout of one VRAM address.
proof fn lemma_debug_layout(address: u16)
    by (bit_vector)
    requires
        address < 0x2000,
    ensures
        ((address & 0x0F) >> 1) < 8,
        ((address >> 4) >> 4) < 32,
        ((address >> 4) & 0x0F) < 16,
        (address & 0xFFFE) < 0x2000,
        (address | 1) < 0x2000,
{
}

} // verus!
