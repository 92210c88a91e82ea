//! The display controller: video memory, four registers, a frame buffer
//! and the timing state machine that walks through the scanlines.

use vstd::prelude::*;
use crate::bits::{bit_is_set, bit_pair, take_bit_pair, test_bit};

verus! {

/// The four phases of display timing.
#[allow(non_camel_case_types)]
#[derive(Clone, Copy, Debug, PartialEq, Eq, Structural)]
pub enum LCDModes {
    /// Searching the sprite table, at the start of a visible line.
    OAM,
    /// Sending a visible line to the display.
    TRANSFER,
    /// The pause at the end of a visible line.
    HBLANK,
    /// The pause after the last visible line, ten lines long.
    VBLANK,
}

/// Why a register access was refused.
#[derive(Clone, Copy, Debug, PartialEq, Eq, Structural)]
pub enum PpuError {
    /// The address, given here, is none of the controller's registers.
    UnsupportedRegister(u16),
}

/// Width of the visible picture, in pixels.
pub const VIEWPORT_SIZE_X: usize = 160;

/// Height of the visible picture, in lines.
pub const VIEWPORT_SIZE_Y: usize = 144;

/// Number of pixels in a frame.
pub const FRAME_SIZE: usize = 23040;

/// Size of video memory, in bytes.
pub const VRAM_SIZE: usize = 0x2000;

/// Bytes of tile data per tile: eight rows of two bit planes.
pub const TILE_SIZE: u16 = 0x10;

/// Tiles per row of the background map.
pub const BG_LINE_SIZE: usize = 0x20;

/// Offset of the background map within video memory.
pub const BG_MAP_OFFSET: usize = 0x1800;

pub const HBLANK_TIME: u32 = 207;

pub const VBLANK_TIME: u32 = 4560;

pub const OAM_TIME: u32 = 83;

pub const TRANSFER_TIME: u32 = 175;

/// Cycles that one of the ten lines of the vertical blank lasts.
pub const VBLANK_LINE_TIME: u32 = 456;

/// Address of the control register; its top bit switches the display on.
pub const REG_LCDC: u16 = 0xFF40;

/// Address of the vertical scroll register.
pub const REG_SCY: u16 = 0xFF42;

/// Address of the current-scanline register, which is read-only.
pub const REG_LY: u16 = 0xFF44;

/// Address of the background palette register.
pub const REG_BGP: u16 = 0xFF47;

/// The byte that a read of locked video memory yields.
pub const VRAM_LOCKED_BYTE: u8 = 0xFF;

pub const COLOR_WHITE: u32 = 0x00FFFFFF;

pub const COLOR_LIGHT: u32 = 0x00AAAAAA;

pub const COLOR_DARK: u32 = 0x00555555;

pub const COLOR_BLACK: u32 = 0x00000000;

impl LCDModes {
    /// The number of the mode in the low two bits of the status register.
    pub open spec fn bits(self) -> u8 {
        match self {
            LCDModes::HBLANK => 0,
            LCDModes::VBLANK => 1,
            LCDModes::OAM => 2,
            LCDModes::TRANSFER => 3,
        }
    }

    /// The number of the mode.
    pub fn code(self) -> (code: u8)
        ensures
            code == self.bits(),
    {
        match self {
            LCDModes::HBLANK => 0,
            LCDModes::VBLANK => 1,
            LCDModes::OAM => 2,
            LCDModes::TRANSFER => 3,
        }
    }

    /// How many cycles the mode lasts.
    pub open spec fn duration(self) -> int {
        match self {
            LCDModes::OAM => OAM_TIME as int,
            LCDModes::TRANSFER => TRANSFER_TIME as int,
            LCDModes::HBLANK => HBLANK_TIME as int,
            LCDModes::VBLANK => VBLANK_TIME as int,
        }
    }
}

/// The packed colour of a shade from 0, the lightest, to 3, the darkest.
pub open spec fn shade_color(shade: int) -> u32 {
    if shade == 0 {
        COLOR_WHITE
    } else if shade == 1 {
        COLOR_LIGHT
    } else if shade == 2 {
        COLOR_DARK
    } else {
        COLOR_BLACK
    }
}

/// The shade that a palette byte gives to a colour index from 0 to 3:
/// the two bits of the palette at twice the index.
pub open spec fn palette_shade(palette: u8, index: int) -> int {
    bit_pair(palette, (2 * index) as u8)
}

/// The colour index of pixel `x` (0 is the leftmost) in a tile row made
/// of the two bit planes `lsb` and `msb`.
pub open spec fn plane_index(lsb: u8, msb: u8, x: int) -> int {
    (if bit_is_set(msb, (7 - x) as u8) { 2int } else { 0 })
        + (if bit_is_set(lsb, (7 - x) as u8) { 1int } else { 0 })
}

/// The display controller as a mathematical value.
pub struct PpuView {
    pub vram: Seq<u8>,
    pub frame: Seq<u32>,
    /// Cycles left until the current mode ends.
    pub cycles: int,
    pub mode: LCDModes,
    pub lcdc_control: u8,
    pub scy: u8,
    pub ly: u8,
    pub bg_colorpalette: u8,
}

impl PpuView {
    /// Memory and frame have their fixed sizes, the countdown lies within
    /// the current mode, and the scanline fits the mode: a visible line
    /// outside the vertical blank, and inside it line 144 and one more
    /// for every `VBLANK_LINE_TIME` cycles that have passed.
    pub open spec fn wf(self) -> bool {
        &&& self.vram.len() == VRAM_SIZE
        &&& self.frame.len() == FRAME_SIZE
        &&& 1 <= self.cycles <= self.mode.duration()
        &&& if self.mode == LCDModes::VBLANK {
            self.ly == 144 + (VBLANK_TIME - self.cycles) / (VBLANK_LINE_TIME as int)
        } else {
            self.ly < 144
        }
    }

    /// The state at power-on: display off, at the start of line 0.
    pub open spec fn power_on() -> PpuView {
        PpuView {
            vram: Seq::new(VRAM_SIZE as nat, |i: int| 0u8),
            frame: Seq::new(FRAME_SIZE as nat, |i: int| 0u32),
            cycles: OAM_TIME as int,
            mode: LCDModes::OAM,
            lcdc_control: 0,
            scy: 0,
            ly: 0,
            bg_colorpalette: 0,
        }
    }

    /// Whether the display is switched on: the top bit of the control register.
    pub open spec fn lcd_on(self) -> bool {
        self.lcdc_control >= 0x80
    }

    /// Whether video memory is closed to the bus: while the display is on
    /// and the controller is in `OAM` or `TRANSFER`.
    pub open spec fn vram_locked(self) -> bool {
        self.lcd_on() && (self.mode == LCDModes::OAM || self.mode == LCDModes::TRANSFER)
    }

    /// What the bus reads at offset `addr` of video memory.
    pub open spec fn read(self, addr: u16) -> u8 {
        if self.vram_locked() {
            VRAM_LOCKED_BYTE
        } else {
            self.vram[addr as int]
        }
    }

    /// The controller after the bus wrote `data` at offset `addr` of
    /// video memory: a write to locked memory is dropped.
    pub open spec fn write(self, addr: u16, data: u8) -> PpuView {
        if self.vram_locked() {
            self
        } else {
            PpuView { vram: self.vram.update(addr as int, data), ..self }
        }
    }

    /// What a read of the register at `addr` yields.
    pub open spec fn read_register(self, addr: u16) -> Result<u8, PpuError> {
        if addr == REG_LCDC {
            Ok(self.lcdc_control)
        } else if addr == REG_SCY {
            Ok(self.scy)
        } else if addr == REG_LY {
            Ok(self.ly)
        } else if addr == REG_BGP {
            Ok(self.bg_colorpalette)
        } else {
            Err(PpuError::UnsupportedRegister(addr))
        }
    }

    /// The controller after a write of `data` to the register at `addr`.
    /// The scanline register is read-only: a write to it changes nothing.
    pub open spec fn write_register(self, addr: u16, data: u8) -> Result<PpuView, PpuError> {
        if addr == REG_LCDC {
            Ok(PpuView { lcdc_control: data, ..self })
        } else if addr == REG_SCY {
            Ok(PpuView { scy: data, ..self })
        } else if addr == REG_LY {
            Ok(self)
        } else if addr == REG_BGP {
            Ok(PpuView { bg_colorpalette: data, ..self })
        } else {
            Err(PpuError::UnsupportedRegister(addr))
        }
    }

    /// The line of the background, 0 to 255, that scanline `line` shows.
    pub open spec fn bg_line(self, line: u8) -> int {
        (self.scy + line) % 256
    }

    /// The number of the tile at column `x` and row `y` of the background map.
    pub open spec fn bg_map_tile(self, x: int, y: int) -> u8 {
        self.vram[BG_MAP_OFFSET + y * BG_LINE_SIZE + x]
    }

    /// The colour index, 0 to 3, of the pixel at column `x` and row `y` of tile `num`.
    pub open spec fn tile_pix(self, num: u8, x: int, y: int) -> int {
        plane_index(
            self.vram[num * TILE_SIZE + y * 2],
            self.vram[num * TILE_SIZE + y * 2 + 1],
            x,
        )
    }

    /// The colour of the pixel at column `x` of scanline `line`.
    pub open spec fn pixel(self, line: u8, x: int) -> u32 {
        let y = self.bg_line(line);
        let num = self.bg_map_tile(x / 8, y / 8);
        shade_color(palette_shade(self.bg_colorpalette, self.tile_pix(num, x % 8, y % 8)))
    }

    /// The frame buffer after scanline `line` was rendered into it.
    pub open spec fn frame_with_line(self, line: u8) -> Seq<u32> {
        Seq::new(
            FRAME_SIZE as nat,
            |i: int|
                if line * VIEWPORT_SIZE_X <= i < (line + 1) * VIEWPORT_SIZE_X {
                    self.pixel(line, i - line * VIEWPORT_SIZE_X)
                } else {
                    self.frame[i]
                },
        )
    }

    /// The frame in which rows `from` up to, but not including, `to`
    /// show the background and the other rows are as in the frame buffer.
    pub open spec fn frame_with_lines(self, from: int, to: int) -> Seq<u32> {
        Seq::new(
            FRAME_SIZE as nat,
            |i: int|
                if from * VIEWPORT_SIZE_X <= i < to * VIEWPORT_SIZE_X {
                    self.pixel((i / (VIEWPORT_SIZE_X as int)) as u8, i % (VIEWPORT_SIZE_X as int))
                } else {
                    self.frame[i]
                },
        )
    }

    /// The whole picture of the background: every pixel of the 144 rows.
    pub open spec fn picture(self) -> Seq<u32> {
        Seq::new(
            FRAME_SIZE as nat,
            |i: int|
                self.pixel((i / (VIEWPORT_SIZE_X as int)) as u8, i % (VIEWPORT_SIZE_X as int)),
        )
    }

    /// What happens when the countdown of the current mode runs out: the
    /// next state, and whether a frame was completed.
    pub open spec fn exit_mode(self) -> (PpuView, bool) {
        match self.mode {
            LCDModes::OAM => (
                PpuView { mode: LCDModes::TRANSFER, cycles: TRANSFER_TIME as int, ..self },
                false,
            ),
            LCDModes::TRANSFER => (
                PpuView {
                    frame: self.frame_with_line(self.ly),
                    mode: LCDModes::HBLANK,
                    cycles: HBLANK_TIME as int,
                    ..self
                },
                false,
            ),
            LCDModes::HBLANK => if self.ly + 1 < VIEWPORT_SIZE_Y {
                (
                    PpuView {
                        ly: (self.ly + 1) as u8,
                        mode: LCDModes::OAM,
                        cycles: OAM_TIME as int,
                        ..self
                    },
                    false,
                )
            } else {
                (
                    PpuView {
                        ly: (self.ly + 1) as u8,
                        mode: LCDModes::VBLANK,
                        cycles: VBLANK_TIME as int,
                        ..self
                    },
                    false,
                )
            },
            LCDModes::VBLANK => (
                PpuView { ly: 0, mode: LCDModes::OAM, cycles: OAM_TIME as int, ..self },
                true,
            ),
        }
    }

    /// One cycle of time: nothing while the display is off; else the
    /// countdown drops by one, the vertical blank moves to its next line
    /// every `VBLANK_LINE_TIME` cycles, and at zero the mode ends. The
    /// flag says whether a frame was completed.
    pub open spec fn tick(self) -> (PpuView, bool) {
        if !self.lcd_on() {
            (self, false)
        } else if self.cycles > 1 {
            let left = self.cycles - 1;
            if self.mode == LCDModes::VBLANK && left % (VBLANK_LINE_TIME as int) == 0 {
                (PpuView { cycles: left, ly: (self.ly + 1) as u8, ..self }, false)
            } else {
                (PpuView { cycles: left, ..self }, false)
            }
        } else {
            self.exit_mode()
        }
    }

    /// `n` cycles of time: the state after them and the number of frames
    /// completed in them.
    pub open spec fn advance(self, n: nat) -> (PpuView, nat)
        decreases n,
    {
        if n == 0 {
            (self, 0)
        } else {
            let (before, frames) = self.advance((n - 1) as nat);
            let (after, done) = before.tick();
            (after, if done { frames + 1 } else { frames })
        }
    }
}

/// The display controller.
pub struct Ppu {
    vram: Vec<u8>,
    frame: Vec<u32>,
    cycles: u32,
    mode: LCDModes,
    lcdc_control: u8,
    scy: u8,
    ly: u8,
    bg_colorpalette: u8,
}

impl View for Ppu {
    type V = PpuView;

    closed spec fn view(&self) -> PpuView {
        PpuView {
            vram: self.vram@,
            frame: self.frame@,
            cycles: self.cycles as int,
            mode: self.mode,
            lcdc_control: self.lcdc_control,
            scy: self.scy,
            ly: self.ly,
            bg_colorpalette: self.bg_colorpalette,
        }
    }
}

impl Ppu {
    /// The controller's value is well-formed.
    pub open spec fn wf(&self) -> bool {
        self@.wf()
    }

    /// A controller at power-on: display off, memory and frame cleared.
    pub fn new() -> (r: Self)
        ensures
            r@ == PpuView::power_on(),
            r.wf(),
    {
        let r = Ppu {
            vram: vec![0u8; VRAM_SIZE],
            frame: vec![0u32; FRAME_SIZE],
            cycles: OAM_TIME,
            mode: LCDModes::OAM,
            lcdc_control: 0,
            scy: 0,
            ly: 0,
            bg_colorpalette: 0,
        };
        assert(r@.vram =~= PpuView::power_on().vram);
        assert(r@.frame =~= PpuView::power_on().frame);
        r
    }

    /// The mode that the controller is in.
    pub fn get_mode(&self) -> (m: LCDModes)
        ensures
            m == self@.mode,
    {
        self.mode
    }

    /// The status byte: the number of the current mode in its low two
    /// bits, the other bits zero.
    pub fn status(&self) -> (status: u8)
        ensures
            status == self@.mode.bits(),
    {
        self.mode.code()
    }

    /// Enters a mode with `time` cycles ahead of it.
    fn set_mode(&mut self, mode: LCDModes, time: u32)
        ensures
            final(self)@ == (PpuView { mode: mode, cycles: time as int, ..old(self)@ }),
    {
        self.mode = mode;
        self.cycles = time;
    }

    /// Whether the display is switched on.
    pub fn lcd_ison(&self) -> (on: bool)
        ensures
            on == self@.lcd_on(),
    {
        self.lcdc_control >= 0x80
    }

    /// Whether video memory is closed to the bus at this moment.
    pub fn vram_locked(&self) -> (locked: bool)
        ensures
            locked == self@.vram_locked(),
    {
        self.lcd_ison() && (self.mode == LCDModes::OAM || self.mode == LCDModes::TRANSFER)
    }

    /// The frame buffer: 144 rows of 160 packed colours, row by row.
    pub fn frame(&self) -> (f: &Vec<u32>)
        ensures
            f@ == self@.frame,
    {
        &self.frame
    }

    /// Reads video memory at offset `addr` on behalf of the bus. While
    /// the memory is locked the read yields `VRAM_LOCKED_BYTE`.
    pub fn read(&self, addr: u16) -> (r: u8)
        requires
            self.wf(),
            addr < VRAM_SIZE,
        ensures
            r == self@.read(addr),
    {
        if self.vram_locked() {
            VRAM_LOCKED_BYTE
        } else {
            self.vram[addr as usize]
        }
    }

    /// Writes video memory at offset `addr` on behalf of the bus. While
    /// the memory is locked the write is dropped.
    pub fn write(&mut self, addr: u16, data: u8)
        requires
            old(self).wf(),
            addr < VRAM_SIZE,
        ensures
            final(self)@ == old(self)@.write(addr, data),
            final(self).wf(),
    {
        if !self.vram_locked() {
            self.vram[addr as usize] = data;
        }
    }

    /// Reads one of the four registers; any other address is refused.
    pub fn read_registers(&self, addr: u16) -> (r: Result<u8, PpuError>)
        ensures
            r == self@.read_register(addr),
    {
        match addr {
            REG_LCDC => Ok(self.lcdc_control),
            REG_SCY => Ok(self.scy),
            REG_LY => Ok(self.ly),
            REG_BGP => Ok(self.bg_colorpalette),
            _ => Err(PpuError::UnsupportedRegister(addr)),
        }
    }

    /// Writes one of the four registers; any other address is refused
    /// and changes nothing. A write to the scanline register is accepted
    /// and dropped.
    pub fn write_registers(&mut self, addr: u16, data: u8) -> (r: Result<(), PpuError>)
        requires
            old(self).wf(),
        ensures
            match old(self)@.write_register(addr, data) {
                Ok(after) => r == Ok::<(), PpuError>(()) && final(self)@ == after,
                Err(e) => r == Err::<(), PpuError>(e) && final(self)@ == old(self)@,
            },
            final(self).wf(),
    {
        match addr {
            REG_LCDC => {
                self.lcdc_control = data;
                Ok(())
            },
            REG_SCY => {
                self.scy = data;
                Ok(())
            },
            REG_LY => Ok(()),
            REG_BGP => {
                self.bg_colorpalette = data;
                Ok(())
            },
            _ => Err(PpuError::UnsupportedRegister(addr)),
        }
    }

    /// Offset, within video memory, of the data of tile `num`.
    pub fn tile_addr(num: u8) -> (addr: u16)
        ensures
            addr == num * TILE_SIZE,
    {
        num as u16 * TILE_SIZE
    }

    /// The number of the tile at column `x` and row `y` of the
    /// background map, which is 32 tiles wide and high.
    pub fn bg_map_get_tile_number(&self, x: u8, y: u8) -> (num: u8)
        requires
            self.wf(),
            x < BG_LINE_SIZE,
            y < BG_LINE_SIZE,
        ensures
            num == self@.bg_map_tile(x as int, y as int),
    {
        let index = BG_MAP_OFFSET + (y as usize * BG_LINE_SIZE + x as usize);
        self.vram[index]
    }

    /// The colour index, 0 to 3, of the pixel at column `x` and row `y`
    /// of tile `num`: the bit of the row's second plane, doubled, plus
    /// the bit of its first plane.
    pub fn tile_get_pix(&self, num: u8, x: u8, y: u8) -> (color_num: u8)
        requires
            self.wf(),
            x < 8,
            y < 8,
        ensures
            color_num == self@.tile_pix(num, x as int, y as int),
            color_num < 4,
    {
        let i = Self::tile_addr(num) as usize + y as usize * 2;
        let lsb = self.vram[i];
        let msb = self.vram[i + 1];
        let msb_color: u8 = if test_bit(msb, 7 - x) { 2 } else { 0 };
        let lsb_color: u8 = if test_bit(lsb, 7 - x) { 1 } else { 0 };
        msb_color + lsb_color
    }

    /// The packed colour that the background palette gives to a colour index.
    pub fn match_color(&self, color: u8) -> (packed: u32)
        requires
            color < 4,
        ensures
            packed == shade_color(palette_shade(self@.bg_colorpalette, color as int)),
    {
        match take_bit_pair(self.bg_colorpalette, 2 * color) {
            0 => COLOR_WHITE,
            1 => COLOR_LIGHT,
            2 => COLOR_DARK,
            _ => COLOR_BLACK,
        }
    }

    /// Renders scanline `line` into the frame buffer; nothing else changes.
    pub fn render_line(&mut self, line: u8)
        requires
            old(self).wf(),
            line < VIEWPORT_SIZE_Y,
        ensures
            final(self)@ == (PpuView { frame: old(self)@.frame_with_line(line), ..old(self)@ }),
            final(self).wf(),
    {
        let ghost pre = self@;
        let y = self.scy.wrapping_add(line);
        let start = line as usize * VIEWPORT_SIZE_X;
        let mut x: u8 = 0;
        while (x as usize) < VIEWPORT_SIZE_X
            invariant
                x <= VIEWPORT_SIZE_X,
                line < VIEWPORT_SIZE_Y,
                start == line * VIEWPORT_SIZE_X,
                y == pre.bg_line(line),
                pre.wf(),
                self@ == (PpuView { frame: self@.frame, ..pre }),
                self@.frame.len() == FRAME_SIZE,
                forall|i: int|
                    0 <= i < FRAME_SIZE ==> #[trigger] self@.frame[i] == if start <= i < start + x {
                        pre.pixel(line, i - start)
                    } else {
                        pre.frame[i]
                    },
            decreases VIEWPORT_SIZE_X - x,
        {
            let tile_nb = self.bg_map_get_tile_number(x / 8, y / 8);
            let pix = self.tile_get_pix(tile_nb, x % 8, y % 8);
            let color = self.match_color(pix);
            self.frame[start + x as usize] = color;
            x = x + 1;
        }
        assert(self@.frame =~= pre.frame_with_line(line));
    }

    /// Renders the current scanline into the frame buffer; nothing else changes.
    pub fn line_gen(&mut self)
        requires
            old(self).wf(),
            old(self)@.ly < VIEWPORT_SIZE_Y,
        ensures
            final(self)@ == (PpuView {
                frame: old(self)@.frame_with_line(old(self)@.ly),
                ..old(self)@
            }),
            final(self).wf(),
    {
        self.render_line(self.ly);
    }

    /// Renders all 144 scanlines into the frame buffer, from what video
    /// memory and the registers hold at this moment; nothing else
    /// changes, the timing least of all.
    pub fn frame_gen(&mut self)
        requires
            old(self).wf(),
        ensures
            final(self)@ == (PpuView { frame: old(self)@.picture(), ..old(self)@ }),
            final(self).wf(),
    {
        let ghost pre = self@;
        let mut line: u8 = 0;
        assert(pre.frame_with_lines(0, 0) =~= pre.frame);
        while (line as usize) < VIEWPORT_SIZE_Y
            invariant
                line <= VIEWPORT_SIZE_Y,
                pre.wf(),
                self.wf(),
                self@ == (PpuView { frame: pre.frame_with_lines(0, line as int), ..pre }),
            decreases VIEWPORT_SIZE_Y - line,
        {
            let ghost cur = self@;
            self.render_line(line);
            assert(cur.frame_with_line(line) =~= pre.frame_with_lines(0, line + 1));
            line = line + 1;
        }
        assert(pre.frame_with_lines(0, 144) =~= pre.picture());
    }

    /// The end of `OAM`: the transfer of the line begins.
    fn do_oam(&mut self)
        requires
            old(self).wf(),
            old(self)@.mode == LCDModes::OAM,
        ensures
            final(self)@ == old(self)@.exit_mode().0,
            final(self).wf(),
    {
        self.set_mode(LCDModes::TRANSFER, TRANSFER_TIME);
    }

    /// The end of `TRANSFER`: the line is rendered and its pause begins.
    fn do_transfer(&mut self)
        requires
            old(self).wf(),
            old(self)@.mode == LCDModes::TRANSFER,
        ensures
            final(self)@ == old(self)@.exit_mode().0,
            final(self).wf(),
    {
        self.line_gen();
        self.set_mode(LCDModes::HBLANK, HBLANK_TIME);
    }

    /// The end of `HBLANK`: the next line begins, or after the last
    /// visible line the vertical blank.
    fn do_hblank(&mut self)
        requires
            old(self).wf(),
            old(self)@.mode == LCDModes::HBLANK,
        ensures
            final(self)@ == old(self)@.exit_mode().0,
            final(self).wf(),
    {
        self.ly = self.ly + 1;
        if (self.ly as usize) < VIEWPORT_SIZE_Y {
            self.set_mode(LCDModes::OAM, OAM_TIME);
        } else {
            self.set_mode(LCDModes::VBLANK, VBLANK_TIME);
        }
    }

    /// The end of `VBLANK`: the frame is complete and line 0 begins.
    fn do_vblank(&mut self)
        requires
            old(self).wf(),
            old(self)@.mode == LCDModes::VBLANK,
        ensures
            final(self)@ == old(self)@.exit_mode().0,
            final(self).wf(),
    {
        self.ly = 0;
        self.set_mode(LCDModes::OAM, OAM_TIME);
    }

    /// Lets one cycle pass and says whether it completed a frame. While
    /// the display is off nothing happens.
    pub fn do_cycle(&mut self) -> (done: bool)
        requires
            old(self).wf(),
        ensures
            (final(self)@, done) == old(self)@.tick(),
            final(self).wf(),
    {
        if !self.lcd_ison() {
            return false;
        }
        if self.cycles > 1 {
            self.cycles = self.cycles - 1;
            if self.mode == LCDModes::VBLANK && self.cycles % VBLANK_LINE_TIME == 0 {
                self.ly = self.ly + 1;
            }
            return false;
        }
        match self.mode {
            LCDModes::OAM => {
                self.do_oam();
                false
            },
            LCDModes::TRANSFER => {
                self.do_transfer();
                false
            },
            LCDModes::HBLANK => {
                self.do_hblank();
                false
            },
            LCDModes::VBLANK => {
                self.do_vblank();
                true
            },
        }
    }

    /// Lets `cycles` cycles pass and returns the number of frames that
    /// were completed in them. After each completed frame the frame
    /// buffer holds that frame until the next line is rendered.
    pub fn advance(&mut self, cycles: u32) -> (frames: u32)
        requires
            old(self).wf(),
        ensures
            (final(self)@, frames as nat) == old(self)@.advance(cycles as nat),
            final(self).wf(),
    {
        let ghost pre = self@;
        let mut frames: u32 = 0;
        let mut i: u32 = 0;
        while i < cycles
            invariant
                i <= cycles,
                frames <= i,
                self.wf(),
                (self@, frames as nat) == pre.advance(i as nat),
            decreases cycles - i,
        {
            let done = self.do_cycle();
            if done {
                frames = frames + 1;
            }
            i = i + 1;
        }
        frames
    }
}

} // verus!
