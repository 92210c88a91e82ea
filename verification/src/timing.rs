//! What the display controller's state machine does over many cycles:
//! how a mode counts down, how a scanline and a whole frame pass.

use vstd::prelude::*;
use crate::ppu::{
    LCDModes, PpuView, HBLANK_TIME, OAM_TIME, TRANSFER_TIME, VBLANK_LINE_TIME, VBLANK_TIME,
    VIEWPORT_SIZE_Y,
};

verus! {

/// Cycles that one visible scanline takes.
pub const LINE_TIME: u32 = 465;

/// Cycles that the 144 visible scanlines take together.
pub const VISIBLE_TIME: u32 = 66960;

/// Cycles that a whole frame takes, vertical blank included.
pub const FRAME_TIME: u32 = 71520;

impl PpuView {
    /// The display is on and a scanline is just beginning: `OAM` with
    /// its full duration ahead.
    pub open spec fn at_line_start(self) -> bool {
        &&& self.wf()
        &&& self.lcd_on()
        &&& self.mode == LCDModes::OAM
        &&& self.cycles == OAM_TIME
    }

    /// How far into the frame the controller is: the cycles that have
    /// passed since line 0 began, from 0 up to, but not including,
    /// `FRAME_TIME`.
    pub open spec fn phase(self) -> int {
        match self.mode {
            LCDModes::OAM => self.ly * LINE_TIME + (OAM_TIME - self.cycles),
            LCDModes::TRANSFER => self.ly * LINE_TIME + OAM_TIME + (TRANSFER_TIME - self.cycles),
            LCDModes::HBLANK => self.ly * LINE_TIME + OAM_TIME + TRANSFER_TIME + (HBLANK_TIME
                - self.cycles),
            LCDModes::VBLANK => VISIBLE_TIME + (VBLANK_TIME - self.cycles),
        }
    }

    /// The scanline that the vertical blank shows when `left` cycles of
    /// it remain.
    pub open spec fn vblank_line(left: int) -> int {
        144 + (VBLANK_TIME - left) / (VBLANK_LINE_TIME as int)
    }

    /// The state `k` cycles later, for a `k` that does not use up the
    /// current mode.
    pub open spec fn counted_down(self, k: int) -> PpuView {
        PpuView {
            cycles: self.cycles - k,
            ly: if self.mode == LCDModes::VBLANK {
                Self::vblank_line(self.cycles - k) as u8
            } else {
                self.ly
            },
            ..self
        }
    }
}

/// One cycle keeps the state well-formed. The mode changes only when the
/// countdown runs out; the scanline goes back only at the end of the
/// vertical blank, and then to 0; and a frame is completed only there.
pub proof fn lemma_tick(s: PpuView)
    requires
        s.wf(),
    ensures
        s.tick().0.wf(),
        s.tick().0.mode != s.mode ==> s.lcd_on() && s.cycles == 1,
        s.tick().0.ly < s.ly ==> s.mode == LCDModes::VBLANK && s.tick().0.ly == 0 && s.tick().1,
        s.tick().1 <==> s.lcd_on() && s.cycles == 1 && s.mode == LCDModes::VBLANK,
        s.tick().0.vram == s.vram,
        s.tick().0.lcdc_control == s.lcdc_control,
        s.tick().0.scy == s.scy,
        s.tick().0.bg_colorpalette == s.bg_colorpalette,
{
}

/// Any number of cycles keeps the state well-formed, and leaves video
/// memory and the three writable registers alone.
pub proof fn lemma_advance_wf(s: PpuView, n: nat)
    requires
        s.wf(),
    ensures
        s.advance(n).0.wf(),
        s.advance(n).0.vram == s.vram,
        s.advance(n).0.lcdc_control == s.lcdc_control,
        s.advance(n).0.scy == s.scy,
        s.advance(n).0.bg_colorpalette == s.bg_colorpalette,
        s.advance(n).1 <= n,
    decreases n,
{
    if n > 0 {
        lemma_advance_wf(s, (n - 1) as nat);
        lemma_tick(s.advance((n - 1) as nat).0);
    }
}

/// While the display is off, time does not move the controller.
pub proof fn lemma_advance_off(s: PpuView, n: nat)
    requires
        !s.lcd_on(),
    ensures
        s.advance(n) == (s, 0nat),
    decreases n,
{
    if n > 0 {
        lemma_advance_off(s, (n - 1) as nat);
    }
}

/// While the display is on, one cycle moves the controller one cycle
/// further into the frame, and completes the frame exactly when it
/// takes it back to the beginning.
pub proof fn lemma_tick_phase(s: PpuView)
    requires
        s.wf(),
        s.lcd_on(),
    ensures
        0 <= s.phase() < FRAME_TIME,
        s.tick().0.phase() == (s.phase() + 1) % (FRAME_TIME as int),
        s.tick().1 <==> s.phase() + 1 == FRAME_TIME,
{
}

/// The display is periodic. While it is on, `n` cycles move the
/// controller `n` cycles further into the frame, around the end of the
/// frame as often as needed, and each time around completes exactly one
/// frame: so a frame is completed once every `FRAME_TIME` cycles,
/// wherever in the frame the count begins.
pub proof fn lemma_advance_phase(s: PpuView, n: nat)
    requires
        s.wf(),
        s.lcd_on(),
    ensures
        s.advance(n).0.phase() == (s.phase() + n) % (FRAME_TIME as int),
        s.advance(n).1 == (s.phase() + n) / (FRAME_TIME as int),
    decreases n,
{
    lemma_tick_phase(s);
    if n > 0 {
        let t = s.advance((n - 1) as nat).0;
        lemma_advance_phase(s, (n - 1) as nat);
        lemma_advance_wf(s, (n - 1) as nat);
        lemma_tick_phase(t);
    }
}

/// A frame is never completed twice within `OAM_TIME` cycles: after a
/// completed frame the controller is in `OAM`, which lasts that long.
pub proof fn lemma_at_most_one_frame(s: PpuView, n: nat)
    requires
        s.wf(),
        n <= OAM_TIME,
    ensures
        s.advance(n).1 <= 1,
        s.advance(n).1 == 1 ==> s.advance(n).0.mode == LCDModes::OAM && s.advance(n).0.cycles + n
            > OAM_TIME,
    decreases n,
{
    if n > 0 {
        lemma_at_most_one_frame(s, (n - 1) as nat);
        lemma_advance_wf(s, (n - 1) as nat);
        lemma_tick(s.advance((n - 1) as nat).0);
    }
}

/// Letting `a` cycles pass and then `b` is letting `a + b` pass; the
/// completed frames add up.
pub proof fn lemma_advance_add(s: PpuView, a: nat, b: nat)
    ensures
        s.advance(a + b) == (
            s.advance(a).0.advance(b).0,
            s.advance(a).1 + s.advance(a).0.advance(b).1,
        ),
    decreases b,
{
    if b > 0 {
        lemma_advance_add(s, a, (b - 1) as nat);
        assert(a + b - 1 == a + (b - 1));
    }
}

/// Before the countdown of a mode runs out, time only counts down (and
/// steps through the lines of the vertical blank): the mode stays, and
/// no frame is completed.
pub proof fn lemma_countdown(s: PpuView, k: nat)
    requires
        s.wf(),
        s.lcd_on(),
        k < s.cycles,
    ensures
        s.advance(k) == (s.counted_down(k as int), 0nat),
        s.counted_down(k as int).wf(),
    decreases k,
{
    if k > 0 {
        lemma_countdown(s, (k - 1) as nat);
    }
}

/// When exactly as many cycles pass as the mode has left, the mode ends.
pub proof fn lemma_mode_ends(s: PpuView)
    requires
        s.wf(),
        s.lcd_on(),
    ensures
        s.advance(s.cycles as nat).0 == s.counted_down(s.cycles - 1).exit_mode().0,
        s.advance(s.cycles as nat).1 == (if s.mode == LCDModes::VBLANK {
            1nat
        } else {
            0nat
        }),
{
    lemma_countdown(s, (s.cycles - 1) as nat);
}

/// What a scanline looks like depends on video memory, the scroll
/// register and the palette alone.
pub proof fn lemma_same_picture(a: PpuView, b: PpuView, line: u8)
    requires
        a.vram == b.vram,
        a.scy == b.scy,
        a.bg_colorpalette == b.bg_colorpalette,
    ensures
        forall|x: int| a.pixel(line, x) == b.pixel(line, x),
        a.frame == b.frame ==> a.frame_with_line(line) == b.frame_with_line(line),
{
    if a.frame == b.frame {
        assert(a.frame_with_line(line) =~= b.frame_with_line(line));
    }
}

/// A visible scanline takes `LINE_TIME` cycles. After them the line is
/// in the frame buffer, the scanline counter is one higher, and the
/// next line begins, or the vertical blank if this was line 143.
pub proof fn lemma_scanline(s: PpuView)
    requires
        s.at_line_start(),
    ensures
        s.advance(LINE_TIME as nat) == (
            PpuView {
                frame: s.frame_with_line(s.ly),
                ly: (s.ly + 1) as u8,
                mode: if s.ly + 1 < VIEWPORT_SIZE_Y {
                    LCDModes::OAM
                } else {
                    LCDModes::VBLANK
                },
                cycles: if s.ly + 1 < VIEWPORT_SIZE_Y {
                    OAM_TIME as int
                } else {
                    VBLANK_TIME as int
                },
                ..s
            },
            0nat,
        ),
        s.advance(LINE_TIME as nat).0.wf(),
{
    lemma_mode_ends(s);
    let t = s.advance(OAM_TIME as nat).0;
    assert(t == (PpuView { mode: LCDModes::TRANSFER, cycles: TRANSFER_TIME as int, ..s }));
    lemma_mode_ends(t);
    let h = t.advance(TRANSFER_TIME as nat).0;
    lemma_same_picture(t.counted_down(TRANSFER_TIME - 1), s, s.ly);
    assert(h == (PpuView {
        frame: s.frame_with_line(s.ly),
        mode: LCDModes::HBLANK,
        cycles: HBLANK_TIME as int,
        ..s
    }));
    lemma_mode_ends(h);
    lemma_advance_add(s, OAM_TIME as nat, TRANSFER_TIME as nat);
    lemma_advance_add(s, (OAM_TIME + TRANSFER_TIME) as nat, HBLANK_TIME as nat);
}

/// From the beginning of a scanline, `k` visible scanlines take `k`
/// times `LINE_TIME` cycles. After them their rows of the frame buffer
/// show the background, the scanline counter is `k` higher, and no frame
/// was completed; after line 143 the vertical blank begins.
pub proof fn lemma_scanlines(s: PpuView, k: nat)
    requires
        s.at_line_start(),
        s.ly + k <= VIEWPORT_SIZE_Y,
    ensures
        s.advance(k * LINE_TIME as nat) == (
            PpuView {
                frame: s.frame_with_lines(s.ly as int, s.ly + k),
                ly: (s.ly + k) as u8,
                mode: if s.ly + k < VIEWPORT_SIZE_Y {
                    LCDModes::OAM
                } else {
                    LCDModes::VBLANK
                },
                cycles: if s.ly + k < VIEWPORT_SIZE_Y {
                    OAM_TIME as int
                } else {
                    VBLANK_TIME as int
                },
                ..s
            },
            0nat,
        ),
        s.advance(k * LINE_TIME as nat).0.wf(),
    decreases k,
{
    if k == 0 {
        assert(s.frame_with_lines(s.ly as int, s.ly as int) =~= s.frame);
    } else {
        let j = (k - 1) as nat;
        lemma_scanlines(s, j);
        let u = s.advance(j * LINE_TIME as nat).0;
        lemma_scanline(u);
        lemma_advance_add(s, j * LINE_TIME as nat, LINE_TIME as nat);
        assert(j * LINE_TIME + LINE_TIME == k * LINE_TIME) by (nonlinear_arith)
            requires
                j + 1 == k,
        ;
        lemma_same_picture(u, s, u.ly);
        assert(u.frame_with_line(u.ly) =~= s.frame_with_lines(s.ly as int, s.ly + k));
    }
}

/// A frame. From the beginning of line 0 the 144 visible lines take
/// `VISIBLE_TIME` cycles, after which the vertical blank begins on line
/// 144 with the whole picture in the frame buffer and no frame handed
/// out yet. After `FRAME_TIME` cycles the frame has been completed
/// exactly once and the controller is back at the beginning of line 0.
pub proof fn lemma_frame(s: PpuView)
    requires
        s.at_line_start(),
        s.ly == 0,
    ensures
        s.advance(VISIBLE_TIME as nat) == (
            PpuView {
                frame: s.picture(),
                ly: 144,
                mode: LCDModes::VBLANK,
                cycles: VBLANK_TIME as int,
                ..s
            },
            0nat,
        ),
        s.advance(FRAME_TIME as nat) == (PpuView { frame: s.picture(), ..s }, 1nat),
{
    lemma_scanlines(s, VIEWPORT_SIZE_Y as nat);
    assert(s.frame_with_lines(0, 144) =~= s.picture());
    let v = s.advance(VISIBLE_TIME as nat).0;
    lemma_mode_ends(v);
    lemma_advance_add(s, VISIBLE_TIME as nat, VBLANK_TIME as nat);
}

} // verus!
