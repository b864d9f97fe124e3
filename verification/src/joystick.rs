//! The joystick frame source: a cursor on the 8x8 grid, moved at a fixed
//! rate by deadzone comparison of two analog readings, with a push-button
//! that toggles a drawing mode whose trail of visited pixels accumulates
//! into a persistent buffer.
//!
//! One call of [`DotState::step`] is one cycle of the polling loop; the
//! caller samples the hardware, hands in the plain values, transmits the
//! returned frame, and busy-waits until the next cycle.

use vstd::prelude::*;
use crate::bitmap::{Bitmap, SIDE, all_rows_zero, blank_rows, dot_mask, pixel_lit};

verus! {

/// Milliseconds the polling loop busy-waits between cycles.
pub const CYCLE_DELAY_MS: u16 = 10;

/// Milliseconds the polling loop holds after a mode toggle, debouncing the
/// button mechanically.
pub const DEBOUNCE_HOLD_MS: u16 = 200;

/// Calibration of the analog axes and the movement rate. The readings are
/// nominally 0..=1023 around a center near 512, but the values are empirical
/// hardware calibration, so they are carried as configuration rather than
/// hard-coded.
pub struct JoystickConfig {
    /// Nominal axis reading with the stick at rest.
    pub center: u16,
    /// Half-width of the deadzone around `center`.
    pub threshold: u16,
    /// The cursor moves once per this many cycles.
    pub move_divisor: u8,
}

impl JoystickConfig {
    /// The deadzone must fit the reading range on both sides, and the
    /// movement rate must name at least one cycle per move.
    pub open spec fn wf(&self) -> bool {
        &&& self.threshold <= self.center
        &&& self.center + self.threshold <= u16::MAX
        &&& self.move_divisor >= 1
    }
}

impl Default for JoystickConfig {
    /// The calibration of the demo hardware: center 512, deadzone
    /// half-width 300, one move per ten cycles.
    fn default() -> (r: JoystickConfig)
        ensures
            r.center == 512,
            r.threshold == 300,
            r.move_divisor == 10,
            r.wf(),
    {
        JoystickConfig { center: 512, threshold: 300, move_divisor: 10 }
    }
}

/// How one axis reading moves a coordinate: a reading below the deadzone
/// moves it toward 0, one above toward 7, one inside leaves it alone; the
/// move is clamped to the grid, never wrapping.
pub open spec fn axis_step(coord: u8, reading: u16, center: u16, threshold: u16) -> u8 {
    if reading < center - threshold {
        if coord == 0 {
            0u8
        } else {
            (coord - 1) as u8
        }
    } else if reading > center + threshold {
        if coord >= 7 {
            7u8
        } else {
            (coord + 1) as u8
        }
    } else {
        coord
    }
}

/// The reading lies in the deadzone around the center.
pub open spec fn in_deadzone(reading: u16, center: u16, threshold: u16) -> bool {
    center - threshold <= reading <= center + threshold
}

/// One rate-due movement of one coordinate.
pub fn step_axis(coord: u8, reading: u16, center: u16, threshold: u16) -> (r: u8)
    requires
        coord < SIDE,
        threshold <= center,
        center + threshold <= u16::MAX,
    ensures
        r == axis_step(coord, reading, center, threshold),
        r < SIDE,
        in_deadzone(reading, center, threshold) ==> r == coord,
{
    if reading < center - threshold {
        if coord == 0 {
            0
        } else {
            coord - 1
        }
    } else if reading > center + threshold {
        if coord >= 7 {
            7
        } else {
            coord + 1
        }
    } else {
        coord
    }
}

/// The coordinate after a whole run of rate-due axis readings, applied in
/// order.
pub open spec fn axis_run(start: u8, readings: Seq<u16>, center: u16, threshold: u16) -> u8
    decreases readings.len(),
{
    if readings.len() == 0 {
        start
    } else {
        axis_step(
            axis_run(start, readings.drop_last(), center, threshold),
            readings.last(),
            center,
            threshold,
        )
    }
}

/// Clamping holds forever: from a coordinate on the grid, no run of
/// readings — including unbroken pushes against a boundary — moves it off
/// the grid.
pub proof fn lemma_axis_run_clamped(start: u8, readings: Seq<u16>, center: u16, threshold: u16)
    requires
        start < SIDE,
    ensures
        axis_run(start, readings, center, threshold) < SIDE,
    decreases readings.len(),
{
    if readings.len() > 0 {
        lemma_axis_run_clamped(start, readings.drop_last(), center, threshold);
    }
}

/// Readings inside the deadzone never move a coordinate, over any number of
/// cycles.
pub proof fn lemma_deadzone_never_moves(
    start: u8,
    readings: Seq<u16>,
    center: u16,
    threshold: u16,
)
    requires
        forall|i: int| 0 <= i < readings.len() ==> in_deadzone(#[trigger] readings[i], center, threshold),
    ensures
        axis_run(start, readings, center, threshold) == start,
    decreases readings.len(),
{
    if readings.len() > 0 {
        assert(forall|i: int|
            0 <= i < readings.drop_last().len() ==> in_deadzone(
                #[trigger] readings.drop_last()[i],
                center,
                threshold,
            ));
        lemma_deadzone_never_moves(start, readings.drop_last(), center, threshold);
        assert(in_deadzone(readings.last(), center, threshold));
    }
}

/// A falling edge on the active-low button: the line idled high on the
/// previous sample and reads low now.
pub open spec fn falling_edge(prev_high: bool, now_high: bool) -> bool {
    prev_high && !now_high
}

/// How many mode toggles a run of button samples causes: one per sample
/// that forms a falling edge with the sample before it (`prev_high` before
/// the first).
pub open spec fn edge_count(prev_high: bool, samples: Seq<bool>) -> nat
    decreases samples.len(),
{
    if samples.len() == 0 {
        0nat
    } else {
        (if falling_edge(prev_high, samples[0]) {
            1nat
        } else {
            0nat
        }) + edge_count(samples[0], samples.drop_first())
    }
}

/// A run of high samples never toggles, whatever came before it.
pub proof fn lemma_edge_count_all_high(prev_high: bool, samples: Seq<bool>)
    requires
        forall|i: int| 0 <= i < samples.len() ==> #[trigger] samples[i],
    ensures
        edge_count(prev_high, samples) == 0,
    decreases samples.len(),
{
    if samples.len() > 0 {
        lemma_edge_count_all_high(samples[0], samples.drop_first());
    }
}

/// A run of low samples toggles exactly once if the line was high before
/// it, and never otherwise: holding the button down does not retrigger.
pub proof fn lemma_edge_count_all_low(prev_high: bool, samples: Seq<bool>)
    requires
        forall|i: int| 0 <= i < samples.len() ==> !#[trigger] samples[i],
    ensures
        edge_count(prev_high, samples) == if prev_high && samples.len() > 0 {
            1nat
        } else {
            0nat
        },
    decreases samples.len(),
{
    if samples.len() > 0 {
        lemma_edge_count_all_low(samples[0], samples.drop_first());
    }
}

/// Toggles add up over a split of the samples, the second part starting
/// from the level the first part ended on.
pub proof fn lemma_edge_count_concat(prev_high: bool, s1: Seq<bool>, s2: Seq<bool>)
    ensures
        edge_count(prev_high, s1 + s2) == edge_count(prev_high, s1) + edge_count(
            if s1.len() == 0 {
                prev_high
            } else {
                s1.last()
            },
            s2,
        ),
    decreases s1.len(),
{
    if s1.len() == 0 {
        assert(s1 + s2 =~= s2);
    } else {
        assert((s1 + s2)[0] == s1[0]);
        assert((s1 + s2).drop_first() =~= s1.drop_first() + s2);
        lemma_edge_count_concat(s1[0], s1.drop_first(), s2);
        if s1.len() > 1 {
            assert(s1.drop_first().last() == s1.last());
        }
    }
}

/// Drawing mode after a run of button samples, one handled per cycle.
pub open spec fn drawing_run(drawing: bool, prev_high: bool, samples: Seq<bool>) -> bool
    decreases samples.len(),
{
    if samples.len() == 0 {
        drawing
    } else {
        drawing_run(
            if falling_edge(prev_high, samples[0]) {
                !drawing
            } else {
                drawing
            },
            samples[0],
            samples.drop_first(),
        )
    }
}

/// The mode depends on the samples only through the number of toggles they
/// cause: after any run it is the starting mode flipped once per counted
/// falling edge.
pub proof fn lemma_drawing_run_counts_toggles(drawing: bool, prev_high: bool, samples: Seq<bool>)
    ensures
        drawing_run(drawing, prev_high, samples) == (drawing != (edge_count(prev_high, samples)
            % 2 == 1)),
    decreases samples.len(),
{
    if samples.len() > 0 {
        let fired = falling_edge(prev_high, samples[0]);
        lemma_drawing_run_counts_toggles(
            if fired {
                !drawing
            } else {
                drawing
            },
            samples[0],
            samples.drop_first(),
        );
    }
}

/// The button levels of one physical press-and-release as the polling loop
/// samples them: the line high for a while, low for a while, high again.
pub open spec fn press_and_release(held_high: nat, held_low: nat, released: nat) -> Seq<bool> {
    Seq::new(held_high, |i: int| true) + Seq::new(held_low, |i: int| false) + Seq::new(
        released,
        |i: int| true,
    )
}

/// One physical press-and-release toggles exactly once, however long each
/// phase lasts, as long as at least one sample sees the line low.
pub proof fn lemma_one_press_one_toggle(held_high: nat, held_low: nat, released: nat)
    requires
        held_low >= 1,
    ensures
        edge_count(true, press_and_release(held_high, held_low, released)) == 1,
{
    let high = Seq::new(held_high, |i: int| true);
    let low = Seq::new(held_low, |i: int| false);
    let tail = Seq::new(released, |i: int| true);
    lemma_edge_count_concat(true, high + low, tail);
    lemma_edge_count_concat(true, high, low);
    lemma_edge_count_all_high(true, high);
    lemma_edge_count_all_low(if high.len() == 0 { true } else { high.last() }, low);
    assert((high + low).last() == low.last());
    lemma_edge_count_all_high((high + low).last(), tail);
}

/// The same law on the mode itself: from an idle line, one press-and-release
/// leaves the drawing mode flipped exactly once, never more.
pub proof fn lemma_one_press_flips_mode_once(
    drawing: bool,
    held_high: nat,
    held_low: nat,
    released: nat,
)
    requires
        held_low >= 1,
    ensures
        drawing_run(drawing, true, press_and_release(held_high, held_low, released)) == !drawing,
{
    lemma_one_press_one_toggle(held_high, held_low, released);
    lemma_drawing_run_counts_toggles(drawing, true, press_and_release(held_high, held_low, released));
}

/// The joystick frame source: the cursor, the drawing mode, its trail, and
/// the polling bookkeeping (previous button level, cycle counter).
pub struct DotState {
    /// Cursor column, always on the grid.
    pub x: u8,
    /// Cursor row, always on the grid.
    pub y: u8,
    /// True while drawing mode is active.
    pub drawing: bool,
    /// The pixels visited while drawing, OR-combined under the live cursor;
    /// cleared whenever drawing mode is entered, kept otherwise.
    pub trail: Bitmap,
    /// The button level seen on the previous cycle (the line idles high
    /// through a pull-up).
    pub last_button_high: bool,
    /// Cycles since the cursor last moved.
    pub tick: u8,
}

/// Setting bits with OR never clears one that the mask `m` finds lit.
proof fn lemma_or_keeps_bit(a: u8, b: u8, m: u8)
    by (bit_vector)
    ensures
        a & m != 0 ==> (a | b) & m != 0,
{
}

/// OR-ing a single-pixel mask into a row lights that pixel.
proof fn lemma_or_sets_bit(a: u8, x: u8)
    by (bit_vector)
    requires
        x < 8,
    ensures
        (a | (1u8 << x)) & (1u8 << x) != 0,
{
}

/// The frame a cycle shows: while drawing, the trail with the live cursor
/// OR-ed on top; otherwise the cursor alone.
pub open spec fn frame_rows(trail: Seq<u8>, drawing: bool, x: u8, y: u8) -> Seq<u8> {
    Seq::new(
        SIDE as nat,
        |r: int|
            {
                let base = if drawing {
                    trail[r]
                } else {
                    0u8
                };
                if r == y as int {
                    base | dot_mask(x)
                } else {
                    base
                }
            },
    )
}

/// What composition promises pixel by pixel: the live cursor is always lit
/// on top, and while drawing every pixel of the trail shows through — the
/// trail is OR-combined with the cursor, never displaced by it.
pub proof fn lemma_frame_shows_cursor_and_trail(
    trail: Seq<u8>,
    drawing: bool,
    cx: u8,
    cy: u8,
    x: u8,
    y: u8,
)
    requires
        trail.len() == SIDE,
        cx < SIDE,
        cy < SIDE,
        x < SIDE,
        y < SIDE,
    ensures
        pixel_lit(frame_rows(trail, drawing, cx, cy), cx, cy),
        drawing && pixel_lit(trail, x, y) ==> pixel_lit(frame_rows(trail, drawing, cx, cy), x, y),
{
    let base = if drawing {
        trail[cy as int]
    } else {
        0u8
    };
    lemma_or_sets_bit(base, cx);
    if drawing && pixel_lit(trail, x, y) && y == cy {
        lemma_or_keeps_bit(trail[y as int], dot_mask(cx), dot_mask(x));
    }
}

impl DotState {
    /// The cursor stays on the grid and the trail holds one byte per row.
    pub open spec fn wf(&self) -> bool {
        &&& self.x < SIDE
        &&& self.y < SIDE
        &&& self.trail.wf()
    }

    /// This cycle's button sample toggles the mode.
    pub open spec fn toggles(&self, button_high: bool) -> bool {
        falling_edge(self.last_button_high, button_high)
    }

    /// This cycle enters drawing mode: a toggle while the mode was off.
    pub open spec fn enters_drawing(&self, button_high: bool) -> bool {
        self.toggles(button_high) && !self.drawing
    }

    /// Drawing mode once the button is handled.
    pub open spec fn drawing_after(&self, button_high: bool) -> bool {
        if self.toggles(button_high) {
            !self.drawing
        } else {
            self.drawing
        }
    }

    /// The cursor moves this cycle: once per `move_divisor` cycles.
    pub open spec fn move_due(&self, cfg: JoystickConfig) -> bool {
        self.tick + 1 >= cfg.move_divisor
    }

    /// The cursor column once movement is applied.
    pub open spec fn x_after(&self, x_reading: u16, cfg: JoystickConfig) -> u8 {
        if self.move_due(cfg) {
            axis_step(self.x, x_reading, cfg.center, cfg.threshold)
        } else {
            self.x
        }
    }

    /// The cursor row once movement is applied.
    pub open spec fn y_after(&self, y_reading: u16, cfg: JoystickConfig) -> u8 {
        if self.move_due(cfg) {
            axis_step(self.y, y_reading, cfg.center, cfg.threshold)
        } else {
            self.y
        }
    }

    /// The cycle counter once movement is applied.
    pub open spec fn tick_after(&self, cfg: JoystickConfig) -> u8 {
        if self.move_due(cfg) {
            0u8
        } else {
            (self.tick + 1) as u8
        }
    }

    /// The trail at the end of the cycle: cleared on mode entry, then the
    /// cursor's new position burnt in while the mode is on.
    pub open spec fn trail_after(
        &self,
        button_high: bool,
        x_reading: u16,
        y_reading: u16,
        cfg: JoystickConfig,
    ) -> Seq<u8> {
        let base = if self.enters_drawing(button_high) {
            blank_rows()
        } else {
            self.trail@
        };
        let x = self.x_after(x_reading, cfg);
        let y = self.y_after(y_reading, cfg);
        if self.drawing_after(button_high) {
            base.update(y as int, base[y as int] | dot_mask(x))
        } else {
            base
        }
    }

    /// A fresh source: cursor at the center of the grid, drawing mode off,
    /// a blank trail, the button idle, a move due on the first cycle of the
    /// default rate.
    pub fn new() -> (r: DotState)
        ensures
            r.wf(),
            r.x == 4,
            r.y == 4,
            !r.drawing,
            all_rows_zero(r.trail@),
            r.last_button_high,
            r.tick == 0,
    {
        DotState {
            x: 4,
            y: 4,
            drawing: false,
            trail: Bitmap::new(),
            last_button_high: true,
            tick: 0,
        }
    }

    /// Handles the mode button: on a falling edge the drawing mode toggles,
    /// and whenever drawing mode is entered the trail is reset to all-zero,
    /// whatever it held before. Without an edge — held down, held up —
    /// nothing changes but the remembered level. The fixed debounce hold
    /// after a toggle is the caller's delay, like every other wait.
    pub fn handle_button(&mut self, button_high: bool)
        requires
            old(self).wf(),
        ensures
            final(self).wf(),
            final(self).drawing == old(self).drawing_after(button_high),
            final(self).last_button_high == button_high,
            old(self).enters_drawing(button_high) ==> all_rows_zero(final(self).trail@),
            final(self).trail@ =~= (if old(self).enters_drawing(button_high) {
                blank_rows()
            } else {
                old(self).trail@
            }),
            final(self).x == old(self).x,
            final(self).y == old(self).y,
            final(self).tick == old(self).tick,
    {
        if self.last_button_high && !button_high {
            self.drawing = !self.drawing;
            if self.drawing {
                self.trail.clear();
            }
        }
        self.last_button_high = button_high;
    }

    /// Applies the rate-limited movement: once per `move_divisor` cycles
    /// each coordinate takes one deadzone-compared step; on every other
    /// cycle only the counter advances.
    pub fn apply_movement(&mut self, x_reading: u16, y_reading: u16, cfg: &JoystickConfig)
        requires
            old(self).wf(),
            cfg.wf(),
        ensures
            final(self).wf(),
            final(self).x == old(self).x_after(x_reading, *cfg),
            final(self).y == old(self).y_after(y_reading, *cfg),
            final(self).tick == old(self).tick_after(*cfg),
            final(self).drawing == old(self).drawing,
            final(self).trail@ == old(self).trail@,
            final(self).last_button_high == old(self).last_button_high,
    {
        if self.tick >= cfg.move_divisor - 1 {
            self.tick = 0;
            self.x = step_axis(self.x, x_reading, cfg.center, cfg.threshold);
            self.y = step_axis(self.y, y_reading, cfg.center, cfg.threshold);
        } else {
            self.tick = self.tick + 1;
        }
    }

    /// Composes the frame this cycle shows.
    pub fn compose_frame(&self) -> (frame: Bitmap)
        requires
            self.wf(),
        ensures
            frame.wf(),
            frame@ == frame_rows(self.trail@, self.drawing, self.x, self.y),
    {
        let mut frame = Bitmap::new();
        let mut r: u8 = 0;
        while r < 8
            invariant
                self.wf(),
                r <= 8,
                frame.wf(),
                forall|j: int|
                    0 <= j < r ==> frame@[j] == frame_rows(
                        self.trail@,
                        self.drawing,
                        self.x,
                        self.y,
                    )[j],
            decreases 8 - r,
        {
            let base = if self.drawing {
                self.trail.row(r)
            } else {
                0
            };
            let v = if r == self.y {
                base | (1u8 << self.x)
            } else {
                base
            };
            frame.set_row(r, v);
            r += 1;
        }
        proof {
            assert(frame@ =~= frame_rows(self.trail@, self.drawing, self.x, self.y));
        }
        frame
    }

    /// The trail is never overwritten destructively except by the mode-entry
    /// clear: across any cycle that does not enter drawing mode, every pixel
    /// lit in the trail stays lit.
    pub proof fn lemma_trail_accumulates(
        self,
        button_high: bool,
        x_reading: u16,
        y_reading: u16,
        cfg: JoystickConfig,
        x: u8,
        y: u8,
    )
        requires
            self.wf(),
            !self.enters_drawing(button_high),
            x < SIDE,
            y < SIDE,
            pixel_lit(self.trail@, x, y),
        ensures
            pixel_lit(self.trail_after(button_high, x_reading, y_reading, cfg), x, y),
    {
        if self.drawing_after(button_high) {
            let cy = self.y_after(y_reading, cfg);
            if y == cy {
                lemma_or_keeps_bit(
                    self.trail@[y as int],
                    dot_mask(self.x_after(x_reading, cfg)),
                    dot_mask(x),
                );
            }
        }
    }

    /// One full cycle of the polling loop, from fresh samples to the frame
    /// to transmit: handle the button, move the cursor at the fixed rate,
    /// burn the cursor into the trail while drawing, and compose the frame.
    /// The caller samples the hardware and transmits the result; a failed
    /// bus write is dropped, the next cycle simply overwrites it.
    pub fn step(&mut self, button_high: bool, x_reading: u16, y_reading: u16, cfg: &JoystickConfig) -> (frame: Bitmap)
        requires
            old(self).wf(),
            cfg.wf(),
        ensures
            final(self).wf(),
            final(self).last_button_high == button_high,
            final(self).drawing == old(self).drawing_after(button_high),
            final(self).x == old(self).x_after(x_reading, *cfg),
            final(self).y == old(self).y_after(y_reading, *cfg),
            final(self).tick == old(self).tick_after(*cfg),
            final(self).trail@ == old(self).trail_after(button_high, x_reading, y_reading, *cfg),
            frame.wf(),
            frame@ == frame_rows(
                final(self).trail@,
                final(self).drawing,
                final(self).x,
                final(self).y,
            ),
    {
        self.handle_button(button_high);
        self.apply_movement(x_reading, y_reading, cfg);
        if self.drawing {
            self.trail.plot(self.x, self.y);
        }
        self.compose_frame()
    }
}

} // verus!
