//! The two frame sources: the static pattern flip-flop and the
//! joystick-driven dot with its drawing-mode trail.

use dot_matrix::joystick::{step_axis, DotState, JoystickConfig};
use dot_matrix::patterns::{heart, smiley, PatternCycle};

const CENTER: u16 = 512;
const THRESHOLD: u16 = 300;

fn cfg_every_cycle() -> JoystickConfig {
    JoystickConfig { center: CENTER, threshold: THRESHOLD, move_divisor: 1 }
}

fn rows_of(b: &dot_matrix::bitmap::Bitmap) -> [u8; 8] {
    let mut rows = [0u8; 8];
    let mut y: u8 = 0;
    while y < 8 {
        rows[y as usize] = b.row(y);
        y += 1;
    }
    rows
}

#[test]
fn default_config_matches_hardware_calibration() {
    let cfg = JoystickConfig::default();
    assert_eq!(cfg.center, 512);
    assert_eq!(cfg.threshold, 300);
    assert_eq!(cfg.move_divisor, 10);
}

#[test]
fn axis_step_moves_and_clamps() {
    assert_eq!(step_axis(3, 0, CENTER, THRESHOLD), 2);
    assert_eq!(step_axis(3, 1023, CENTER, THRESHOLD), 4);
    assert_eq!(step_axis(0, 0, CENTER, THRESHOLD), 0);
    assert_eq!(step_axis(7, 1023, CENTER, THRESHOLD), 7);
}

#[test]
fn axis_step_deadzone_boundaries() {
    // the deadzone is inclusive on both edges
    assert_eq!(step_axis(3, CENTER - THRESHOLD, CENTER, THRESHOLD), 3);
    assert_eq!(step_axis(3, CENTER + THRESHOLD, CENTER, THRESHOLD), 3);
    assert_eq!(step_axis(3, CENTER - THRESHOLD - 1, CENTER, THRESHOLD), 2);
    assert_eq!(step_axis(3, CENTER + THRESHOLD + 1, CENTER, THRESHOLD), 4);
}

#[test]
fn thousand_pushes_against_boundary_stay_clamped() {
    let cfg = cfg_every_cycle();
    let mut st = DotState::new();
    for _ in 0..1000 {
        st.step(true, 1023, CENTER, &cfg);
    }
    assert_eq!(st.x, 7);
    assert_eq!(st.y, 4);
    for _ in 0..1000 {
        st.step(true, 0, 0, &cfg);
    }
    assert_eq!(st.x, 0);
    assert_eq!(st.y, 0);
}

#[test]
fn center_reading_never_moves_cursor() {
    let cfg = cfg_every_cycle();
    let mut st = DotState::new();
    for _ in 0..500 {
        st.step(true, CENTER, CENTER, &cfg);
        assert_eq!(st.x, 4);
        assert_eq!(st.y, 4);
    }
}

#[test]
fn movement_is_rate_limited_by_divisor() {
    let cfg = JoystickConfig { center: CENTER, threshold: THRESHOLD, move_divisor: 10 };
    let mut st = DotState::new();
    // nine cycles pass without a move; the tenth moves the cursor
    for _ in 0..9 {
        st.step(true, 1023, CENTER, &cfg);
        assert_eq!(st.x, 4);
    }
    st.step(true, 1023, CENTER, &cfg);
    assert_eq!(st.x, 5);
}

#[test]
fn entering_drawing_mode_clears_full_trail() {
    let mut st = DotState::new();
    for y in 0..8u8 {
        st.trail.set_row(y, 0xFF);
    }
    assert!(!st.drawing);
    assert!(st.last_button_high);
    // the falling edge enters drawing mode and resets the trail to all-zero
    st.handle_button(false);
    assert!(st.drawing);
    for y in 0..8u8 {
        assert_eq!(st.trail.row(y), 0x00);
    }
}

#[test]
fn leaving_drawing_mode_keeps_trail() {
    let mut st = DotState::new();
    st.handle_button(false); // enter drawing mode
    st.handle_button(true); // release
    st.trail.set_row(2, 0xAA);
    st.handle_button(false); // leave drawing mode
    assert!(!st.drawing);
    assert_eq!(st.trail.row(2), 0xAA);
}

#[test]
fn short_press_toggles_exactly_once() {
    let cfg = cfg_every_cycle();
    let mut st = DotState::new();
    let mut toggles = 0u32;
    // idle, one low sample (shorter than a polling interval plus the
    // debounce hold), then idle again
    let samples = [true, true, false, true, true, true];
    for &level in samples.iter() {
        let before = st.drawing;
        st.step(level, CENTER, CENTER, &cfg);
        if st.drawing != before {
            toggles += 1;
        }
    }
    assert_eq!(toggles, 1);
    assert!(st.drawing);
}

#[test]
fn held_press_toggles_exactly_once() {
    let cfg = cfg_every_cycle();
    let mut st = DotState::new();
    let mut toggles = 0u32;
    for _ in 0..50 {
        let before = st.drawing;
        st.step(false, CENTER, CENTER, &cfg);
        if st.drawing != before {
            toggles += 1;
        }
    }
    assert_eq!(toggles, 1);
}

#[test]
fn cursor_alone_without_drawing_mode() {
    let mut st = DotState::new();
    st.x = 3;
    st.y = 2;
    let frame = st.compose_frame();
    let rows = rows_of(&frame);
    for y in 0..8usize {
        if y == 2 {
            assert_eq!(rows[y], 1 << 3);
        } else {
            assert_eq!(rows[y], 0);
        }
    }
}

#[test]
fn trail_accumulates_and_shows_under_cursor() {
    let cfg = cfg_every_cycle();
    let mut st = DotState::new();
    st.step(false, CENTER, CENTER, &cfg); // enter drawing mode at (4,4)
    let frame = st.step(true, 1023, CENTER, &cfg); // draw to (5,4)
    // both visited pixels stay lit: the trail is sticky
    assert_eq!(st.trail.row(4), (1 << 4) | (1 << 5));
    let rows = rows_of(&frame);
    assert_eq!(rows[4], (1 << 4) | (1 << 5));
    // moving on keeps the old pixels
    st.step(true, CENTER, 1023, &cfg); // draw to (5,5)
    assert_eq!(st.trail.row(4), (1 << 4) | (1 << 5));
    assert_eq!(st.trail.row(5), 1 << 5);
}

#[test]
fn pixels_read_back_after_plot() {
    let mut b = dot_matrix::bitmap::Bitmap::new();
    assert!(!b.get(6, 1));
    b.plot(6, 1);
    assert!(b.get(6, 1));
    assert!(!b.get(1, 6));
    assert_eq!(b.row(1), 1 << 6);
    b.clear();
    assert!(!b.get(6, 1));
}

#[test]
fn cursor_shows_through_trail() {
    let cfg = cfg_every_cycle();
    let mut st = DotState::new();
    st.step(false, CENTER, CENTER, &cfg); // enter drawing mode
    let frame = st.step(true, 900, CENTER, &cfg); // move right, drawing
    // the cursor pixel and the visited pixel are both lit
    assert!(frame.get(5, 4));
    assert!(frame.get(4, 4));
}

#[test]
fn pattern_cycle_alternates_with_period_two() {
    let heart_rows = rows_of(&heart());
    let smiley_rows = rows_of(&smiley());
    assert_ne!(heart_rows, smiley_rows);
    let mut cycle = PatternCycle::new();
    for n in 0..10 {
        let frame = rows_of(&cycle.current());
        if n % 2 == 0 {
            assert_eq!(frame, heart_rows);
        } else {
            assert_eq!(frame, smiley_rows);
        }
        cycle.advance();
    }
}

#[test]
fn heart_and_smiley_exact_rows() {
    assert_eq!(rows_of(&heart()), [0x66, 0xFF, 0xFF, 0xFF, 0x7E, 0x3C, 0x18, 0x00]);
    assert_eq!(rows_of(&smiley()), [0x3C, 0x42, 0xA5, 0x81, 0xA5, 0x99, 0x42, 0x3C]);
}
