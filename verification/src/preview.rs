//! Waveform preview for the display consumer.
//!
//! The display redraws one column per horizontal pixel. Each column's
//! value re-derives the waveform with the same morph, modulation and fold
//! arithmetic as the audio path — purely for visualization, the audio
//! path stays authoritative — and is then scaled by the level into a
//! vertical pixel offset. How many cycles fit on the screen follows the
//! frequency knob's position, from one cycle at the bottom of the range
//! to ten at the top. Only the integer column computation lives here; the
//! line drawing between columns belongs to the display driver outside the
//! crate.

use vstd::prelude::*;

use crate::fixed::{div_unit, mul_unit, mul_unit_sat, sat_i32, trunc_div, ONE};
use crate::oscillator::{
    folded, lemma_wrapped_small, modulated_phase, morph_wave, raw_wave, sine_wave, square_wave,
    triangle_wave, wavefold, wrap_phase, wrapped, Params, CYCLE,
};
use vstd::arithmetic::div_mod::{lemma_div_is_ordered, lemma_fundamental_div_mod_converse_div};

verus! {

/// Width of the display, columns.
pub const DISPLAY_WIDTH: usize = 128;

/// Height of the display, rows.
pub const DISPLAY_HEIGHT: i32 = 64;

/// The row of the zero line, half the display height.
pub const CENTER_Y: i32 = 32;

/// The frequency knob's position within its range, clamped to `[0, ONE]`.
pub open spec fn norm_freq(freq: int, min_freq: int, freq_range: int) -> int
    recommends
        freq_range >= 1,
{
    let raw = trunc_div((freq - min_freq) * ONE, freq_range);
    if raw < 0 {
        0
    } else if raw > ONE {
        ONE as int
    } else {
        raw
    }
}

/// How many cycles the preview spreads over the screen, Q15: one cycle at
/// the bottom of the frequency range, ten at the top.
pub open spec fn cycles_on_screen(freq: int, min_freq: int, freq_range: int) -> int {
    ONE + 9 * norm_freq(freq, min_freq, freq_range)
}

/// The phase at a column: the column's share of the cycles on screen.
pub open spec fn column_phase(x: int, cycles: int) -> int {
    (x * CYCLE * cycles) / (DISPLAY_WIDTH * ONE)
}

/// The waveform value the preview shows at a phase: the audio pipeline's
/// modulate–wrap–morph–fold arithmetic, before the level scaling.
pub open spec fn preview_value(p: Params, phase: int) -> int {
    let ph = wrapped(phase);
    let w = wrapped(modulated_phase(p, ph));
    folded(div_unit(raw_wave(p.wave_shape as int, w) * p.fold_gain))
}

/// The row the preview lights in a column: the waveform value scaled by
/// the level and the half height, below or above the zero line.
pub open spec fn column_y(p: Params, x: int, min_freq: int, freq_range: int) -> int {
    let cycles = cycles_on_screen(p.frequency as int, min_freq, freq_range);
    let v = preview_value(p, column_phase(x, cycles));
    CENTER_Y - div_unit(sat_i32(div_unit(v * p.amplitude)) * (CENTER_Y - 1))
}

/// The preview's waveform value at a phase, exact.
fn wave_value(p: &Params, phase: i64) -> (r: i64)
    ensures
        r == preview_value(*p, phase as int),
{
    let ph: u32 = wrap_phase(phase);
    proof {
        lemma_wrapped_small(ph as int);
    }
    let modulator: i32 = sine_wave(ph as i64);
    let offset: i64 = mul_unit(p.pm_amount as i64, modulator);
    let shifted: i64 = ph as i64 + offset;
    let w: u32 = wrap_phase(shifted);
    proof {
        lemma_wrapped_small(w as int);
    }
    let s: i32 = sine_wave(w as i64);
    let t: i32 = triangle_wave(w as i64);
    let q: i32 = square_wave(w as i64);
    let m: i64 = morph_wave(p.wave_shape, s, t, q);
    let pre: i64 = mul_unit(m, p.fold_gain);
    wavefold(pre)
}

/// The row of one preview column, exact.
pub fn preview_column(p: &Params, x: usize, min_freq: u32, freq_range: u32) -> (y: i32)
    requires
        x < DISPLAY_WIDTH,
        freq_range >= 1,
    ensures
        y == column_y(*p, x as int, min_freq as int, freq_range as int),
{
    let one64: i64 = ONE as i64;
    let diff: i64 = p.frequency as i64 - min_freq as i64;
    let scaled: i64 = diff * one64;
    let raw: i64 = if scaled >= 0 {
        ((scaled as u64) / (freq_range as u64)) as i64
    } else {
        let m: u64 = ((-scaled) as u64) / (freq_range as u64);
        -(m as i64)
    };
    let clamped: i64 = if raw < 0 {
        0
    } else if raw > one64 {
        one64
    } else {
        raw
    };
    let cycles: i64 = one64 + 9 * clamped;
    assert(cycles == cycles_on_screen(p.frequency as int, min_freq as int, freq_range as int));
    let xc: u64 = (x as u64) * (CYCLE as u64);
    assert(xc * cycles <= 0x80_0000_0000_0000 && xc * cycles == x * CYCLE * cycles)
        by (nonlinear_arith)
        requires
            xc == x * CYCLE,
            0 <= xc < 0x8000_0000,
            0 <= cycles <= 10 * 0x8000,
    ;
    let num: u64 = xc * (cycles as u64);
    let phase: u64 = num / ((DISPLAY_WIDTH as u64) * (ONE as u64));
    let v: i64 = wave_value(p, phase as i64);
    let level: i32 = mul_unit_sat(v, p.amplitude);
    let off: i64 = div_unit_steps(level);
    CENTER_Y - (off as i32)
}

/// Every column of the preview, left to right.
pub fn preview_columns(p: &Params, min_freq: u32, freq_range: u32) -> (ys: Vec<i32>)
    requires
        freq_range >= 1,
    ensures
        ys@.len() == DISPLAY_WIDTH,
        forall|j: int|
            0 <= j < DISPLAY_WIDTH ==> #[trigger] ys@[j] == column_y(
                *p,
                j,
                min_freq as int,
                freq_range as int,
            ),
{
    let mut ys: Vec<i32> = Vec::new();
    let mut x: usize = 0;
    while x < DISPLAY_WIDTH
        invariant
            x <= DISPLAY_WIDTH,
            ys@.len() == x,
            freq_range >= 1,
            forall|j: int|
                0 <= j < x ==> #[trigger] ys@[j] == column_y(
                    *p,
                    j,
                    min_freq as int,
                    freq_range as int,
                ),
        decreases DISPLAY_WIDTH - x,
    {
        let y = preview_column(p, x, min_freq, freq_range);
        ys.push(y);
        x = x + 1;
    }
    ys
}

/// A Q15 column value scaled into a pixel offset by the half height.
fn div_unit_steps(level: i32) -> (r: i64)
    ensures
        r == div_unit(level * (CENTER_Y - 1)),
        -0x20_0000 <= r <= 0x20_0000,
{
    let p: i64 = (level as i64) * 31;
    assert(p == level * (CENTER_Y - 1));
    if p >= 0 {
        proof {
            lemma_div_is_ordered(p as int, 0x1F_0000int * 0x8000, ONE as int);
            lemma_fundamental_div_mod_converse_div(0x1F_0000int * 0x8000, ONE as int, 0x1F_0000, 0);
        }
        ((p as u64) / (ONE as u64)) as i64
    } else {
        let m: u64 = ((-p) as u64) / (ONE as u64);
        proof {
            lemma_div_is_ordered(-p as int, 0x1F_0000int * 0x8000, ONE as int);
            lemma_fundamental_div_mod_converse_div(0x1F_0000int * 0x8000, ONE as int, 0x1F_0000, 0);
        }
        -(m as i64)
    }
}

} // verus!
