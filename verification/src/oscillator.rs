//! Phase-accumulator oscillator with waveform morphing, self phase
//! modulation and a wavefolding saturator.
//!
//! Phase is measured in binary phase units: [`CYCLE`] units are one full
//! cycle (the `2π` of the trigonometric picture), so wrapping a phase is
//! plain modular arithmetic. Signal values are Q15 ([`crate::fixed::ONE`]
//! is full scale). The sine generator is the classic piecewise-parabola
//! approximation evaluated exactly in integers, so every stage of the
//! pipeline — modulate, wrap, morph, fold, scale — has an exact
//! mathematical description that the executable code is proved to match.

use vstd::prelude::*;

use crate::fixed::{
    div_unit, div_unit_i64, mul_unit, mul_unit_sat, sat_i32, trunc_div, MUL_UNIT_BOUND, ONE,
};
use vstd::arithmetic::div_mod::{
    lemma_fundamental_div_mod, lemma_fundamental_div_mod_converse_div,
    lemma_fundamental_div_mod_converse_mod, lemma_mod_bound,
};

verus! {

/// One full cycle in binary phase units.
pub const CYCLE: u32 = 0x100_0000;

/// Half a cycle (the `π` of the trigonometric picture).
pub const HALF_CYCLE: u32 = 0x80_0000;

/// A quarter cycle, where the sine reaches full scale.
pub const QUARTER_CYCLE: u32 = 0x40_0000;

/// Divisor that scales the sine parabola `t * (HALF_CYCLE - t)` to Q15:
/// the parabola peaks at `HALF_CYCLE * HALF_CYCLE / 4`, which this maps
/// to `ONE`.
pub const PARABOLA_SCALE: u64 = 0x2000_0000;

/// Sample rate of the audio interface, in frames per second.
pub const SAMPLE_RATE: u32 = 96_000;

/// Any phase, wrapped into `[0, CYCLE)`. The Euclidean remainder is never
/// negative, however far modulation has pushed the phase.
pub open spec fn wrapped(x: int) -> int {
    x % (CYCLE as int)
}

/// The piecewise-parabola sine at a wrapped phase: one parabola through
/// zero at `0` and `HALF_CYCLE` peaking at `ONE`, mirrored below zero on
/// the second half of the cycle.
pub open spec fn sine_at(t: int) -> int
    recommends
        0 <= t < CYCLE,
{
    if t < HALF_CYCLE {
        (t * (HALF_CYCLE - t)) / (PARABOLA_SCALE as int)
    } else {
        -(((t - HALF_CYCLE) * (CYCLE - t)) / (PARABOLA_SCALE as int))
    }
}

/// The triangle at a wrapped phase: a ramp from `-ONE` up over the first
/// half cycle, back down over the second.
pub open spec fn triangle_at(t: int) -> int
    recommends
        0 <= t < CYCLE,
{
    if t < HALF_CYCLE {
        t / 128 - ONE
    } else {
        ONE - (t - HALF_CYCLE) / 128
    }
}

/// The square at a wrapped phase: full scale on the first half cycle,
/// negative full scale on the second.
pub open spec fn square_at(t: int) -> int
    recommends
        0 <= t < CYCLE,
{
    if t < HALF_CYCLE {
        ONE as int
    } else {
        -(ONE as int)
    }
}

/// Linear morph between the three waveforms: `shape` runs from `0` (pure
/// sine) through `ONE` (pure triangle) to `2 * ONE` (pure square). Values
/// outside that range extrapolate; nothing is clamped.
pub open spec fn morph(shape: int, s: int, t: int, q: int) -> int {
    if shape < ONE {
        div_unit((ONE - shape) * s + shape * t)
    } else {
        div_unit((2 * ONE - shape) * t + (shape - ONE) * q)
    }
}

/// One reflection pass of the wavefolder: a value beyond full scale is
/// reflected back across the boundary it crossed.
pub open spec fn fold_once(v: int) -> int {
    if v > ONE {
        2 * ONE - v
    } else if v < -(ONE as int) {
        -2 * ONE - v
    } else {
        v
    }
}

/// The wavefolder: four reflection passes.
pub open spec fn folded(v: int) -> int {
    fold_once(fold_once(fold_once(fold_once(v))))
}

/// The oscillator's parameter tuple, replaced as a whole by
/// [`Oscillator::set_params`].
#[derive(Clone, Copy, PartialEq, Eq, Debug)]
pub struct Params {
    /// Oscillator frequency in hertz; zero freezes the phase.
    pub frequency: u32,
    /// Output level, Q15; the declared range is `[0, ONE]`.
    pub amplitude: i32,
    /// Morph position, Q15; the declared range is `[0, 2 * ONE]`.
    pub wave_shape: i32,
    /// Gain ahead of the wavefolder, Q15; the declared range starts at `ONE`.
    pub fold_gain: i32,
    /// Self-modulation depth in phase units per full-scale modulator.
    pub pm_amount: u32,
}

/// The power-on parameter tuple: a 440 Hz sine at half level, unity fold
/// gain, no modulation.
pub open spec fn default_params() -> Params {
    Params { frequency: 440u32, amplitude: 16384i32, wave_shape: 0i32, fold_gain: ONE, pm_amount: 0u32 }
}

/// The declared parameter ranges. Values outside them still produce
/// well-defined output, but only inside them is the output guaranteed to
/// stay within `[-amplitude, amplitude]`.
pub open spec fn params_in_range(p: Params) -> bool {
    &&& 0 <= p.amplitude <= ONE
    &&& 0 <= p.wave_shape <= 2 * ONE
    &&& ONE <= p.fold_gain <= 9 * ONE
}

/// The phase after self modulation: the sine of the current phase, scaled
/// by the modulation depth, offsets the phase. Possibly far outside one
/// cycle and not yet wrapped.
pub open spec fn modulated_phase(p: Params, phase: int) -> int {
    phase + div_unit(p.pm_amount * sine_at(phase))
}

/// The morphed waveform evaluated at a wrapped phase.
pub open spec fn raw_wave(shape: int, t: int) -> int
    recommends
        0 <= t < CYCLE,
{
    morph(shape, sine_at(t), triangle_at(t), square_at(t))
}

/// One output sample of the oscillator at a given phase: modulate the
/// phase, wrap it, evaluate the morphed waveform, apply the fold gain,
/// fold, and scale by the amplitude (saturating only where out-of-range
/// parameters have pushed the value beyond the machine word).
pub open spec fn sample_value(p: Params, phase: int) -> int {
    let w = wrapped(modulated_phase(p, phase));
    let pre = div_unit(raw_wave(p.wave_shape as int, w) * p.fold_gain);
    sat_i32(div_unit(folded(pre) * p.amplitude))
}

/// Phase advance per sample: `CYCLE * frequency / rate` phase units.
pub open spec fn phase_increment(p: Params, rate: int) -> int
    recommends
        rate >= 1,
{
    (CYCLE * p.frequency) / rate
}

/// The accumulator phase after one sample, wrapped into `[0, CYCLE)`.
pub open spec fn next_phase(p: Params, phase: int, rate: int) -> int
    recommends
        rate >= 1,
{
    wrapped(phase + phase_increment(p, rate))
}

/// A phase already inside `[0, CYCLE)` wraps to itself.
pub proof fn lemma_wrapped_small(x: int)
    requires
        0 <= x < CYCLE,
    ensures
        wrapped(x) == x,
{
    lemma_fundamental_div_mod_converse_mod(x, CYCLE as int, 0, x);
}

/// The wrapped phase is always inside `[0, CYCLE)`.
pub proof fn lemma_wrapped_bounded(x: int)
    ensures
        0 <= wrapped(x) < CYCLE,
{
    lemma_mod_bound(x, CYCLE as int);
}

/// The sine stays within full scale.
pub proof fn lemma_sine_bounded(t: int)
    requires
        0 <= t < CYCLE,
    ensures
        -(ONE as int) <= sine_at(t) <= ONE,
{
    if t < HALF_CYCLE {
        assert(0 <= t * (HALF_CYCLE - t) <= 0x1000_0000_0000) by (nonlinear_arith)
            requires
                0 <= t < HALF_CYCLE,
                HALF_CYCLE == 0x80_0000,
        ;
    } else {
        let u = t - HALF_CYCLE;
        assert(0 <= u * (CYCLE - t) <= 0x1000_0000_0000) by (nonlinear_arith)
            requires
                u == t - HALF_CYCLE,
                HALF_CYCLE <= t < CYCLE,
                HALF_CYCLE == 0x80_0000,
                CYCLE == 0x100_0000,
        ;
    }
}

/// The triangle stays within full scale.
pub proof fn lemma_triangle_bounded(t: int)
    requires
        0 <= t < CYCLE,
    ensures
        -(ONE as int) <= triangle_at(t) <= ONE,
{
}

/// The square stays within full scale.
pub proof fn lemma_square_bounded(t: int)
    requires
        0 <= t < CYCLE,
    ensures
        -(ONE as int) <= square_at(t) <= ONE,
{
}

/// Division by `ONE` shrinks magnitudes: a product bounded by `b * ONE`
/// scales back to a value bounded by `b`.
pub proof fn lemma_div_unit_bounded(x: int, b: int)
    requires
        0 <= b,
        -b * ONE <= x <= b * ONE,
    ensures
        -b <= div_unit(x) <= b,
{
    if x >= 0 {
        assert(x / (ONE as int) <= (b * ONE) / (ONE as int)) by (nonlinear_arith)
            requires
                0 <= x <= b * ONE,
                ONE == 0x8000,
        ;
        assert((b * ONE) / (ONE as int) == b) by (nonlinear_arith)
            requires
                0 <= b,
                ONE == 0x8000,
        ;
    } else {
        assert((-x) / (ONE as int) <= (b * ONE) / (ONE as int)) by (nonlinear_arith)
            requires
                0 < -x <= b * ONE,
                ONE == 0x8000,
        ;
        assert((b * ONE) / (ONE as int) == b) by (nonlinear_arith)
            requires
                0 <= b,
                ONE == 0x8000,
        ;
    }
}

/// Inside the declared morph range the blend is a convex combination, so
/// it stays within full scale whenever its three inputs do.
pub proof fn lemma_morph_bounded(shape: int, s: int, t: int, q: int)
    requires
        0 <= shape <= 2 * ONE,
        -(ONE as int) <= s <= ONE,
        -(ONE as int) <= t <= ONE,
        -(ONE as int) <= q <= ONE,
    ensures
        -(ONE as int) <= morph(shape, s, t, q) <= ONE,
{
    if shape < ONE {
        assert(-(ONE as int) * ONE <= (ONE - shape) * s + shape * t <= (ONE as int) * ONE)
            by (nonlinear_arith)
            requires
                0 <= shape < ONE,
                -(ONE as int) <= s <= ONE,
                -(ONE as int) <= t <= ONE,
        ;
        lemma_div_unit_bounded((ONE - shape) * s + shape * t, ONE as int);
    } else {
        assert(-(ONE as int) * ONE <= (2 * ONE - shape) * t + (shape - ONE) * q <= (ONE as int)
            * ONE) by (nonlinear_arith)
            requires
                ONE <= shape <= 2 * ONE,
                -(ONE as int) <= t <= ONE,
                -(ONE as int) <= q <= ONE,
        ;
        lemma_div_unit_bounded((2 * ONE - shape) * t + (shape - ONE) * q, ONE as int);
    }
}

/// At the ends and the middle of its range the morph reproduces one raw
/// waveform exactly: shape `0` is the sine, `ONE` the triangle and
/// `2 * ONE` the square.
pub proof fn lemma_morph_endpoints(s: int, t: int, q: int)
    ensures
        morph(0, s, t, q) == s,
        morph(ONE as int, s, t, q) == t,
        morph(2 * ONE, s, t, q) == q,
{
}

/// A value already within full scale passes the wavefolder unchanged.
pub proof fn lemma_fold_identity(v: int)
    requires
        -(ONE as int) <= v <= ONE,
    ensures
        folded(v) == v,
{
}

/// Four reflection passes bring any value of magnitude at most `9 * ONE`
/// back within full scale: each pass removes at least `2 * ONE` of excess
/// magnitude, and one pass finishes the job from `3 * ONE` down.
pub proof fn lemma_fold_bounded(v: int)
    requires
        -9 * ONE <= v <= 9 * ONE,
    ensures
        -(ONE as int) <= folded(v) <= ONE,
{
}

/// Any phase, wrapped into `[0, CYCLE)` by the Euclidean remainder; exact
/// for arbitrarily large magnitudes in either direction.
pub fn wrap_phase(x: i64) -> (r: u32)
    ensures
        r == wrapped(x as int),
        r < CYCLE,
{
    proof {
        lemma_wrapped_bounded(x as int);
    }
    if x >= 0 {
        ((x as u64) % (CYCLE as u64)) as u32
    } else {
        let n: u128 = (-(x as i128)) as u128;
        let m: u128 = n % (CYCLE as u128);
        proof {
            lemma_fundamental_div_mod(n as int, CYCLE as int);
            if m == 0 {
                lemma_fundamental_div_mod_converse_mod(
                    x as int,
                    CYCLE as int,
                    -(n as int / CYCLE as int),
                    0,
                );
            } else {
                lemma_fundamental_div_mod_converse_mod(
                    x as int,
                    CYCLE as int,
                    -(n as int / CYCLE as int) - 1,
                    CYCLE - m,
                );
            }
        }
        if m == 0 {
            0
        } else {
            CYCLE - (m as u32)
        }
    }
}

/// The piecewise-parabola sine of a phase in phase units, Q15.
pub fn sine_wave(phase: i64) -> (r: i32)
    ensures
        r == sine_at(wrapped(phase as int)),
        -(ONE as int) <= r <= ONE,
{
    let t: u32 = wrap_phase(phase);
    proof {
        lemma_sine_bounded(t as int);
    }
    if t < HALF_CYCLE {
        assert(0 <= t * (HALF_CYCLE - t)) by (nonlinear_arith)
            requires
                0 <= t < HALF_CYCLE,
        ;
        (((t as u64) * ((HALF_CYCLE - t) as u64)) / PARABOLA_SCALE) as i32
    } else {
        let u: u32 = t - HALF_CYCLE;
        assert(0 <= u * (CYCLE - t)) by (nonlinear_arith)
            requires
                u == t - HALF_CYCLE,
                HALF_CYCLE <= t < CYCLE,
        ;
        -((((u as u64) * ((CYCLE - t) as u64)) / PARABOLA_SCALE) as i32)
    }
}

/// The triangle of a phase in phase units, Q15.
pub fn triangle_wave(phase: i64) -> (r: i32)
    ensures
        r == triangle_at(wrapped(phase as int)),
        -(ONE as int) <= r <= ONE,
{
    let t: u32 = wrap_phase(phase);
    if t < HALF_CYCLE {
        (t / 128) as i32 - ONE
    } else {
        ONE - ((t - HALF_CYCLE) / 128) as i32
    }
}

/// The square of a phase in phase units, Q15.
pub fn square_wave(phase: i64) -> (r: i32)
    ensures
        r == square_at(wrapped(phase as int)),
        -(ONE as int) <= r <= ONE,
{
    let t: u32 = wrap_phase(phase);
    if t < HALF_CYCLE {
        ONE
    } else {
        -ONE
    }
}

/// The morphed waveform from three raw waveform values, each within full
/// scale. Inside the declared morph range the result is within full scale
/// too; outside it the blend extrapolates, still exactly.
pub fn morph_wave(shape: i32, s: i32, t: i32, q: i32) -> (r: i64)
    requires
        -(ONE as int) <= s <= ONE,
        -(ONE as int) <= t <= ONE,
        -(ONE as int) <= q <= ONE,
    ensures
        r == morph(shape as int, s as int, t as int, q as int),
        -0x8_0000_0000 <= r <= 0x8_0000_0000,
        0 <= shape <= 2 * ONE ==> -(ONE as int) <= r <= ONE,
{
    proof {
        if 0 <= shape <= 2 * ONE {
            lemma_morph_bounded(shape as int, s as int, t as int, q as int);
        }
    }
    let one: i64 = ONE as i64;
    let sh: i64 = shape as i64;
    let num: i64 = if shape < ONE {
        assert(-0x8000_0000_0000 <= (one - sh) * s <= 0x8000_0000_0000) by (nonlinear_arith)
            requires
                -0x8000_0000 <= sh <= 0x8000_0000,
                one == 0x8000,
                -0x8000 <= s <= 0x8000,
        ;
        assert(-0x8000_0000_0000 <= sh * t <= 0x8000_0000_0000) by (nonlinear_arith)
            requires
                -0x8000_0000 <= sh <= 0x8000_0000,
                -0x8000 <= t <= 0x8000,
        ;
        (one - sh) * (s as i64) + sh * (t as i64)
    } else {
        assert(-0x8000_0000_0000 <= (2 * one - sh) * t <= 0x8000_0000_0000) by (nonlinear_arith)
            requires
                -0x8000_0000 <= sh <= 0x8000_0000,
                one == 0x8000,
                -0x8000 <= t <= 0x8000,
        ;
        assert(-0x8000_0000_0000 <= (sh - one) * q <= 0x8000_0000_0000) by (nonlinear_arith)
            requires
                -0x8000_0000 <= sh <= 0x8000_0000,
                one == 0x8000,
                -0x8000 <= q <= 0x8000,
        ;
        (2 * one - sh) * (t as i64) + (sh - one) * (q as i64)
    };
    div_unit_i64(num)
}

/// The wavefolder: four reflection passes, exact.
pub fn wavefold(v: i64) -> (r: i64)
    requires
        -0x1000_0000_0000_0000 <= v <= 0x1000_0000_0000_0000,
    ensures
        r == folded(v as int),
{
    let v1: i64 = fold_pass(v);
    let v2: i64 = fold_pass(v1);
    let v3: i64 = fold_pass(v2);
    fold_pass(v3)
}

/// One reflection pass of the wavefolder.
fn fold_pass(v: i64) -> (r: i64)
    requires
        -0x2000_0000_0000_0000 <= v <= 0x2000_0000_0000_0000,
    ensures
        r == fold_once(v as int),
{
    let one: i64 = ONE as i64;
    if v > one {
        2 * one - v
    } else if v < -one {
        -2 * one - v
    } else {
        v
    }
}

/// The oscillator: a phase accumulator and the parameter tuple the audio
/// interrupt context reads. The phase is kept wrapped in `[0, CYCLE)` by
/// every operation.
pub struct Oscillator {
    phase: u32,
    sample_rate: u32,
    frequency: u32,
    amplitude: i32,
    wave_shape: i32,
    fold_gain: i32,
    pm_amount: u32,
}

impl Oscillator {
    /// The parameter tuple currently in effect.
    pub closed spec fn params(self) -> Params {
        Params {
            frequency: self.frequency,
            amplitude: self.amplitude,
            wave_shape: self.wave_shape,
            fold_gain: self.fold_gain,
            pm_amount: self.pm_amount,
        }
    }

    /// The accumulator phase, in phase units.
    pub closed spec fn phase_units(self) -> int {
        self.phase as int
    }

    /// The configured sample rate, in frames per second.
    pub closed spec fn rate(self) -> int {
        self.sample_rate as int
    }

    /// Well-formed: the phase is wrapped and the sample rate is positive.
    pub open spec fn wf(self) -> bool {
        &&& 0 <= self.phase_units() < CYCLE
        &&& self.rate() >= 1
    }

    /// A fresh oscillator at the default sample rate: a quiet 440 Hz sine
    /// at half level, no modulation, unity fold gain, phase zero.
    pub fn new() -> (r: Self)
        ensures
            r.wf(),
            r.phase_units() == 0,
            r.rate() == SAMPLE_RATE,
            r.params() == default_params(),
    {
        Self::with_sample_rate(SAMPLE_RATE)
    }

    /// A fresh oscillator driven at the given sample rate.
    pub fn with_sample_rate(sample_rate: u32) -> (r: Self)
        requires
            sample_rate >= 1,
        ensures
            r.wf(),
            r.phase_units() == 0,
            r.rate() == sample_rate,
            r.params() == default_params(),
    {
        Oscillator {
            phase: 0,
            sample_rate,
            frequency: 440,
            amplitude: ONE / 2,
            wave_shape: 0,
            fold_gain: ONE,
            pm_amount: 0,
        }
    }

    /// Replaces the whole parameter tuple. The caller holds the receiver
    /// exclusively, so a concurrent sample-generation call observes either
    /// the old tuple or the new one, never a mixture; the phase and the
    /// sample rate are untouched. No range validation: out-of-range values
    /// give well-defined, merely unmusical output.
    pub fn set_params(
        &mut self,
        frequency: u32,
        amplitude: i32,
        wave_shape: i32,
        fold_gain: i32,
        pm_amount: u32,
    )
        ensures
            final(self).params() == (Params { frequency, amplitude, wave_shape, fold_gain, pm_amount }),
            final(self).phase_units() == old(self).phase_units(),
            final(self).rate() == old(self).rate(),
    {
        self.frequency = frequency;
        self.amplitude = amplitude;
        self.wave_shape = wave_shape;
        self.fold_gain = fold_gain;
        self.pm_amount = pm_amount;
    }

    /// Generates one sample at the current phase and advances the phase by
    /// one sample period. The result is exactly [`sample_value`] of the
    /// parameters and the old phase, and the new phase is exactly
    /// [`next_phase`]; within the declared parameter ranges the sample
    /// stays within `[-amplitude, amplitude]`.
    pub fn next_sample(&mut self) -> (r: i32)
        requires
            old(self).wf(),
        ensures
            final(self).wf(),
            final(self).params() == old(self).params(),
            final(self).rate() == old(self).rate(),
            final(self).phase_units() == next_phase(
                old(self).params(),
                old(self).phase_units(),
                old(self).rate(),
            ),
            r == sample_value(old(self).params(), old(self).phase_units()),
            params_in_range(old(self).params()) ==> -old(self).params().amplitude <= r
                <= old(self).params().amplitude,
    {
        proof {
            lemma_wrapped_small(self.phase as int);
        }
        let modulator: i32 = sine_wave(self.phase as i64);
        let offset: i64 = mul_unit(self.pm_amount as i64, modulator);
        let shifted: i64 = self.phase as i64 + offset;
        let w: u32 = wrap_phase(shifted);
        proof {
            lemma_wrapped_small(w as int);
        }
        let s: i32 = sine_wave(w as i64);
        let t: i32 = triangle_wave(w as i64);
        let q: i32 = square_wave(w as i64);
        let m: i64 = morph_wave(self.wave_shape, s, t, q);
        let pre: i64 = mul_unit(m, self.fold_gain);
        let f: i64 = wavefold(pre);
        let r: i32 = mul_unit_sat(f, self.amplitude);
        proof {
            if params_in_range(self.params()) {
                lemma_prefold_bounded(m as int, self.fold_gain as int);
                lemma_fold_bounded(pre as int);
                lemma_output_bounded(f as int, self.amplitude as int);
            }
        }
        let inc: u64 = ((CYCLE as u64) * (self.frequency as u64)) / (self.sample_rate as u64);
        proof {
            lemma_wrapped_bounded(self.phase as int + inc as int);
        }
        self.phase = (((self.phase as u64) + inc) % (CYCLE as u64)) as u32;
        r
    }

    /// The current accumulator phase, in phase units.
    pub fn current_phase(&self) -> (r: u32)
        ensures
            r == self.phase_units(),
    {
        self.phase
    }
}

/// The fold gain scales a full-scale morph value to at most nine times
/// full scale inside the declared gain range.
pub proof fn lemma_prefold_bounded(m: int, g: int)
    requires
        -(ONE as int) <= m <= ONE,
        ONE <= g <= 9 * ONE,
    ensures
        -9 * ONE <= div_unit(m * g) <= 9 * ONE,
{
    assert(-9 * ONE * ONE <= m * g <= 9 * ONE * ONE) by (nonlinear_arith)
        requires
            -(ONE as int) <= m <= ONE,
            ONE <= g <= 9 * ONE,
            ONE == 0x8000,
    ;
    lemma_div_unit_bounded(m * g, 9 * ONE);
}

/// Scaling by unity gain is exact: `ONE` is one in Q15.
pub proof fn lemma_unit_gain(x: int)
    ensures
        div_unit(x * ONE) == x,
{
    if x >= 0 {
        lemma_fundamental_div_mod_converse_div(x * ONE, ONE as int, x, 0);
    } else {
        lemma_fundamental_div_mod_converse_div(-x * ONE, ONE as int, -x, 0);
        assert(-(x * ONE) == -x * ONE) by (nonlinear_arith);
    }
}

/// With no modulation, unity fold gain and the morph at its sine end, a
/// sample is exactly the sine of the phase scaled by the amplitude: the
/// fold pass and the saturation change nothing.
pub proof fn lemma_pure_sine(p: Params, phase: int)
    requires
        p.wave_shape == 0,
        p.pm_amount == 0,
        p.fold_gain == ONE,
        0 <= p.amplitude <= ONE,
        0 <= phase < CYCLE,
    ensures
        sample_value(p, phase) == div_unit(sine_at(phase) * p.amplitude),
{
    lemma_wrapped_small(phase);
    lemma_sine_bounded(phase);
    lemma_morph_endpoints(sine_at(phase), triangle_at(phase), square_at(phase));
    lemma_unit_gain(sine_at(phase));
    lemma_fold_identity(sine_at(phase));
    lemma_output_bounded(sine_at(phase), p.amplitude as int);
}

/// The same purity at the triangle end of the morph.
pub proof fn lemma_pure_triangle(p: Params, phase: int)
    requires
        p.wave_shape == ONE,
        p.pm_amount == 0,
        p.fold_gain == ONE,
        0 <= p.amplitude <= ONE,
        0 <= phase < CYCLE,
    ensures
        sample_value(p, phase) == div_unit(triangle_at(phase) * p.amplitude),
{
    lemma_wrapped_small(phase);
    lemma_triangle_bounded(phase);
    lemma_morph_endpoints(sine_at(phase), triangle_at(phase), square_at(phase));
    lemma_unit_gain(triangle_at(phase));
    lemma_fold_identity(triangle_at(phase));
    lemma_output_bounded(triangle_at(phase), p.amplitude as int);
}

/// The same purity at the square end of the morph.
pub proof fn lemma_pure_square(p: Params, phase: int)
    requires
        p.wave_shape == 2 * ONE,
        p.pm_amount == 0,
        p.fold_gain == ONE,
        0 <= p.amplitude <= ONE,
        0 <= phase < CYCLE,
    ensures
        sample_value(p, phase) == div_unit(square_at(phase) * p.amplitude),
{
    lemma_wrapped_small(phase);
    lemma_square_bounded(phase);
    lemma_morph_endpoints(sine_at(phase), triangle_at(phase), square_at(phase));
    lemma_unit_gain(square_at(phase));
    lemma_fold_identity(square_at(phase));
    lemma_output_bounded(square_at(phase), p.amplitude as int);
}

/// Scaling a folded (full-scale) value by a level inside `[0, ONE]` keeps
/// it within `[-level, level]`.
pub proof fn lemma_output_bounded(f: int, a: int)
    requires
        -(ONE as int) <= f <= ONE,
        0 <= a <= ONE,
    ensures
        -a <= div_unit(f * a) <= a,
        sat_i32(div_unit(f * a)) == div_unit(f * a),
{
    assert(-a * ONE <= f * a <= a * ONE) by (nonlinear_arith)
        requires
            -(ONE as int) <= f <= ONE,
            0 <= a,
    ;
    lemma_div_unit_bounded(f * a, a);
}

} // verus!
