//! Mapping and smoothing of the control knobs' raw readings.
//!
//! The analogue scanner (outside this crate) hands over one raw 16-bit
//! reading per knob. Here each reading is mapped into the declared range
//! of its oscillator parameter, and a first-order smoother blends it with
//! the previous value so stepped readings do not zipper. All of it is
//! exact integer arithmetic.

use vstd::prelude::*;

use crate::fixed::ONE;
use crate::oscillator::Params;
use vstd::arithmetic::div_mod::{lemma_div_is_ordered, lemma_fundamental_div_mod_converse_div};

verus! {

/// Largest raw knob reading.
pub const RAW_MAX: u16 = 65535;

/// Lowest frequency on the frequency knob, hertz.
pub const MIN_FREQ: u32 = 20;

/// Span of the frequency knob above its lowest point, hertz.
pub const FREQ_RANGE: u32 = 3000;

/// Span of the modulation-depth knob, in phase units: ten radians, the
/// depth `10.0` of the analogue panel, as `10 * CYCLE / 2π` rounded down.
pub const PM_RANGE_UNITS: u32 = 26_701_768;

/// The frequency knob's mapping: `MIN_FREQ` hertz plus its share of the
/// range.
pub open spec fn freq_of_raw(raw: int) -> int {
    MIN_FREQ + (raw * FREQ_RANGE) / (RAW_MAX as int)
}

/// The level knob's mapping: its share of full scale.
pub open spec fn level_of_raw(raw: int) -> int {
    (raw * ONE) / (RAW_MAX as int)
}

/// The morph knob's mapping: its share of the two-unit morph range.
pub open spec fn shape_of_raw(raw: int) -> int {
    (raw * 2 * ONE) / (RAW_MAX as int)
}

/// The fold knob's mapping: unity gain plus up to nine more units.
pub open spec fn gain_of_raw(raw: int) -> int {
    ONE + (raw * 9 * ONE) / (RAW_MAX as int)
}

/// The modulation knob's mapping: its share of ten radians, in phase
/// units.
pub open spec fn pm_of_raw(raw: int) -> int {
    (raw * PM_RANGE_UNITS) / (RAW_MAX as int)
}

/// One step of the first-order smoother: the blend of the target and the
/// current value, weighted by the factor (Q15). Factor `ONE` adopts the
/// target outright; factor `0` never moves.
pub open spec fn smooth(current: int, target: int, factor: int) -> int {
    (target * factor + current * (ONE - factor)) / (ONE as int)
}

/// The smoother never leaves the interval its two inputs lie in.
pub proof fn lemma_smooth_bounded(current: int, target: int, factor: int, lo: int, hi: int)
    requires
        0 <= factor <= ONE,
        lo <= current <= hi,
        lo <= target <= hi,
    ensures
        lo <= smooth(current, target, factor) <= hi,
{
    let num = target * factor + current * (ONE - factor);
    assert(lo * ONE <= num <= hi * ONE) by (nonlinear_arith)
        requires
            0 <= factor <= ONE,
            lo <= current <= hi,
            lo <= target <= hi,
            num == target * factor + current * (ONE - factor),
            ONE == 0x8000,
    ;
    lemma_div_is_ordered(lo * ONE, num, ONE as int);
    lemma_div_is_ordered(num, hi * ONE, ONE as int);
    lemma_fundamental_div_mod_converse_div(lo * ONE, ONE as int, lo, 0);
    lemma_fundamental_div_mod_converse_div(hi * ONE, ONE as int, hi, 0);
}

/// Smoothing at factor `ONE` adopts the target exactly.
pub proof fn lemma_smooth_unit_factor(current: int, target: int)
    ensures
        smooth(current, target, ONE as int) == target,
{
    lemma_fundamental_div_mod_converse_div(target * ONE, ONE as int, target, 0);
}

/// The five raw readings mapped into the oscillator's declared parameter
/// ranges, unsmoothed.
pub fn map_knobs(raw_freq: u16, raw_level: u16, raw_shape: u16, raw_gain: u16, raw_pm: u16) -> (p:
    Params)
    ensures
        p.frequency == freq_of_raw(raw_freq as int),
        p.amplitude == level_of_raw(raw_level as int),
        p.wave_shape == shape_of_raw(raw_shape as int),
        p.fold_gain == gain_of_raw(raw_gain as int),
        p.pm_amount == pm_of_raw(raw_pm as int),
        MIN_FREQ <= p.frequency <= MIN_FREQ + FREQ_RANGE,
        0 <= p.amplitude <= ONE,
        0 <= p.wave_shape <= 2 * ONE,
        ONE <= p.fold_gain <= 10 * ONE,
        p.pm_amount <= PM_RANGE_UNITS,
{
    let frequency: u32 = MIN_FREQ + scale_raw(raw_freq, FREQ_RANGE);
    let amplitude: i32 = scale_raw(raw_level, ONE as u32) as i32;
    let wave_shape: i32 = scale_raw(raw_shape, 2 * (ONE as u32)) as i32;
    let fold_gain: i32 = ONE + scale_raw(raw_gain, 9 * (ONE as u32)) as i32;
    let pm_amount: u32 = scale_raw(raw_pm, PM_RANGE_UNITS);
    Params { frequency, amplitude, wave_shape, fold_gain, pm_amount }
}

/// A raw reading's share of a range: `raw * range / RAW_MAX`, exact, and
/// never more than the range.
fn scale_raw(raw: u16, range: u32) -> (r: u32)
    ensures
        r == (raw * range) / (RAW_MAX as int),
        r <= range,
{
    proof {
        let p = (raw as int) * (range as int);
        let top = (range as int) * (RAW_MAX as int);
        assert(0 <= p <= top) by (nonlinear_arith)
            requires
                0 <= raw <= RAW_MAX,
                0 <= range,
                p == (raw as int) * (range as int),
                top == (range as int) * (RAW_MAX as int),
        ;
        lemma_div_is_ordered(p, top, RAW_MAX as int);
        lemma_fundamental_div_mod_converse_div(top, RAW_MAX as int, range as int, 0);
    }
    (((raw as u64) * (range as u64)) / (RAW_MAX as u64)) as u32
}

/// The smoothed knob state the control context carries between passes:
/// one smoothed value per oscillator parameter, each inside its declared
/// range.
pub struct KnobState {
    /// Smoothed frequency, hertz.
    pub frequency: u32,
    /// Smoothed level, Q15.
    pub amplitude: i32,
    /// Smoothed morph position, Q15.
    pub wave_shape: i32,
    /// Smoothed fold gain, Q15.
    pub fold_gain: i32,
    /// Smoothed modulation depth, phase units.
    pub pm_amount: u32,
}

impl KnobState {
    /// Every smoothed value inside the range its knob maps to (the
    /// frequency and the fold gain start below their knobs' floors and
    /// rise from there).
    pub open spec fn wf(self) -> bool {
        &&& self.frequency <= MIN_FREQ + FREQ_RANGE
        &&& 0 <= self.amplitude <= ONE
        &&& 0 <= self.wave_shape <= 2 * ONE
        &&& 0 <= self.fold_gain <= 10 * ONE
        &&& self.pm_amount <= PM_RANGE_UNITS
    }

    /// The state before the first pass: everything quiet, unity fold
    /// gain.
    pub fn new() -> (r: Self)
        ensures
            r.wf(),
            r.frequency == 0u32,
            r.amplitude == 0i32,
            r.wave_shape == 0i32,
            r.fold_gain == ONE,
            r.pm_amount == 0u32,
    {
        KnobState { frequency: 0, amplitude: 0, wave_shape: 0, fold_gain: ONE, pm_amount: 0 }
    }

    /// One control pass: map the five raw readings and fold each into its
    /// smoothed value with the given factor (Q15). The returned tuple is
    /// what the control context hands to the oscillator.
    pub fn update(
        &mut self,
        raw_freq: u16,
        raw_level: u16,
        raw_shape: u16,
        raw_gain: u16,
        raw_pm: u16,
        factor: i32,
    ) -> (p: Params)
        requires
            0 <= factor <= ONE,
            old(self).wf(),
        ensures
            final(self).wf(),
            final(self).frequency == smooth(
                old(self).frequency as int,
                freq_of_raw(raw_freq as int),
                factor as int,
            ),
            final(self).amplitude == smooth(
                old(self).amplitude as int,
                level_of_raw(raw_level as int),
                factor as int,
            ),
            final(self).wave_shape == smooth(
                old(self).wave_shape as int,
                shape_of_raw(raw_shape as int),
                factor as int,
            ),
            final(self).fold_gain == smooth(
                old(self).fold_gain as int,
                gain_of_raw(raw_gain as int),
                factor as int,
            ),
            final(self).pm_amount == smooth(
                old(self).pm_amount as int,
                pm_of_raw(raw_pm as int),
                factor as int,
            ),
            p == (Params {
                frequency: final(self).frequency,
                amplitude: final(self).amplitude,
                wave_shape: final(self).wave_shape,
                fold_gain: final(self).fold_gain,
                pm_amount: final(self).pm_amount,
            }),
    {
        let target = map_knobs(raw_freq, raw_level, raw_shape, raw_gain, raw_pm);
        self.frequency = smooth_step(self.frequency, target.frequency, factor, Ghost(
            (MIN_FREQ + FREQ_RANGE) as int,
        ));
        self.amplitude = smooth_step(self.amplitude as u32, target.amplitude as u32, factor, Ghost(
            ONE as int,
        )) as i32;
        self.wave_shape = smooth_step(
            self.wave_shape as u32,
            target.wave_shape as u32,
            factor,
            Ghost(2 * ONE as int),
        ) as i32;
        self.fold_gain = smooth_step(self.fold_gain as u32, target.fold_gain as u32, factor, Ghost(
            10 * ONE as int,
        )) as i32;
        self.pm_amount = smooth_step(self.pm_amount, target.pm_amount, factor, Ghost(
            PM_RANGE_UNITS as int,
        ));
        Params {
            frequency: self.frequency,
            amplitude: self.amplitude,
            wave_shape: self.wave_shape,
            fold_gain: self.fold_gain,
            pm_amount: self.pm_amount,
        }
    }
}

/// One exact smoothing step on nonnegative values with a known common
/// bound.
fn smooth_step(current: u32, target: u32, factor: i32, hi: Ghost<int>) -> (r: u32)
    requires
        0 <= factor <= ONE,
        current <= hi@,
        target <= hi@,
        hi@ <= u32::MAX,
    ensures
        r == smooth(current as int, target as int, factor as int),
        r <= hi@,
{
    proof {
        lemma_smooth_bounded(current as int, target as int, factor as int, 0, hi@);
    }
    let num: u64 = (target as u64) * (factor as u64) + (current as u64) * ((ONE - factor) as u64);
    (num / (ONE as u64)) as u32
}

} // verus!
