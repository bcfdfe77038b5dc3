//! The shared-state fabric and the audio interrupt context's per-block
//! work.
//!
//! One [`SharedState`] value holds the oscillator and the recorder. Both
//! execution contexts reach it only through `&mut self` methods, so each
//! method is one critical section: whoever holds the exclusive reference
//! holds the access token, and no context can observe another's update
//! half-made. On the target this exclusion is realised by running every
//! access with preemption briefly disabled, so the high-priority audio
//! context never waits on the low-priority control context; here the
//! discipline is the type itself. The interleaving model at the end of
//! this module makes the resulting atomicity a theorem: across any
//! sequence of parameter writes and sample reads, every sample is
//! computed from one whole parameter tuple — never from a mixture of an
//! old and a new one.

use vstd::prelude::*;

use crate::fixed::ONE;
use crate::oscillator::{
    default_params, lemma_wrapped_bounded, next_phase, phase_increment, sample_value, Oscillator,
    Params, CYCLE, SAMPLE_RATE,
};
use crate::recording::{
    drained, init_model, lemma_record_all_snoc, pcm_val, record_all, record_step, toggle_step,
    buf_of, RecModel, RecordingState,
};

verus! {

/// Highest code of the 12-bit DAC that mirrors the audio output.
pub const DAC_MAX: u16 = 4095;

/// A Q15 sample scaled to a 12-bit DAC code: negative full scale maps to
/// `0`, positive full scale to `DAC_MAX`, and values beyond full scale
/// clamp to the converter's range.
pub open spec fn dac_of(v: int) -> int {
    let shifted = v + ONE;
    if shifted <= 0 {
        0
    } else if (shifted * DAC_MAX) / (2 * ONE) > DAC_MAX {
        DAC_MAX as int
    } else {
        (shifted * DAC_MAX) / (2 * ONE)
    }
}

/// The DAC code of a Q15 sample, exact.
pub fn dac_code(v: i32) -> (r: u16)
    ensures
        r == dac_of(v as int),
        r <= DAC_MAX,
{
    let shifted: i64 = v as i64 + ONE as i64;
    if shifted <= 0 {
        0
    } else {
        let c: u64 = ((shifted as u64) * (DAC_MAX as u64)) / (2 * ONE as u64);
        if c > DAC_MAX as u64 {
            DAC_MAX
        } else {
            c as u16
        }
    }
}

/// The accumulator phase after a block of `n` samples.
pub open spec fn block_phase(p: Params, rate: int, phase: int, n: nat) -> int
    decreases n,
{
    if n == 0 {
        phase
    } else {
        next_phase(p, block_phase(p, rate, phase, (n - 1) as nat), rate)
    }
}

/// The samples of a block of `n`, generated in order from a starting
/// phase under one parameter tuple.
pub open spec fn block_samples(p: Params, rate: int, phase: int, n: nat) -> Seq<int>
    decreases n,
{
    if n == 0 {
        Seq::empty()
    } else {
        block_samples(p, rate, phase, (n - 1) as nat).push(
            sample_value(p, block_phase(p, rate, phase, (n - 1) as nat)),
        )
    }
}

/// A block of `n` holds `n` samples.
pub proof fn lemma_block_samples_len(p: Params, rate: int, phase: int, n: nat)
    ensures
        block_samples(p, rate, phase, n).len() == n,
    decreases n,
{
    if n > 0 {
        lemma_block_samples_len(p, rate, phase, (n - 1) as nat);
    }
}

/// The recorder after a block: every sample of the block offered to it in
/// order, scaled to 16 bits.
pub open spec fn rec_after_block(m: RecModel, p: Params, rate: int, phase: int, n: nat) -> RecModel {
    record_all(m, block_samples(p, rate, phase, n).map_values(|v: int| pcm_val(v)))
}

/// The single logical container both execution contexts share. Every
/// method takes `&mut self`: one call, one critical section.
pub struct SharedState {
    /// The oscillator the audio context runs.
    pub oscillator: Oscillator,
    /// The recording pipeline the audio context fills and the control
    /// context drains.
    pub recorder: RecordingState,
}

impl SharedState {
    /// Well-formed: both halves are.
    pub open spec fn wf(self) -> bool {
        &&& self.oscillator.wf()
        &&& self.recorder.wf()
    }

    /// The shared state at power-on, at the default sample rate.
    pub fn new() -> (r: Self)
        ensures
            r.wf(),
            r.oscillator.params() == default_params(),
            r.oscillator.phase_units() == 0,
            r.oscillator.rate() == SAMPLE_RATE,
            r.recorder.model() == init_model(),
    {
        SharedState { oscillator: Oscillator::new(), recorder: RecordingState::new() }
    }

    /// The shared state at power-on, driven at the given sample rate.
    pub fn with_sample_rate(sample_rate: u32) -> (r: Self)
        requires
            sample_rate >= 1,
        ensures
            r.wf(),
            r.oscillator.params() == default_params(),
            r.oscillator.phase_units() == 0,
            r.oscillator.rate() == sample_rate,
            r.recorder.model() == init_model(),
    {
        SharedState {
            oscillator: Oscillator::with_sample_rate(sample_rate),
            recorder: RecordingState::new(),
        }
    }

    /// The control context's parameter update: one critical section that
    /// replaces the whole tuple. Nothing else moves, so a sample drawn
    /// before this call uses the old tuple and one drawn after uses the
    /// new one.
    pub fn set_params(
        &mut self,
        frequency: u32,
        amplitude: i32,
        wave_shape: i32,
        fold_gain: i32,
        pm_amount: u32,
    )
        ensures
            final(self).oscillator.params() == (Params {
                frequency,
                amplitude,
                wave_shape,
                fold_gain,
                pm_amount,
            }),
            final(self).oscillator.phase_units() == old(self).oscillator.phase_units(),
            final(self).oscillator.rate() == old(self).oscillator.rate(),
            final(self).recorder == old(self).recorder,
    {
        self.oscillator.set_params(frequency, amplitude, wave_shape, fold_gain, pm_amount);
    }

    /// The recording trigger's edge, forwarded to the recorder under the
    /// critical section.
    pub fn toggle_recording(&mut self)
        ensures
            final(self).recorder.model() == toggle_step(old(self).recorder.model()),
            old(self).wf() ==> final(self).wf(),
            final(self).oscillator == old(self).oscillator,
    {
        self.recorder.toggle_recording();
    }

    /// The control context's poll for a finished block: the copy is made
    /// under the critical section, the storage write happens outside it.
    pub fn drain(&mut self) -> (r: Option<Vec<i16>>)
        requires
            old(self).wf(),
        ensures
            final(self).wf(),
            final(self).recorder.model() == drained(old(self).recorder.model()),
            final(self).oscillator == old(self).oscillator,
            (match old(self).recorder.model().pending {
                None => r is None,
                Some(b) => r matches Some(v) && v@ == buf_of(old(self).recorder.model(), b),
            }),
    {
        self.recorder.drain_pending()
    }

    /// The audio interrupt context's work for one block of `n` frames:
    /// generate each sample once, place it on both channels, offer it to
    /// the recorder, and derive the DAC code that mirrors it. The frames
    /// and the codes come back exactly as [`block_samples`] and [`dac_of`]
    /// describe them, the recorder advances by exactly those samples, and
    /// the parameter tuple is read, never written.
    pub fn fill_block(&mut self, n: usize) -> (out: (Vec<(i32, i32)>, Vec<u16>))
        requires
            old(self).wf(),
        ensures
            final(self).wf(),
            final(self).oscillator.params() == old(self).oscillator.params(),
            final(self).oscillator.rate() == old(self).oscillator.rate(),
            final(self).oscillator.phase_units() == block_phase(
                old(self).oscillator.params(),
                old(self).oscillator.rate(),
                old(self).oscillator.phase_units(),
                n as nat,
            ),
            final(self).recorder.model() == rec_after_block(
                old(self).recorder.model(),
                old(self).oscillator.params(),
                old(self).oscillator.rate(),
                old(self).oscillator.phase_units(),
                n as nat,
            ),
            out.0@.len() == n,
            out.1@.len() == n,
            forall|j: int|
                #![trigger out.0@[j]]
                #![trigger out.1@[j]]
                0 <= j < n ==> {
                    let s = block_samples(
                        old(self).oscillator.params(),
                        old(self).oscillator.rate(),
                        old(self).oscillator.phase_units(),
                        n as nat,
                    )[j];
                    &&& out.0@[j].0 == s
                    &&& out.0@[j].1 == s
                    &&& out.1@[j] == dac_of(s)
                },
    {
        let ghost p = self.oscillator.params();
        let ghost rate = self.oscillator.rate();
        let ghost phase0 = self.oscillator.phase_units();
        let ghost rec0 = self.recorder.model();
        let mut frames: Vec<(i32, i32)> = Vec::new();
        let mut codes: Vec<u16> = Vec::new();
        let mut i: usize = 0;
        while i < n
            invariant
                i <= n,
                self.oscillator.wf(),
                self.recorder.wf(),
                self.oscillator.params() == p,
                self.oscillator.rate() == rate,
                self.oscillator.phase_units() == block_phase(p, rate, phase0, i as nat),
                self.recorder.model() == record_all(
                    rec0,
                    block_samples(p, rate, phase0, i as nat).map_values(|v: int| pcm_val(v)),
                ),
                frames@.len() == i,
                codes@.len() == i,
                forall|j: int|
                    #![trigger frames@[j]]
                    #![trigger codes@[j]]
                    0 <= j < i ==> {
                        let s = block_samples(p, rate, phase0, i as nat)[j];
                        &&& frames@[j].0 == s
                        &&& frames@[j].1 == s
                        &&& codes@[j] == dac_of(s)
                    },
            decreases n - i,
        {
            let s: i32 = self.oscillator.next_sample();
            proof {
                let samples_i = block_samples(p, rate, phase0, i as nat);
                let samples_next = block_samples(p, rate, phase0, (i + 1) as nat);
                lemma_block_samples_len(p, rate, phase0, i as nat);
                lemma_block_samples_len(p, rate, phase0, (i + 1) as nat);
                assert(samples_next == samples_i.push(s as int));
                assert(samples_next.map_values(|v: int| pcm_val(v)) =~= samples_i.map_values(
                    |v: int| pcm_val(v),
                ).push(pcm_val(s as int)));
                lemma_record_all_snoc(
                    rec0,
                    samples_i.map_values(|v: int| pcm_val(v)),
                    pcm_val(s as int),
                );
            }
            self.recorder.record_sample(s);
            frames.push((s, s));
            codes.push(dac_code(s));
            i = i + 1;
        }
        (frames, codes)
    }
}

/// The oscillator as the interleaving model sees it: the parameter tuple
/// and the accumulator phase.
pub struct OscModel {
    /// The parameter tuple in effect.
    pub params: Params,
    /// The accumulator phase, in phase units.
    pub phase: int,
}

/// One critical section on the shared oscillator: the control context
/// replaces the parameter tuple, or the audio context draws one sample.
pub enum SharedOp {
    /// The control context writes a whole parameter tuple.
    SetParams(Params),
    /// The audio context generates one sample and advances the phase.
    NextSample,
}

/// The effect of one critical section on the oscillator model. Each arm
/// is exactly the contract of the corresponding `&mut self` method.
pub open spec fn apply_op(m: OscModel, rate: int, op: SharedOp) -> OscModel {
    match op {
        SharedOp::SetParams(p) => OscModel { params: p, phase: m.phase },
        SharedOp::NextSample => OscModel {
            params: m.params,
            phase: next_phase(m.params, m.phase, rate),
        },
    }
}

/// The oscillator model after an arbitrary interleaving of critical
/// sections from the two contexts.
pub open spec fn run_ops(m: OscModel, rate: int, ops: Seq<SharedOp>) -> OscModel
    decreases ops.len(),
{
    if ops.len() == 0 {
        m
    } else {
        run_ops(apply_op(m, rate, ops[0]), rate, ops.subrange(1, ops.len() as int))
    }
}

/// The sample the audio context reads when step `i` of an interleaving is
/// a sample generation: computed from the state after the first `i`
/// critical sections.
pub open spec fn sample_at(m: OscModel, rate: int, ops: Seq<SharedOp>, i: int) -> int {
    let s = run_ops(m, rate, ops.subrange(0, i));
    sample_value(s.params, s.phase)
}

/// The accumulator phase stays wrapped across any interleaving of the two
/// contexts' critical sections, however many and however ordered.
pub proof fn lemma_phase_always_wrapped(m: OscModel, rate: int, ops: Seq<SharedOp>)
    requires
        0 <= m.phase < CYCLE,
        rate >= 1,
    ensures
        0 <= run_ops(m, rate, ops).phase < CYCLE,
    decreases ops.len(),
{
    if ops.len() > 0 {
        let m1 = apply_op(m, rate, ops[0]);
        match ops[0] {
            SharedOp::SetParams(_) => {},
            SharedOp::NextSample => {
                lemma_wrapped_bounded(m.phase + phase_increment(m.params, rate));
            },
        }
        lemma_phase_always_wrapped(m1, rate, ops.subrange(1, ops.len() as int));
    }
}

/// Parameter atomicity, first half: after any interleaving of the two
/// contexts' critical sections, the parameter tuple in effect is the
/// initial tuple or exactly one tuple some write carried — never a
/// mixture of fields from different writes.
pub proof fn lemma_params_never_torn(m: OscModel, rate: int, ops: Seq<SharedOp>)
    ensures
        ({
            let p = run_ops(m, rate, ops).params;
            p == m.params || exists|j: int| 0 <= j < ops.len() && ops[j] == SharedOp::SetParams(p)
        }),
    decreases ops.len(),
{
    if ops.len() > 0 {
        let rest = ops.subrange(1, ops.len() as int);
        let m1 = apply_op(m, rate, ops[0]);
        lemma_params_never_torn(m1, rate, rest);
        let p = run_ops(m, rate, ops).params;
        if p != m.params {
            if p == m1.params {
                assert(ops[0] == SharedOp::SetParams(p));
            } else {
                let j = choose|j: int| 0 <= j < rest.len() && rest[j] == SharedOp::SetParams(p);
                assert(ops[j + 1] == SharedOp::SetParams(p));
            }
        }
    }
}

/// Parameter atomicity, second half: every sample any interleaving
/// produces is computed from one whole parameter tuple — the initial one
/// or one that a single write put in place before the sample was drawn.
pub proof fn lemma_sample_reads_whole_tuple(m: OscModel, rate: int, ops: Seq<SharedOp>, i: int)
    requires
        0 <= i <= ops.len(),
    ensures
        ({
            let s = run_ops(m, rate, ops.subrange(0, i));
            sample_at(m, rate, ops, i) == sample_value(s.params, s.phase) && (s.params == m.params
                || exists|j: int| 0 <= j < i && ops[j] == SharedOp::SetParams(s.params))
        }),
{
    let prefix = ops.subrange(0, i);
    lemma_params_never_torn(m, rate, prefix);
    let s = run_ops(m, rate, prefix);
    if s.params != m.params {
        let j = choose|j: int| 0 <= j < prefix.len() && prefix[j] == SharedOp::SetParams(s.params);
        assert(ops[j] == SharedOp::SetParams(s.params));
    }
}

} // verus!
