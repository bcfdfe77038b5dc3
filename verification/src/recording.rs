//! Double-buffered sample recording: a ping-pong pair of fixed blocks
//! filled inside the audio interrupt context and drained by the control
//! context.
//!
//! The producer stores one 16-bit sample per call. When the active block
//! fills, it is flagged for the drainer and capture continues at once in
//! the other block. The flag holds at most one block: if the drainer has
//! not cleared it by the time the other block also fills, that block's
//! completion is not recorded and further samples are dropped (and
//! counted) until the backlog clears — deliberate lossy backpressure in
//! place of ever blocking the audio path.

use vstd::prelude::*;

use crate::fixed::{pcm16, pcm_of};
use vstd::pervasive::VecAdditionalExecFns;

verus! {

/// Number of samples in one recording block: with two bytes per sample,
/// one block of a typical block-storage medium.
pub const BUFFER_SIZE: usize = 256;

/// Which of the two blocks of the ping-pong pair.
#[derive(Clone, Copy, PartialEq, Eq, Structural, Debug)]
pub enum Buffer {
    Ping,
    Pong,
}

/// The other block of the pair.
pub open spec fn other(b: Buffer) -> Buffer {
    match b {
        Buffer::Ping => Buffer::Pong,
        Buffer::Pong => Buffer::Ping,
    }
}

/// Mathematical state of the recorder, the model all contracts speak of.
pub struct RecModel {
    /// Whether the trigger has capture switched on.
    pub is_recording: bool,
    /// Contents of the ping block.
    pub ping: Seq<i16>,
    /// Contents of the pong block.
    pub pong: Seq<i16>,
    /// The filled block awaiting the drainer, if any.
    pub pending: Option<Buffer>,
    /// The block currently being filled.
    pub active: Buffer,
    /// Offset of the next sample within the active block.
    pub index: int,
    /// How many samples have been dropped to backpressure.
    pub overruns: int,
}

/// The contents of one block of the pair.
pub open spec fn buf_of(m: RecModel, b: Buffer) -> Seq<i16> {
    match b {
        Buffer::Ping => m.ping,
        Buffer::Pong => m.pong,
    }
}

/// The model with one sample stored into block `b`.
pub open spec fn store(m: RecModel, b: Buffer, i: int, x: i16) -> RecModel {
    match b {
        Buffer::Ping => RecModel { ping: m.ping.update(i, x), ..m },
        Buffer::Pong => RecModel { pong: m.pong.update(i, x), ..m },
    }
}

/// The overrun counter after one more dropped sample; it saturates rather
/// than wrap.
pub open spec fn bumped(o: int) -> int {
    if o < u64::MAX {
        o + 1
    } else {
        o
    }
}

/// A well-formed recorder model: both blocks have the fixed capacity, the
/// write offset never passes the end, and the pending block — there is at
/// most one — is never the block being filled.
pub open spec fn wf_model(m: RecModel) -> bool {
    &&& m.ping.len() == BUFFER_SIZE
    &&& m.pong.len() == BUFFER_SIZE
    &&& 0 <= m.index <= BUFFER_SIZE
    &&& 0 <= m.overruns <= u64::MAX
    &&& (m.pending matches Some(b) ==> b != m.active)
}

/// One call of the producer: the whole recording state machine.
///
/// Capture off: the sample is ignored. Active block already full with the
/// pending flag still set: the sample is dropped and counted. Active
/// block full but the backlog cleared: capture restarts at the top of the
/// active block (its unrecorded filling is written over). Otherwise the
/// sample is stored; if it completes the block and no block is pending,
/// the block is flagged and filling swaps to the other block with no gap
/// — if one is already pending, the offset parks at the end instead and
/// the completion goes unrecorded.
pub open spec fn record_step(m: RecModel, x: i16) -> RecModel {
    if !m.is_recording {
        m
    } else if m.index == BUFFER_SIZE && m.pending is Some {
        RecModel { overruns: bumped(m.overruns), ..m }
    } else {
        let at = if m.index == BUFFER_SIZE {
            0
        } else {
            m.index
        };
        let stored = RecModel { index: at + 1, ..store(m, m.active, at, x) };
        if stored.index == BUFFER_SIZE && stored.pending is None {
            RecModel {
                pending: Some(stored.active),
                active: other(stored.active),
                index: 0,
                ..stored
            }
        } else {
            stored
        }
    }
}

/// One call of the trigger: capture toggles and the write offset resets.
/// Switching capture on starts filling at the ping block — or at the pong
/// block when the ping block is still pending, so that a block awaiting
/// the drainer is never written over.
pub open spec fn toggle_step(m: RecModel) -> RecModel {
    let active = if m.is_recording {
        m.active
    } else if m.pending == Some(Buffer::Ping) {
        Buffer::Pong
    } else {
        Buffer::Ping
    };
    RecModel { is_recording: !m.is_recording, index: 0, active, ..m }
}

/// The model after the drainer has taken the pending block.
pub open spec fn drained(m: RecModel) -> RecModel {
    RecModel { pending: None, ..m }
}

/// A sample in the Q15 signal format, scaled to the 16-bit value the
/// recorder stores.
pub open spec fn pcm_val(v: int) -> i16 {
    pcm_of(v) as i16
}

/// The whole sequence of samples, recorded one call at a time.
pub open spec fn record_all(m: RecModel, xs: Seq<i16>) -> RecModel
    decreases xs.len(),
{
    if xs.len() == 0 {
        m
    } else {
        record_all(record_step(m, xs[0]), xs.subrange(1, xs.len() as int))
    }
}

/// Recording one more sample after a sequence is one more step on the
/// result of the sequence.
pub proof fn lemma_record_all_snoc(m: RecModel, xs: Seq<i16>, x: i16)
    ensures
        record_all(m, xs.push(x)) == record_step(record_all(m, xs), x),
    decreases xs.len(),
{
    let ys = xs.push(x);
    if xs.len() == 0 {
        assert(ys[0] == x);
        assert(ys.subrange(1, ys.len() as int) =~= Seq::<i16>::empty());
        assert(record_all(m, ys) == record_all(record_step(m, x), Seq::<i16>::empty()));
    } else {
        assert(ys[0] == xs[0]);
        let tail = xs.subrange(1, xs.len() as int);
        assert(ys.subrange(1, ys.len() as int) =~= tail.push(x));
        lemma_record_all_snoc(record_step(m, xs[0]), tail, x);
        assert(record_all(m, ys) == record_all(record_step(m, ys[0]), ys.subrange(1, ys.len() as int)));
        assert(record_all(m, xs) == record_all(record_step(m, xs[0]), tail));
    }
}

/// One producer call keeps the model well-formed.
pub proof fn lemma_step_wf(m: RecModel, x: i16)
    requires
        wf_model(m),
    ensures
        wf_model(record_step(m, x)),
{
}

/// Any number of producer calls keeps the model well-formed.
pub proof fn lemma_record_all_wf(m: RecModel, xs: Seq<i16>)
    requires
        wf_model(m),
    ensures
        wf_model(record_all(m, xs)),
    decreases xs.len(),
{
    if xs.len() > 0 {
        lemma_step_wf(m, xs[0]);
        lemma_record_all_wf(record_step(m, xs[0]), xs.subrange(1, xs.len() as int));
    }
}

/// Filling a run of samples that ends exactly at the capacity: starting
/// with capture on and nothing pending, recording `BUFFER_SIZE - index`
/// samples lands them in order in the active block, flags that block as
/// pending, resets the offset and swaps filling to the other block, whose
/// contents are untouched — capture goes on with no gap and nothing is
/// dropped.
pub proof fn lemma_fill_run(m: RecModel, xs: Seq<i16>)
    requires
        wf_model(m),
        m.is_recording,
        m.pending is None,
        m.index + xs.len() == BUFFER_SIZE,
        xs.len() > 0,
    ensures
        ({
            let r = record_all(m, xs);
            &&& r.pending == Some(m.active)
            &&& r.active == other(m.active)
            &&& r.index == 0
            &&& r.is_recording
            &&& r.overruns == m.overruns
            &&& buf_of(r, m.active) == buf_of(m, m.active).subrange(0, m.index) + xs
            &&& buf_of(r, other(m.active)) == buf_of(m, other(m.active))
        }),
    decreases xs.len(),
{
    let x0 = xs[0];
    let rest = xs.subrange(1, xs.len() as int);
    let s1 = record_step(m, x0);
    lemma_step_wf(m, x0);
    if xs.len() == 1 {
        assert(buf_of(s1, m.active) =~= buf_of(m, m.active).subrange(0, m.index) + xs);
    } else {
        lemma_fill_run(s1, rest);
        let r = record_all(s1, rest);
        assert(buf_of(r, m.active) =~= buf_of(m, m.active).subrange(0, m.index) + xs);
    }
}

/// While a block is pending, no number of producer calls records a second
/// completion or touches the pending block: its flag and its contents
/// stay exactly as they were until the drainer clears the backlog.
pub proof fn lemma_pending_untouched(m: RecModel, b: Buffer, xs: Seq<i16>)
    requires
        wf_model(m),
        m.pending == Some(b),
    ensures
        record_all(m, xs).pending == Some(b),
        buf_of(record_all(m, xs), b) == buf_of(m, b),
    decreases xs.len(),
{
    if xs.len() > 0 {
        lemma_step_wf(m, xs[0]);
        lemma_pending_untouched(record_step(m, xs[0]), b, xs.subrange(1, xs.len() as int));
    }
}

/// The recorder as the audio interrupt context owns it: the two sample
/// blocks, the trigger state, the write position and the pending flag the
/// control context polls.
pub struct RecordingState {
    /// Whether capture is switched on.
    pub is_recording: bool,
    /// The ping block.
    pub ping_buffer: Vec<i16>,
    /// The pong block.
    pub pong_buffer: Vec<i16>,
    /// The filled block awaiting the drainer, if any.
    pub write_buffer: Option<Buffer>,
    buffer_idx: usize,
    current_buffer: Buffer,
    overrun_count: u64,
}

/// The model of a fresh recorder: zeroed blocks, capture off, filling the
/// ping block from the top, nothing pending, nothing dropped.
pub open spec fn init_model() -> RecModel {
    RecModel {
        is_recording: false,
        ping: Seq::new(BUFFER_SIZE as nat, |i: int| 0i16),
        pong: Seq::new(BUFFER_SIZE as nat, |i: int| 0i16),
        pending: None,
        active: Buffer::Ping,
        index: 0,
        overruns: 0,
    }
}

impl RecordingState {
    /// The mathematical state of the recorder.
    pub closed spec fn model(self) -> RecModel {
        RecModel {
            is_recording: self.is_recording,
            ping: self.ping_buffer@,
            pong: self.pong_buffer@,
            pending: self.write_buffer,
            active: self.current_buffer,
            index: self.buffer_idx as int,
            overruns: self.overrun_count as int,
        }
    }

    /// Well-formed: the model is.
    pub open spec fn wf(self) -> bool {
        wf_model(self.model())
    }

    /// A fresh recorder with zeroed blocks.
    pub fn new() -> (r: Self)
        ensures
            r.wf(),
            r.model() == init_model(),
    {
        let r = RecordingState {
            is_recording: false,
            ping_buffer: zero_block(),
            pong_buffer: zero_block(),
            write_buffer: None,
            buffer_idx: 0,
            current_buffer: Buffer::Ping,
            overrun_count: 0,
        };
        r
    }

    /// The recording trigger: one ON or OFF edge. Capture toggles and the
    /// write offset resets; switching on starts filling at the ping block
    /// unless that block is still awaiting the drainer.
    pub fn toggle_recording(&mut self)
        ensures
            final(self).model() == toggle_step(old(self).model()),
            old(self).wf() ==> final(self).wf(),
    {
        self.is_recording = !self.is_recording;
        self.buffer_idx = 0;
        if self.is_recording {
            self.current_buffer = match self.write_buffer {
                Some(Buffer::Ping) => Buffer::Pong,
                _ => Buffer::Ping,
            };
        }
    }

    /// One producer call from the audio interrupt context: the Q15 sample
    /// is scaled to 16 bits and runs the recording state machine — stored
    /// in the active block, or dropped (and counted) under backpressure.
    pub fn record_sample(&mut self, sample: i32)
        requires
            old(self).wf(),
        ensures
            final(self).wf(),
            final(self).model() == record_step(old(self).model(), pcm_val(sample as int)),
    {
        if !self.is_recording {
            return ;
        }
        let x: i16 = pcm16(sample);
        if self.buffer_idx >= BUFFER_SIZE {
            if self.write_buffer.is_some() {
                if self.overrun_count < u64::MAX {
                    self.overrun_count = self.overrun_count + 1;
                }
                return ;
            }
            self.buffer_idx = 0;
        }
        match self.current_buffer {
            Buffer::Ping => self.ping_buffer.set(self.buffer_idx, x),
            Buffer::Pong => self.pong_buffer.set(self.buffer_idx, x),
        }
        self.buffer_idx = self.buffer_idx + 1;
        if self.buffer_idx >= BUFFER_SIZE && self.write_buffer.is_none() {
            self.write_buffer = Some(self.current_buffer);
            self.current_buffer = match self.current_buffer {
                Buffer::Ping => Buffer::Pong,
                Buffer::Pong => Buffer::Ping,
            };
            self.buffer_idx = 0;
        }
    }

    /// The drainer's poll, made under exclusive access: if a block is
    /// pending, a copy of its contents comes back and the flag clears, so
    /// the storage write itself can happen outside the critical section.
    /// The sample blocks themselves are untouched.
    pub fn drain_pending(&mut self) -> (r: Option<Vec<i16>>)
        requires
            old(self).wf(),
        ensures
            final(self).wf(),
            final(self).model() == drained(old(self).model()),
            (match old(self).model().pending {
                None => r is None,
                Some(b) => r matches Some(v) && v@ == buf_of(old(self).model(), b),
            }),
    {
        match self.write_buffer {
            None => None,
            Some(b) => {
                let data = match b {
                    Buffer::Ping => copy_block(&self.ping_buffer),
                    Buffer::Pong => copy_block(&self.pong_buffer),
                };
                self.write_buffer = None;
                Some(data)
            },
        }
    }

    /// Offset of the next sample within the active block.
    pub fn write_index(&self) -> (r: usize)
        ensures
            r == self.model().index,
    {
        self.buffer_idx
    }

    /// The block currently being filled.
    pub fn active_block(&self) -> (r: Buffer)
        ensures
            r == self.model().active,
    {
        self.current_buffer
    }

    /// How many samples backpressure has dropped so far.
    pub fn overruns(&self) -> (r: u64)
        ensures
            r == self.model().overruns,
    {
        self.overrun_count
    }
}

/// A block-sized vector of zeroed samples.
fn zero_block() -> (r: Vec<i16>)
    ensures
        r@ == Seq::new(BUFFER_SIZE as nat, |i: int| 0i16),
{
    let mut v: Vec<i16> = Vec::new();
    let mut i: usize = 0;
    while i < BUFFER_SIZE
        invariant
            i <= BUFFER_SIZE,
            v@.len() == i,
            forall|j: int| 0 <= j < i ==> v@[j] == 0i16,
        decreases BUFFER_SIZE - i,
    {
        v.push(0);
        i = i + 1;
    }
    proof {
        assert(v@ =~= Seq::new(BUFFER_SIZE as nat, |i: int| 0i16));
    }
    v
}

/// An element-for-element copy of one sample block.
fn copy_block(src: &Vec<i16>) -> (r: Vec<i16>)
    ensures
        r@ == src@,
{
    let mut v: Vec<i16> = Vec::new();
    let mut i: usize = 0;
    let n: usize = src.len();
    while i < n
        invariant
            i <= n,
            n == src@.len(),
            v@.len() == i,
            forall|j: int| 0 <= j < i ==> v@[j] == src@[j],
        decreases n - i,
    {
        v.push(src[i]);
        i = i + 1;
    }
    proof {
        assert(v@ =~= src@);
    }
    v
}

} // verus!
