use vstd::prelude::*;

use crate::detector::{
    detector_state_wf, detector_step, DetectorEvent, DetectorState, EnergyDetector, FrameLevel,
};
use crate::ring::{keep_last, lemma_keep_last_len, CircularBuffer};

verus! {

/// Longest event kept, in detect frames: 10 s of 20 ms frames.
pub const MAX_EVENT_FRAMES: usize = 500;

/// Length of the post-roll, in detect frames: 2 s of 20 ms frames.
pub const POST_ROLL_FRAMES: usize = 100;

/// Where the recorder is in capturing an event.
#[derive(Debug, Clone, Copy, PartialEq, Eq, Structural)]
pub enum RecState {
    Idle,
    Recording { event_frames_captured: usize },
    PostRoll { post_frames_captured: usize },
}

/// A finished clip, handed to whoever writes it to disk.
pub struct RecordingJob<T> {
    pub samples: Vec<T>,
    pub channels: u16,
    pub sample_rate: u32,
}

/// Abstract state of a recording pipeline.
pub struct PipelineModel<T> {
    pub detector: DetectorState,
    /// The pre-roll window (last `pre_roll_capacity` samples seen).
    pub pre_roll: Seq<T>,
    pub pre_roll_capacity: nat,
    pub state: RecState,
    /// Samples of the clip being recorded.
    pub current: Seq<T>,
    /// The pre-roll snapshot the current clip started with.
    pub onset_prefix: Seq<T>,
    /// The blocks appended to the current clip since its onset.
    pub captured: Seq<Seq<T>>,
}

/// One detect-sized block through the pipeline: the new model and, when a
/// clip is complete, its samples. The pre-roll always takes the block; on an
/// onset the clip starts with the pre-roll as it stood before the block (the
/// second before the event), then the block.
pub open spec fn pipeline_step<T>(m: PipelineModel<T>, block: Seq<T>, level: FrameLevel) -> (
    PipelineModel<T>,
    Option<Seq<T>>,
) {
    let pre = keep_last(m.pre_roll + block, m.pre_roll_capacity);
    let (det, evt) = detector_step(m.detector, level);
    let base = PipelineModel { detector: det, pre_roll: pre, ..m };
    match m.state {
        RecState::Idle => {
            if evt == DetectorEvent::Onset {
                (
                    PipelineModel {
                        state: RecState::Recording { event_frames_captured: 1 },
                        current: m.pre_roll + block,
                        onset_prefix: m.pre_roll,
                        captured: seq![block],
                        ..base
                    },
                    None,
                )
            } else {
                (base, None)
            }
        },
        RecState::Recording { event_frames_captured: n } => {
            let n1 = n + 1;
            let next = if evt == DetectorEvent::Offset || n1 >= MAX_EVENT_FRAMES {
                RecState::PostRoll { post_frames_captured: 0 }
            } else {
                RecState::Recording { event_frames_captured: n1 as usize }
            };
            (
                PipelineModel {
                    state: next,
                    current: m.current + block,
                    captured: m.captured.push(block),
                    ..base
                },
                None,
            )
        },
        RecState::PostRoll { post_frames_captured: p } => {
            let p1 = p + 1;
            if p1 >= POST_ROLL_FRAMES {
                (
                    PipelineModel {
                        state: RecState::Idle,
                        current: Seq::empty(),
                        onset_prefix: Seq::empty(),
                        captured: Seq::empty(),
                        ..base
                    },
                    Some(m.current + block),
                )
            } else {
                (
                    PipelineModel {
                        state: RecState::PostRoll { post_frames_captured: p1 as usize },
                        current: m.current + block,
                        captured: m.captured.push(block),
                        ..base
                    },
                    None,
                )
            }
        },
    }
}

/// What holds of every reachable pipeline model.
pub open spec fn pipeline_inv<T>(m: PipelineModel<T>) -> bool {
    &&& detector_state_wf(m.detector)
    &&& m.pre_roll.len() <= m.pre_roll_capacity
    &&& match m.state {
        RecState::Idle => {
            &&& m.current.len() == 0
            &&& m.onset_prefix.len() == 0
            &&& m.captured.len() == 0
        },
        RecState::Recording { event_frames_captured: n } => {
            &&& 1 <= n < MAX_EVENT_FRAMES
            &&& m.captured.len() == n
            &&& m.current == m.onset_prefix + m.captured.flatten()
            &&& m.onset_prefix.len() <= m.pre_roll_capacity
        },
        RecState::PostRoll { post_frames_captured: p } => {
            &&& p < POST_ROLL_FRAMES
            &&& m.captured.len() <= MAX_EVENT_FRAMES + p
            &&& m.current == m.onset_prefix + m.captured.flatten()
            &&& m.onset_prefix.len() <= m.pre_roll_capacity
        },
    }
}

/// Every step keeps the invariant.
pub proof fn lemma_step_keeps_inv<T>(m: PipelineModel<T>, block: Seq<T>, level: FrameLevel)
    requires
        pipeline_inv(m),
    ensures
        pipeline_inv(pipeline_step(m, block, level).0),
{
    let pre = keep_last(m.pre_roll + block, m.pre_roll_capacity);
    lemma_keep_last_len(m.pre_roll + block, m.pre_roll_capacity);
    let r = pipeline_step(m, block, level).0;
    match m.state {
        RecState::Idle => {
            if r.state != RecState::Idle {
                seq![block].lemma_flatten_singleton();
                assert(seq![block].flatten() == block);
                assert(r.current =~= r.onset_prefix + r.captured.flatten());
            }
        },
        RecState::Recording { event_frames_captured: n } => {
            m.captured.lemma_flatten_push(block);
            assert(r.current =~= r.onset_prefix + r.captured.flatten());
        },
        RecState::PostRoll { post_frames_captured: p } => {
            if p + 1 < POST_ROLL_FRAMES {
                m.captured.lemma_flatten_push(block);
                assert(r.current =~= r.onset_prefix + r.captured.flatten());
            }
        },
    }
}

/// A completed clip is the pre-roll snapshot taken at its onset (at most the
/// pre-roll capacity) followed by at most `MAX_EVENT_FRAMES + POST_ROLL_FRAMES`
/// blocks: 1 s before the event, up to 10 s of event and 2 s after.
pub proof fn lemma_clip_composition<T>(m: PipelineModel<T>, block: Seq<T>, level: FrameLevel)
    requires
        pipeline_inv(m),
        pipeline_step(m, block, level).1 is Some,
    ensures
        ({
            let clip = pipeline_step(m, block, level).1->0;
            let blocks = m.captured.push(block);
            &&& clip == m.onset_prefix + blocks.flatten()
            &&& m.onset_prefix.len() <= m.pre_roll_capacity
            &&& blocks.len() <= MAX_EVENT_FRAMES + POST_ROLL_FRAMES
        }),
{
    m.captured.lemma_flatten_push(block);
}

/// With blocks of at most `frame_len` samples, a completed clip holds at most
/// `pre_roll_capacity + (MAX_EVENT_FRAMES + POST_ROLL_FRAMES) * frame_len`
/// samples.
pub proof fn lemma_clip_length_bound<T>(
    m: PipelineModel<T>,
    block: Seq<T>,
    level: FrameLevel,
    frame_len: nat,
)
    requires
        pipeline_inv(m),
        pipeline_step(m, block, level).1 is Some,
        block.len() <= frame_len,
        forall|i: int| 0 <= i < m.captured.len() ==> (#[trigger] m.captured[i]).len() <= frame_len,
    ensures
        pipeline_step(m, block, level).1->0.len() <= m.pre_roll_capacity + (MAX_EVENT_FRAMES
            + POST_ROLL_FRAMES) * frame_len,
{
    lemma_clip_composition(m, block, level);
    let blocks = m.captured.push(block);
    assert forall|i: int| 0 <= i < blocks.len() implies (#[trigger] blocks[i]).len() <= frame_len by {
        if i < m.captured.len() {
            assert(blocks[i] == m.captured[i]);
        }
    }
    blocks.lemma_flatten_length_le_mul(frame_len as int);
    blocks.lemma_flatten_and_flatten_alt_are_equivalent();
    let k = blocks.len();
    let total = (MAX_EVENT_FRAMES + POST_ROLL_FRAMES) as int;
    assert(k * (frame_len as int) <= total * (frame_len as int)) by (nonlinear_arith)
        requires
            k <= total,
            0 <= frame_len,
    ;
}


/// Shutdown while a clip is in progress: what was captured so far is
/// handed over as it is, and the pipeline goes back to idle.
pub open spec fn pipeline_finalize<T>(m: PipelineModel<T>) -> (PipelineModel<T>, Option<Seq<T>>) {
    if m.state == RecState::Idle {
        (m, None)
    } else {
        (
            PipelineModel {
                state: RecState::Idle,
                current: Seq::empty(),
                onset_prefix: Seq::empty(),
                captured: Seq::empty(),
                ..m
            },
            Some(m.current),
        )
    }
}

/// Splits `s` into blocks of `f` samples; a shorter last block keeps the rest.
pub open spec fn chunks<T>(s: Seq<T>, f: nat) -> Seq<Seq<T>>
    decreases s.len(),
{
    if f == 0 || s.len() == 0 {
        seq![]
    } else if s.len() >= f {
        seq![s.subrange(0, f as int)] + chunks(s.subrange(f as int, s.len() as int), f)
    } else {
        seq![s]
    }
}

/// Runs the pipeline over a sequence of blocks with their levels: the final
/// model and the clips completed on the way, in order.
pub open spec fn pipeline_run<T>(m: PipelineModel<T>, blocks: Seq<Seq<T>>, levels: Seq<FrameLevel>) -> (
    PipelineModel<T>,
    Seq<Seq<T>>,
)
    decreases blocks.len(),
{
    if blocks.len() == 0 {
        (m, seq![])
    } else {
        let (mp, outs) = pipeline_run(m, blocks.drop_last(), levels.drop_last());
        let (mn, o) = pipeline_step(mp, blocks.last(), levels[blocks.len() - 1]);
        (mn, match o {
            Some(c) => outs.push(c),
            None => outs,
        })
    }
}

/// The samples of an optional job.
pub open spec fn job_samples<T>(job: Option<RecordingJob<T>>) -> Option<Seq<T>> {
    match job {
        Some(j) => Some(j.samples@),
        None => None,
    }
}

/// The recording pipeline: keeps a rolling pre-roll at all times, runs the
/// detector and drives the state machine that captures 1 s before an event,
/// up to 10 s of the event and 2 s after it.
pub struct Pipeline<T> {
    channels: u16,
    sample_rate: u32,
    detect_frame_len_samples: usize,
    max_event_frames: usize,
    post_roll_frames: usize,
    pre_roll: CircularBuffer<T>,
    detector: EnergyDetector,
    state: RecState,
    current: Vec<T>,
    onset_prefix: Ghost<Seq<T>>,
    captured: Ghost<Seq<Seq<T>>>,
}

impl<T: Copy> Pipeline<T> {
    pub closed spec fn model(&self) -> PipelineModel<T> {
        PipelineModel {
            detector: self.detector@,
            pre_roll: self.pre_roll.contents(),
            pre_roll_capacity: self.pre_roll.spec_capacity(),
            state: self.state,
            current: self.current@,
            onset_prefix: self.onset_prefix@,
            captured: self.captured@,
        }
    }

    pub closed spec fn spec_channels(&self) -> u16 {
        self.channels
    }

    pub closed spec fn spec_sample_rate(&self) -> u32 {
        self.sample_rate
    }

    /// Interleaved sample count per detect frame.
    pub closed spec fn spec_frame_len(&self) -> nat {
        self.detect_frame_len_samples as nat
    }

    pub closed spec fn wf(&self) -> bool {
        &&& self.pre_roll.wf()
        &&& self.max_event_frames == MAX_EVENT_FRAMES
        &&& self.post_roll_frames == POST_ROLL_FRAMES
        &&& pipeline_inv(self.model())
    }

    /// A well-formed pipeline's model satisfies the pipeline invariant, on
    /// which the laws about runs (`lemma_run_length_bound` and the others)
    /// rest.
    pub proof fn lemma_wf_inv(&self)
        requires
            self.wf(),
        ensures
            pipeline_inv(self.model()),
    {
    }

    /// A pipeline for `channels` interleaved channels at `sample_rate`, with
    /// detect frames of `detect_frame_len_samples` samples and a pre-roll of
    /// `pre_roll_samples` samples (both derived from the rate by the caller);
    /// `fill` is what the pre-roll's unused slots start with.
    pub fn new(
        channels: u16,
        sample_rate: u32,
        detect_frame_len_samples: usize,
        pre_roll_samples: usize,
        fill: T,
    ) -> (p: Self)
        ensures
            p.wf(),
            p.spec_channels() == channels,
            p.spec_sample_rate() == sample_rate,
            p.spec_frame_len() == detect_frame_len_samples,
            p.model() == (PipelineModel::<T> {
                detector: DetectorState { active: false, on_run: 0, off_run: 0 },
                pre_roll: Seq::empty(),
                pre_roll_capacity: pre_roll_samples as nat,
                state: RecState::Idle,
                current: Seq::empty(),
                onset_prefix: Seq::empty(),
                captured: Seq::empty(),
            }),
    {
        Self {
            channels,
            sample_rate,
            detect_frame_len_samples,
            max_event_frames: MAX_EVENT_FRAMES,
            post_roll_frames: POST_ROLL_FRAMES,
            pre_roll: CircularBuffer::new(pre_roll_samples, fill),
            detector: EnergyDetector::new(),
            state: RecState::Idle,
            current: Vec::new(),
            onset_prefix: Ghost(Seq::empty()),
            captured: Ghost(Seq::empty()),
        }
    }

    fn append_block(&mut self, block: &[T])
        ensures
            final(self).current@ == old(self).current@ + block@,
            final(self).channels == old(self).channels,
            final(self).sample_rate == old(self).sample_rate,
            final(self).detect_frame_len_samples == old(self).detect_frame_len_samples,
            final(self).max_event_frames == old(self).max_event_frames,
            final(self).post_roll_frames == old(self).post_roll_frames,
            final(self).pre_roll == old(self).pre_roll,
            final(self).detector == old(self).detector,
            final(self).state == old(self).state,
            final(self).onset_prefix == old(self).onset_prefix,
            final(self).captured == old(self).captured,
    {
        let ghost start = self.current@;
        let n = block.len();
        let mut i: usize = 0;
        while i < n
            invariant
                i <= n,
                n == block@.len(),
                self.current@ =~= start + block@.subrange(0, i as int),
                self.channels == old(self).channels,
                self.sample_rate == old(self).sample_rate,
                self.detect_frame_len_samples == old(self).detect_frame_len_samples,
                self.max_event_frames == old(self).max_event_frames,
                self.post_roll_frames == old(self).post_roll_frames,
                self.pre_roll == old(self).pre_roll,
                self.detector == old(self).detector,
                self.state == old(self).state,
                self.onset_prefix == old(self).onset_prefix,
                self.captured == old(self).captured,
            decreases n - i,
        {
            self.current.push(block[i]);
            i += 1;
        }
        assert(block@.subrange(0, n as int) =~= block@);
    }

    /// Takes the clip out of the pipeline.
    fn take_job(&mut self) -> (job: RecordingJob<T>)
        ensures
            job.samples@ == old(self).current@,
            job.channels == old(self).channels,
            job.sample_rate == old(self).sample_rate,
            final(self).current@ == Seq::<T>::empty(),
            final(self).channels == old(self).channels,
            final(self).sample_rate == old(self).sample_rate,
            final(self).detect_frame_len_samples == old(self).detect_frame_len_samples,
            final(self).max_event_frames == old(self).max_event_frames,
            final(self).post_roll_frames == old(self).post_roll_frames,
            final(self).pre_roll == old(self).pre_roll,
            final(self).detector == old(self).detector,
            final(self).state == old(self).state,
            final(self).onset_prefix == old(self).onset_prefix,
            final(self).captured == old(self).captured,
    {
        let mut samples: Vec<T> = Vec::new();
        std::mem::swap(&mut samples, &mut self.current);
        RecordingJob { samples, channels: self.channels, sample_rate: self.sample_rate }
    }

    /// Runs one detect-sized block of interleaved samples, whose mono-mixed
    /// level is `level`, through the pipeline; returns the clip it completes,
    /// if any.
    pub fn process_block(&mut self, block: &[T], level: FrameLevel) -> (job: Option<RecordingJob<T>>)
        requires
            old(self).wf(),
            old(self).model().pre_roll_capacity > 0 || block@.len() == 0,
        ensures
            final(self).wf(),
            final(self).spec_channels() == old(self).spec_channels(),
            final(self).spec_sample_rate() == old(self).spec_sample_rate(),
            final(self).spec_frame_len() == old(self).spec_frame_len(),
            (final(self).model(), job_samples(job)) == pipeline_step(old(self).model(), block@, level),
            job matches Some(j) ==> j.channels == old(self).spec_channels() && j.sample_rate == old(
                self,
            ).spec_sample_rate(),
            blocks_within(old(self).model().captured, old(self).spec_frame_len()) && block@.len()
                <= old(self).spec_frame_len() ==> {
                let f = old(self).spec_frame_len();
                let cap = old(self).model().pre_roll_capacity;
                &&& blocks_within(final(self).model().captured, f)
                &&& final(self).model().current.len() <= clip_bound(cap, f)
                &&& job matches Some(j) ==> j.samples@.len() <= clip_bound(cap, f)
            },
    {
        let ghost m = self.model();
        proof {
            lemma_step_keeps_inv(m, block@, level);
            let f = self.detect_frame_len_samples as nat;
            if blocks_within(m.captured, f) && block@.len() <= f {
                lemma_step_blocks_within(m, block@, level, f);
                let mn = pipeline_step(m, block@, level).0;
                lemma_current_bound(mn, f);
                if pipeline_step(m, block@, level).1 is Some {
                    lemma_clip_length_bound(m, block@, level, f);
                }
            }
        }
        let evt = self.detector.process_frame(level);
        // An event's clip starts with the second before it: the pre-roll as
        // it stood before this block.
        let onset = matches!(self.state, RecState::Idle) && evt == DetectorEvent::Onset;
        if onset {
            self.current = self.pre_roll.snapshot();
        }
        // Always keep the pre-roll buffer current.
        self.pre_roll.push_slice(block);
        match self.state {
            RecState::Idle => {
                if onset {
                    self.append_block(block);
                    self.state = RecState::Recording { event_frames_captured: 1 };
                    proof {
                        self.onset_prefix = Ghost(m.pre_roll);
                        self.captured = Ghost(seq![block@]);
                    }
                }
                None
            },
            RecState::Recording { event_frames_captured } => {
                self.append_block(block);
                let n = event_frames_captured + 1;
                let hit_cap = n >= self.max_event_frames;
                if evt == DetectorEvent::Offset || hit_cap {
                    self.state = RecState::PostRoll { post_frames_captured: 0 };
                } else {
                    self.state = RecState::Recording { event_frames_captured: n };
                }
                proof {
                    self.captured = Ghost(self.captured@.push(block@));
                }
                None
            },
            RecState::PostRoll { post_frames_captured } => {
                self.append_block(block);
                let p = post_frames_captured + 1;
                if p >= self.post_roll_frames {
                    let job = self.take_job();
                    self.state = RecState::Idle;
                    proof {
                        self.onset_prefix = Ghost(Seq::empty());
                        self.captured = Ghost(Seq::empty());
                    }
                    Some(job)
                } else {
                    self.state = RecState::PostRoll { post_frames_captured: p };
                    proof {
                        self.captured = Ghost(self.captured@.push(block@));
                    }
                    None
                }
            },
        }
    }

    /// Called on shutdown. If a recording is in progress (mid event or mid
    /// post-roll), hands over what has been captured so far rather than
    /// throwing it away; the post-roll is not padded out.
    pub fn finalize_partial(&mut self) -> (job: Option<RecordingJob<T>>)
        requires
            old(self).wf(),
        ensures
            final(self).wf(),
            final(self).spec_channels() == old(self).spec_channels(),
            final(self).spec_sample_rate() == old(self).spec_sample_rate(),
            final(self).spec_frame_len() == old(self).spec_frame_len(),
            (final(self).model(), job_samples(job)) == pipeline_finalize(old(self).model()),
            job matches Some(j) ==> j.channels == old(self).spec_channels() && j.sample_rate == old(
                self,
            ).spec_sample_rate(),
    {
        if matches!(self.state, RecState::Idle) {
            return None;
        }
        let job = self.take_job();
        self.state = RecState::Idle;
        proof {
            self.onset_prefix = Ghost(Seq::empty());
            self.captured = Ghost(Seq::empty());
        }
        Some(job)
    }
    /// Chops incoming samples into detect-sized blocks (a shorter last block
    /// keeps the rest) and runs each through the pipeline; `levels[k]` is
    /// the level of the k-th block. Returns the clips completed, in order.
    pub fn feed(&mut self, samples: &[T], levels: &[FrameLevel]) -> (jobs: Vec<RecordingJob<T>>)
        requires
            old(self).wf(),
            old(self).spec_frame_len() > 0,
            old(self).model().pre_roll_capacity > 0 || samples@.len() == 0,
            levels@.len() == chunks(samples@, old(self).spec_frame_len()).len(),
        ensures
            final(self).wf(),
            final(self).spec_channels() == old(self).spec_channels(),
            final(self).spec_sample_rate() == old(self).spec_sample_rate(),
            final(self).spec_frame_len() == old(self).spec_frame_len(),
            ({
                let (m, clips) = pipeline_run(
                    old(self).model(),
                    chunks(samples@, old(self).spec_frame_len()),
                    levels@,
                );
                &&& final(self).model() == m
                &&& jobs@.len() == clips.len()
                &&& forall|i: int|
                    0 <= i < jobs@.len() ==> (#[trigger] jobs@[i]).samples@ == clips[i]
                        && jobs@[i].channels == old(self).spec_channels() && jobs@[i].sample_rate
                        == old(self).spec_sample_rate()
            }),
            blocks_within(old(self).model().captured, old(self).spec_frame_len()) ==> {
                let f = old(self).spec_frame_len();
                let cap = old(self).model().pre_roll_capacity;
                &&& blocks_within(final(self).model().captured, f)
                &&& final(self).model().current.len() <= clip_bound(cap, f)
                &&& forall|i: int|
                    0 <= i < jobs@.len() ==> (#[trigger] jobs@[i]).samples@.len() <= clip_bound(
                        cap,
                        f,
                    )
            },
    {
        let ghost m0 = self.model();
        let ghost f = self.detect_frame_len_samples as nat;
        let ghost all = chunks(samples@, f);
        let mut jobs: Vec<RecordingJob<T>> = Vec::new();
        let mut rest: &[T] = samples;
        let mut k: usize = 0;
        let ghost mut done: Seq<Seq<T>> = seq![];
        proof {
            assert(all =~= done + chunks(rest@, f));
            assert(levels@.subrange(0, 0) =~= seq![]);
        }
        while rest.len() >= self.detect_frame_len_samples
            invariant
                self.wf(),
                self.detect_frame_len_samples as nat == f,
                f > 0,
                self.channels == old(self).channels,
                self.sample_rate == old(self).sample_rate,
                self.model().pre_roll_capacity > 0 || rest@.len() == 0,
                levels@.len() == all.len(),
                all == chunks(samples@, f),
                all == done + chunks(rest@, f),
                k == done.len(),
                ({
                    let (m, clips) = pipeline_run(m0, done, levels@.subrange(0, k as int));
                    &&& self.model() == m
                    &&& jobs@.len() == clips.len()
                    &&& forall|i: int|
                        0 <= i < jobs@.len() ==> (#[trigger] jobs@[i]).samples@ == clips[i]
                            && jobs@[i].channels == old(self).channels && jobs@[i].sample_rate
                            == old(self).sample_rate
                }),
            decreases rest@.len(),
        {
            let (block, tail) = rest.split_at(self.detect_frame_len_samples);
            proof {
                assert(chunks(rest@, f) =~= seq![block@] + chunks(tail@, f));
                assert(all =~= done.push(block@) + chunks(tail@, f));
                assert(k < levels@.len());
            }
            let ghost before_jobs = jobs@;
            let ghost (mp, outs) = pipeline_run(m0, done, levels@.subrange(0, k as int));
            let job = self.process_block(block, levels[k]);
            match job {
                Some(j) => {
                    jobs.push(j);
                },
                None => {},
            }
            proof {
                let nd = done.push(block@);
                assert(nd.drop_last() =~= done);
                assert(levels@.subrange(0, k + 1).drop_last() =~= levels@.subrange(0, k as int));
                assert(levels@.subrange(0, k + 1)[k as int] == levels@[k as int]);
                done = nd;
            }
            rest = tail;
            k += 1;
        }
        if rest.len() > 0 {
            let ghost block = rest@;
            proof {
                assert(chunks(rest@, f) =~= seq![rest@]);
                assert(all =~= done.push(rest@));
                assert(k < levels@.len());
            }
            let job = self.process_block(rest, levels[k]);
            match job {
                Some(j) => {
                    jobs.push(j);
                },
                None => {},
            }
            proof {
                let nd = done.push(block);
                assert(nd.drop_last() =~= done);
                assert(levels@.subrange(0, k + 1).drop_last() =~= levels@.subrange(0, k as int));
                done = nd;
            }
            k += 1;
        } else {
            proof {
                assert(chunks(rest@, f) =~= seq![]);
                assert(all =~= done);
            }
        }
        proof {
            assert(levels@.subrange(0, k as int) =~= levels@);
            if blocks_within(m0.captured, f) {
                lemma_chunks_cover(samples@, f);
                assert(blocks_within(all, f));
                lemma_run_length_bound(m0, all, levels@, f);
                assert(done == all);
                let clips = pipeline_run(m0, all, levels@).1;
                assert forall|i: int| 0 <= i < jobs@.len() implies (#[trigger] jobs@[i]).samples@.len()
                    <= clip_bound(m0.pre_roll_capacity, f) by {
                    assert(jobs@[i].samples@ == clips[i]);
                }
            }
        }
        jobs
    }
}


/// The blocks `feed` cuts cover the samples exactly once, in order, and
/// none is longer than the detect frame.
pub proof fn lemma_chunks_cover<T>(s: Seq<T>, f: nat)
    requires
        f > 0,
    ensures
        chunks(s, f).flatten() == s,
        forall|i: int| 0 <= i < chunks(s, f).len() ==> (#[trigger] chunks(s, f)[i]).len() <= f,
    decreases s.len(),
{
    if s.len() == 0 {
        assert(chunks(s, f).flatten() =~= s);
    } else if s.len() >= f {
        let head = s.subrange(0, f as int);
        let tail = s.subrange(f as int, s.len() as int);
        lemma_chunks_cover(tail, f);
        let c = chunks(s, f);
        assert(c == seq![head] + chunks(tail, f));
        assert(c.drop_first() =~= chunks(tail, f));
        assert(c.flatten() == c[0] + c.drop_first().flatten());
        assert(c.flatten() =~= s);
        assert forall|i: int| 0 <= i < c.len() implies (#[trigger] c[i]).len() <= f by {
            if i > 0 {
                assert(c[i] == chunks(tail, f)[i - 1]);
            }
        }
    } else {
        let c = chunks(s, f);
        c.lemma_flatten_singleton();
    }
}

/// The invariant holds all along a run, whatever the blocks and levels.
pub proof fn lemma_run_keeps_inv<T>(m: PipelineModel<T>, blocks: Seq<Seq<T>>, levels: Seq<FrameLevel>)
    requires
        pipeline_inv(m),
    ensures
        pipeline_inv(pipeline_run(m, blocks, levels).0),
    decreases blocks.len(),
{
    if blocks.len() > 0 {
        lemma_run_keeps_inv(m, blocks.drop_last(), levels.drop_last());
        let mp = pipeline_run(m, blocks.drop_last(), levels.drop_last()).0;
        lemma_step_keeps_inv(mp, blocks.last(), levels[blocks.len() - 1]);
    }
}

/// Whether every block of `bs` holds at most `f` samples.
pub open spec fn blocks_within<T>(bs: Seq<Seq<T>>, f: nat) -> bool {
    forall|i: int| 0 <= i < bs.len() ==> (#[trigger] bs[i]).len() <= f
}

/// The most samples a clip can hold with blocks of at most `f` samples: the
/// pre-roll, then up to `MAX_EVENT_FRAMES + POST_ROLL_FRAMES` blocks
/// (1 s + 10 s + 2 s).
pub open spec fn clip_bound(pre_roll_capacity: nat, f: nat) -> int {
    pre_roll_capacity + (MAX_EVENT_FRAMES + POST_ROLL_FRAMES) * f
}

/// With blocks of at most `f` samples, the clip being recorded never holds
/// more than `clip_bound`.
proof fn lemma_current_bound<T>(m: PipelineModel<T>, f: nat)
    requires
        pipeline_inv(m),
        blocks_within(m.captured, f),
    ensures
        m.current.len() <= clip_bound(m.pre_roll_capacity, f),
{
    if m.state != RecState::Idle {
        m.captured.lemma_flatten_length_le_mul(f as int);
        m.captured.lemma_flatten_and_flatten_alt_are_equivalent();
        let k = m.captured.len();
        let total = (MAX_EVENT_FRAMES + POST_ROLL_FRAMES) as int;
        assert(k * (f as int) <= total * (f as int)) by (nonlinear_arith)
            requires
                k <= total,
                0 <= f,
        ;
    }
}

/// One step with a block of at most `f` samples keeps every captured block
/// within `f` and leaves the pre-roll capacity as it was.
proof fn lemma_step_blocks_within<T>(m: PipelineModel<T>, block: Seq<T>, level: FrameLevel, f: nat)
    requires
        blocks_within(m.captured, f),
        block.len() <= f,
    ensures
        blocks_within(pipeline_step(m, block, level).0.captured, f),
        pipeline_step(m, block, level).0.pre_roll_capacity == m.pre_roll_capacity,
{
    let r = pipeline_step(m, block, level).0;
    assert forall|i: int| 0 <= i < r.captured.len() implies (#[trigger] r.captured[i]).len() <= f by {
        if r.captured == m.captured.push(block) && i < m.captured.len() {
            assert(r.captured[i] == m.captured[i]);
        }
    }
}

/// Over any run of blocks of at most `f` samples (as `feed` cuts them), the
/// clip being recorded and every clip handed over hold at most the pre-roll
/// capacity plus `MAX_EVENT_FRAMES + POST_ROLL_FRAMES` blocks: 13 s of audio
/// at most.
pub proof fn lemma_run_length_bound<T>(
    m: PipelineModel<T>,
    blocks: Seq<Seq<T>>,
    levels: Seq<FrameLevel>,
    f: nat,
)
    requires
        pipeline_inv(m),
        blocks_within(m.captured, f),
        blocks_within(blocks, f),
    ensures
        ({
            let (mr, clips) = pipeline_run(m, blocks, levels);
            &&& mr.pre_roll_capacity == m.pre_roll_capacity
            &&& blocks_within(mr.captured, f)
            &&& mr.current.len() <= clip_bound(m.pre_roll_capacity, f)
            &&& forall|i: int|
                0 <= i < clips.len() ==> (#[trigger] clips[i]).len() <= clip_bound(
                    m.pre_roll_capacity,
                    f,
                )
        }),
    decreases blocks.len(),
{
    if blocks.len() == 0 {
        lemma_current_bound(m, f);
    } else {
        let init = blocks.drop_last();
        let last = blocks.last();
        let lv = levels[blocks.len() - 1];
        assert(blocks_within(init, f)) by {
            assert forall|i: int| 0 <= i < init.len() implies (#[trigger] init[i]).len() <= f by {
                assert(init[i] == blocks[i]);
            }
        }
        assert(last == blocks[blocks.len() - 1]);
        lemma_run_length_bound(m, init, levels.drop_last(), f);
        lemma_run_keeps_inv(m, init, levels.drop_last());
        let (mp, outs) = pipeline_run(m, init, levels.drop_last());
        lemma_step_blocks_within(mp, last, lv, f);
        lemma_step_keeps_inv(mp, last, lv);
        let (mn, o) = pipeline_step(mp, last, lv);
        lemma_current_bound(mn, f);
        if o is Some {
            lemma_clip_length_bound(mp, last, lv, f);
            let clips = outs.push(o->0);
            assert forall|i: int| 0 <= i < clips.len() implies (#[trigger] clips[i]).len()
                <= clip_bound(m.pre_roll_capacity, f) by {
                if i < outs.len() {
                    assert(clips[i] == outs[i]);
                }
            }
        }
    }
}

/// Running the pipeline over some blocks and then over more is running it
/// over all of them at once: the same final model, and the clips of the
/// first run followed by those of the second.
pub proof fn lemma_run_append<T>(
    m: PipelineModel<T>,
    b1: Seq<Seq<T>>,
    l1: Seq<FrameLevel>,
    b2: Seq<Seq<T>>,
    l2: Seq<FrameLevel>,
)
    requires
        l1.len() == b1.len(),
        l2.len() == b2.len(),
    ensures
        ({
            let (m1, c1) = pipeline_run(m, b1, l1);
            let (m2, c2) = pipeline_run(m1, b2, l2);
            pipeline_run(m, b1 + b2, l1 + l2) == (m2, c1 + c2)
        }),
    decreases b2.len(),
{
    let (m1, c1) = pipeline_run(m, b1, l1);
    if b2.len() == 0 {
        assert(b1 + b2 =~= b1);
        assert(l1 + l2 =~= l1);
        assert(c1 + seq![] =~= c1);
    } else {
        let b2i = b2.drop_last();
        let l2i = l2.drop_last();
        lemma_run_append(m, b1, l1, b2i, l2i);
        assert((b1 + b2).drop_last() =~= b1 + b2i);
        assert((l1 + l2).drop_last() =~= l1 + l2i);
        assert((b1 + b2).last() == b2.last());
        assert((l1 + l2)[(b1 + b2).len() - 1] == l2[b2.len() - 1]);
        let (mp, cp) = pipeline_run(m1, b2i, l2i);
        let (mn, o) = pipeline_step(mp, b2.last(), l2[b2.len() - 1]);
        if o is Some {
            assert((c1 + cp).push(o->0) =~= c1 + cp.push(o->0));
        }
    }
}

/// Cutting a text whose length is a whole number of frames, followed by
/// more, gives the blocks of the first then those of the rest.
pub proof fn lemma_chunks_append<T>(s1: Seq<T>, s2: Seq<T>, f: nat)
    requires
        f > 0,
        s1.len() % f == 0,
    ensures
        chunks(s1 + s2, f) == chunks(s1, f) + chunks(s2, f),
    decreases s1.len(),
{
    if s1.len() == 0 {
        assert(s1 + s2 =~= s2);
        assert(chunks(s1, f) =~= seq![]);
        assert(seq![] + chunks(s2, f) =~= chunks(s2, f));
    } else {
        if s1.len() < f {
            vstd::arithmetic::div_mod::lemma_small_mod(s1.len(), f);
        }
        let t1 = s1.subrange(f as int, s1.len() as int);
        vstd::arithmetic::div_mod::lemma_mod_sub_multiples_vanish(s1.len() as int, f as int);
        assert(-(f as int) + s1.len() == t1.len());
        lemma_chunks_append(t1, s2, f);
        let s = s1 + s2;
        assert(s.len() >= f);
        assert(s.subrange(0, f as int) =~= s1.subrange(0, f as int));
        assert(s.subrange(f as int, s.len() as int) =~= t1 + s2);
        assert(chunks(s, f) == seq![s.subrange(0, f as int)] + chunks(s.subrange(f as int, s.len() as int), f));
        assert(chunks(s1, f) == seq![s1.subrange(0, f as int)] + chunks(t1, f));
        assert(chunks(s, f) =~= chunks(s1, f) + chunks(s2, f));
    }
}

/// Feeding samples in two calls, the first a whole number of detect frames,
/// has the same effect as feeding them in one: the same final model, and
/// the clips of the first call followed by those of the second.
pub proof fn lemma_feed_in_pieces<T>(
    m: PipelineModel<T>,
    s1: Seq<T>,
    l1: Seq<FrameLevel>,
    s2: Seq<T>,
    l2: Seq<FrameLevel>,
    f: nat,
)
    requires
        f > 0,
        s1.len() % f == 0,
        l1.len() == chunks(s1, f).len(),
        l2.len() == chunks(s2, f).len(),
    ensures
        ({
            let (m1, c1) = pipeline_run(m, chunks(s1, f), l1);
            let (m2, c2) = pipeline_run(m1, chunks(s2, f), l2);
            pipeline_run(m, chunks(s1 + s2, f), l1 + l2) == (m2, c1 + c2)
        }),
{
    lemma_chunks_append(s1, s2, f);
    lemma_run_append(m, chunks(s1, f), l1, chunks(s2, f), l2);
}

/// The blocks `feed` runs through the pipeline, one `process_block` each in
/// order: `samples[i*f..(i+1)*f]` for each whole frame `i`, then the
/// remainder when there is one.
pub proof fn lemma_chunks_index<T>(s: Seq<T>, f: nat)
    requires
        f > 0,
    ensures
        chunks(s, f).len() == s.len() / f + if s.len() % f == 0 { 0int } else { 1int },
        forall|i: int|
            0 <= i < s.len() / f ==> #[trigger] chunks(s, f)[i] == s.subrange(i * f, i * f + f),
        s.len() % f != 0 ==> chunks(s, f)[(s.len() / f) as int] == s.subrange(
            ((s.len() / f) * f) as int,
            s.len() as int,
        ),
    decreases s.len(),
{
    let n = s.len() as int;
    let fi = f as int;
    if n < fi {
        vstd::arithmetic::div_mod::lemma_fundamental_div_mod_converse(n, fi, 0, n);
        if n > 0 {
            assert(s.subrange(0, n) =~= s);
        }
    } else {
        let t = s.subrange(fi, n);
        lemma_chunks_index(t, f);
        vstd::arithmetic::div_mod::lemma_div_minus_one(n, fi);
        vstd::arithmetic::div_mod::lemma_mod_sub_multiples_vanish(n, fi);
        assert(-fi + n == t.len());
        let q = n / fi;
        let c = chunks(s, f);
        let ct = chunks(t, f);
        assert(t.len() / f == q - 1);
        assert(t.len() % f == n % fi);
        assert(c == seq![s.subrange(0, fi)] + ct);
        assert(c.len() == 1 + ct.len());
        vstd::arithmetic::div_mod::lemma_fundamental_div_mod(n, fi);
        let r = n % fi;
        assert(0 <= r < fi);
        assert forall|i: int| 0 <= i < q implies #[trigger] c[i] == s.subrange(i * fi, i * fi + fi) by {
            if i == 0 {
                assert(i * fi == 0) by (nonlinear_arith)
                    requires
                        i == 0,
                ;
                assert(c[0] == s.subrange(0, fi));
            } else {
                let a = (i - 1) * fi;
                assert(a + fi == i * fi && 0 <= a && i * fi + fi <= n) by (nonlinear_arith)
                    requires
                        a == (i - 1) * fi,
                        n == fi * q + r,
                        0 <= r,
                        1 <= i < q,
                        fi > 0,
                ;
                assert(c[i] == ct[i - 1]);
                assert(ct[i - 1] == t.subrange(a, a + fi));
                assert(t.subrange(a, a + fi) =~= s.subrange(i * fi, i * fi + fi));
            }
        }
        if n % fi != 0 {
            let a = (q - 1) * fi;
            assert(a + fi == q * fi && 0 <= a && q * fi <= n) by (nonlinear_arith)
                requires
                    a == (q - 1) * fi,
                    n == fi * q + r,
                    0 <= r,
                    1 <= q,
                    fi > 0,
            ;
            assert(c[q] == ct[q - 1]);
            assert(ct[q - 1] == t.subrange(a, t.len() as int));
            assert(t.subrange(a, t.len() as int) =~= s.subrange(q * fi, n));
        }
    }
}

/// Directory the recordings are written to.
pub const OUTPUT_DIR: &'static str = "recordings";

/// The text of `PathBuf::from(base).join(name)`.
pub uninterp spec fn path_join_text(base: Seq<char>, name: Seq<char>) -> Seq<char>;

/// Joins a path to a base directory with std's `Path::join` (an absolute
/// `name` replaces the base) and gives the result as text; believed to be
/// `path_join_text(base, name)`.
#[verifier::external_body]
fn path_join(base: &str, name: &str) -> (r: String)
    ensures
        r@ == path_join_text(base@, name@),
{
    std::path::PathBuf::from(base).join(name).to_string_lossy().into_owned()
}

/// Where a recording named `name` is written: `name` under the recordings
/// directory.
pub fn output_path(name: &str) -> (p: String)
    ensures
        p@ == path_join_text("recordings"@, name@),
{
    path_join("recordings", name)
}

/// The file a clip is saved to, stamped with the local time text `stamp`.
pub open spec fn recording_file_spec(stamp: Seq<char>) -> Seq<char> {
    "recordings"@ + "/event_"@ + stamp + ".wav"@
}

/// The file a clip is saved to: `recordings/event_<stamp>.wav`.
pub fn recording_filename(stamp: &str) -> (f: String)
    ensures
        f@ == recording_file_spec(stamp@),
{
    let mut f = OUTPUT_DIR.to_string();
    f.append("/event_");
    f.append(stamp);
    f.append(".wav");
    f
}

} // verus!
