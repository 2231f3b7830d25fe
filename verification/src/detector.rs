use vstd::prelude::*;

verus! {

/// Consecutive "loud" frames required before declaring an onset (debounce).
pub const ON_DEBOUNCE_FRAMES: usize = 2;

/// Consecutive "quiet" frames required before declaring an offset (hangover).
pub const OFF_HANGOVER_FRAMES: usize = 15;

/// What the detector reports for one frame.
#[derive(Debug, Clone, Copy, PartialEq, Eq, Structural)]
pub enum DetectorEvent {
    Onset,
    Offset,
    NoTransition,
}

/// The two threshold comparisons of one frame's RMS level:
/// `at_or_above_on` is `rms >= THRESHOLD_ON`, `below_off` is `rms < THRESHOLD_OFF`.
#[derive(Debug, Clone, Copy, PartialEq, Eq, Structural)]
pub struct FrameLevel {
    pub at_or_above_on: bool,
    pub below_off: bool,
}

/// Abstract state of the detector.
pub struct DetectorState {
    pub active: bool,
    pub on_run: nat,
    pub off_run: nat,
}

/// Simple threshold detector with hysteresis + debounce/hangover.
pub struct EnergyDetector {
    active: bool,
    on_run: usize,
    off_run: usize,
}

/// One step of the detector on the abstract state.
pub open spec fn detector_step(s: DetectorState, level: FrameLevel) -> (DetectorState, DetectorEvent) {
    if !s.active {
        if level.at_or_above_on {
            if s.on_run + 1 >= ON_DEBOUNCE_FRAMES {
                (DetectorState { active: true, on_run: 0, off_run: 0 }, DetectorEvent::Onset)
            } else {
                (DetectorState { active: false, on_run: s.on_run + 1, off_run: 0 }, DetectorEvent::NoTransition)
            }
        } else {
            (DetectorState { active: false, on_run: 0, off_run: s.off_run }, DetectorEvent::NoTransition)
        }
    } else {
        if level.below_off {
            if s.off_run + 1 >= OFF_HANGOVER_FRAMES {
                (DetectorState { active: false, on_run: s.on_run, off_run: 0 }, DetectorEvent::Offset)
            } else {
                (DetectorState { active: true, on_run: s.on_run, off_run: s.off_run + 1 }, DetectorEvent::NoTransition)
            }
        } else {
            (DetectorState { active: true, on_run: s.on_run, off_run: 0 }, DetectorEvent::NoTransition)
        }
    }
}

/// The states the detector can be in.
pub open spec fn detector_state_wf(s: DetectorState) -> bool {
    &&& s.on_run < ON_DEBOUNCE_FRAMES
    &&& s.off_run < OFF_HANGOVER_FRAMES
    &&& (s.active ==> s.on_run == 0)
    &&& (!s.active ==> s.off_run == 0)
}

impl View for EnergyDetector {
    type V = DetectorState;

    closed spec fn view(&self) -> DetectorState {
        DetectorState { active: self.active, on_run: self.on_run as nat, off_run: self.off_run as nat }
    }
}

impl EnergyDetector {
    pub fn new() -> (d: Self)
        ensures
            d@ == (DetectorState { active: false, on_run: 0, off_run: 0 }),
    {
        Self { active: false, on_run: 0, off_run: 0 }
    }

    /// Feed one frame's level, get back whether this frame caused an
    /// onset/offset transition.
    pub fn process_frame(&mut self, level: FrameLevel) -> (evt: DetectorEvent)
        requires
            detector_state_wf(old(self)@),
        ensures
            (final(self)@, evt) == detector_step(old(self)@, level),
            detector_state_wf(final(self)@),
    {
        if !self.active {
            if level.at_or_above_on {
                self.on_run += 1;
                self.off_run = 0;
                if self.on_run >= ON_DEBOUNCE_FRAMES {
                    self.active = true;
                    self.on_run = 0;
                    return DetectorEvent::Onset;
                }
            } else {
                self.on_run = 0;
            }
        } else {
            if level.below_off {
                self.off_run += 1;
                if self.off_run >= OFF_HANGOVER_FRAMES {
                    self.active = false;
                    self.off_run = 0;
                    return DetectorEvent::Offset;
                }
            } else {
                self.off_run = 0;
            }
        }
        DetectorEvent::NoTransition
    }
}

/// The state a detector starts in.
pub open spec fn initial_detector() -> DetectorState {
    DetectorState { active: false, on_run: 0, off_run: 0 }
}

/// The detector fed `levels` in order from state `s`: the final state and
/// the event of each frame.
pub open spec fn detector_run(s: DetectorState, levels: Seq<FrameLevel>) -> (DetectorState, Seq<DetectorEvent>)
    decreases levels.len(),
{
    if levels.len() == 0 {
        (s, seq![])
    } else {
        let (s1, evs) = detector_run(s, levels.drop_last());
        let (s2, e) = detector_step(s1, levels.last());
        (s2, evs.push(e))
    }
}

proof fn lemma_run_len(s: DetectorState, levels: Seq<FrameLevel>)
    ensures
        detector_run(s, levels).1.len() == levels.len(),
    decreases levels.len(),
{
    if levels.len() > 0 {
        lemma_run_len(s, levels.drop_last());
    }
}

/// The event of frame `i` is the step from the state the frames before it
/// left.
proof fn lemma_run_event(s: DetectorState, levels: Seq<FrameLevel>, i: int)
    requires
        0 <= i < levels.len(),
    ensures
        detector_run(s, levels).1[i] == detector_step(detector_run(s, levels.subrange(0, i)).0, levels[i]).1,
    decreases levels.len(),
{
    lemma_run_len(s, levels.drop_last());
    if i == levels.len() - 1 {
        assert(levels.subrange(0, i) =~= levels.drop_last());
    } else {
        lemma_run_event(s, levels.drop_last(), i);
        assert(levels.drop_last().subrange(0, i) =~= levels.subrange(0, i));
    }
}

/// What the state after a run from the start says of the last frames: an
/// inactive detector counting a loud frame has just seen one, an active one
/// counting quiet frames has just seen that many.
proof fn lemma_run_state(levels: Seq<FrameLevel>)
    ensures
        ({
            let st = detector_run(initial_detector(), levels).0;
            &&& detector_state_wf(st)
            &&& !st.active && st.on_run >= 1 ==> levels.len() >= 1 && levels.last().at_or_above_on
            &&& st.active ==> st.off_run <= levels.len() && forall|k: int|
                0 <= k < st.off_run ==> (#[trigger] levels[levels.len() - 1 - k]).below_off
        }),
    decreases levels.len(),
{
    if levels.len() > 0 {
        let prev = levels.drop_last();
        lemma_run_state(prev);
        let s1 = detector_run(initial_detector(), prev).0;
        let st = detector_run(initial_detector(), levels).0;
        if st.active && s1.active && st.off_run > 0 {
            assert forall|k: int| 0 <= k < st.off_run implies (#[trigger] levels[levels.len() - 1 - k]).below_off by {
                if k > 0 {
                    assert(levels[levels.len() - 1 - k] == prev[prev.len() - 1 - (k - 1)]);
                }
            }
        }
    }
}

/// An onset is reported only on the second of two loud frames in a row
/// (`ON_DEBOUNCE_FRAMES`).
pub proof fn lemma_onset_debounced(levels: Seq<FrameLevel>, i: int)
    requires
        0 <= i < levels.len(),
        detector_run(initial_detector(), levels).1[i] == DetectorEvent::Onset,
    ensures
        i >= 1,
        levels[i].at_or_above_on,
        levels[i - 1].at_or_above_on,
{
    lemma_run_event(initial_detector(), levels, i);
    let pre = levels.subrange(0, i);
    lemma_run_state(pre);
    assert(pre.last() == levels[i - 1]);
}

/// An offset is reported only on the last of fifteen frames in a row below
/// the off threshold (`OFF_HANGOVER_FRAMES`).
pub proof fn lemma_offset_after_hangover(levels: Seq<FrameLevel>, i: int)
    requires
        0 <= i < levels.len(),
        detector_run(initial_detector(), levels).1[i] == DetectorEvent::Offset,
    ensures
        i >= 14,
        forall|j: int| i - 14 <= j <= i ==> (#[trigger] levels[j]).below_off,
{
    lemma_run_event(initial_detector(), levels, i);
    let pre = levels.subrange(0, i);
    lemma_run_state(pre);
    assert forall|j: int| i - 14 <= j <= i implies (#[trigger] levels[j]).below_off by {
        if j < i {
            let k = i - 1 - j;
            assert(pre[pre.len() - 1 - k] == levels[j]);
        }
    }
}

/// Onsets less offsets among `evs`.
pub open spec fn transition_balance(evs: Seq<DetectorEvent>) -> int
    decreases evs.len(),
{
    if evs.len() == 0 {
        0
    } else {
        transition_balance(evs.drop_last()) + match evs.last() {
            DetectorEvent::Onset => 1int,
            DetectorEvent::Offset => -1int,
            DetectorEvent::NoTransition => 0int,
        }
    }
}

proof fn lemma_balance_tracks_active(levels: Seq<FrameLevel>)
    ensures
        transition_balance(detector_run(initial_detector(), levels).1) == if detector_run(
            initial_detector(),
            levels,
        ).0.active {
            1int
        } else {
            0int
        },
    decreases levels.len(),
{
    if levels.len() > 0 {
        lemma_balance_tracks_active(levels.drop_last());
        let evs = detector_run(initial_detector(), levels).1;
        assert(evs.drop_last() =~= detector_run(initial_detector(), levels.drop_last()).1);
    }
}

proof fn lemma_run_prefix(s: DetectorState, levels: Seq<FrameLevel>, n: int)
    requires
        0 <= n <= levels.len(),
    ensures
        detector_run(s, levels.subrange(0, n)).1 == detector_run(s, levels).1.subrange(0, n),
    decreases levels.len(),
{
    lemma_run_len(s, levels);
    lemma_run_len(s, levels.drop_last());
    if n == levels.len() {
        assert(levels.subrange(0, n) =~= levels);
        assert(detector_run(s, levels).1.subrange(0, n) =~= detector_run(s, levels).1);
    } else {
        lemma_run_prefix(s, levels.drop_last(), n);
        assert(levels.drop_last().subrange(0, n) =~= levels.subrange(0, n));
        assert(detector_run(s, levels).1.subrange(0, n) =~= detector_run(s, levels.drop_last()).1.subrange(0, n));
    }
}

/// Onsets and offsets alternate, the first being an onset: in every prefix
/// of the events, onsets outnumber offsets by 0 or 1 (by 1 exactly while a
/// sound is active).
pub proof fn lemma_transitions_alternate(levels: Seq<FrameLevel>, n: int)
    requires
        0 <= n <= levels.len(),
    ensures
        ({
            let b = transition_balance(detector_run(initial_detector(), levels).1.subrange(0, n));
            b == 0 || b == 1
        }),
{
    lemma_run_prefix(initial_detector(), levels, n);
    lemma_balance_tracks_active(levels.subrange(0, n));
}

} // verus!
