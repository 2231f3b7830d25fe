use telemetry_kit::detector::{DetectorEvent, EnergyDetector, FrameLevel};
use telemetry_kit::recorder::{output_path, recording_filename, Pipeline};
use telemetry_kit::ring::CircularBuffer;

fn loud() -> FrameLevel {
    FrameLevel { at_or_above_on: true, below_off: false }
}

fn quiet() -> FrameLevel {
    FrameLevel { at_or_above_on: false, below_off: true }
}

fn middling() -> FrameLevel {
    FrameLevel { at_or_above_on: false, below_off: false }
}

#[test]
fn onset_needs_two_loud_frames() {
    let mut d = EnergyDetector::new();
    assert_eq!(d.process_frame(loud()), DetectorEvent::NoTransition);
    assert_eq!(d.process_frame(loud()), DetectorEvent::Onset);
    assert_eq!(d.process_frame(loud()), DetectorEvent::NoTransition);
}

#[test]
fn a_quiet_frame_resets_the_debounce() {
    let mut d = EnergyDetector::new();
    assert_eq!(d.process_frame(loud()), DetectorEvent::NoTransition);
    assert_eq!(d.process_frame(middling()), DetectorEvent::NoTransition);
    assert_eq!(d.process_frame(loud()), DetectorEvent::NoTransition);
    assert_eq!(d.process_frame(loud()), DetectorEvent::Onset);
}

#[test]
fn offset_after_fifteen_quiet_frames() {
    let mut d = EnergyDetector::new();
    d.process_frame(loud());
    d.process_frame(loud());
    for _ in 0..14 {
        assert_eq!(d.process_frame(quiet()), DetectorEvent::NoTransition);
    }
    assert_eq!(d.process_frame(quiet()), DetectorEvent::Offset);
}

#[test]
fn a_loud_frame_restarts_the_hangover() {
    let mut d = EnergyDetector::new();
    d.process_frame(loud());
    d.process_frame(loud());
    for _ in 0..10 {
        d.process_frame(quiet());
    }
    assert_eq!(d.process_frame(middling()), DetectorEvent::NoTransition);
    for _ in 0..14 {
        assert_eq!(d.process_frame(quiet()), DetectorEvent::NoTransition);
    }
    assert_eq!(d.process_frame(quiet()), DetectorEvent::Offset);
}

#[test]
fn circular_buffer_keeps_the_last_samples() {
    let mut b = CircularBuffer::new(4, 0i32);
    assert_eq!(b.snapshot(), Vec::<i32>::new());
    b.push_slice(&[1, 2, 3]);
    assert_eq!(b.snapshot(), vec![1, 2, 3]);
    b.push_slice(&[4, 5, 6]);
    assert_eq!(b.snapshot(), vec![3, 4, 5, 6]);
    b.push_slice(&[7, 8, 9, 10, 11]);
    assert_eq!(b.snapshot(), vec![8, 9, 10, 11]);
}

#[test]
fn split_pushes_keep_what_one_push_keeps() {
    let mut a = CircularBuffer::new(5, 0i32);
    let mut b = CircularBuffer::new(5, 0i32);
    a.push_slice(&[1, 2, 3, 4, 5, 6, 7]);
    b.push_slice(&[1, 2, 3]);
    b.push_slice(&[4, 5, 6, 7]);
    assert_eq!(a.snapshot(), b.snapshot());
}

#[test]
fn snapshot_after_a_series_of_pushes_is_the_tail_of_everything_pushed() {
    let mut b = CircularBuffer::new(6, 0i32);
    let slices: Vec<Vec<i32>> = vec![vec![1, 2], vec![], vec![3, 4, 5, 6, 7], vec![8], vec![9, 10, 11]];
    let mut all: Vec<i32> = Vec::new();
    for s in &slices {
        b.push_slice(s);
        all.extend(s.iter().copied());
        let keep = all.len().min(6);
        assert_eq!(b.snapshot(), all[all.len() - keep..].to_vec());
    }
    assert_eq!(b.snapshot(), vec![6, 7, 8, 9, 10, 11]);
    // Taking a snapshot leaves the buffer as it was.
    assert_eq!(b.snapshot(), b.snapshot());
}

fn frame(i: i32) -> Vec<i32> {
    vec![2 * i, 2 * i + 1]
}

#[test]
fn a_clip_is_pre_roll_event_and_post_roll() {
    let mut p = Pipeline::new(1, 8000, 2, 4, 0i32);
    let mut samples: Vec<i32> = Vec::new();
    let mut levels: Vec<FrameLevel> = Vec::new();
    for i in 0..117 {
        samples.extend(frame(i));
        levels.push(if i < 2 { loud() } else { quiet() });
    }
    let jobs = p.feed(&samples, &levels);
    assert_eq!(jobs.len(), 1);
    // The second before the event (frame 0), then the event from its onset
    // frame on, each frame once.
    let mut expected: Vec<i32> = Vec::new();
    for i in 0..117 {
        expected.extend(frame(i));
    }
    assert_eq!(jobs[0].samples, expected);
    assert_eq!(jobs[0].channels, 1);
    assert_eq!(jobs[0].sample_rate, 8000);
}

#[test]
fn a_clip_is_cut_after_the_event_limit() {
    let mut p = Pipeline::new(2, 44100, 1, 1, 0i32);
    let mut jobs = Vec::new();
    for i in 0..700 {
        if let Some(job) = p.process_block(&[i], loud()) {
            jobs.push(job);
        }
    }
    assert_eq!(jobs.len(), 1);
    assert_eq!(jobs[0].samples.len(), 1 + 500 + 100);
    assert_eq!(jobs[0].samples[0], 0);
    assert_eq!(jobs[0].samples[1], 1);
    assert_eq!(*jobs[0].samples.last().unwrap(), 600);
}

#[test]
fn an_unfinished_clip_is_flushed() {
    let mut p = Pipeline::new(1, 8000, 1, 2, 0i32);
    assert!(p.process_block(&[5], loud()).is_none());
    assert!(p.process_block(&[6], loud()).is_none());
    assert!(p.process_block(&[7], quiet()).is_none());
    let job = p.finalize_partial().unwrap();
    assert_eq!(job.samples, vec![5, 6, 7]);
    assert!(p.finalize_partial().is_none());
}

#[test]
fn nothing_is_flushed_when_idle() {
    let mut p = Pipeline::new(1, 8000, 1, 2, 0i32);
    assert!(p.process_block(&[5], loud()).is_none());
    assert!(p.finalize_partial().is_none());
}

#[test]
fn recording_paths() {
    assert_eq!(output_path("a.wav"), format!("recordings{}a.wav", std::path::MAIN_SEPARATOR));
    assert_eq!(recording_filename("20240101_000000.000"), "recordings/event_20240101_000000.000.wav");
}

#[test]
fn onsets_and_offsets_alternate() {
    let mut d = EnergyDetector::new();
    let mut balance = 0i32;
    for i in 0..2000u32 {
        let level = match (i / 7) % 5 {
            0 | 1 => loud(),
            2 => middling(),
            _ => quiet(),
        };
        match d.process_frame(level) {
            DetectorEvent::Onset => balance += 1,
            DetectorEvent::Offset => balance -= 1,
            DetectorEvent::NoTransition => {}
        }
        assert!(balance == 0 || balance == 1);
    }
}

fn scripted_input(frames: i32) -> (Vec<i32>, Vec<FrameLevel>) {
    let mut samples: Vec<i32> = Vec::new();
    let mut levels: Vec<FrameLevel> = Vec::new();
    for i in 0..frames {
        samples.extend(frame(i));
        levels.push(if i % 150 < 3 { loud() } else { quiet() });
    }
    (samples, levels)
}

#[test]
fn feeding_in_pieces_matches_feeding_at_once() {
    let (samples, levels) = scripted_input(400);
    let mut whole = Pipeline::new(1, 8000, 2, 4, 0i32);
    let at_once: Vec<Vec<i32>> = whole.feed(&samples, &levels).into_iter().map(|j| j.samples).collect();
    let mut split = Pipeline::new(1, 8000, 2, 4, 0i32);
    let mut pieces: Vec<Vec<i32>> = Vec::new();
    let cut = 130;
    for j in split.feed(&samples[..2 * cut], &levels[..cut]) {
        pieces.push(j.samples);
    }
    for j in split.feed(&samples[2 * cut..], &levels[cut..]) {
        pieces.push(j.samples);
    }
    assert_eq!(at_once.len(), 2);
    assert_eq!(at_once, pieces);
    assert_eq!(whole.finalize_partial().map(|j| j.samples), split.finalize_partial().map(|j| j.samples));
}

#[test]
fn feed_runs_each_frame_then_the_rest_through_process_block() {
    let (mut samples, mut levels) = scripted_input(120);
    samples.push(999);
    levels.push(quiet());
    let mut fed = Pipeline::new(1, 8000, 2, 4, 0i32);
    let by_feed: Vec<Vec<i32>> = fed.feed(&samples, &levels).into_iter().map(|j| j.samples).collect();
    let mut stepped = Pipeline::new(1, 8000, 2, 4, 0i32);
    let mut by_step: Vec<Vec<i32>> = Vec::new();
    for (k, block) in samples.chunks(2).enumerate() {
        if let Some(j) = stepped.process_block(block, levels[k]) {
            by_step.push(j.samples);
        }
    }
    assert_eq!(by_feed, by_step);
    assert_eq!(by_feed.len(), 1);
    assert_eq!(fed.finalize_partial().is_none(), stepped.finalize_partial().is_none());
}

#[test]
fn clips_never_exceed_pre_roll_plus_event_plus_post_roll() {
    let mut p = Pipeline::new(1, 8000, 3, 5, 0i32);
    let mut lengths = Vec::new();
    for i in 0..2000 {
        if let Some(job) = p.process_block(&[i, i + 1, i + 2], loud()) {
            lengths.push(job.samples.len());
        }
    }
    // The first clip: the one block before the onset, then 600 blocks.
    assert_eq!(lengths[0], 3 + (500 + 100) * 3);
    assert!(lengths.iter().all(|&n| n <= 5 + (500 + 100) * 3));
}

#[test]
fn an_onset_clip_starts_with_the_pre_roll_before_the_onset_block() {
    let mut p = Pipeline::new(1, 8000, 2, 4, 0i32);
    assert!(p.process_block(&[1, 2], quiet()).is_none());
    assert!(p.process_block(&[3, 4], quiet()).is_none());
    assert!(p.process_block(&[5, 6], quiet()).is_none());
    assert!(p.process_block(&[7, 8], loud()).is_none());
    assert!(p.process_block(&[9, 10], loud()).is_none());
    let job = p.finalize_partial().unwrap();
    // Pre-roll of four samples before the onset block, then the block once.
    assert_eq!(job.samples, vec![5, 6, 7, 8, 9, 10]);
}
