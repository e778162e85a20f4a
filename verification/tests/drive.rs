use noise_gate::{Event, NoiseGate, Sink};

struct Recorder<F> {
    events: Vec<Event<F>>,
}

impl<F> Recorder<F> {
    fn new() -> Self {
        Recorder { events: Vec::new() }
    }
}

impl<F> Sink<F> for Recorder<F> {
    fn record(&mut self, frame: F) {
        self.events.push(Event::Record(frame));
    }

    fn end_of_transmission(&mut self) {
        self.events.push(Event::EndOfTransmission);
    }
}

struct Counter {
    samples: usize,
    chunks: usize,
}

impl<F> Sink<F> for Counter {
    fn record(&mut self, _: F) {
        self.samples += 1;
    }

    fn end_of_transmission(&mut self) {
        self.chunks += 1;
    }
}

fn mono(samples: &[i16]) -> Vec<[i16; 1]> {
    samples.iter().map(|s| [*s]).collect()
}

#[test]
fn new_gate_is_closed() {
    let gate = NoiseGate::new(100i16, 5);
    assert!(gate.is_closed());
    assert!(!gate.is_open());
    assert_eq!(gate.open_threshold, 100);
    assert_eq!(gate.release_time, 5);
}

#[test]
fn queries_negate_each_other_in_every_state() {
    let mut gate = NoiseGate::new(100i16, 1);
    let mut sink = Counter { samples: 0, chunks: 0 };
    assert!(!gate.is_open() && gate.is_closed());
    gate.process_frames(&[[150i16]], &mut sink);
    assert!(gate.is_open() && !gate.is_closed());
    gate.process_frames(&[[40i16]], &mut sink);
    assert!(gate.is_open() && !gate.is_closed());
    gate.process_frames(&[[40i16]], &mut sink);
    assert!(gate.is_open() && !gate.is_closed());
    gate.process_frames(&[[40i16]], &mut sink);
    assert!(!gate.is_open() && gate.is_closed());
}

#[test]
fn queries_leave_the_gate_as_it_was() {
    let mut gate = NoiseGate::new(100i16, 2);
    let mut sink = Counter { samples: 0, chunks: 0 };
    gate.process_frames(&[[150i16], [40]], &mut sink);
    let before = gate.clone();
    for _ in 0..3 {
        assert!(gate.is_open());
        assert!(!gate.is_closed());
    }
    assert_eq!(gate, before);
}

#[test]
fn end_to_end_with_release_time_two() {
    let frames = mono(&[150, 150, 40, 40, 40, 40, 40, 40, 150]);
    let mut gate = NoiseGate::new(100i16, 2);
    let mut sink = Recorder::new();
    gate.process_frames(&frames, &mut sink);
    assert_eq!(
        sink.events,
        vec![
            Event::Record([150i16]),
            Event::Record([150]),
            Event::Record([40]),
            Event::Record([40]),
            Event::Record([40]),
            Event::EndOfTransmission,
            Event::Record([150]),
        ]
    );
    assert!(gate.is_open());
}

#[test]
fn end_to_end_frame_by_frame() {
    let frames = mono(&[150, 150, 40, 40, 40, 40, 40, 40, 150]);
    let open_after = [true, true, true, true, true, false, false, false, true];
    let calls_after = [1usize, 2, 3, 4, 5, 6, 6, 6, 7];
    let mut gate = NoiseGate::new(100i16, 2);
    let mut sink = Recorder::new();
    for (i, frame) in frames.iter().enumerate() {
        gate.process_frames(&[*frame], &mut sink);
        assert_eq!(gate.is_open(), open_after[i]);
        assert_eq!(sink.events.len(), calls_after[i]);
    }
    assert_eq!(sink.events[5], Event::EndOfTransmission);
    assert_eq!(sink.events[6], Event::Record([150i16]));
}

#[test]
fn batches_carry_the_state_over() {
    let frames = mono(&[150, 40, 40, 150, 40, 40, 40, 40, 30, 120, 20]);
    let mut whole = NoiseGate::new(100i16, 2);
    let mut whole_sink = Recorder::new();
    whole.process_frames(&frames, &mut whole_sink);
    for cut in 0..=frames.len() {
        let mut gate = NoiseGate::new(100i16, 2);
        let mut sink = Recorder::new();
        gate.process_frames(&frames[..cut], &mut sink);
        gate.process_frames(&frames[cut..], &mut sink);
        assert_eq!(sink.events, whole_sink.events);
        assert_eq!(gate, whole);
    }
}

#[test]
fn zero_release_time_records_one_silent_frame() {
    let frames = mono(&[150, 40, 40, 40]);
    let mut gate = NoiseGate::new(100i16, 0);
    let mut sink = Recorder::new();
    gate.process_frames(&frames[..2], &mut sink);
    assert!(gate.is_open());
    assert_eq!(sink.events, vec![Event::Record([150i16]), Event::Record([40])]);
    gate.process_frames(&frames[2..], &mut sink);
    assert!(gate.is_closed());
    assert_eq!(
        sink.events,
        vec![Event::Record([150i16]), Event::Record([40]), Event::EndOfTransmission]
    );
}

#[test]
fn silence_from_the_start_makes_no_calls() {
    let frames = mono(&[0, 40, -99, 99, 1, -1, 0, 0]);
    let mut gate = NoiseGate::new(100i16, 3);
    let mut sink = Recorder::new();
    gate.process_frames(&frames, &mut sink);
    assert!(sink.events.is_empty());
    assert!(gate.is_closed());
}

#[test]
fn no_frames_make_no_calls() {
    let frames: Vec<[i16; 1]> = Vec::new();
    let mut gate = NoiseGate::new(100i16, 3);
    let mut sink = Recorder::new();
    gate.process_frames(&frames, &mut sink);
    assert!(sink.events.is_empty());
    assert!(gate.is_closed());
}

#[test]
fn stream_that_ends_open_has_no_trailing_end() {
    let mut gate = NoiseGate::new(100i16, 2);
    let mut sink = Recorder::new();
    gate.process_frames(&mono(&[150, 150]), &mut sink);
    assert!(gate.is_open());
    assert_eq!(sink.events, vec![Event::Record([150i16]), Event::Record([150])]);
}

#[test]
fn stream_that_ends_closing_has_no_trailing_end() {
    let mut gate = NoiseGate::new(100i16, 2);
    let mut sink = Recorder::new();
    gate.process_frames(&mono(&[150, 40, 40]), &mut sink);
    assert!(gate.is_open());
    assert_eq!(
        sink.events,
        vec![Event::Record([150i16]), Event::Record([40]), Event::Record([40])]
    );
}

#[test]
fn each_span_ends_exactly_once() {
    let frames = mono(&[150, 40, 40, 40, 40, 150, 150, 40, 40, 40, 40, 40]);
    let mut gate = NoiseGate::new(100i16, 1);
    let mut sink = Counter { samples: 0, chunks: 0 };
    gate.process_frames(&frames, &mut sink);
    assert_eq!(sink.samples, 3 + 4);
    assert_eq!(sink.chunks, 2);
    assert!(gate.is_closed());
}

#[test]
fn stereo_frames_pass_whole() {
    let frames: Vec<[i16; 2]> = vec![[0, 0], [100, 0], [0, 0], [0, -100], [5, 5], [5, 5], [5, 5]];
    let mut gate = NoiseGate::new(100i16, 1);
    let mut sink = Recorder::new();
    gate.process_frames(&frames, &mut sink);
    assert_eq!(
        sink.events,
        vec![
            Event::Record([100i16, 0]),
            Event::Record([0, 0]),
            Event::Record([0, -100]),
            Event::Record([5, 5]),
            Event::Record([5, 5]),
            Event::EndOfTransmission,
        ]
    );
}

#[test]
fn unsigned_stream_is_split_about_equilibrium() {
    let frames: Vec<[u8; 1]> = vec![[128], [0], [128], [128], [255], [130], [126], [128]];
    let mut gate = NoiseGate::new(148u8, 0);
    let mut sink = Recorder::new();
    gate.process_frames(&frames, &mut sink);
    assert_eq!(
        sink.events,
        vec![
            Event::Record([0u8]),
            Event::Record([128]),
            Event::EndOfTransmission,
            Event::Record([255]),
            Event::Record([130]),
            Event::EndOfTransmission,
        ]
    );
}

#[test]
fn step_reports_what_the_sink_is_owed() {
    let mut gate = NoiseGate::new(100i16, 1);
    assert_eq!(gate.step([1i16], true), None);
    assert!(gate.is_closed());
    assert_eq!(gate.step([2i16], false), Some(Event::Record([2i16])));
    assert_eq!(gate.step([3i16], true), Some(Event::Record([3i16])));
    assert_eq!(gate.step([4i16], true), Some(Event::Record([4i16])));
    assert!(gate.is_open());
    assert_eq!(gate.step([5i16], true), Some(Event::EndOfTransmission));
    assert!(gate.is_closed());
    assert_eq!(gate.step([6i16], true), None);
}

#[test]
fn threshold_and_release_time_can_be_changed_between_batches() {
    let mut gate = NoiseGate::new(100i16, 0);
    let mut sink = Counter { samples: 0, chunks: 0 };
    gate.process_frames(&mono(&[50]), &mut sink);
    assert!(gate.is_closed());
    gate.open_threshold = 50;
    gate.process_frames(&mono(&[50]), &mut sink);
    assert!(gate.is_open());
    assert_eq!(sink.samples, 1);
}

#[test]
fn bare_samples_drive_like_mono_frames() {
    let samples: Vec<i16> = vec![150, 150, 40, 40, 40, 40, 40, 40, 150];
    let mut gate = NoiseGate::new(100i16, 2);
    let mut sink = Recorder::new();
    gate.process_frames(&samples, &mut sink);
    assert_eq!(
        sink.events,
        vec![
            Event::Record(150i16),
            Event::Record(150),
            Event::Record(40),
            Event::Record(40),
            Event::Record(40),
            Event::EndOfTransmission,
            Event::Record(150),
        ]
    );
}
