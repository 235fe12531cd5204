use eva_daemon::ring::SampleRingBuffer;
use eva_daemon::vad::{PollOutcome, WakeWordDetector, COOLDOWN_MS, MIN_SPEECH_MS};
use eva_daemon::FRAME_SIZE;

/// Milliseconds covered by one 512-sample frame at 16 kHz.
const FRAME_MS: u64 = 32;

fn loud_frame() -> Vec<i16> {
    vec![20000i16; FRAME_SIZE]
}

fn silent_frame() -> Vec<i16> {
    vec![0i16; FRAME_SIZE]
}

#[test]
fn start_validates_not_already_running() {
    let mut det = WakeWordDetector::new();
    assert!(det.start());
    assert!(!det.start());
    det.stop();
    assert!(det.start());
}

#[test]
fn short_burst_never_emits() {
    // Energy above threshold sustained for 150 ms, under the 200 ms
    // minimum: no detection event.
    let mut det = WakeWordDetector::new();
    det.start();
    let frame = loud_frame();
    let mut now: u64 = 0;
    while now < 150 {
        assert!(!det.process_frame(&frame, now));
        now += FRAME_MS;
    }
    // The burst ends; the false start falls back without emitting.
    assert!(!det.process_frame(&silent_frame(), now));
}

#[test]
fn sustained_signal_emits_exactly_once() {
    // Energy above threshold sustained for 300 ms: exactly one event, and
    // none while the signal stays loud through the 2-second cooldown.
    let mut det = WakeWordDetector::new();
    det.start();
    let frame = loud_frame();
    let mut emitted_at: Vec<u64> = Vec::new();
    let mut now: u64 = 0;
    while now <= 300 {
        if det.process_frame(&frame, now) {
            emitted_at.push(now);
        }
        now += FRAME_MS;
    }
    assert_eq!(emitted_at, vec![224]);
    // Keep the signal loud through the whole cooldown window.
    let cooldown_end = 224 + COOLDOWN_MS;
    while now < cooldown_end {
        assert!(!det.process_frame(&frame, now));
        now += FRAME_MS;
    }
}

#[test]
fn detection_happens_near_the_minimum_duration_mark() {
    let mut det = WakeWordDetector::new();
    det.start();
    let frame = loud_frame();
    let mut now: u64 = 0;
    loop {
        if det.process_frame(&frame, now) {
            break;
        }
        now += FRAME_MS;
        assert!(now < 1000, "no detection within one second");
    }
    // The event fires at the first frame at or past the minimum duration.
    assert!(now >= MIN_SPEECH_MS);
    assert!(now < MIN_SPEECH_MS + FRAME_MS);
}

#[test]
fn no_events_after_stop() {
    let mut det = WakeWordDetector::new();
    det.start();
    det.stop();
    let frame = loud_frame();
    let mut now: u64 = 0;
    while now < 1000 {
        assert!(!det.process_frame(&frame, now));
        now += FRAME_MS;
    }
    let mut buf = SampleRingBuffer::with_capacity(FRAME_SIZE * 4);
    for _ in 0..FRAME_SIZE {
        buf.push_overwrite(20000);
    }
    assert_eq!(det.poll(&mut buf, 0), PollOutcome::Stopped);
    // A stopped detector reads nothing from the buffer.
    assert_eq!(buf.len(), FRAME_SIZE);
}

#[test]
fn poll_discards_short_frames_without_analysis() {
    let mut det = WakeWordDetector::new();
    det.start();
    let mut buf = SampleRingBuffer::with_capacity(FRAME_SIZE * 4);
    assert_eq!(det.poll(&mut buf, 0), PollOutcome::ShortFrame);
    for _ in 0..FRAME_SIZE - 1 {
        buf.push_overwrite(20000);
    }
    // One sample short of a frame: the read is discarded, nothing analyzed.
    assert_eq!(det.poll(&mut buf, 0), PollOutcome::ShortFrame);
    assert_eq!(buf.len(), 0);
}

#[test]
fn silence_for_five_seconds_emits_nothing() {
    // Five simulated seconds of silence at 16,000 samples per second:
    // zero detection events.
    let mut det = WakeWordDetector::new();
    det.start();
    let mut buf = SampleRingBuffer::new();
    let mut now: u64 = 0;
    while now < 5000 {
        for _ in 0..FRAME_SIZE {
            buf.push_overwrite(0);
        }
        let outcome = det.poll(&mut buf, now);
        assert_eq!(outcome, PollOutcome::NoEvent);
        now += FRAME_MS;
    }
}

#[test]
fn sustained_tone_emits_once_through_poll() {
    // A sustained tone above threshold for one second: exactly one event,
    // at the first frame at or past the 200 ms mark of sustained energy.
    let mut det = WakeWordDetector::new();
    det.start();
    let mut buf = SampleRingBuffer::new();
    let mut detections: Vec<u64> = Vec::new();
    let mut now: u64 = 0;
    while now < 1000 {
        for _ in 0..FRAME_SIZE {
            buf.push_overwrite(20000);
        }
        match det.poll(&mut buf, now) {
            PollOutcome::Detected => detections.push(now),
            PollOutcome::NoEvent | PollOutcome::CoolingDown => {}
            other => panic!("unexpected outcome {:?}", other),
        }
        now += FRAME_MS;
    }
    assert_eq!(detections, vec![224]);
}

#[test]
fn poll_honors_the_cooldown_window() {
    let mut det = WakeWordDetector::new();
    det.start();
    let mut buf = SampleRingBuffer::new();
    let mut now: u64 = 0;
    // Drive to the first detection.
    loop {
        for _ in 0..FRAME_SIZE {
            buf.push_overwrite(20000);
        }
        if det.poll(&mut buf, now) == PollOutcome::Detected {
            break;
        }
        now += FRAME_MS;
    }
    let detected_at = now;
    // While the cooldown window is open, polls read nothing.
    now += FRAME_MS;
    while now < detected_at + COOLDOWN_MS {
        let len_before = buf.len();
        assert_eq!(det.poll(&mut buf, now), PollOutcome::CoolingDown);
        assert_eq!(buf.len(), len_before);
        now += FRAME_MS;
    }
    // Once it expires, frames are analyzed again.
    for _ in 0..FRAME_SIZE {
        buf.push_overwrite(20000);
    }
    assert_eq!(
        det.poll(&mut buf, detected_at + COOLDOWN_MS),
        PollOutcome::NoEvent
    );
}
