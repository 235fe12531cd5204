//! Speech/cooldown state machine for voice-activity detection.
//!
//! A detection loop repeatedly pulls fixed-size frames from the capture
//! buffer, classifies each frame by energy, and drives a small state
//! machine: sustained energy for a minimum duration confirms a speech onset
//! and emits one detection event, followed by a cooldown window during
//! which no frames are analyzed. The loop's per-iteration decision logic is
//! here and fully verified; the thread, clock, and sleeps that drive it are
//! the caller's.

use vstd::prelude::*;

verus! {

use crate::FRAME_SIZE;
use crate::energy::frame_above_threshold;
use crate::energy::frame_is_speech;
use crate::ring::SampleRingBuffer;

/// Minimum duration of sustained energy before a speech onset is
/// confirmed, in milliseconds.
pub const MIN_SPEECH_MS: u64 = 200;

/// Enforced quiet period after a confirmed detection, in milliseconds.
pub const COOLDOWN_MS: u64 = 2000;

/// State of the detector between frames.
#[derive(Clone, Copy, Debug, PartialEq, Eq, Structural)]
pub enum SpeechState {
    /// No speech candidate in progress.
    Idle,
    /// Energy has been above threshold since `since_ms`, not yet long
    /// enough to confirm.
    Speaking { since_ms: u64 },
    /// A detection was emitted; no frame is analyzed before `until_ms`.
    Cooldown { until_ms: u64 },
}

/// One observation handed to the state machine: whether the frame's energy
/// was above threshold, and the time it was analyzed, in milliseconds.
pub type FrameObs = (bool, u64);

/// Whether the state machine confirms a speech onset (emits one detection
/// event) on a frame observed at `now_ms` with classification `above`.
pub open spec fn vad_emits(st: SpeechState, above: bool, now_ms: u64) -> bool {
    match st {
        SpeechState::Speaking { since_ms } => above && now_ms - since_ms >= MIN_SPEECH_MS,
        _ => false,
    }
}

/// The state after analyzing a frame at `now_ms` with classification
/// `above`. An expired cooldown behaves exactly like `Idle`; a false start
/// (energy dropping before the minimum duration) falls back to `Idle`
/// without emitting.
pub open spec fn vad_next(st: SpeechState, above: bool, now_ms: u64) -> SpeechState {
    match st {
        SpeechState::Idle => if above {
            SpeechState::Speaking { since_ms: now_ms }
        } else {
            SpeechState::Idle
        },
        SpeechState::Speaking { since_ms } => if !above {
            SpeechState::Idle
        } else if now_ms - since_ms >= MIN_SPEECH_MS {
            SpeechState::Cooldown { until_ms: (now_ms + COOLDOWN_MS) as u64 }
        } else {
            SpeechState::Speaking { since_ms }
        },
        SpeechState::Cooldown { until_ms } => if now_ms < until_ms {
            SpeechState::Cooldown { until_ms }
        } else if above {
            SpeechState::Speaking { since_ms: now_ms }
        } else {
            SpeechState::Idle
        },
    }
}

/// Whether a cooldown window is still open at `now_ms`; while it is, the
/// detection loop analyzes no frames.
pub open spec fn cooldown_active(st: SpeechState, now_ms: u64) -> bool {
    match st {
        SpeechState::Cooldown { until_ms } => now_ms < until_ms,
        _ => false,
    }
}

/// Outcome of one iteration of the detection loop.
#[derive(Clone, Copy, Debug, PartialEq, Eq, Structural)]
pub enum PollOutcome {
    /// The running flag is cleared; nothing was read or analyzed.
    Stopped,
    /// A cooldown window is still open; nothing was read or analyzed.
    CoolingDown,
    /// Fewer than a full frame of samples was buffered; the short read was
    /// discarded without analysis and the caller should retry after a
    /// short sleep.
    ShortFrame,
    /// A full frame was analyzed without confirming a speech onset.
    NoEvent,
    /// A full frame was analyzed and a speech onset was confirmed: exactly
    /// one detection event is due.
    Detected,
}

/// The voice-activity detector: the running flag and the speech/cooldown
/// state driven by frame energy. One value is owned by the detection loop;
/// events it emits reach other threads through whatever channel the caller
/// wires up.
pub struct WakeWordDetector {
    state: SpeechState,
    running: bool,
}

impl WakeWordDetector {
    /// The state the machine is in between frames.
    pub closed spec fn state(&self) -> SpeechState {
        self.state
    }

    /// Whether the detection loop is asked to keep going.
    pub closed spec fn is_running(&self) -> bool {
        self.running
    }

    /// A detector that is not yet running, with no speech candidate.
    pub fn new() -> (d: Self)
        ensures
            d.state() == SpeechState::Idle,
            !d.is_running(),
    {
        WakeWordDetector { state: SpeechState::Idle, running: false }
    }

    /// Validates that the detector is not already running and flips the
    /// running flag, resetting the state machine; the caller then spawns
    /// the detection loop. Returns whether the detector was started.
    pub fn start(&mut self) -> (started: bool)
        ensures
            started == !old(self).is_running(),
            final(self).is_running(),
            started ==> final(self).state() == SpeechState::Idle,
            !started ==> final(self).state() == old(self).state(),
    {
        if self.running {
            false
        } else {
            self.running = true;
            self.state = SpeechState::Idle;
            true
        }
    }

    /// Whether the detection loop is asked to keep going; observed once per
    /// loop iteration for cooperative cancellation.
    pub fn running(&self) -> (r: bool)
        ensures
            r == self.is_running(),
    {
        self.running
    }

    /// Clears the running flag. This is a request, not an immediate halt:
    /// the detection loop observes the flag once per iteration and exits
    /// after its current sleep or frame wait.
    pub fn stop(&mut self)
        ensures
            !final(self).is_running(),
            final(self).state() == old(self).state(),
    {
        self.running = false;
    }

    /// One transition of the state machine on an already classified frame.
    fn step(&mut self, above: bool, now_ms: u64) -> (emitted: bool)
        requires
            old(self).is_running(),
            now_ms + COOLDOWN_MS <= u64::MAX,
        ensures
            final(self).is_running(),
            emitted == vad_emits(old(self).state(), above, now_ms),
            final(self).state() == vad_next(old(self).state(), above, now_ms),
    {
        match self.state {
            SpeechState::Idle => {
                if above {
                    self.state = SpeechState::Speaking { since_ms: now_ms };
                }
                false
            },
            SpeechState::Speaking { since_ms } => {
                if !above {
                    self.state = SpeechState::Idle;
                    false
                } else if now_ms >= since_ms && now_ms - since_ms >= MIN_SPEECH_MS {
                    self.state = SpeechState::Cooldown { until_ms: now_ms + COOLDOWN_MS };
                    true
                } else {
                    false
                }
            },
            SpeechState::Cooldown { until_ms } => {
                if now_ms < until_ms {
                    false
                } else if above {
                    self.state = SpeechState::Speaking { since_ms: now_ms };
                    false
                } else {
                    self.state = SpeechState::Idle;
                    false
                }
            },
        }
    }

    /// Analyzes one full frame observed at `now_ms`. While the detector is
    /// stopped nothing changes and no event is ever emitted; while it runs,
    /// the result is exactly one state-machine transition on the frame's
    /// energy classification.
    pub fn process_frame(&mut self, frame: &[i16], now_ms: u64) -> (emitted: bool)
        requires
            frame@.len() == FRAME_SIZE,
            now_ms + COOLDOWN_MS <= u64::MAX,
        ensures
            final(self).is_running() == old(self).is_running(),
            !old(self).is_running() ==> !emitted && final(self).state() == old(self).state(),
            old(self).is_running() ==> {
                &&& emitted == vad_emits(old(self).state(), frame_above_threshold(frame@), now_ms)
                &&& final(self).state() == vad_next(
                    old(self).state(),
                    frame_above_threshold(frame@),
                    now_ms,
                )
            },
    {
        if !self.running {
            return false;
        }
        let above = frame_is_speech(frame);
        self.step(above, now_ms)
    }

    /// One iteration of the detection loop: check the running flag, honor
    /// an open cooldown window, pull up to one frame from the buffer, and
    /// analyze it only if it is full — a short read is discarded and
    /// retried later rather than padded or analyzed.
    pub fn poll(&mut self, buf: &mut SampleRingBuffer, now_ms: u64) -> (outcome: PollOutcome)
        requires
            old(buf).wf(),
            now_ms + COOLDOWN_MS <= u64::MAX,
        ensures
            final(buf).wf(),
            final(buf).cap() == old(buf).cap(),
            final(self).is_running() == old(self).is_running(),
            !old(self).is_running() ==> {
                &&& outcome == PollOutcome::Stopped
                &&& final(self).state() == old(self).state()
                &&& final(buf)@ == old(buf)@
            },
            old(self).is_running() && cooldown_active(old(self).state(), now_ms) ==> {
                &&& outcome == PollOutcome::CoolingDown
                &&& final(self).state() == old(self).state()
                &&& final(buf)@ == old(buf)@
            },
            old(self).is_running() && !cooldown_active(old(self).state(), now_ms) ==> {
                &&& old(buf)@.len() < FRAME_SIZE ==> {
                    &&& outcome == PollOutcome::ShortFrame
                    &&& final(self).state() == old(self).state()
                    &&& final(buf)@ == Seq::<i16>::empty()
                }
                &&& old(buf)@.len() >= FRAME_SIZE ==> {
                    let above = frame_above_threshold(old(buf)@.take(FRAME_SIZE as int));
                    &&& final(buf)@ == old(buf)@.skip(FRAME_SIZE as int)
                    &&& final(self).state() == vad_next(old(self).state(), above, now_ms)
                    &&& outcome == (if vad_emits(old(self).state(), above, now_ms) {
                        PollOutcome::Detected
                    } else {
                        PollOutcome::NoEvent
                    })
                }
            },
    {
        if !self.running {
            return PollOutcome::Stopped;
        }
        if let SpeechState::Cooldown { until_ms } = self.state {
            if now_ms < until_ms {
                return PollOutcome::CoolingDown;
            }
        }
        let samples = buf.pop_up_to(FRAME_SIZE);
        if samples.len() < FRAME_SIZE {
            return PollOutcome::ShortFrame;
        }
        proof {
            assert(old(buf)@.skip(FRAME_SIZE as int) =~= buf@);
        }
        let above = frame_is_speech(samples.as_slice());
        let emitted = self.step(above, now_ms);
        if emitted {
            PollOutcome::Detected
        } else {
            PollOutcome::NoEvent
        }
    }
}

/// The state after a whole run of frame observations, oldest first.
pub open spec fn run_state(st: SpeechState, obs: Seq<FrameObs>) -> SpeechState
    decreases obs.len(),
{
    if obs.len() == 0 {
        st
    } else {
        run_state(vad_next(st, obs.first().0, obs.first().1), obs.drop_first())
    }
}

/// How many detection events a whole run of frame observations emits.
pub open spec fn count_emits(st: SpeechState, obs: Seq<FrameObs>) -> int
    decreases obs.len(),
{
    if obs.len() == 0 {
        0
    } else {
        (if vad_emits(st, obs.first().0, obs.first().1) {
            1int
        } else {
            0int
        }) + count_emits(vad_next(st, obs.first().0, obs.first().1), obs.drop_first())
    }
}

/// A run in which every frame is above threshold, at the given times.
pub open spec fn above_at(times: Seq<u64>) -> Seq<FrameObs> {
    times.map_values(|t: u64| (true, t))
}

/// Runs compose: a run over a concatenation is the run over the first part
/// followed by the run over the second from where the first left off, and
/// the emitted events add up.
pub proof fn lemma_run_split(st: SpeechState, a: Seq<FrameObs>, b: Seq<FrameObs>)
    ensures
        run_state(st, a + b) == run_state(run_state(st, a), b),
        count_emits(st, a + b) == count_emits(st, a) + count_emits(run_state(st, a), b),
    decreases a.len(),
{
    if a.len() == 0 {
        assert(a + b =~= b);
    } else {
        assert((a + b).first() == a.first());
        assert((a + b).drop_first() =~= a.drop_first() + b);
        lemma_run_split(vad_next(st, a.first().0, a.first().1), a.drop_first(), b);
    }
}

/// While every frame is above threshold but still within the minimum
/// speech window, the machine keeps the original start time and emits
/// nothing.
proof fn lemma_speaking_within_min(t0: u64, obs: Seq<FrameObs>)
    requires
        forall|i: int| 0 <= i < obs.len() ==> (#[trigger] obs[i]).0 && obs[i].1 < t0 + MIN_SPEECH_MS,
    ensures
        run_state(SpeechState::Speaking { since_ms: t0 }, obs) == (SpeechState::Speaking {
            since_ms: t0,
        }),
        count_emits(SpeechState::Speaking { since_ms: t0 }, obs) == 0,
    decreases obs.len(),
{
    if obs.len() > 0 {
        lemma_speaking_within_min(t0, obs.drop_first());
    }
}

/// While a cooldown window is open, frames change nothing and emit
/// nothing, whatever their energy.
proof fn lemma_cooldown_holds(until_ms: u64, obs: Seq<FrameObs>)
    requires
        forall|i: int| 0 <= i < obs.len() ==> (#[trigger] obs[i]).1 < until_ms,
    ensures
        run_state(SpeechState::Cooldown { until_ms }, obs) == (SpeechState::Cooldown { until_ms }),
        count_emits(SpeechState::Cooldown { until_ms }, obs) == 0,
    decreases obs.len(),
{
    if obs.len() > 0 {
        lemma_cooldown_holds(until_ms, obs.drop_first());
    }
}

/// Debounce law: a signal above threshold in every frame but sustained for
/// less than the minimum speech duration never emits a detection event.
pub proof fn lemma_short_burst_never_emits(times: Seq<u64>)
    requires
        0 < times.len(),
        forall|i: int| 0 <= i < times.len() ==> times[0] <= #[trigger] times[i] < times[0]
            + MIN_SPEECH_MS,
    ensures
        count_emits(SpeechState::Idle, above_at(times)) == 0,
{
    let obs = above_at(times);
    assert(obs.first() == (true, times[0]));
    assert forall|i: int| 0 <= i < obs.drop_first().len() implies (#[trigger] obs.drop_first()[i]).0
        && obs.drop_first()[i].1 < times[0] + MIN_SPEECH_MS by {
        assert(obs.drop_first()[i] == obs[i + 1]);
        assert(obs[i + 1] == (true, times[i + 1]));
    }
    lemma_speaking_within_min(times[0], obs.drop_first());
}

/// Single-shot law: a signal above threshold in every frame, sustained
/// past the minimum speech duration, emits exactly one detection event;
/// no further event fires from frames that stay above threshold through
/// the cooldown window that follows the emission. `e` is the first frame
/// at or past the minimum duration — the one that emits.
pub proof fn lemma_sustained_emits_once(times: Seq<u64>, e: int)
    requires
        0 <= e < times.len(),
        times[e] >= times[0] + MIN_SPEECH_MS,
        times[e] + COOLDOWN_MS <= u64::MAX,
        forall|i: int| 0 <= i < e ==> times[0] <= #[trigger] times[i] < times[0] + MIN_SPEECH_MS,
        forall|i: int| e < i < times.len() ==> #[trigger] times[i] < times[e] + COOLDOWN_MS,
    ensures
        count_emits(SpeechState::Idle, above_at(times)) == 1,
{
    let obs = above_at(times);
    let head = obs.subrange(0, e);
    let tail = obs.subrange(e, times.len() as int);
    assert(obs =~= head + tail);
    lemma_run_split(SpeechState::Idle, head, tail);

    // Phase one: up to (not including) frame `e`, the machine reaches and
    // keeps Speaking at the first frame's time, emitting nothing.
    assert(0 < e) by {
        assert(times[0] < times[0] + MIN_SPEECH_MS);
    }
    assert(head.first() == (true, times[0]));
    assert forall|i: int| 0 <= i < head.drop_first().len() implies (#[trigger] head.drop_first()[
        i]).0 && head.drop_first()[i].1 < times[0] + MIN_SPEECH_MS by {
        assert(head.drop_first()[i] == obs[i + 1]);
        assert(obs[i + 1] == (true, times[i + 1]));
    }
    lemma_speaking_within_min(times[0], head.drop_first());
    let speaking = SpeechState::Speaking { since_ms: times[0] };
    assert(run_state(SpeechState::Idle, head) == speaking);
    assert(count_emits(SpeechState::Idle, head) == 0);

    // Frame `e` confirms the onset and opens the cooldown window.
    assert(tail.first() == (true, times[e]));
    assert(vad_emits(speaking, true, times[e]));
    let until_ms = (times[e] + COOLDOWN_MS) as u64;
    assert(vad_next(speaking, true, times[e]) == SpeechState::Cooldown { until_ms });

    // Phase two: every later frame falls inside the cooldown window.
    assert forall|i: int| 0 <= i < tail.drop_first().len() implies (#[trigger] tail.drop_first()[
        i]).1 < until_ms by {
        assert(tail.drop_first()[i] == obs[e + 1 + i]);
        assert(obs[e + 1 + i] == (true, times[e + 1 + i]));
    }
    lemma_cooldown_holds(until_ms, tail.drop_first());
    assert(count_emits(speaking, tail) == 1);
}

} // verus!
