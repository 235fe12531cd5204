//! Real-time audio ingestion and voice-activity detection core.
//!
//! The library models the audio pipeline of a local assistant daemon: a
//! bounded overwrite-oldest ring buffer of mono 16-bit PCM samples, a frame
//! energy measure, and the speech/cooldown state machine that turns sustained
//! energy into discrete wake events.

use vstd::prelude::*;

pub mod energy;
pub mod ring;
pub mod tools;
pub mod vad;

verus! {

/// Sample rate of the capture stream, in samples per second.
pub const SAMPLE_RATE: u32 = 16000;

/// Number of samples analyzed as one unit (about 32 ms at 16 kHz).
pub const FRAME_SIZE: usize = 512;

/// Capacity of the capture ring buffer (about 2 seconds of audio).
pub const BUFFER_CAPACITY: usize = 512 * 60;

} // verus!
