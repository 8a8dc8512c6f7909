//! Adapter core for driving a stateful, frame-based audio codec on behalf of
//! a streaming-media framework: it validates stream parameters, tracks the
//! decode state machine, and deinterleaves each decoded packet's samples into
//! a reusable planar output buffer.

use vstd::prelude::*;

pub mod adapter;
pub mod buffer;
pub mod errors;
pub mod params;

verus! {

/// Most frames the external codec can produce from one packet:
/// 120 ms of audio at the 48 kHz reference rate.
pub const MAX_FRAMES_PER_PACKET: usize = 5760;

/// Largest channel count the adapter supports (stereo).
pub const MAX_CHANNELS: usize = 2;

/// Samples the interleaved scratch buffer must hold: the worst-case frame
/// count times the worst-case channel count, as the codec's minimum-buffer
/// contract demands.
pub const SCRATCH_SAMPLES: usize = 5760 * 2;

/// Rate handed to the external decoder when the stream declares none:
/// the codec's reference rate.
pub const DEFAULT_SAMPLE_RATE: u32 = 48000;

} // verus!
