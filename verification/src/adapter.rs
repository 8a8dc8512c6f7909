//! The adapter's decode state machine: construction-time validation, the
//! per-packet commit of externally decoded samples into the planar output
//! buffer, and the read-only queries the host framework makes.

use vstd::prelude::*;

use crate::buffer::PlanarBuffer;
use crate::errors::AdapterError;
use crate::errors::FinalizeResult;
use crate::params::validate_channel_count;
use crate::params::StreamParameters;
use crate::MAX_CHANNELS;
use crate::MAX_FRAMES_PER_PACKET;

verus! {

/// The read-only snapshot state of the adapter: the parameters captured at
/// construction and the most recently committed planar output. The mutable
/// decode-path state (the external decoder handle and the interleaved
/// scratch buffer it writes) is deliberately not part of this type, so that
/// shared read access can never reach the external decoder.
pub struct OpusAdapter {
    params: StreamParameters,
    channels: usize,
    output: PlanarBuffer,
}

impl OpusAdapter {
    /// Internal invariant, established by construction and preserved by
    /// every operation.
    pub closed spec fn wf(&self) -> bool {
        &&& 1 <= self.channels <= MAX_CHANNELS
        &&& self.params.channels_supported()
        &&& self.params.channel_count_spec() == self.channels
        &&& self.output.wf()
        &&& self@.len() == self.channels
    }

    /// The captured stream parameters.
    pub closed spec fn params_spec(&self) -> StreamParameters {
        self.params
    }

    /// The negotiated channel count (1 or 2).
    pub closed spec fn channels_spec(&self) -> usize {
        self.channels
    }
}

impl View for OpusAdapter {
    type V = Seq<Seq<i16>>;

    /// The committed planar output, one sequence of samples per channel.
    closed spec fn view(&self) -> Seq<Seq<i16>> {
        self.output@
    }
}

impl OpusAdapter {
    /// Construct the adapter: validate the declared channel layout and set
    /// up an empty planar output buffer sized for that layout. On an
    /// unsupported layout this fails before any external resource would be
    /// allocated; the caller creates the external decoder only afterwards,
    /// from `channel_count` and `decoder_sample_rate`.
    pub fn try_new(params: &StreamParameters) -> (r: Result<OpusAdapter, AdapterError>)
        ensures
            params.channels_supported() ==> (r matches Ok(a)
                && a.wf()
                && a.params_spec() == *params
                && a.channels_spec() == params.channel_count_spec()
                && a@.len() == params.channel_count_spec()
                && forall|c: int| 0 <= c < a@.len() ==> #[trigger] a@[c].len() == 0),
            !params.channels_supported() ==> r == Err::<OpusAdapter, AdapterError>(
                AdapterError::UnsupportedConfiguration,
            ),
    {
        let channels_u32 = match validate_channel_count(params) {
            Ok(c) => c,
            Err(e) => {
                return Err(e);
            },
        };
        let channels: usize = channels_u32 as usize;
        proof {
            // The negotiated layout never needs more scratch samples than
            // the worst case the scratch buffer is sized for.
            assert(channels * MAX_FRAMES_PER_PACKET <= crate::SCRATCH_SAMPLES);
        }
        let output = PlanarBuffer::new(channels);
        Ok(OpusAdapter { params: *params, channels, output })
    }

    /// The negotiated channel count, for creating the external decoder and
    /// for sizing checks.
    pub fn channel_count(&self) -> (r: usize)
        requires
            self.wf(),
        ensures
            r == self.channels_spec(),
            1 <= r <= MAX_CHANNELS,
    {
        self.channels
    }

    /// The rate the external decoder must be created with: the declared
    /// rate, else the codec's reference rate.
    pub fn decoder_sample_rate(&self) -> (r: u32)
        ensures
            r == self.params_spec().resolved_sample_rate_spec(),
    {
        self.params.resolved_sample_rate()
    }

    /// The stream parameters captured at construction, verbatim. Touches no
    /// decode-path state.
    pub fn codec_params(&self) -> (r: &StreamParameters)
        ensures
            *r == self.params_spec(),
    {
        &self.params
    }

    /// Commit the outcome of one external decode call. The caller feeds the
    /// packet to the external decoder, which writes interleaved samples into
    /// `scratch`; `decoded` is `Some(n)` with the reported frame count on
    /// success and `None` when the decoder rejected the packet. On success
    /// the planar output is cleared and refilled with exactly `n` frames,
    /// deinterleaved from `scratch`; on rejection the adapter, its output
    /// included, is left exactly as it was, so later packets are not
    /// poisoned.
    pub fn apply_decode(&mut self, scratch: &Vec<i16>, decoded: Option<usize>) -> (r: Result<
        usize,
        AdapterError,
    >)
        requires
            old(self).wf(),
            decoded matches Some(n) ==> n <= MAX_FRAMES_PER_PACKET && n * old(self).channels_spec() <= scratch.len(),
        ensures
            final(self).wf(),
            final(self).params_spec() == old(self).params_spec(),
            final(self).channels_spec() == old(self).channels_spec(),
            final(self)@.len() == old(self)@.len(),
            match decoded {
                Some(n) => {
                    &&& r == Ok::<usize, AdapterError>(n)
                    &&& forall|c: int| 0 <= c < final(self)@.len() ==> #[trigger] final(self)@[c].len() == n
                    &&& forall|c: int, s: int|
                        0 <= c < final(self)@.len() && 0 <= s < n ==> final(self)@[c][s]
                            == scratch@[s * final(self)@.len() + c]
                },
                None => {
                    &&& r == Err::<usize, AdapterError>(AdapterError::DecodeFailure)
                    &&& final(self)@ == old(self)@
                },
            },
    {
        match decoded {
            Some(frames) => {
                self.output.materialize(scratch, frames);
                Ok(frames)
            },
            None => Err(AdapterError::DecodeFailure),
        }
    }

    /// Acknowledge a reset of the external decoder. The caller instructs the
    /// external decoder to clear its internal prediction state (when seeking
    /// or resynchronizing) and hands in whether that succeeded; a failure is
    /// propagated as `ResetFailure`. Either way, nothing of the adapter's
    /// state changes: the captured parameters and the contents of the last
    /// decoded buffer stay exactly as they were.
    pub fn reset(&mut self, external_ok: bool) -> (r: Result<(), AdapterError>)
        ensures
            *final(self) == *old(self),
            external_ok ==> r == Ok::<(), AdapterError>(()),
            !external_ok ==> r == Err::<(), AdapterError>(AdapterError::ResetFailure),
    {
        if external_ok {
            Ok(())
        } else {
            Err(AdapterError::ResetFailure)
        }
    }

    /// Report whether the decoded output could be verified bit-exact: this
    /// codec path has no confirmation mechanism, so the status is always
    /// "unknown", whatever was decoded before.
    pub fn finalize(&self) -> (r: FinalizeResult)
        ensures
            r.verify_ok == None::<bool>,
    {
        FinalizeResult { verify_ok: None }
    }

    /// A read-only view of the most recently committed planar output; every
    /// plane is empty before the first decode. Touches no decode-path state,
    /// and its result is a function of the adapter's state alone.
    pub fn last_decoded(&self) -> (r: &PlanarBuffer)
        ensures
            r@ == self@,
            self.wf() ==> r.wf(),
    {
        &self.output
    }
}

/// Reading the decoded output is idempotent: any two reads of the same
/// adapter state, each returning what `last_decoded` promises, see identical
/// content.
pub proof fn lemma_last_decoded_idempotent(
    a: &OpusAdapter,
    first: Seq<Seq<i16>>,
    second: Seq<Seq<i16>>,
)
    requires
        first == a@,
        second == a@,
    ensures
        first == second,
{
}

} // verus!
