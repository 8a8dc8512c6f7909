//! The two buffers of the decode path. The interleaved scratch buffer holds
//! the external codec's raw output; the planar output buffer holds the same
//! samples rearranged into one contiguous plane per channel, the layout the
//! host framework consumes.

use vstd::prelude::*;

use crate::MAX_CHANNELS;
use crate::MAX_FRAMES_PER_PACKET;
use crate::SCRATCH_SAMPLES;

verus! {

/// A fresh interleaved scratch buffer, zero-filled and sized to the codec's
/// documented worst case (`SCRATCH_SAMPLES`), regardless of the negotiated
/// channel count. It is reused (overwritten) by every decode call and never
/// resized.
pub fn new_scratch_buffer() -> (r: Vec<i16>)
    ensures
        r@.len() == SCRATCH_SAMPLES,
        forall|i: int| 0 <= i < r@.len() ==> r@[i] == 0i16,
{
    let mut buf: Vec<i16> = Vec::new();
    let mut i: usize = 0;
    while i < SCRATCH_SAMPLES
        invariant
            i <= SCRATCH_SAMPLES,
            buf@.len() == i,
            forall|j: int| 0 <= j < buf@.len() ==> buf@[j] == 0i16,
        decreases SCRATCH_SAMPLES - i,
    {
        buf.push(0i16);
        i += 1;
    }
    buf
}

/// An interleaved position stays inside the region the first `frames`
/// frames occupy.
proof fn lemma_interleaved_index_in_bounds(s: int, c: int, frames: int, channels: int)
    requires
        0 <= s < frames,
        0 <= c < channels,
    ensures
        s * channels + c < frames * channels,
{
    assert(s * channels + c < frames * channels) by (nonlinear_arith)
        requires
            0 <= s < frames,
            0 <= c < channels,
    ;
}

/// The framework-native output buffer: one contiguous region ("plane") per
/// channel. Between decode calls it holds the most recently decoded audio;
/// before the first decode every plane is empty, a valid state.
pub struct PlanarBuffer {
    planes: Vec<Vec<i16>>,
}

impl View for PlanarBuffer {
    type V = Seq<Seq<i16>>;

    closed spec fn view(&self) -> Seq<Seq<i16>> {
        self.planes@.map_values(|p: Vec<i16>| p@)
    }
}

impl PlanarBuffer {
    /// Well-formedness: one plane per supported channel, all planes of equal
    /// length, and no plane longer than one packet's worst-case frame count.
    pub open spec fn wf(&self) -> bool {
        &&& 1 <= self@.len() <= MAX_CHANNELS
        &&& forall|c: int| 0 <= c < self@.len() ==> #[trigger] self@[c].len() == self@[0].len()
        &&& self@[0].len() <= MAX_FRAMES_PER_PACKET
    }

    /// Frames currently committed: the common length of every plane.
    pub open spec fn frames_spec(&self) -> int {
        self@[0].len() as int
    }

    /// An empty planar buffer with one plane per channel.
    pub fn new(channels: usize) -> (r: PlanarBuffer)
        requires
            1 <= channels <= MAX_CHANNELS,
        ensures
            r.wf(),
            r@.len() == channels,
            forall|c: int| 0 <= c < r@.len() ==> #[trigger] r@[c].len() == 0,
    {
        let mut planes: Vec<Vec<i16>> = Vec::new();
        let mut c: usize = 0;
        while c < channels
            invariant
                c <= channels,
                planes@.len() == c,
                forall|j: int| 0 <= j < planes@.len() ==> #[trigger] planes@[j]@.len() == 0,
            decreases channels - c,
        {
            planes.push(Vec::new());
            c += 1;
        }
        PlanarBuffer { planes }
    }

    /// Number of planes (one per channel).
    pub fn num_planes(&self) -> (r: usize)
        ensures
            r == self@.len(),
    {
        self.planes.len()
    }

    /// Frames currently committed to every plane.
    pub fn frames(&self) -> (r: usize)
        requires
            self.wf(),
        ensures
            r == self.frames_spec(),
    {
        self.planes[0].len()
    }

    /// Convert the scratch buffer's first `frames` interleaved frames into
    /// this buffer's planes. In order: every plane's logical length is reset
    /// to zero, then exactly `frames` samples are committed to each plane,
    /// with `plane[c][s]` taken from interleaved position
    /// `s * channels + c` of the scratch buffer. A pure data-layout
    /// transform: no resampling, scaling, or type conversion.
    pub fn materialize(&mut self, scratch: &Vec<i16>, frames: usize)
        requires
            old(self).wf(),
            frames <= MAX_FRAMES_PER_PACKET,
            frames * old(self)@.len() <= scratch.len(),
        ensures
            final(self).wf(),
            final(self)@.len() == old(self)@.len(),
            forall|c: int| 0 <= c < final(self)@.len() ==> #[trigger] final(self)@[c].len()
                == frames,
            forall|c: int, s: int|
                0 <= c < final(self)@.len() && 0 <= s < frames
                    ==> final(self)@[c][s] == scratch@[s * final(self)@.len() + c],
    {
        let channels = self.planes.len();
        let mut c: usize = 0;
        while c < channels
            invariant
                channels == old(self)@.len(),
                1 <= channels <= MAX_CHANNELS,
                frames <= MAX_FRAMES_PER_PACKET,
                frames * channels <= scratch.len(),
                scratch@.len() <= usize::MAX,
                c <= channels,
                self@.len() == channels,
                forall|j: int| 0 <= j < c ==> #[trigger] self@[j].len() == frames,
                forall|j: int, s: int|
                    0 <= j < c && 0 <= s < frames ==> self@[j][s] == scratch@[s * channels + j],
            decreases channels - c,
        {
            let ghost planes_at_entry = self.planes@;
            let ghost view_at_entry = self@;
            let mut plane = self.planes.remove(c);
            plane.clear();
            let mut s: usize = 0;
            while s < frames
                invariant
                    1 <= channels <= MAX_CHANNELS,
                    c < channels,
                    frames * channels <= scratch.len(),
                    scratch@.len() <= usize::MAX,
                    s <= frames,
                    plane@.len() == s,
                    forall|k: int| 0 <= k < s ==> plane@[k] == scratch@[k * channels + c],
                decreases frames - s,
            {
                proof {
                    lemma_interleaved_index_in_bounds(
                        s as int,
                        c as int,
                        frames as int,
                        channels as int,
                    );
                }
                plane.push(scratch[s * channels + c]);
                s += 1;
            }
            let ghost plane_done = plane;
            self.planes.insert(c, plane);
            proof {
                assert(self.planes@ =~= planes_at_entry.update(c as int, plane_done));
                assert(plane_done@.len() == frames);
                assert forall|j: int| 0 <= j < c + 1 implies (#[trigger] self@[j]) == (if j == c {
                    plane_done@
                } else {
                    view_at_entry[j]
                }) by {
                    assert(self@[j] == self.planes@[j]@);
                    assert(view_at_entry[j] == planes_at_entry[j]@);
                }
            }
            c += 1;
        }
        proof {
            assert(forall|j: int| 0 <= j < self@.len() ==> #[trigger] self@[j].len()
                == self@[0].len());
        }
    }

    /// Read-only access to one channel's plane.
    pub fn plane(&self, c: usize) -> (r: &Vec<i16>)
        requires
            c < self@.len(),
        ensures
            r@ == self@[c as int],
    {
        &self.planes[c]
    }
}

} // verus!
