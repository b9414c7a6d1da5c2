//! The capture buffer that a recording fills.
//!
//! The capture task appends each block the input stream delivers; the
//! controlling side stops the capture once the clip's time is up and then
//! takes the samples, once, to write them out. The caller serialises access
//! (one lock around the buffer), so an append is never split by a stop or a
//! take: a block that was being appended when the stop came is kept whole.
use vstd::prelude::*;

verus! {

/// Samples captured so far, whether capture still runs, and whether the
/// samples have been handed out.
pub struct CaptureBuffer {
    samples: Vec<i16>,
    recording: bool,
    taken: bool,
}

/// The abstract state of a capture buffer.
pub struct CaptureView {
    pub samples: Seq<i16>,
    pub recording: bool,
    pub taken: bool,
}

impl View for CaptureBuffer {
    type V = CaptureView;

    closed spec fn view(&self) -> CaptureView {
        CaptureView { samples: self.samples@, recording: self.recording, taken: self.taken }
    }
}

impl CaptureBuffer {
    /// An empty buffer with capture running.
    pub fn new() -> (r: CaptureBuffer)
        ensures
            r@ == (CaptureView { samples: Seq::empty(), recording: true, taken: false }),
    {
        CaptureBuffer { samples: Vec::new(), recording: true, taken: false }
    }

    /// Appends a delivered block while capture runs; once it has stopped the
    /// block is dropped. Returns whether the block was kept.
    pub fn append_block(&mut self, block: &[i16]) -> (kept: bool)
        ensures
            kept == old(self)@.recording,
            kept ==> final(self)@ == (CaptureView { samples: old(self)@.samples + block@, ..old(self)@ }),
            !kept ==> final(self)@ == old(self)@,
    {
        if !self.recording {
            return false;
        }
        let mut i: usize = 0;
        while i < block.len()
            invariant
                0 <= i <= block@.len(),
                self.recording == old(self)@.recording,
                self.taken == old(self)@.taken,
                self.samples@ == old(self)@.samples + block@.subrange(0, i as int),
            decreases block@.len() - i,
        {
            self.samples.push(block[i]);
            i = i + 1;
        }
        assert(block@.subrange(0, block@.len() as int) =~= block@);
        true
    }

    /// Stops capture: later blocks are dropped. Stopping twice is harmless.
    pub fn stop(&mut self)
        ensures
            final(self)@ == (CaptureView { recording: false, ..old(self)@ }),
    {
        self.recording = false;
    }

    /// Hands out the captured samples, once: a second take gets nothing. The
    /// buffer is left empty and stopped.
    pub fn take(&mut self) -> (r: Option<Vec<i16>>)
        ensures
            old(self)@.taken ==> r.is_none(),
            !old(self)@.taken ==> r.is_some() && r.unwrap()@ == old(self)@.samples,
            final(self)@ == (CaptureView { samples: Seq::empty(), recording: false, taken: true }),
    {
        let was_taken = self.taken;
        let mut samples: Vec<i16> = Vec::new();
        std::mem::swap(&mut samples, &mut self.samples);
        self.recording = false;
        self.taken = true;
        if was_taken {
            None
        } else {
            Some(samples)
        }
    }

    /// Whether capture still runs.
    pub fn is_recording(&self) -> (r: bool)
        ensures
            r == self@.recording,
    {
        self.recording
    }

    /// The number of samples held.
    pub fn len(&self) -> (r: usize)
        ensures
            r == self@.samples.len(),
    {
        self.samples.len()
    }
}

/// The mono signal of interleaved stereo samples, as the sum of the two
/// channels of each frame (twice their mean); a trailing odd sample is dropped.
pub open spec fn frame_sums(samples: Seq<i16>) -> Seq<i32> {
    Seq::new(samples.len() / 2, |i: int| (samples[2 * i] + samples[2 * i + 1]) as i32)
}

/// Folds interleaved stereo samples to one channel: entry `i` is the sum of
/// the left and right samples of frame `i`.
pub fn downmix_stereo(samples: &Vec<i16>) -> (r: Vec<i32>)
    ensures
        r@ == frame_sums(samples@),
{
    let n = samples.len() / 2;
    let mut out: Vec<i32> = Vec::with_capacity(n);
    let mut i: usize = 0;
    while i < n
        invariant
            n == samples@.len() / 2,
            0 <= i <= n,
            out@.len() == i,
            forall|k: int| 0 <= k < i ==> out@[k] == frame_sums(samples@)[k],
        decreases n - i,
    {
        assert(2 * i + 1 < samples.len()) by (nonlinear_arith)
            requires
                i < n,
                n == samples.len() / 2,
        ;
        let j: usize = 2 * i;
        let left = samples[j] as i32;
        let right = samples[j + 1] as i32;
        out.push(left + right);
        i = i + 1;
    }
    assert(out@ =~= frame_sums(samples@));
    out
}

} // verus!
