//! The microphone jitter buffer of the audio capture: the microphone stream
//! appends samples, the desktop stream takes one microphone sample for each
//! of its own samples to mix, and the buffer never grows past half a second
//! of stereo audio.
use vstd::prelude::*;

use std::collections::VecDeque;

use crate::{skips, CaptureControls, ReadyState};

verus! {

/// Sample rate both audio streams are captured at.
pub const MIX_RATE: u32 = 48_000;
/// Channel count both audio streams are captured with.
pub const MIX_CHANNELS: u32 = 2;
/// Capacity of the microphone buffer: half a second of stereo audio.
pub const MIC_BUFFER_CAP: usize = 48_000;

/// The newest `cap` samples of `s` (all of them when there are fewer).
pub open spec fn keep_newest<T>(s: Seq<T>, cap: nat) -> Seq<T> {
    if s.len() > cap {
        s.subrange(s.len() - cap, s.len() as int)
    } else {
        s
    }
}

/// Trimming keeps the newest samples: at most `cap` of them, and the `k`-th
/// newest sample kept is the `k`-th newest sample given; nothing is dropped
/// while there are at most `cap`.
pub proof fn keep_newest_laws<T>(s: Seq<T>, cap: nat)
    ensures
        keep_newest(s, cap).len() == if s.len() > cap { cap } else { s.len() },
        forall|k: int|
            0 <= k < keep_newest(s, cap).len() ==> #[trigger] keep_newest(s, cap)[keep_newest(s, cap).len() - 1 - k]
                == s[s.len() - 1 - k],
        s.len() <= cap ==> keep_newest(s, cap) == s,
{
}

/// Microphone samples waiting to be mixed into the desktop stream.
pub struct MicBuffer<T> {
    samples: VecDeque<T>,
}

impl<T> View for MicBuffer<T> {
    type V = Seq<T>;

    closed spec fn view(&self) -> Seq<T> {
        self.samples@
    }
}

impl<T: Copy> MicBuffer<T> {
    /// An empty buffer.
    pub fn new() -> (b: Self)
        ensures
            b@ == Seq::<T>::empty(),
    {
        MicBuffer { samples: VecDeque::new() }
    }

    /// Appends captured microphone samples, then drops the oldest ones until
    /// at most [`MIC_BUFFER_CAP`] remain.
    pub fn push_samples(&mut self, captured: &[T])
        ensures
            final(self)@ == keep_newest(old(self)@ + captured@, MIC_BUFFER_CAP as nat),
            final(self)@.len() <= MIC_BUFFER_CAP,
    {
        let ghost all = old(self)@ + captured@;
        let n = captured.len();
        let mut i: usize = 0;
        while i < n
            invariant
                n == captured@.len(),
                i <= n,
                self.samples@ == old(self)@ + captured@.subrange(0, i as int),
            decreases n - i,
        {
            self.samples.push_back(captured[i]);
            assert(captured@.subrange(0, i + 1) =~= captured@.subrange(0, i as int).push(captured@[i as int]));
            i = i + 1;
        }
        assert(captured@.subrange(0, n as int) =~= captured@);
        let ghost mut dropped: int = 0;
        while self.samples.len() > MIC_BUFFER_CAP
            invariant
                0 <= dropped <= all.len(),
                self.samples@ == all.subrange(dropped, all.len() as int),
                dropped > 0 ==> self.samples@.len() >= MIC_BUFFER_CAP,
            decreases self.samples@.len(),
        {
            let _ = self.samples.pop_front();
            proof {
                dropped = dropped + 1;
            }
            assert(self.samples@ =~= all.subrange(dropped, all.len() as int));
        }
        assert(self.samples@ =~= keep_newest(all, MIC_BUFFER_CAP as nat));
    }

    /// Takes the oldest samples for mixing, one for each of `wanted` desktop
    /// samples; when the microphone runs short, as many as there are.
    pub fn take_for_mix(&mut self, wanted: usize) -> (taken: Vec<T>)
        ensures
            taken@.len() == if wanted < old(self)@.len() { wanted as nat } else { old(self)@.len() },
            taken@ + final(self)@ == old(self)@,
    {
        let mut taken: Vec<T> = Vec::new();
        let mut k: usize = 0;
        while k < wanted
            invariant
                k <= wanted,
                taken@.len() == k,
                taken@ + self.samples@ == old(self)@,
            ensures
                taken@ + self.samples@ == old(self)@,
                taken@.len() <= wanted,
                taken@.len() == wanted || self.samples@.len() == 0,
            decreases wanted - k,
        {
            match self.samples.pop_front() {
                Some(x) => {
                    taken.push(x);
                },
                None => {
                    break;
                },
            }
            assert(taken@ + self.samples@ =~= old(self)@);
            k = k + 1;
        }
        taken
    }

    /// The number of samples waiting.
    pub fn len(&self) -> (n: usize)
        ensures
            n == self@.len(),
    {
        self.samples.len()
    }
}

/// Size in bytes of one captured sample (32-bit float PCM).
pub const BYTES_PER_SAMPLE: u32 = 4;

/// The number of whole samples in a buffer chunk of `chunk_size` bytes.
pub fn sample_count(chunk_size: u32) -> (n: u32)
    ensures
        n == chunk_size / BYTES_PER_SAMPLE,
{
    chunk_size / BYTES_PER_SAMPLE
}

/// Whether a captured desktop audio buffer is passed on: only once the video
/// stream is ready and while the capture neither is paused nor stopped.
pub fn forwards_audio(ready_state: &ReadyState, controls: &CaptureControls) -> (r: bool)
    ensures
        r == (ready_state@.video && !skips(controls@)),
{
    ready_state.video_ready() && !controls.skip_processing()
}

} // verus!
