//! The bookkeeping of the audio encoder: captured samples are cut into
//! frames of the encoder's frame size, each frame gets the next
//! presentation time, and each encoded packet gets the capture time of the
//! frame it came from.
use vstd::prelude::*;

use std::collections::VecDeque;

use crate::types::audio_frame::EncodedAudioFrame;
use crate::types::error::{AVERROR_EOF, AVERROR_INVALIDDATA, WaycapError};

verus! {

/// Samples waiting to be framed, the presentation time of the next frame,
/// and the capture times of the frames whose packets are still to come.
pub struct AudioFramer<T> {
    leftover_data: VecDeque<T>,
    next_pts: i64,
    capture_timestamps: VecDeque<i64>,
}

/// The state of an [`AudioFramer`].
pub struct FramerView<T> {
    pub leftover: Seq<T>,
    pub next_pts: i64,
    pub timestamps: Seq<i64>,
}

impl<T> View for AudioFramer<T> {
    type V = FramerView<T>;

    closed spec fn view(&self) -> FramerView<T> {
        FramerView {
            leftover: self.leftover_data@,
            next_pts: self.next_pts,
            timestamps: self.capture_timestamps@,
        }
    }
}

/// A batch of `len` interleaved samples holds whole frames of `n_channels`
/// channels (as `usize::is_multiple_of` decides it: only the empty batch is a
/// multiple of zero).
pub open spec fn whole_channel_frames(len: nat, n_channels: nat) -> bool {
    if n_channels == 0 {
        len == 0
    } else {
        len % n_channels == 0
    }
}

/// A batch holds whole channel frames exactly when its length is a whole
/// number of channel counts; with no channels only the empty batch does.
pub proof fn whole_channel_frames_law(len: nat, n_channels: nat)
    ensures
        n_channels > 0 ==> (whole_channel_frames(len, n_channels) <==> exists|k: nat| #[trigger] (k * n_channels) == len),
        n_channels == 0 ==> (whole_channel_frames(len, n_channels) <==> len == 0),
{
    if n_channels > 0 {
        if whole_channel_frames(len, n_channels) {
            let k = len / n_channels;
            assert(k * n_channels == len) by (nonlinear_arith)
                requires
                    n_channels > 0,
                    len % n_channels == 0,
                    k == len / n_channels,
            ;
        }
        if exists|k: nat| #[trigger] (k * n_channels) == len {
            let k = choose|k: nat| #[trigger] (k * n_channels) == len;
            assert(len % n_channels == 0) by (nonlinear_arith)
                requires
                    n_channels > 0,
                    k * n_channels == len,
            ;
        }
    }
}

impl<T: Copy> AudioFramer<T> {
    /// A framer with no samples, at presentation time 0.
    pub fn new() -> (f: Self)
        ensures
            f@.leftover == Seq::<T>::empty(),
            f@.next_pts == 0,
            f@.timestamps == Seq::<i64>::empty(),
    {
        AudioFramer { leftover_data: VecDeque::new(), next_pts: 0, capture_timestamps: VecDeque::new() }
    }

    /// Takes a batch of interleaved samples. A batch that does not hold
    /// whole frames of `n_channels` channels is refused as invalid data and
    /// changes nothing.
    pub fn accept_samples(&mut self, samples: Vec<T>, n_channels: usize) -> (r: Result<(), WaycapError>)
        ensures
            whole_channel_frames(samples@.len(), n_channels as nat) ==> {
                &&& r is Ok
                &&& final(self)@.leftover == old(self)@.leftover + samples@
                &&& final(self)@.next_pts == old(self)@.next_pts
                &&& final(self)@.timestamps == old(self)@.timestamps
            },
            !whole_channel_frames(samples@.len(), n_channels as nat) ==> {
                &&& (r matches Err(WaycapError::FFmpeg(code)) && code == AVERROR_INVALIDDATA)
                &&& final(self)@ == old(self)@
            },
    {
        let total = samples.len();
        let whole = if n_channels == 0 {
            total == 0
        } else {
            total % n_channels == 0
        };
        if !whole {
            return Err(WaycapError::FFmpeg(AVERROR_INVALIDDATA));
        }
        let ghost before = self.leftover_data@;
        let mut i: usize = 0;
        while i < total
            invariant
                total == samples@.len(),
                i <= total,
                self.leftover_data@ == before + samples@.subrange(0, i as int),
                self.next_pts == old(self).next_pts,
                self.capture_timestamps@ == old(self).capture_timestamps@,
            decreases total - i,
        {
            self.leftover_data.push_back(samples[i]);
            assert(samples@.subrange(0, i + 1) =~= samples@.subrange(0, i as int).push(samples@[i as int]));
            i = i + 1;
        }
        assert(samples@.subrange(0, total as int) =~= samples@);
        Ok(())
    }

    /// The next frame of `frame_size` samples and its presentation time, when
    /// that many samples wait. The capture time `timestamp` of the batch the
    /// frame is cut from is queued for the frame's packet.
    pub fn next_frame(&mut self, frame_size: usize, timestamp: i64) -> (r: Option<(Vec<T>, i64)>)
        requires
            frame_size > 0,
        ensures
            old(self)@.leftover.len() < frame_size ==> (r is None && final(self)@ == old(self)@),
            old(self)@.leftover.len() >= frame_size ==> (r matches Some((frame, pts)) && {
                &&& frame@ == old(self)@.leftover.subrange(0, frame_size as int)
                &&& final(self)@.leftover == old(self)@.leftover.subrange(frame_size as int, old(self)@.leftover.len() as int)
                &&& pts == old(self)@.next_pts
                &&& final(self)@.next_pts == old(self)@.next_pts
                &&& final(self)@.timestamps == old(self)@.timestamps.push(timestamp)
            }),
    {
        if self.leftover_data.len() < frame_size {
            return None;
        }
        let ghost before = self.leftover_data@;
        let mut frame: Vec<T> = Vec::new();
        let mut k: usize = 0;
        while k < frame_size
            invariant
                k <= frame_size,
                frame_size <= before.len(),
                frame@ == before.subrange(0, k as int),
                self.leftover_data@ == before.subrange(k as int, before.len() as int),
                before == old(self).leftover_data@,
                self.next_pts == old(self).next_pts,
                self.capture_timestamps@ == old(self).capture_timestamps@,
            decreases frame_size - k,
        {
            match self.leftover_data.pop_front() {
                Some(x) => {
                    frame.push(x);
                },
                None => {},
            }
            assert(frame@ =~= before.subrange(0, k + 1));
            assert(self.leftover_data@ =~= before.subrange(k + 1, before.len() as int));
            k = k + 1;
        }
        self.capture_timestamps.push_back(timestamp);
        Some((frame, self.next_pts))
    }

    /// The encoded frame for a packet that the encoder handed back: its
    /// presentation time (0 when the packet has none) and the capture time of
    /// the oldest frame still waiting for its packet (0 when none waits).
    pub fn packet_frame(&mut self, data: Vec<u8>, pts: Option<i64>) -> (f: EncodedAudioFrame)
        ensures
            f.data@ == data@,
            f.pts == match pts {
                Some(p) => p,
                None => 0,
            },
            old(self)@.timestamps.len() > 0 ==> {
                &&& f.timestamp == old(self)@.timestamps[0]
                &&& final(self)@.timestamps == old(self)@.timestamps.drop_first()
            },
            old(self)@.timestamps.len() == 0 ==> (f.timestamp == 0 && final(self)@.timestamps == old(self)@.timestamps),
            final(self)@.leftover == old(self)@.leftover,
            final(self)@.next_pts == old(self)@.next_pts,
    {
        let pts = match pts {
            Some(p) => p,
            None => 0,
        };
        let timestamp = match self.capture_timestamps.pop_front() {
            Some(t) => t,
            None => 0,
        };
        EncodedAudioFrame { data, pts, timestamp }
    }

    /// Moves the presentation time on by one frame of `frame_size` samples.
    pub fn advance_pts(&mut self, frame_size: usize)
        requires
            frame_size <= i64::MAX,
            old(self)@.next_pts + frame_size <= i64::MAX,
        ensures
            final(self)@.next_pts == old(self)@.next_pts + frame_size,
            final(self)@.leftover == old(self)@.leftover,
            final(self)@.timestamps == old(self)@.timestamps,
    {
        self.next_pts = self.next_pts + frame_size as i64;
    }

    /// Forgets the capture times of frames whose packets never came, as a
    /// reset of the encoder does; waiting samples and the presentation time
    /// stay.
    pub fn reset(&mut self)
        ensures
            final(self)@.timestamps == Seq::<i64>::empty(),
            final(self)@.leftover == old(self)@.leftover,
            final(self)@.next_pts == old(self)@.next_pts,
    {
        self.capture_timestamps.clear();
    }

    /// The presentation time of the next frame.
    pub fn next_pts(&self) -> (pts: i64)
        ensures
            pts == self@.next_pts,
    {
        self.next_pts
    }

    /// The number of samples waiting to be framed.
    pub fn pending_samples(&self) -> (n: usize)
        ensures
            n == self@.leftover.len(),
    {
        self.leftover_data.len()
    }
}

/// The outcome of draining the encoder, from the outcome of signalling the
/// end of the stream to it: an encoder that has already reached the end
/// (because it was drained before) drains again without error.
pub fn drain_outcome(sent_eof: Result<(), WaycapError>) -> (r: Result<(), WaycapError>)
    ensures
        sent_eof is Ok ==> r is Ok,
        (sent_eof matches Err(WaycapError::FFmpeg(code)) && code == AVERROR_EOF) ==> r is Ok,
        (sent_eof matches Err(e) && !(e matches WaycapError::FFmpeg(code) && code == AVERROR_EOF)) ==> r == sent_eof,
{
    match sent_eof {
        Ok(()) => Ok(()),
        Err(WaycapError::FFmpeg(code)) if code == AVERROR_EOF => Ok(()),
        Err(e) => Err(e),
    }
}

/// The frame size of the Opus encoder counted in interleaved samples: the
/// per-channel frame size times the channel count, in the encoder's `int`.
pub fn interleaved_frame_size(frame_size: u32, channels: u16) -> (n: i32)
    requires
        i32::MIN <= (frame_size as i32) * (channels as i32) <= i32::MAX,
    ensures
        n == (frame_size as i32) * (channels as i32),
{
    #[verifier::truncate]
    let per_channel = frame_size as i32;
    per_channel * (channels as i32)
}

} // verus!
