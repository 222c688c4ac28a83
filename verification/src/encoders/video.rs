//! The decisions of the frame processing loops: whether to run, wait or
//! stop, and which frames the encoder gets at the target frame rate.
use vstd::prelude::*;

use crate::types::error::WaycapError;
use crate::types::video_frame::RawVideoFrame;
use crate::{frame_interval, CaptureControls};

verus! {

/// Implemented by video encoders that process frames one at a time on a
/// worker thread; [`ProcessingThread::process`] is called with each frame
/// that the frame pacer lets through.
pub trait ProcessingThread {
    /// Process a single raw frame
    fn process(&mut self, frame: RawVideoFrame) -> Result<(), WaycapError>;

    /// Called on the worker thread before the first frame.
    fn thread_setup(&mut self) -> (r: Result<(), WaycapError>)
        default_ensures
            r is Ok,
    {
        Ok(())
    }

    /// Called on the worker thread after the last frame.
    fn thread_teardown(&mut self) -> (r: Result<(), WaycapError>)
        default_ensures
            r is Ok,
    {
        Ok(())
    }
}

/// What a processing loop does next.
#[derive(Debug, Clone, Copy, PartialEq, Eq, Structural)]
pub enum LoopStep {
    /// The capture is stopped: leave the loop.
    Exit,
    /// The capture is paused: wait and look again.
    Wait,
    /// Take the next frame or sample batch.
    Receive,
}

/// The next step of a processing loop: leave once stopped, wait while
/// paused, otherwise receive.
pub fn loop_step(controls: &CaptureControls) -> (step: LoopStep)
    ensures
        controls@.stopped ==> step == LoopStep::Exit,
        !controls@.stopped && controls@.paused ==> step == LoopStep::Wait,
        !controls@.stopped && !controls@.paused ==> step == LoopStep::Receive,
{
    if controls.is_stopped() {
        LoopStep::Exit
    } else if controls.is_paused() {
        LoopStep::Wait
    } else {
        LoopStep::Receive
    }
}

/// Lets frames through at most once per frame interval.
pub struct FramePacer {
    last_timestamp: u64,
    frame_interval: u64,
}

/// The state of a frame pacer: the time of the last frame let through and
/// the interval that the next one must keep from it.
pub struct PacerView {
    pub last_timestamp: u64,
    pub frame_interval: u64,
}

impl View for FramePacer {
    type V = PacerView;

    closed spec fn view(&self) -> PacerView {
        PacerView { last_timestamp: self.last_timestamp, frame_interval: self.frame_interval }
    }
}

/// A frame taken at `timestamp` is due.
pub open spec fn frame_due(p: PacerView, timestamp: i64) -> bool {
    timestamp as u64 >= p.last_timestamp + p.frame_interval
}

impl FramePacer {
    /// A pacer at the controls' frame rate that has let no frame through.
    pub fn new(controls: &CaptureControls) -> (p: FramePacer)
        requires
            controls@.target_fps > 0,
        ensures
            p@ == (PacerView { last_timestamp: 0, frame_interval: frame_interval(controls@) }),
    {
        FramePacer { last_timestamp: 0, frame_interval: controls.frame_interval_ns() }
    }

    /// Whether the frame taken at `timestamp` goes to the encoder; a frame
    /// that does becomes the last one.
    pub fn accept_frame(&mut self, timestamp: i64) -> (due: bool)
        requires
            old(self)@.last_timestamp + old(self)@.frame_interval <= u64::MAX,
        ensures
            due == frame_due(old(self)@, timestamp),
            due ==> final(self)@ == (PacerView { last_timestamp: timestamp as u64, ..old(self)@ }),
            !due ==> final(self)@ == old(self)@,
    {
        let current_time = timestamp as u64;
        if current_time >= self.last_timestamp + self.frame_interval {
            self.last_timestamp = current_time;
            true
        } else {
            false
        }
    }

    /// Takes up the controls' current frame rate.
    pub fn refresh(&mut self, controls: &CaptureControls)
        requires
            controls@.target_fps > 0,
        ensures
            final(self)@ == (PacerView { frame_interval: frame_interval(controls@), ..old(self)@ }),
    {
        self.frame_interval = controls.frame_interval_ns();
    }

    /// Whether [`FramePacer::accept_frame`] may be called: the next due time fits
    /// in 64 bits.
    pub fn can_accept(&self) -> (r: bool)
        ensures
            r == (self@.last_timestamp + self@.frame_interval <= u64::MAX),
    {
        self.last_timestamp <= u64::MAX - self.frame_interval
    }
}

/// A frame is due exactly when its full 64-bit stream time is at least one
/// frame interval after the last frame let through.
pub proof fn due_iff_interval_elapsed(p: PacerView, t: i64)
    ensures
        (t as u64) >= p.last_timestamp + p.frame_interval ==> frame_due(p, t),
        frame_due(p, t) ==> (t as u64) >= p.last_timestamp + p.frame_interval,
{
}

/// Frames that the pacer lets through, one after the other, are at least
/// one frame interval apart.
pub proof fn accepted_frames_are_spaced(p: PacerView, t1: i64, t2: i64)
    requires
        frame_due(p, t1),
        frame_due(PacerView { last_timestamp: t1 as u64, ..p }, t2),
    ensures
        t2 as u64 >= t1 as u64 + p.frame_interval,
{
}

} // verus!
