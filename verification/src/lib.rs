//! Verified core of a Wayland screen-capture library: capture configuration,
//! capture controls, frame pacing, sample framing and the GPU/DMA-BUF
//! decision logic that drives the hardware encoders.
use vstd::prelude::*;

pub mod capture;
pub mod encoders;
pub mod pipeline;
pub mod text;
pub mod types;
pub mod utils;
pub mod waycap_egl;
pub mod waycap_vulkan;

pub use crate::encoders::dynamic_encoder::DynamicEncoder;
pub use crate::utils::TIME_UNIT_NS;

use crate::types::error::{is_init_error, WaycapError};

verus! {

/// Target screen resolution.
#[derive(Debug, Clone, Copy, PartialEq, Eq, Structural)]
pub struct Resolution {
    pub width: u32,
    pub height: u32,
}

/// How long the capture waits for PipeWire to negotiate the resolution.
pub const NEGOTIATION_TIMEOUT_NS: u64 = 5_000_000_000;

pub open spec fn negotiation_timeout_message() -> Seq<char> {
    "Timed out waiting for pipewire to negotiate video resolution"@
}

/// One look at the negotiation of the video resolution, `elapsed_ns` after
/// it began: a received resolution ends the wait; past the timeout the wait
/// fails; otherwise it goes on (`Ok(None)`).
pub fn negotiation_step(received: Option<Resolution>, elapsed_ns: u64) -> (r: Result<Option<Resolution>, WaycapError>)
    ensures
        received matches Some(res) ==> r == Ok::<Option<Resolution>, WaycapError>(Some(res)),
        received is None && elapsed_ns > NEGOTIATION_TIMEOUT_NS ==> (r matches Err(e) && is_init_error(
            e,
            negotiation_timeout_message(),
        )),
        received is None && elapsed_ns <= NEGOTIATION_TIMEOUT_NS ==> r == Ok::<Option<Resolution>, WaycapError>(None),
{
    match received {
        Some(res) => Ok(Some(res)),
        None => {
            if elapsed_ns > NEGOTIATION_TIMEOUT_NS {
                Err(WaycapError::Init("Timed out waiting for pipewire to negotiate video resolution".to_owned()))
            } else {
                Ok(None)
            }
        },
    }
}

/// The state of the capture controls.
pub struct ControlsView {
    pub stopped: bool,
    pub paused: bool,
    pub target_fps: u64,
}

/// Controls for the capture: stop, pause and resume processing, and the
/// target frame rate.
#[derive(Debug)]
pub struct CaptureControls {
    stop_flag: bool,
    pause_flag: bool,
    target_fps: u64,
}

impl View for CaptureControls {
    type V = ControlsView;

    closed spec fn view(&self) -> ControlsView {
        ControlsView { stopped: self.stop_flag, paused: self.pause_flag, target_fps: self.target_fps }
    }
}

/// The controls after a call of [`CaptureControls::stop`].
pub open spec fn stopped_view(v: ControlsView) -> ControlsView {
    ControlsView { stopped: true, ..v }
}

/// The controls after a call of [`CaptureControls::pause`].
pub open spec fn paused_view(v: ControlsView) -> ControlsView {
    ControlsView { paused: true, ..v }
}

/// The controls after a call of [`CaptureControls::resume`].
pub open spec fn resumed_view(v: ControlsView) -> ControlsView {
    ControlsView { paused: false, ..v }
}

/// Frames are skipped while the capture is paused or stopped.
pub open spec fn skips(v: ControlsView) -> bool {
    v.paused || v.stopped
}

/// Nanoseconds between two frames at the target frame rate.
pub open spec fn frame_interval(v: ControlsView) -> u64
    recommends
        v.target_fps > 0,
{
    (TIME_UNIT_NS / v.target_fps) as u64
}

impl CaptureControls {
    /// New controls: not stopped, paused until the capture is started.
    pub fn from_fps(target_fps: u64) -> (c: Self)
        ensures
            c@ == (ControlsView { stopped: false, paused: true, target_fps }),
    {
        CaptureControls { stop_flag: false, pause_flag: true, target_fps }
    }

    /// True when stopped or paused
    pub fn skip_processing(&self) -> (r: bool)
        ensures
            r == skips(self@),
    {
        self.is_paused() || self.is_stopped()
    }

    /// Check if processing is currently paused
    pub fn is_paused(&self) -> (r: bool)
        ensures
            r == self@.paused,
    {
        self.pause_flag
    }

    /// Check if processing is currently stopped
    pub fn is_stopped(&self) -> (r: bool)
        ensures
            r == self@.stopped,
    {
        self.stop_flag
    }

    /// Stop processing. This is final: use [`CaptureControls::pause`] to
    /// resume later.
    pub fn stop(&mut self)
        ensures
            final(self)@ == stopped_view(old(self)@),
    {
        self.stop_flag = true;
    }

    /// Pause processing
    pub fn pause(&mut self)
        ensures
            final(self)@ == paused_view(old(self)@),
    {
        self.pause_flag = true;
    }

    /// Resume processing
    pub fn resume(&mut self)
        ensures
            final(self)@ == resumed_view(old(self)@),
    {
        self.pause_flag = false;
    }

    /// The target frame rate
    pub fn target_fps(&self) -> (fps: u64)
        ensures
            fps == self@.target_fps,
    {
        self.target_fps
    }

    /// Frame interval in nanoseconds
    pub fn frame_interval_ns(&self) -> (ns: u64)
        requires
            self@.target_fps > 0,
        ensures
            ns == frame_interval(self@),
    {
        TIME_UNIT_NS / self.target_fps
    }
}

/// Stopping is final: pausing, resuming or stopping again never clears it,
/// and stopped controls skip every frame.
pub proof fn stop_is_final(v: ControlsView)
    requires
        v.stopped,
    ensures
        paused_view(v).stopped,
        resumed_view(v).stopped,
        stopped_view(v).stopped,
        skips(v),
        skips(resumed_view(v)),
{
}

/// Each control does exactly one thing: `stop` sets the stop flag, `pause`
/// sets the pause flag, `resume` clears it; the other flag and the frame
/// rate stay as they were.
pub proof fn control_transition_laws(v: ControlsView)
    ensures
        stopped_view(v).stopped && stopped_view(v).paused == v.paused && stopped_view(v).target_fps == v.target_fps,
        paused_view(v).paused && paused_view(v).stopped == v.stopped && paused_view(v).target_fps == v.target_fps,
        !resumed_view(v).paused && resumed_view(v).stopped == v.stopped && resumed_view(v).target_fps
            == v.target_fps,
        skips(v) <==> (v.paused || v.stopped),
{
}

/// The frame interval is the whole number of nanoseconds in one target
/// frame: that many nanoseconds per frame fit in one second, one more do not.
pub proof fn frame_interval_is_one_second_per_frame(v: ControlsView)
    requires
        v.target_fps > 0,
    ensures
        frame_interval(v) * v.target_fps <= 1_000_000_000,
        1_000_000_000 < (frame_interval(v) + 1) * v.target_fps,
{
    let q = frame_interval(v) as int;
    let f = v.target_fps as int;
    assert(q == 1_000_000_000int / f);
    assert(q * f <= 1_000_000_000 && 1_000_000_000 < (q + 1) * f) by (nonlinear_arith)
        requires
            f > 0,
            q == 1_000_000_000int / f,
    ;
}

/// Resuming lets frames through exactly when the capture is not stopped;
/// pausing always holds them back. Neither touches the stop flag or the
/// frame rate.
pub proof fn pause_resume_laws(v: ControlsView)
    ensures
        skips(resumed_view(v)) == v.stopped,
        skips(paused_view(v)),
        paused_view(resumed_view(v)) == paused_view(v),
        resumed_view(paused_view(v)) == resumed_view(v),
        resumed_view(v).stopped == v.stopped && resumed_view(v).target_fps == v.target_fps,
        paused_view(v).stopped == v.stopped && paused_view(v).target_fps == v.target_fps,
{
}

/// State of audio/video readiness.
#[derive(Debug)]
pub struct ReadyState {
    audio: bool,
    video: bool,
}

/// The readiness of the audio and video streams.
pub struct ReadyView {
    pub audio: bool,
    pub video: bool,
}

impl View for ReadyState {
    type V = ReadyView;

    closed spec fn view(&self) -> ReadyView {
        ReadyView { audio: self.audio, video: self.video }
    }
}

impl Default for ReadyState {
    fn default() -> (r: Self)
        ensures
            r@ == (ReadyView { audio: false, video: false }),
    {
        ReadyState { audio: false, video: false }
    }
}

impl ReadyState {
    pub fn video_ready(&self) -> (r: bool)
        ensures
            r == self@.video,
    {
        self.video
    }

    pub fn audio_ready(&self) -> (r: bool)
        ensures
            r == self@.audio,
    {
        self.audio
    }

    /// Both streams are ready, which is what the capture waits for.
    pub fn both_ready(&self) -> (r: bool)
        ensures
            r == (self@.audio && self@.video),
    {
        self.audio && self.video
    }

    /// Records whether the audio stream is streaming.
    pub fn set_audio_ready(&mut self, ready: bool)
        ensures
            final(self)@ == (ReadyView { audio: ready, video: old(self)@.video }),
    {
        self.audio = ready;
    }

    /// Records whether the video stream is streaming.
    pub fn set_video_ready(&mut self, ready: bool)
        ensures
            final(self)@ == (ReadyView { audio: old(self)@.audio, video: ready }),
    {
        self.video = ready;
    }
}

} // verus!
