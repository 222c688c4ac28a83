use waycap_rs::types::error::WaycapError;
use waycap_rs::{negotiation_step, CaptureControls, ReadyState, Resolution, NEGOTIATION_TIMEOUT_NS, TIME_UNIT_NS};

#[test]
fn new_controls_start_paused() {
    let c = CaptureControls::from_fps(60);
    assert!(c.is_paused());
    assert!(!c.is_stopped());
    assert!(c.skip_processing());
    assert_eq!(c.target_fps(), 60);
}

#[test]
fn resume_and_pause() {
    let mut c = CaptureControls::from_fps(60);
    c.resume();
    assert!(!c.is_paused());
    assert!(!c.skip_processing());
    c.pause();
    assert!(c.is_paused());
    assert!(c.skip_processing());
}

#[test]
fn stop_is_final_concrete() {
    let mut c = CaptureControls::from_fps(60);
    c.resume();
    c.stop();
    assert!(c.is_stopped());
    assert!(c.skip_processing());
    c.resume();
    c.pause();
    c.resume();
    assert!(c.is_stopped());
    assert!(c.skip_processing());
}

#[test]
fn frame_interval_values() {
    assert_eq!(CaptureControls::from_fps(60).frame_interval_ns(), 16_666_666);
    assert_eq!(CaptureControls::from_fps(30).frame_interval_ns(), 33_333_333);
    assert_eq!(CaptureControls::from_fps(1).frame_interval_ns(), TIME_UNIT_NS);
}

#[test]
fn ready_state_flags() {
    let mut r = ReadyState::default();
    assert!(!r.audio_ready());
    assert!(!r.video_ready());
    assert!(!r.both_ready());
    r.set_video_ready(true);
    assert!(r.video_ready());
    assert!(!r.both_ready());
    r.set_audio_ready(true);
    assert!(r.both_ready());
    r.set_audio_ready(false);
    assert!(!r.audio_ready());
    assert!(r.video_ready());
}

#[test]
fn resolution_holds_its_size() {
    let r = Resolution { width: 1920, height: 1080 };
    assert_eq!(r.width, 1920);
    assert_eq!(r.height, 1080);
}

#[test]
fn resolution_negotiation() {
    let r = Resolution { width: 800, height: 600 };
    assert_eq!(negotiation_step(Some(r), NEGOTIATION_TIMEOUT_NS + 1).unwrap(), Some(r));
    assert_eq!(negotiation_step(None, 0).unwrap(), None);
    assert_eq!(negotiation_step(None, 5_000_000_000).unwrap(), None);
    let e = negotiation_step(None, 5_000_000_001).unwrap_err();
    assert!(matches!(e, WaycapError::Init(m) if m == "Timed out waiting for pipewire to negotiate video resolution"));
}
