use waycap_rs::encoders::video::{loop_step, FramePacer, LoopStep};
use waycap_rs::CaptureControls;

#[test]
fn loop_steps_follow_controls() {
    let mut c = CaptureControls::from_fps(60);
    assert_eq!(loop_step(&c), LoopStep::Wait);
    c.resume();
    assert_eq!(loop_step(&c), LoopStep::Receive);
    c.stop();
    assert_eq!(loop_step(&c), LoopStep::Exit);
}

#[test]
fn pacer_lets_frames_through_once_per_interval() {
    let c = CaptureControls::from_fps(10); // 100 ms
    let mut p = FramePacer::new(&c);
    assert!(p.accept_frame(100_000_000));
    assert!(!p.accept_frame(150_000_000));
    assert!(!p.accept_frame(199_999_999));
    assert!(p.accept_frame(200_000_000));
    assert!(p.accept_frame(350_000_000));
    assert!(!p.accept_frame(400_000_000));
}

#[test]
fn pacer_first_frame_must_reach_one_interval() {
    let c = CaptureControls::from_fps(10);
    let mut p = FramePacer::new(&c);
    assert!(!p.accept_frame(50_000_000));
    assert!(p.accept_frame(100_000_000));
}

#[test]
fn pacer_refresh_takes_new_rate() {
    let c = CaptureControls::from_fps(10);
    let mut p = FramePacer::new(&c);
    assert!(p.accept_frame(100_000_000));
    let faster = CaptureControls::from_fps(20); // 50 ms
    p.refresh(&faster);
    assert!(p.accept_frame(150_000_000));
}

#[test]
fn pacer_can_accept_guards_overflow() {
    let c = CaptureControls::from_fps(10);
    let mut p = FramePacer::new(&c);
    assert!(p.can_accept());
    assert!(p.accept_frame(-1)); // u64::MAX as a timestamp
    assert!(!p.can_accept());
}
