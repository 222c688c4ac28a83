use waycap_rs::capture::audio::{forwards_audio, sample_count, MicBuffer, MIC_BUFFER_CAP};
use waycap_rs::encoders::opus_encoder::{drain_outcome, interleaved_frame_size, AudioFramer};
use waycap_rs::types::error::{WaycapError, AVERROR_EOF, AVERROR_INVALIDDATA};
use waycap_rs::{CaptureControls, ReadyState};

#[test]
fn framer_cuts_frames_in_order() {
    let mut f: AudioFramer<i32> = AudioFramer::new();
    f.accept_samples(vec![1, 2, 3, 4, 5, 6], 2).unwrap();
    let (frame, pts) = f.next_frame(4, 1000).unwrap();
    assert_eq!(frame, vec![1, 2, 3, 4]);
    assert_eq!(pts, 0);
    f.advance_pts(4);
    assert!(f.next_frame(4, 1000).is_none());
    assert_eq!(f.pending_samples(), 2);
    f.accept_samples(vec![7, 8], 2).unwrap();
    let (frame, pts) = f.next_frame(4, 2000).unwrap();
    assert_eq!(frame, vec![5, 6, 7, 8]);
    assert_eq!(pts, 4);
    f.advance_pts(4);
    assert_eq!(f.next_pts(), 8);
    assert_eq!(f.pending_samples(), 0);
}

#[test]
fn framer_refuses_partial_channel_frames() {
    let mut f: AudioFramer<i32> = AudioFramer::new();
    let e = f.accept_samples(vec![1, 2, 3], 2).unwrap_err();
    assert!(matches!(e, WaycapError::FFmpeg(c) if c == AVERROR_INVALIDDATA));
    assert_eq!(f.pending_samples(), 0);
    assert!(f.accept_samples(vec![], 0).is_ok());
    assert!(f.accept_samples(vec![1], 0).is_err());
}

#[test]
fn packets_take_capture_times_in_order() {
    let mut f: AudioFramer<i32> = AudioFramer::new();
    f.accept_samples(vec![0; 8], 2).unwrap();
    f.next_frame(4, 111).unwrap();
    f.next_frame(4, 222).unwrap();
    let a = f.packet_frame(vec![9, 9], Some(960));
    assert_eq!((a.pts, a.timestamp, a.data.clone()), (960, 111, vec![9, 9]));
    let b = f.packet_frame(vec![], None);
    assert_eq!((b.pts, b.timestamp), (0, 222));
    let c = f.packet_frame(vec![1], Some(5));
    assert_eq!(c.timestamp, 0);
}

#[test]
fn reset_forgets_capture_times_only() {
    let mut f: AudioFramer<i32> = AudioFramer::new();
    f.accept_samples(vec![0; 6], 2).unwrap();
    f.next_frame(4, 7).unwrap();
    f.advance_pts(4);
    f.reset();
    assert_eq!(f.packet_frame(vec![], Some(1)).timestamp, 0);
    assert_eq!(f.next_pts(), 4);
    assert_eq!(f.pending_samples(), 2);
}

#[test]
fn drain_tolerates_repeated_eof() {
    assert!(drain_outcome(Ok(())).is_ok());
    assert!(drain_outcome(Err(WaycapError::FFmpeg(AVERROR_EOF))).is_ok());
    let e = drain_outcome(Err(WaycapError::FFmpeg(AVERROR_INVALIDDATA))).unwrap_err();
    assert!(matches!(e, WaycapError::FFmpeg(c) if c == AVERROR_INVALIDDATA));
    assert!(matches!(drain_outcome(Err(WaycapError::Other("x".to_string()))), Err(WaycapError::Other(_))));
}

#[test]
fn opus_frame_size_counts_both_channels() {
    assert_eq!(interleaved_frame_size(960, 2), 1920);
    assert_eq!(interleaved_frame_size(0, 2), 0);
}

#[test]
fn mic_buffer_keeps_newest_samples() {
    let mut m: MicBuffer<u32> = MicBuffer::new();
    let first: Vec<u32> = (0..40_000).collect();
    m.push_samples(&first);
    assert_eq!(m.len(), 40_000);
    let second: Vec<u32> = (40_000..50_000).collect();
    m.push_samples(&second);
    assert_eq!(m.len(), MIC_BUFFER_CAP);
    let taken = m.take_for_mix(3);
    assert_eq!(taken, vec![2_000, 2_001, 2_002]);
}

#[test]
fn mic_buffer_underrun_gives_what_there_is() {
    let mut m: MicBuffer<u32> = MicBuffer::new();
    m.push_samples(&[1, 2]);
    assert_eq!(m.take_for_mix(5), vec![1, 2]);
    assert_eq!(m.len(), 0);
    assert_eq!(m.take_for_mix(5), Vec::<u32>::new());
}

#[test]
fn samples_in_chunk() {
    assert_eq!(sample_count(4096), 1024);
    assert_eq!(sample_count(7), 1);
}

#[test]
fn audio_forwarded_only_when_video_ready_and_running() {
    let mut ready = ReadyState::default();
    let mut c = CaptureControls::from_fps(60);
    c.resume();
    assert!(!forwards_audio(&ready, &c));
    ready.set_video_ready(true);
    assert!(forwards_audio(&ready, &c));
    c.pause();
    assert!(!forwards_audio(&ready, &c));
}
