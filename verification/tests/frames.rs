use waycap_rs::text::str_contains;
use waycap_rs::types::error::WaycapError;
use waycap_rs::types::video_frame::{DmaBufPlane, RawVideoFrame};
use waycap_rs::utils::extract_dmabuf_planes;

fn frame(fd: Option<i32>, stride: i32) -> RawVideoFrame {
    RawVideoFrame { data: vec![], timestamp: 5, dmabuf_fd: fd, stride, offset: 128, size: 0, modifier: 0 }
}

#[test]
fn dmabuf_frame_gives_one_plane() {
    let planes = extract_dmabuf_planes(&frame(Some(9), 7680)).unwrap();
    assert_eq!(planes, vec![DmaBufPlane { fd: 9, offset: 128, stride: 7680 }]);
}

#[test]
fn negative_stride_wraps() {
    let planes = extract_dmabuf_planes(&frame(Some(9), -1)).unwrap();
    assert_eq!(planes[0].stride, u32::MAX);
}

#[test]
fn frame_without_dmabuf_is_refused() {
    let e = extract_dmabuf_planes(&frame(None, 1)).unwrap_err();
    assert!(matches!(e, WaycapError::Other(m) if m == "No DMA-BUF file descriptor in frame"));
}

#[test]
fn string_search() {
    assert!(str_contains("abcabd", "abd"));
    assert!(str_contains("abc", ""));
    assert!(!str_contains("ab", "abc"));
    assert!(!str_contains("", "a"));
    assert!(str_contains("héllo wörld", "ö"));
}

#[test]
fn error_from_string() {
    let e: WaycapError = String::from("boom").into();
    assert!(matches!(e, WaycapError::Other(m) if m == "boom"));
}
