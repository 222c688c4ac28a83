use vstd::prelude::*;

use crate::types::error::{is_other_error, WaycapError};
use crate::types::video_frame::{DmaBufPlane, RawVideoFrame};

verus! {

/// Nanoseconds per second.
pub const TIME_UNIT_NS: u64 = 1_000_000_000;

pub open spec fn no_dmabuf_message() -> Seq<char> {
    "No DMA-BUF file descriptor in frame"@
}

/// The single plane that describes a DMA-BUF frame.
pub open spec fn frame_plane(raw_frame: RawVideoFrame, fd: i32) -> DmaBufPlane {
    DmaBufPlane { fd, offset: raw_frame.offset, stride: raw_frame.stride as u32 }
}

/// The DMA-BUF planes of a frame: one plane made of the frame's descriptor,
/// offset and stride, or an error when the frame holds no DMA-BUF.
pub fn extract_dmabuf_planes(raw_frame: &RawVideoFrame) -> (res: Result<Vec<DmaBufPlane>, WaycapError>)
    ensures
        match raw_frame.dmabuf_fd {
            Some(fd) => res matches Ok(planes) && planes@ == seq![frame_plane(*raw_frame, fd)],
            None => res matches Err(e) && is_other_error(e, no_dmabuf_message()),
        },
{
    match raw_frame.dmabuf_fd {
        Some(fd) => Ok(vec![DmaBufPlane { fd, offset: raw_frame.offset, stride: raw_frame.stride as u32 }]),
        None => Err(WaycapError::Other("No DMA-BUF file descriptor in frame".to_owned())),
    }
}

} // verus!
