use vstd::prelude::*;

verus! {

/// One plane of a DMA-BUF backed frame.
#[derive(Debug, Clone, Copy, PartialEq, Eq, Structural)]
pub struct DmaBufPlane {
    pub fd: i32,
    pub offset: u32,
    pub stride: u32,
}

/// A frame as it comes out of the PipeWire video stream.
#[derive(Debug, Clone)]
pub struct RawVideoFrame {
    /// Frame bytes when the frame is memory mapped (empty for DMA-BUF frames).
    pub data: Vec<u8>,
    /// PipeWire stream time of the frame, in nanoseconds.
    pub timestamp: i64,
    /// File descriptor of the DMA-BUF, when the frame is GPU resident.
    pub dmabuf_fd: Option<i32>,
    pub stride: i32,
    pub offset: u32,
    pub size: u32,
    /// DRM format modifier of the buffer.
    pub modifier: u64,
}

/// An encoded video packet.
#[derive(Debug, Clone)]
pub struct EncodedVideoFrame {
    pub data: Vec<u8>,
    pub is_keyframe: bool,
    pub pts: i64,
    pub dts: i64,
}

} // verus!
