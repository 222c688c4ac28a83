use vstd::prelude::*;

verus! {

/// Error code FFmpeg reports for invalid input data (`AVERROR_INVALIDDATA`).
pub const AVERROR_INVALIDDATA: i32 = -1094995529;

/// Error code FFmpeg reports at the end of a stream (`AVERROR_EOF`).
pub const AVERROR_EOF: i32 = -541478725;

/// Errors of the capture library.
///
/// Errors that come from FFmpeg or EGL carry the native error code of that
/// library; I/O errors carry their description.
#[derive(Debug, Clone)]
pub enum WaycapError {
    /// Errors from FFmpeg (an `AVERROR` code)
    FFmpeg(i32),
    /// EGL errors (a native EGL error code)
    Egl(i32),
    /// Errors from PipeWire
    PipeWire(String),
    /// Errors from XDG Portal
    Portal(String),
    /// I/O errors
    Io(String),
    /// Initialization errors
    Init(String),
    /// Configuration errors
    Config(String),
    /// Stream errors
    Stream(String),
    /// Encoding errors
    Encoding(String),
    /// Device errors
    Device(String),
    /// Validation errors
    Validation(String),
    /// Other errors
    Other(String),
}

/// The error that carries the message `msg` as an "other" error.
pub open spec fn is_other_error(e: WaycapError, msg: Seq<char>) -> bool {
    e matches WaycapError::Other(m) && m@ == msg
}

/// The error that carries the message `msg` as an initialization error.
pub open spec fn is_init_error(e: WaycapError, msg: Seq<char>) -> bool {
    e matches WaycapError::Init(m) && m@ == msg
}

/// The error that carries the message `msg` as a configuration error.
pub open spec fn is_config_error(e: WaycapError, msg: Seq<char>) -> bool {
    e matches WaycapError::Config(m) && m@ == msg
}

impl From<String> for WaycapError {
    fn from(err: String) -> (e: Self) {
        WaycapError::Other(err)
    }
}

impl vstd::std_specs::convert::FromSpecImpl<String> for WaycapError {
    open spec fn obeys_from_spec() -> bool {
        true
    }

    open spec fn from_spec(v: String) -> WaycapError {
        WaycapError::Other(v)
    }
}

} // verus!
