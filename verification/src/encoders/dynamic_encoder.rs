//! A video encoder whose backend (VA-API or NVENC) is picked at run time,
//! from the requested codec or else from the GPU vendor.
use vstd::prelude::*;

use crate::types::config::VideoEncoder as VideoEncoderType;
use crate::types::error::{is_config_error, is_init_error, WaycapError};
use crate::waycap_vulkan::GpuVendor;

verus! {

/// A video encoder of either backend.
pub enum DynamicEncoder<V, N> {
    Vaapi(V),
    Nvenc(N),
}

/// The encoder that suits a GPU vendor's hardware, if any.
pub open spec fn encoder_of_vendor(v: GpuVendor) -> Option<VideoEncoderType> {
    match v {
        GpuVendor::NVIDIA => Some(VideoEncoderType::H264Nvenc),
        GpuVendor::AMD => Some(VideoEncoderType::H264Vaapi),
        GpuVendor::INTEL => Some(VideoEncoderType::H264Vaapi),
        GpuVendor::UNKNOWN => None,
    }
}

pub open spec fn unknown_vendor_message() -> Seq<char> {
    "Unknown/Unimplemented GPU vendor"@
}

pub open spec fn unsupported_encoder_message() -> Seq<char> {
    "Only the H264 encoders can back a DynamicEncoder"@
}

/// The encoder for a detected GPU vendor; an unknown vendor is an
/// initialization error.
pub fn encoder_for_vendor(vendor: GpuVendor) -> (r: Result<VideoEncoderType, WaycapError>)
    ensures
        encoder_of_vendor(vendor) matches Some(t) ==> r == Ok::<VideoEncoderType, WaycapError>(t),
        encoder_of_vendor(vendor) is None ==> (r matches Err(e) && is_init_error(e, unknown_vendor_message())),
{
    match vendor {
        GpuVendor::NVIDIA => Ok(VideoEncoderType::H264Nvenc),
        GpuVendor::AMD | GpuVendor::INTEL => Ok(VideoEncoderType::H264Vaapi),
        GpuVendor::UNKNOWN => Err(WaycapError::Init("Unknown/Unimplemented GPU vendor".to_owned())),
    }
}

/// `r` is what [`encoder_for_vendor`] makes of the detection result `d`, a
/// failed detection passing its error on.
pub open spec fn resolved_from(
    d: Result<GpuVendor, WaycapError>,
    r: Result<VideoEncoderType, WaycapError>,
) -> bool {
    match d {
        Ok(g) => match encoder_of_vendor(g) {
            Some(t) => r == Ok::<VideoEncoderType, WaycapError>(t),
            None => r matches Err(e) && is_init_error(e, unknown_vendor_message()),
        },
        Err(e) => r == Err::<VideoEncoderType, WaycapError>(e),
    }
}

/// `t` is the encoder for the request: the requested one, or else the one
/// that some result of the detection `detect` leads to.
pub open spec fn resolution<D: FnOnce() -> Result<GpuVendor, WaycapError>>(
    requested: Option<VideoEncoderType>,
    detect: D,
    t: Result<VideoEncoderType, WaycapError>,
) -> bool {
    match requested {
        Some(x) => t == Ok::<VideoEncoderType, WaycapError>(x),
        None => exists|d: Result<GpuVendor, WaycapError>| #[trigger]
            call_ensures(detect, (), d) && resolved_from(d, t),
    }
}

/// The encoder to build: the requested one, or, when none is requested, the
/// one for the GPU vendor that `detect` reports. `detect` runs only when no
/// encoder is requested.
pub fn resolve_encoder_type<D>(requested: Option<VideoEncoderType>, detect: D) -> (r: Result<
    VideoEncoderType,
    WaycapError,
>) where D: FnOnce() -> Result<GpuVendor, WaycapError>
    requires
        requested is None ==> call_requires(detect, ()),
    ensures
        resolution(requested, detect, r),
{
    match requested {
        Some(t) => Ok(t),
        None => {
            let d = detect();
            let r = match d {
                Ok(g) => encoder_for_vendor(g),
                Err(e) => Err(e),
            };
            assert(call_ensures(detect, (), d) && resolved_from(d, r));
            r
        },
    }
}

/// `r` is the encoder built for the resolved encoder `t`: the result of the
/// matching constructor, wrapped in its variant.
pub open spec fn built_from<V, N, FV: FnOnce() -> Result<V, WaycapError>, FN: FnOnce() -> Result<N, WaycapError>>(
    t: Result<VideoEncoderType, WaycapError>,
    make_vaapi: FV,
    make_nvenc: FN,
    r: Result<DynamicEncoder<V, N>, WaycapError>,
) -> bool {
    match t {
        Err(e) => r == Err::<DynamicEncoder<V, N>, WaycapError>(e),
        Ok(VideoEncoderType::H264Vaapi) => match r {
            Ok(DynamicEncoder::Vaapi(v)) => call_ensures(make_vaapi, (), Ok::<V, WaycapError>(v)),
            Ok(DynamicEncoder::Nvenc(_)) => false,
            Err(e) => call_ensures(make_vaapi, (), Err::<V, WaycapError>(e)),
        },
        Ok(VideoEncoderType::H264Nvenc) => match r {
            Ok(DynamicEncoder::Nvenc(n)) => call_ensures(make_nvenc, (), Ok::<N, WaycapError>(n)),
            Ok(DynamicEncoder::Vaapi(_)) => false,
            Err(e) => call_ensures(make_nvenc, (), Err::<N, WaycapError>(e)),
        },
        Ok(_) => r matches Err(e) && is_config_error(e, unsupported_encoder_message()),
    }
}

impl<V, N> DynamicEncoder<V, N> {
    /// Builds the encoder: the requested one, or the one that suits the GPU
    /// vendor that `detect` reports. `make_vaapi` and `make_nvenc` build the
    /// backends; only the chosen one runs.
    pub fn new<D, FV, FN>(encoder_type: Option<VideoEncoderType>, detect: D, make_vaapi: FV, make_nvenc: FN) -> (r:
        Result<DynamicEncoder<V, N>, WaycapError>) where
        D: FnOnce() -> Result<GpuVendor, WaycapError>,
        FV: FnOnce() -> Result<V, WaycapError>,
        FN: FnOnce() -> Result<N, WaycapError>,

        requires
            encoder_type is None ==> call_requires(detect, ()),
            call_requires(make_vaapi, ()),
            call_requires(make_nvenc, ()),
        ensures
            exists|t: Result<VideoEncoderType, WaycapError>| #[trigger]
                resolution(encoder_type, detect, t) && built_from(t, make_vaapi, make_nvenc, r),
    {
        let t = resolve_encoder_type(encoder_type, detect);
        let r = match t {
            Err(e) => Err(e),
            Ok(VideoEncoderType::H264Vaapi) => match make_vaapi() {
                Ok(v) => Ok(DynamicEncoder::Vaapi(v)),
                Err(e) => Err(e),
            },
            Ok(VideoEncoderType::H264Nvenc) => match make_nvenc() {
                Ok(n) => Ok(DynamicEncoder::Nvenc(n)),
                Err(e) => Err(e),
            },
            Ok(_) => Err(WaycapError::Config("Only the H264 encoders can back a DynamicEncoder".to_owned())),
        };
        assert(resolution(encoder_type, detect, t) && built_from(t, make_vaapi, make_nvenc, r));
        r
    }
}

} // verus!
