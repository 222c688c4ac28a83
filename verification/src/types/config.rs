use vstd::prelude::*;

verus! {

/// Video codec and backend to encode with.
#[derive(Debug, Clone, Copy, PartialEq, Eq, Structural)]
pub enum VideoEncoder {
    H264Nvenc,
    HevcNvenc,
    Av1Nvenc,
    H264Vaapi,
}

/// Audio codec to encode with.
#[derive(Debug, Clone, Copy, PartialEq, Eq, Structural)]
pub enum AudioEncoder {
    Opus,
}

/// Quality presets of the video encoders.
#[derive(Debug, Clone, Copy, PartialEq, Eq, Structural)]
pub enum QualityPreset {
    Low,
    Medium,
    High,
    Ultra,
}

/// Encoder rate control.
#[derive(Debug, Clone, Copy, PartialEq, Eq, Structural)]
pub enum RateControl {
    /// Constant-quality VBR derived from the [`QualityPreset`] (the default).
    Quality,
    /// Constant bitrate at the given kbit/s.
    ConstantBitrate { kbps: u32 },
}

impl Default for RateControl {
    fn default() -> (r: Self)
        ensures
            r == RateControl::Quality,
    {
        RateControl::Quality
    }
}

/// Default GOP length in frames.
pub const DEFAULT_GOP_SIZE: u32 = 30;

/// Rate-distortion / latency tune of the encoder.
#[derive(Debug, Clone, Copy, PartialEq, Eq, Structural)]
pub enum EncoderTune {
    /// High quality (`tune=hq`).
    Quality,
    /// Low latency (`tune=ll`).
    Performance,
}

impl Default for EncoderTune {
    fn default() -> (r: Self)
        ensures
            r == EncoderTune::Quality,
    {
        EncoderTune::Quality
    }
}

/// The value of ffmpeg's `tune` option for a tune.
pub open spec fn tune_name(t: EncoderTune) -> Seq<char> {
    match t {
        EncoderTune::Quality => "hq"@,
        EncoderTune::Performance => "ll"@,
    }
}

impl EncoderTune {
    /// Value for ffmpeg's `tune` option.
    pub fn as_ffmpeg_tune(self) -> (name: &'static str)
        ensures
            name@ == tune_name(self),
    {
        match self {
            EncoderTune::Quality => "hq",
            EncoderTune::Performance => "ll",
        }
    }
}

/// Encoded luma/chroma sample value range.
#[derive(Debug, Clone, Copy, PartialEq, Eq, Structural)]
pub enum ColorRange {
    Limited,
    Full,
}

impl Default for ColorRange {
    fn default() -> (r: Self)
        ensures
            r == ColorRange::Limited,
    {
        ColorRange::Limited
    }
}

/// The ffmpeg `color_range` value of a range.
pub open spec fn color_range_name(r: ColorRange) -> Seq<char> {
    match r {
        ColorRange::Limited => "tv"@,
        ColorRange::Full => "pc"@,
    }
}

impl ColorRange {
    /// ffmpeg `color_range` dictionary value (`tv` / `pc`).
    pub fn as_ffmpeg_color_range(self) -> (name: &'static str)
        ensures
            name@ == color_range_name(self),
    {
        match self {
            ColorRange::Limited => "tv",
            ColorRange::Full => "pc",
        }
    }
}

/// Video encode knobs.
#[derive(Debug, Clone, Copy, PartialEq, Eq, Structural)]
pub struct EncodeOptions {
    /// Frames between IDR/keyframes (GOP length).
    pub gop_size: u32,
    pub tune: EncoderTune,
    pub color_range: ColorRange,
}

/// The encode options used when none are set.
pub open spec fn default_encode_options() -> EncodeOptions {
    EncodeOptions { gop_size: DEFAULT_GOP_SIZE, tune: EncoderTune::Quality, color_range: ColorRange::Limited }
}

impl Default for EncodeOptions {
    fn default() -> (r: Self)
        ensures
            r == default_encode_options(),
    {
        EncodeOptions { gop_size: DEFAULT_GOP_SIZE, tune: EncoderTune::Quality, color_range: ColorRange::Limited }
    }
}

} // verus!
