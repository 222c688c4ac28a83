//! The capture builder: collects the capture options and resolves them into
//! the settings a capture session is started with.
use vstd::prelude::*;

use crate::types::config::{
    AudioEncoder, ColorRange, EncodeOptions, EncoderTune, QualityPreset, RateControl, VideoEncoder,
    DEFAULT_GOP_SIZE, default_encode_options,
};

verus! {

/// Target frame rate when none is set.
pub const DEFAULT_TARGET_FPS: u64 = 60;

/// Options for a capture session, set one by one.
pub struct CaptureBuilder {
    video_encoder: Option<VideoEncoder>,
    audio_encoder: Option<AudioEncoder>,
    quality_preset: Option<QualityPreset>,
    rate_control: RateControl,
    encode: EncodeOptions,
    include_cursor: bool,
    include_audio: bool,
    include_mic: bool,
    target_fps: u64,
    restore_token: Option<String>,
}

/// The options held by a [`CaptureBuilder`].
pub struct BuilderView {
    pub video_encoder: Option<VideoEncoder>,
    pub audio_encoder: Option<AudioEncoder>,
    pub quality_preset: Option<QualityPreset>,
    pub rate_control: RateControl,
    pub encode: EncodeOptions,
    pub include_cursor: bool,
    pub include_audio: bool,
    pub include_mic: bool,
    pub target_fps: u64,
    pub restore_token: Option<String>,
}

impl View for CaptureBuilder {
    type V = BuilderView;

    closed spec fn view(&self) -> BuilderView {
        BuilderView {
            video_encoder: self.video_encoder,
            audio_encoder: self.audio_encoder,
            quality_preset: self.quality_preset,
            rate_control: self.rate_control,
            encode: self.encode,
            include_cursor: self.include_cursor,
            include_audio: self.include_audio,
            include_mic: self.include_mic,
            target_fps: self.target_fps,
            restore_token: self.restore_token,
        }
    }
}

/// The options of a new builder: no encoder forced, no quality preset, the
/// default rate control and encode options, no cursor, audio or microphone,
/// 60 frames per second and no restore token.
pub open spec fn default_builder() -> BuilderView {
    BuilderView {
        video_encoder: None,
        audio_encoder: None,
        quality_preset: None,
        rate_control: RateControl::Quality,
        encode: default_encode_options(),
        include_cursor: false,
        include_audio: false,
        include_mic: false,
        target_fps: DEFAULT_TARGET_FPS,
        restore_token: None,
    }
}

/// The GOP length kept for a requested one: at least 1.
pub open spec fn clamped_gop(gop_size: u32) -> u32 {
    if gop_size < 1 {
        1
    } else {
        gop_size
    }
}

/// The settings a capture session is started with.
pub struct CaptureSettings {
    /// The forced video encoder; `None` picks one by GPU vendor.
    pub video_encoder: Option<VideoEncoder>,
    pub audio_encoder: AudioEncoder,
    pub quality: QualityPreset,
    pub rate_control: RateControl,
    pub encode: EncodeOptions,
    pub include_cursor: bool,
    pub include_audio: bool,
    pub include_mic: bool,
    pub target_fps: u64,
    pub restore_token: Option<String>,
}

/// The settings the options resolve to: the Medium preset when none is set,
/// and the Opus encoder unless another audio encoder is set with audio on.
pub open spec fn settings_of(b: BuilderView) -> CaptureSettings {
    CaptureSettings {
        video_encoder: b.video_encoder,
        audio_encoder: if b.include_audio {
            match b.audio_encoder {
                Some(enc) => enc,
                None => AudioEncoder::Opus,
            }
        } else {
            AudioEncoder::Opus
        },
        quality: match b.quality_preset {
            Some(q) => q,
            None => QualityPreset::Medium,
        },
        rate_control: b.rate_control,
        encode: b.encode,
        include_cursor: b.include_cursor,
        include_audio: b.include_audio,
        include_mic: b.include_mic,
        target_fps: b.target_fps,
        restore_token: b.restore_token,
    }
}

impl Default for CaptureBuilder {
    fn default() -> (b: Self)
        ensures
            b@ == default_builder(),
    {
        Self::new()
    }
}

impl CaptureBuilder {
    pub fn new() -> (b: Self)
        ensures
            b@ == default_builder(),
    {
        CaptureBuilder {
            video_encoder: None,
            audio_encoder: None,
            quality_preset: None,
            rate_control: RateControl::Quality,
            encode: EncodeOptions { gop_size: DEFAULT_GOP_SIZE, tune: EncoderTune::Quality, color_range: ColorRange::Limited },
            include_cursor: false,
            include_audio: false,
            include_mic: false,
            target_fps: DEFAULT_TARGET_FPS,
            restore_token: None,
        }
    }

    /// Optional: Force use a specific video encoder.
    /// Default: the GPU vendor decides at run time.
    pub fn with_video_encoder(self, encoder: VideoEncoder) -> (b: Self)
        ensures
            b@ == (BuilderView { video_encoder: Some(encoder), ..self@ }),
    {
        let mut b = self;
        b.video_encoder = Some(encoder);
        b
    }

    /// Optional: Force use a specific audio encoder.
    /// Default: Opus audio encoder.
    pub fn with_audio_encoder(self, encoder: AudioEncoder) -> (b: Self)
        ensures
            b@ == (BuilderView { audio_encoder: Some(encoder), ..self@ }),
    {
        let mut b = self;
        b.audio_encoder = Some(encoder);
        b
    }

    pub fn with_cursor_shown(self) -> (b: Self)
        ensures
            b@ == (BuilderView { include_cursor: true, ..self@ }),
    {
        let mut b = self;
        b.include_cursor = true;
        b
    }

    pub fn with_audio(self) -> (b: Self)
        ensures
            b@ == (BuilderView { include_audio: true, ..self@ }),
    {
        let mut b = self;
        b.include_audio = true;
        b
    }

    /// Optional: also capture the default microphone and mix it into the
    /// single audio track. Implies [`Self::with_audio`].
    pub fn with_microphone(self) -> (b: Self)
        ensures
            b@ == (BuilderView { include_audio: true, include_mic: true, ..self@ }),
    {
        let mut b = self;
        b.include_audio = true;
        b.include_mic = true;
        b
    }

    pub fn with_quality_preset(self, quality: QualityPreset) -> (b: Self)
        ensures
            b@ == (BuilderView { quality_preset: Some(quality), ..self@ }),
    {
        let mut b = self;
        b.quality_preset = Some(quality);
        b
    }

    /// Optional: encoder rate control. Default: constant-quality VBR from the
    /// quality preset.
    pub fn with_rate_control(self, rate_control: RateControl) -> (b: Self)
        ensures
            b@ == (BuilderView { rate_control, ..self@ }),
    {
        let mut b = self;
        b.rate_control = rate_control;
        b
    }

    /// Optional: Set a target FPS for the recording.
    /// Default: 60fps
    pub fn with_target_fps(self, fps: u64) -> (b: Self)
        ensures
            b@ == (BuilderView { target_fps: fps, ..self@ }),
    {
        let mut b = self;
        b.target_fps = fps;
        b
    }

    /// Keyframe interval in frames (GOP length). Default: [`DEFAULT_GOP_SIZE`]
    /// (30). Values below 1 are clamped to 1.
    pub fn with_gop(self, gop_size: u32) -> (b: Self)
        ensures
            b@ == (BuilderView { encode: EncodeOptions { gop_size: clamped_gop(gop_size), ..self@.encode }, ..self@ }),
    {
        let mut b = self;
        b.encode.gop_size = if gop_size < 1 {
            1
        } else {
            gop_size
        };
        b
    }

    /// Encoder tune bias. Default: [`EncoderTune::Quality`] (`hq`).
    pub fn with_encoder_tune(self, tune: EncoderTune) -> (b: Self)
        ensures
            b@ == (BuilderView { encode: EncodeOptions { tune, ..self@.encode }, ..self@ }),
    {
        let mut b = self;
        b.encode.tune = tune;
        b
    }

    /// Encoded sample value range. Default: [`ColorRange::Limited`].
    pub fn with_color_range(self, range: ColorRange) -> (b: Self)
        ensures
            b@ == (BuilderView { encode: EncodeOptions { color_range: range, ..self@.encode }, ..self@ }),
    {
        let mut b = self;
        b.encode.color_range = range;
        b
    }

    /// Optional: Provide a restore token from a previous session to skip the
    /// screen-recording permission prompt.
    pub fn with_restore_token(self, token: String) -> (b: Self)
        ensures
            b@ == (BuilderView { restore_token: Some(token), ..self@ }),
    {
        let mut b = self;
        b.restore_token = Some(token);
        b
    }

    /// The encode options set so far.
    pub fn encode_options(&self) -> (o: EncodeOptions)
        ensures
            o == self@.encode,
    {
        self.encode
    }

    /// Resolves the options into the settings a capture is started with.
    pub fn build(self) -> (s: CaptureSettings)
        ensures
            s == settings_of(self@),
    {
        let quality = match self.quality_preset {
            Some(qual) => qual,
            None => QualityPreset::Medium,
        };
        let audio_encoder = if self.include_audio {
            match self.audio_encoder {
                Some(enc) => enc,
                None => AudioEncoder::Opus,
            }
        } else {
            AudioEncoder::Opus
        };
        CaptureSettings {
            video_encoder: self.video_encoder,
            audio_encoder,
            quality,
            rate_control: self.rate_control,
            encode: self.encode,
            include_cursor: self.include_cursor,
            include_audio: self.include_audio,
            include_mic: self.include_mic,
            target_fps: self.target_fps,
            restore_token: self.restore_token,
        }
    }
}

/// Building keeps what was set: a preset that was set is the preset of the
/// settings (only an unset one becomes Medium), an audio encoder set with
/// audio on is the one used, and every other option is carried over as set.
pub proof fn build_keeps_options(b: BuilderView)
    ensures
        forall|q: QualityPreset| b.quality_preset == Some(q) ==> #[trigger] settings_of(b).quality == q,
        b.quality_preset is None ==> settings_of(b).quality == QualityPreset::Medium,
        forall|e: AudioEncoder|
            b.include_audio && b.audio_encoder == Some(e) ==> #[trigger] settings_of(b).audio_encoder == e,
        settings_of(b).video_encoder == b.video_encoder,
        settings_of(b).rate_control == b.rate_control,
        settings_of(b).encode == b.encode,
        settings_of(b).include_cursor == b.include_cursor,
        settings_of(b).include_audio == b.include_audio,
        settings_of(b).include_mic == b.include_mic,
        settings_of(b).target_fps == b.target_fps,
        settings_of(b).restore_token == b.restore_token,
{
}

/// The GOP length a builder holds is never below 1 once it has been set.
pub proof fn gop_is_at_least_one(gop_size: u32)
    ensures
        clamped_gop(gop_size) >= 1,
        gop_size >= 1 ==> clamped_gop(gop_size) == gop_size,
{
}

} // verus!
