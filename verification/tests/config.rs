use waycap_rs::types::config::{
    ColorRange, EncodeOptions, EncoderTune, RateControl, DEFAULT_GOP_SIZE,
};

#[test]
fn defaults_match_legacy_hardcodes() {
    let o = EncodeOptions::default();
    assert_eq!(o.gop_size, 30);
    assert_eq!(o.tune.as_ffmpeg_tune(), "hq");
    assert_eq!(o.color_range.as_ffmpeg_color_range(), "tv");
}

#[test]
fn performance_tune_is_low_latency() {
    assert_eq!(EncoderTune::Performance.as_ffmpeg_tune(), "ll");
}

#[test]
fn full_range_maps_to_pc() {
    assert_eq!(ColorRange::Full.as_ffmpeg_color_range(), "pc");
}

#[test]
fn quality_tune_is_hq_and_limited_is_tv() {
    assert_eq!(EncoderTune::Quality.as_ffmpeg_tune(), "hq");
    assert_eq!(ColorRange::Limited.as_ffmpeg_color_range(), "tv");
}

#[test]
fn enum_defaults() {
    assert_eq!(RateControl::default(), RateControl::Quality);
    assert_eq!(EncoderTune::default(), EncoderTune::Quality);
    assert_eq!(ColorRange::default(), ColorRange::Limited);
    assert_eq!(DEFAULT_GOP_SIZE, 30);
    assert_eq!(
        EncodeOptions::default(),
        EncodeOptions { gop_size: 30, tune: EncoderTune::Quality, color_range: ColorRange::Limited }
    );
}
