pub mod dynamic_encoder;
pub mod opus_encoder;
pub mod video;
