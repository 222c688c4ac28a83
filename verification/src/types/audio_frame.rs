use vstd::prelude::*;

verus! {

/// An encoded audio packet together with the capture time of the samples
/// it was made from.
#[derive(Debug, Clone)]
pub struct EncodedAudioFrame {
    pub data: Vec<u8>,
    pub pts: i64,
    pub timestamp: i64,
}

} // verus!
