use vstd::prelude::*;

verus! {

/// An audio stream as reported by the prober.
#[derive(Debug, Clone)]
pub struct FfprobeAudioStream {
    pub codec_name: String,
    pub profile: String,
    pub sample_rate: String,
    pub channel_layout: String,
}

/// A video stream as reported by the prober.
#[derive(Debug, Clone)]
pub struct FfprobeVideoStream {
    pub codec_name: String,
    pub profile: String,
    pub width: u16,
    pub height: u16,
    pub pix_fmt: String,
    pub avg_frame_rate: String,
}

/// One stream of a probed file.
#[derive(Debug, Clone)]
pub enum FfprobeStream {
    Audio(FfprobeAudioStream),
    Video(FfprobeVideoStream),
}

/// The streams of a probed file.
#[derive(Debug, Clone)]
pub struct Ffprobe {
    pub streams: Vec<FfprobeStream>,
}

impl FfprobeStream {
    /// The audio stream, when this is one.
    pub fn audio(&self) -> (r: Option<&FfprobeAudioStream>)
        ensures
            match self {
                FfprobeStream::Audio(a) => r == Some(a),
                FfprobeStream::Video(_) => r is None,
            },
    {
        match self {
            FfprobeStream::Audio(x) => Some(x),
            _ => None,
        }
    }

    /// The video stream, when this is one.
    pub fn video(&self) -> (r: Option<&FfprobeVideoStream>)
        ensures
            match self {
                FfprobeStream::Video(v) => r == Some(v),
                FfprobeStream::Audio(_) => r is None,
            },
    {
        match self {
            FfprobeStream::Video(x) => Some(x),
            _ => None,
        }
    }
}

} // verus!
