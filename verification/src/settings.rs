use crate::format::PixelFormat;
use vstd::prelude::*;

verus! {

/// The settings of one encoding run, immutable while it runs.
#[derive(Debug, Clone)]
pub struct VideoSettings {
    /// Frames per second of the produced video.
    pub framerate: u64,
    /// Width of the video in pixels.
    pub width: u32,
    /// Height of the video in pixels.
    pub height: u32,
    /// The encoder element the sink pipeline is built with.
    pub encoder: String,
    /// The muxer element the sink pipeline is built with.
    pub muxer: String,
    /// The pixel format of the buffers handed to the sink.
    pub format: PixelFormat,
    /// The capability name restricting the encoder's output.
    pub caps: String,
    /// Extra key/value settings applied to the encoder element.
    pub encoder_settings: Vec<(String, String)>,
    /// Extra key/value settings applied to the muxer element.
    pub muxer_settings: Vec<(String, String)>,
}

impl VideoSettings {
    /// Settings for the stock pipeline: an H.264 encoder, an MP4 muxer and
    /// BGRx buffers, with no extra element settings.
    pub fn new(framerate: u64, width: u32, height: u32) -> (settings: VideoSettings)
        ensures
            settings.framerate == framerate,
            settings.width == width,
            settings.height == height,
            settings.encoder@ == "x264enc"@,
            settings.muxer@ == "mp4mux"@,
            settings.format == PixelFormat::Bgrx,
            settings.caps@ == "video/x-h264"@,
            settings.encoder_settings@.len() == 0,
            settings.muxer_settings@.len() == 0,
    {
        VideoSettings {
            framerate,
            width,
            height,
            encoder: "x264enc".to_owned(),
            muxer: "mp4mux".to_owned(),
            format: PixelFormat::Bgrx,
            caps: "video/x-h264".to_owned(),
            encoder_settings: Vec::new(),
            muxer_settings: Vec::new(),
        }
    }
}

} // verus!
