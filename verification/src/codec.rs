//! Video codec capability interfaces and their backends. The backends here
//! carry configuration state only; the encode and decode calls themselves
//! belong to the codec collaborator of the surrounding process.

use vstd::prelude::*;

verus! {

use crate::Error;
use vstd::string::StringExecFns;

/// Video codec kind.
#[derive(Debug, Clone, Copy, PartialEq, Eq, Structural)]
pub enum CodecType {
    /// H.264 (AVC): widely supported, good hardware acceleration.
    H264,
    /// VP9: royalty-free, good compression.
    VP9,
}

/// Encoder configuration.
#[derive(Debug, Clone, Copy, PartialEq, Eq, Structural)]
pub struct EncoderConfig {
    /// Codec to use.
    pub codec: CodecType,
    /// Video width in pixels.
    pub width: u32,
    /// Video height in pixels.
    pub height: u32,
    /// Target frame rate.
    pub fps: u32,
    /// Target bitrate in kbps.
    pub bitrate: u32,
    /// Whether to use hardware acceleration when available.
    pub use_hardware_accel: bool,
}

impl Default for EncoderConfig {
    /// H.264 at 1920x1080, 30 frames per second, 2 Mbps.
    fn default() -> (r: Self)
        ensures
            r.codec == CodecType::H264,
            r.width == 1920,
            r.height == 1080,
            r.fps == 30,
            r.bitrate == 2000,
            r.use_hardware_accel,
    {
        EncoderConfig {
            codec: CodecType::H264,
            width: 1920,
            height: 1080,
            fps: 30,
            bitrate: 2000,
            use_hardware_accel: true,
        }
    }
}

/// Decoder configuration.
#[derive(Debug, Clone, Copy, PartialEq, Eq, Structural)]
pub struct DecoderConfig {
    /// Expected codec.
    pub codec: CodecType,
    /// Whether to use hardware acceleration when available.
    pub use_hardware_accel: bool,
}

impl Default for DecoderConfig {
    /// H.264 with hardware acceleration.
    fn default() -> (r: Self)
        ensures
            r.codec == CodecType::H264,
            r.use_hardware_accel,
    {
        DecoderConfig { codec: CodecType::H264, use_hardware_accel: true }
    }
}

/// A raw (unencoded) video frame.
#[derive(Debug, Clone)]
pub struct RawFrame {
    /// RGBA pixel data.
    pub data: Vec<u8>,
    /// Frame width.
    pub width: u32,
    /// Frame height.
    pub height: u32,
    /// Timestamp in microseconds.
    pub timestamp: u64,
}

/// An encoded video frame.
#[derive(Debug, Clone)]
pub struct EncodedFrame {
    /// Compressed frame data.
    pub data: Vec<u8>,
    /// Timestamp in microseconds.
    pub timestamp: u64,
    /// Whether this is a keyframe.
    pub is_keyframe: bool,
}

/// Capability interface of a video encoder.
pub trait VideoEncoder: Send + Sync {
    /// Initialize the encoder.
    fn init(&mut self, config: EncoderConfig) -> Result<(), Error>;

    /// Encode one raw frame.
    fn encode(&mut self, frame: RawFrame) -> Result<EncodedFrame, Error>;

    /// Force the next frame to be a keyframe.
    fn force_keyframe(&mut self) -> Result<(), Error>;

    /// Adjust the bitrate dynamically.
    fn set_bitrate(&mut self, bitrate: u32) -> Result<(), Error>;

    /// Release resources.
    fn cleanup(&mut self) -> Result<(), Error>;
}

/// Capability interface of a video decoder.
pub trait VideoDecoder: Send + Sync {
    /// Initialize the decoder.
    fn init(&mut self, config: DecoderConfig) -> Result<(), Error>;

    /// Decode one encoded frame.
    fn decode(&mut self, frame: EncodedFrame) -> Result<RawFrame, Error>;

    /// Release resources.
    fn cleanup(&mut self) -> Result<(), Error>;
}

/// Create the encoder backend for a codec.
pub fn create_encoder(codec: CodecType) -> (r: Result<Box<dyn VideoEncoder>, Error>)
    ensures
        r is Ok,
{
    match codec {
        CodecType::H264 => Ok(Box::new(H264Encoder::new())),
        CodecType::VP9 => Ok(Box::new(VP9Encoder::new())),
    }
}

/// Create the decoder backend for a codec.
pub fn create_decoder(codec: CodecType) -> (r: Result<Box<dyn VideoDecoder>, Error>)
    ensures
        r is Ok,
{
    match codec {
        CodecType::H264 => Ok(Box::new(H264Decoder::new())),
        CodecType::VP9 => Ok(Box::new(VP9Decoder::new())),
    }
}

struct H264Encoder {
    config: Option<EncoderConfig>,
}

impl H264Encoder {
    fn new() -> (r: H264Encoder)
        ensures
            r.config is None,
    {
        H264Encoder { config: None }
    }
}

impl VideoEncoder for H264Encoder {
    fn init(&mut self, config: EncoderConfig) -> Result<(), Error> {
        self.config = Some(config);
        Ok(())
    }

    fn encode(&mut self, frame: RawFrame) -> Result<EncodedFrame, Error> {
        Err(Error::Encoding(String::from_str("H.264 encoding requires a codec backend")))
    }

    fn force_keyframe(&mut self) -> Result<(), Error> {
        Ok(())
    }

    fn set_bitrate(&mut self, bitrate: u32) -> Result<(), Error> {
        Ok(())
    }

    fn cleanup(&mut self) -> Result<(), Error> {
        Ok(())
    }
}

struct VP9Encoder {
    config: Option<EncoderConfig>,
}

impl VP9Encoder {
    fn new() -> (r: VP9Encoder)
        ensures
            r.config is None,
    {
        VP9Encoder { config: None }
    }
}

impl VideoEncoder for VP9Encoder {
    fn init(&mut self, config: EncoderConfig) -> Result<(), Error> {
        self.config = Some(config);
        Ok(())
    }

    fn encode(&mut self, frame: RawFrame) -> Result<EncodedFrame, Error> {
        Err(Error::Encoding(String::from_str("VP9 encoding requires a codec backend")))
    }

    fn force_keyframe(&mut self) -> Result<(), Error> {
        Ok(())
    }

    fn set_bitrate(&mut self, bitrate: u32) -> Result<(), Error> {
        Ok(())
    }

    fn cleanup(&mut self) -> Result<(), Error> {
        Ok(())
    }
}

struct H264Decoder {
    config: Option<DecoderConfig>,
}

impl H264Decoder {
    fn new() -> (r: H264Decoder)
        ensures
            r.config is None,
    {
        H264Decoder { config: None }
    }
}

impl VideoDecoder for H264Decoder {
    fn init(&mut self, config: DecoderConfig) -> Result<(), Error> {
        self.config = Some(config);
        Ok(())
    }

    fn decode(&mut self, frame: EncodedFrame) -> Result<RawFrame, Error> {
        Err(Error::Decoding(String::from_str("H.264 decoding requires a codec backend")))
    }

    fn cleanup(&mut self) -> Result<(), Error> {
        Ok(())
    }
}

struct VP9Decoder {
    config: Option<DecoderConfig>,
}

impl VP9Decoder {
    fn new() -> (r: VP9Decoder)
        ensures
            r.config is None,
    {
        VP9Decoder { config: None }
    }
}

impl VideoDecoder for VP9Decoder {
    fn init(&mut self, config: DecoderConfig) -> Result<(), Error> {
        self.config = Some(config);
        Ok(())
    }

    fn decode(&mut self, frame: EncodedFrame) -> Result<RawFrame, Error> {
        Err(Error::Decoding(String::from_str("VP9 decoding requires a codec backend")))
    }

    fn cleanup(&mut self) -> Result<(), Error> {
        Ok(())
    }
}

} // verus!
