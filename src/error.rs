use vstd::prelude::*;

verus! {

/// `std::io::Error`, held opaque.
#[verifier::external_type_specification]
#[verifier::external_body]
pub struct ExIoError(std::io::Error);

/// `openh264::Error`, held opaque.
#[verifier::external_type_specification]
#[verifier::external_body]
pub struct ExH264Error(openh264::Error);

/// `jpeg_decoder::Error`, held opaque.
#[verifier::external_type_specification]
#[verifier::external_body]
pub struct ExJpegError(jpeg_decoder::Error);

/// Failures while resolving a capture device.
#[derive(Debug)]
pub enum DeviceError {
    /// The device exists but could not be opened.
    CouldNotOpen(std::io::Error),
    /// No device matches the requested path.
    DeviceNotFound,
}

/// Failures while configuring a capture session or producing frames.
#[derive(Debug)]
pub enum StreamError {
    /// No advertised configuration is within the frame-rate ceiling.
    NoSupportedConfiguration,
    /// The device rejected the negotiated format or frame interval.
    SettingsFailure(std::io::Error),
    /// The buffer queue could not be opened.
    BufferStreamFailure(std::io::Error),
    /// The H264 decoder or encoder failed.
    H264EncoderError(openh264::Error),
    /// A captured image could not be decoded as JPEG.
    JPEGDecoderError(jpeg_decoder::Error),
    /// Reading a buffer from an open stream failed.
    StreamFailure(std::io::Error),
    /// A frame's size does not match the size it must be encoded at.
    FrameSizeMismatch,
}

} // verus!
