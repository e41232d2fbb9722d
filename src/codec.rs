use vstd::prelude::*;

use openh264::decoder::DecodedYUV;
use openh264::decoder::Decoder;
use openh264::encoder::Encoder;
use openh264::formats::YUVBuffer;

use crate::error::StreamError;

verus! {

/// `openh264::decoder::Decoder`, held opaque.
#[verifier::external_type_specification]
#[verifier::external_body]
pub struct ExDecoder(Decoder);

/// `openh264::encoder::Encoder`, held opaque.
#[verifier::external_type_specification]
#[verifier::external_body]
pub struct ExEncoder(Encoder);

/// `openh264::decoder::DecodedYUV`, an image borrowed from a decoder, held opaque.
#[verifier::external_type_specification]
#[verifier::external_body]
pub struct ExDecodedYUV<'a>(DecodedYUV<'a>);

/// `openh264::formats::YUVBuffer`, an owned image, held opaque.
#[verifier::external_type_specification]
#[verifier::external_body]
pub struct ExYUVBuffer(YUVBuffer);

/// The pixels that JPEG decoding yields for `data` (three bytes per pixel for
/// colour images), or `None` where the data does not decode.
pub uninterp spec fn jpeg_decoded(data: Seq<u8>) -> Option<Seq<u8>>;

/// The largest width or height an H264 encoder is given.
pub const MAX_DIMENSION: u32 = 0x7fff_ffff;

/// What a raw frame was made from: the packets its decoder had been fed, or
/// the RGB pixels it was converted from; with its size.
pub enum FrameView {
    Decoded { fed: Seq<Seq<u8>>, width: int, height: int },
    Converted { rgb: Seq<u8>, width: int, height: int },
}

/// Relies on `openh264::decoder::Decoder::new`: creates a decoder or fails.
#[verifier::external_body]
fn new_decoder() -> (r: Result<Decoder, openh264::Error>) {
    Decoder::new()
}

/// Relies on `openh264::encoder::Encoder::with_config` given
/// `EncoderConfig::new(width, height)`: creates an encoder for frames of that
/// size or fails.
#[verifier::external_body]
fn new_encoder(width: u32, height: u32) -> (r: Result<Encoder, openh264::Error>) {
    Encoder::with_config(openh264::encoder::EncoderConfig::new(width, height))
}

/// Relies on `openh264::encoder::Encoder::with_config` given
/// `EncoderConfig::new(width, height)` with `set_bitrate_bps(bitrate_bps)` and
/// `enable_skip_frame(skip_frames)`: creates an encoder for frames of that size
/// with those settings, or fails.
#[verifier::external_body]
fn new_configured_encoder(width: u32, height: u32, bitrate_bps: u32, skip_frames: bool) -> (r:
    Result<Encoder, openh264::Error>) {
    let config = openh264::encoder::EncoderConfig::new(width, height);
    Encoder::with_config(config.set_bitrate_bps(bitrate_bps).enable_skip_frame(skip_frames))
}

/// Relies on `openh264::decoder::Decoder::decode`: feeds one packet to the
/// decoder, and returns a frame once one is complete. A frame is recorded with
/// the size that `YUVSource::width` and `YUVSource::height` report for it, the
/// size `Encoder::encode` checks, and with the packets fed so far.
#[verifier::external_body]
pub(crate) fn decode_h264<'d>(decoder: &'d mut FrameDecoder, packet: &[u8]) -> (r: Result<
    Option<DecodedFrame<'d>>,
    openh264::Error,
>)
    ensures
        final(decoder).fed() == old(decoder).fed().push(packet@),
        r matches Ok(Some(f)) ==> f.view() matches FrameView::Decoded { fed, .. } && fed
            == final(decoder).fed(),
{
    let fed = Ghost(decoder.fed@.push(packet@));
    match decoder.decoder.decode(packet) {
        Ok(Some(yuv)) => Ok(
            Some(
                DecodedFrame {
                    width: openh264::formats::YUVSource::width(&yuv),
                    height: openh264::formats::YUVSource::height(&yuv),
                    yuv,
                    fed,
                },
            ),
        ),
        Ok(None) => Ok(None),
        Err(e) => Err(e),
    }
}

/// Relies on `jpeg_decoder::Decoder::decode` over the bytes of `data`. With the
/// crate's `platform_independent` feature the outcome depends on the bytes
/// alone, not on the processor.
#[verifier::external_body]
pub(crate) fn decode_jpeg(data: &[u8]) -> (r: Result<Vec<u8>, jpeg_decoder::Error>)
    ensures
        r is Ok <==> jpeg_decoded(data@) is Some,
        r matches Ok(px) ==> px@ == jpeg_decoded(data@)->Some_0,
{
    jpeg_decoder::Decoder::new(data).decode()
}

/// Relies on `openh264::formats::YUVBuffer::with_rgb`, which panics unless
/// there are three bytes per pixel and both sides are even. The image it
/// builds reports `width` and `height` through `YUVSource`.
#[verifier::external_body]
fn rgb_to_yuv(width: usize, height: usize, rgb: &[u8]) -> (r: ConvertedFrame)
    requires
        rgb@.len() == 3 * width * height,
        width % 2 == 0,
        height % 2 == 0,
    ensures
        r.width == width,
        r.height == height,
        r.rgb@ == rgb@,
{
    ConvertedFrame {
        yuv: YUVBuffer::with_rgb(width, height, rgb),
        width,
        height,
        rgb: Ghost(rgb@),
    }
}

/// What an encoder returned for one frame: its bytes, or `None` on failure.
pub open spec fn outcome_of(r: Result<Vec<u8>, openh264::Error>) -> Option<Seq<u8>> {
    match r {
        Ok(b) => Some(b@),
        Err(_) => None,
    }
}

/// Relies on `openh264::encoder::Encoder::encode` and `EncodedBitStream::to_vec`.
/// `encode` panics unless the frame has the encoder's size.
#[verifier::external_body]
pub(crate) fn encode_decoded(encoder: &mut FrameEncoder, frame: &DecodedFrame) -> (r: Result<
    Vec<u8>,
    openh264::Error,
>)
    requires
        frame.spec_width() as int == old(encoder).spec_width() as int,
        frame.spec_height() as int == old(encoder).spec_height() as int,
    ensures
        final(encoder).spec_width() == old(encoder).spec_width(),
        final(encoder).spec_height() == old(encoder).spec_height(),
        final(encoder).log() == old(encoder).log().push((frame.view(), outcome_of(r))),
{
    encoder.encoder.encode(&frame.yuv).map(|b| b.to_vec())
}

/// Relies on `openh264::encoder::Encoder::encode` and `EncodedBitStream::to_vec`.
/// `encode` panics unless the frame has the encoder's size.
#[verifier::external_body]
pub(crate) fn encode_converted(encoder: &mut FrameEncoder, frame: &ConvertedFrame) -> (r: Result<
    Vec<u8>,
    openh264::Error,
>)
    requires
        frame.spec_width() as int == old(encoder).spec_width() as int,
        frame.spec_height() as int == old(encoder).spec_height() as int,
    ensures
        final(encoder).spec_width() == old(encoder).spec_width(),
        final(encoder).spec_height() == old(encoder).spec_height(),
        final(encoder).log() == old(encoder).log().push((frame.view(), outcome_of(r))),
{
    encoder.encoder.encode(&frame.yuv).map(|b| b.to_vec())
}

/// An H264 decoder, with the packets it has been fed.
pub struct FrameDecoder {
    decoder: Decoder,
    fed: Ghost<Seq<Seq<u8>>>,
}

impl FrameDecoder {
    /// The packets fed to the decoder so far, oldest first.
    pub closed spec fn fed(&self) -> Seq<Seq<u8>> {
        self.fed@
    }

    /// Creates a decoder that has been fed nothing.
    pub fn new() -> (r: Result<FrameDecoder, StreamError>)
        ensures
            r matches Ok(d) ==> d.fed() == Seq::<Seq<u8>>::empty(),
            r matches Err(e) ==> e is H264EncoderError,
    {
        match new_decoder() {
            Ok(decoder) => Ok(FrameDecoder { decoder, fed: Ghost(Seq::empty()) }),
            Err(e) => Err(StreamError::H264EncoderError(e)),
        }
    }
}

/// An H264 encoder, the frame size it was configured for, and the frames it
/// has been handed with what it returned for each.
pub struct FrameEncoder {
    encoder: Encoder,
    width: u32,
    height: u32,
    log: Ghost<Seq<(FrameView, Option<Seq<u8>>)>>,
}

impl FrameEncoder {
    pub closed spec fn spec_width(&self) -> u32 {
        self.width
    }

    pub closed spec fn spec_height(&self) -> u32 {
        self.height
    }

    /// Each frame handed to the encoder, oldest first, with the bytes it
    /// returned or `None` where encoding failed.
    pub closed spec fn log(&self) -> Seq<(FrameView, Option<Seq<u8>>)> {
        self.log@
    }

    pub open spec fn wf(&self) -> bool {
        self.spec_width() <= MAX_DIMENSION && self.spec_height() <= MAX_DIMENSION
    }

    /// Creates an encoder for frames of `width` × `height` pixels.
    pub fn new(width: u32, height: u32) -> (r: Result<FrameEncoder, StreamError>)
        ensures
            r matches Ok(e) ==> {
                &&& e.wf()
                &&& e.spec_width() == width
                &&& e.spec_height() == height
                &&& e.log().len() == 0
            },
            (r matches Err(StreamError::FrameSizeMismatch)) <==> (width > MAX_DIMENSION || height
                > MAX_DIMENSION),
            r matches Err(e) ==> e is FrameSizeMismatch || e is H264EncoderError,
    {
        if width > MAX_DIMENSION || height > MAX_DIMENSION {
            return Err(StreamError::FrameSizeMismatch);
        }
        match new_encoder(width, height) {
            Ok(encoder) => Ok(FrameEncoder { encoder, width, height, log: Ghost(Seq::empty()) }),
            Err(e) => Err(StreamError::H264EncoderError(e)),
        }
    }

    /// Creates an encoder for frames of `width` × `height` pixels with a target
    /// bitrate and with frame skipping on or off.
    pub fn with_settings(width: u32, height: u32, bitrate_bps: u32, skip_frames: bool) -> (r:
        Result<FrameEncoder, StreamError>)
        ensures
            r matches Ok(e) ==> {
                &&& e.wf()
                &&& e.spec_width() == width
                &&& e.spec_height() == height
                &&& e.log().len() == 0
            },
            (r matches Err(StreamError::FrameSizeMismatch)) <==> (width > MAX_DIMENSION || height
                > MAX_DIMENSION),
            r matches Err(e) ==> e is FrameSizeMismatch || e is H264EncoderError,
    {
        if width > MAX_DIMENSION || height > MAX_DIMENSION {
            return Err(StreamError::FrameSizeMismatch);
        }
        match new_configured_encoder(width, height, bitrate_bps, skip_frames) {
            Ok(encoder) => Ok(FrameEncoder { encoder, width, height, log: Ghost(Seq::empty()) }),
            Err(e) => Err(StreamError::H264EncoderError(e)),
        }
    }

    pub fn width(&self) -> (r: u32)
        ensures
            r == self.spec_width(),
    {
        self.width
    }

    pub fn height(&self) -> (r: u32)
        ensures
            r == self.spec_height(),
    {
        self.height
    }
}

/// An image borrowed from an H264 decoder, with its size and the packets its
/// decoder had been fed when it came out.
pub struct DecodedFrame<'a> {
    yuv: DecodedYUV<'a>,
    width: i32,
    height: i32,
    fed: Ghost<Seq<Seq<u8>>>,
}

impl<'a> DecodedFrame<'a> {
    pub closed spec fn spec_width(&self) -> int {
        self.width as int
    }

    pub closed spec fn spec_height(&self) -> int {
        self.height as int
    }

    /// The packets the decoder had been fed when this frame came out.
    pub closed spec fn fed(&self) -> Seq<Seq<u8>> {
        self.fed@
    }

    pub open spec fn view(&self) -> FrameView {
        FrameView::Decoded { fed: self.fed(), width: self.spec_width(), height: self.spec_height() }
    }

    pub fn width(&self) -> (r: i32)
        ensures
            r == self.spec_width(),
    {
        self.width
    }

    pub fn height(&self) -> (r: i32)
        ensures
            r == self.spec_height(),
    {
        self.height
    }
}

/// An image converted from RGB pixels, with its size and those pixels.
pub struct ConvertedFrame {
    yuv: YUVBuffer,
    width: usize,
    height: usize,
    rgb: Ghost<Seq<u8>>,
}

impl ConvertedFrame {
    /// The RGB pixels the frame was converted from.
    pub closed spec fn rgb(&self) -> Seq<u8> {
        self.rgb@
    }

    pub open spec fn view(&self) -> FrameView {
        FrameView::Converted {
            rgb: self.rgb(),
            width: self.spec_width() as int,
            height: self.spec_height() as int,
        }
    }

    pub closed spec fn spec_width(&self) -> usize {
        self.width
    }

    pub closed spec fn spec_height(&self) -> usize {
        self.height
    }

    /// Converts `width` × `height` RGB pixels, three bytes each; both sides must
    /// be even.
    pub fn from_rgb(width: usize, height: usize, rgb: &[u8]) -> (r: Result<
        ConvertedFrame,
        StreamError,
    >)
        ensures
            r is Ok <==> (rgb@.len() == 3 * width * height && width % 2 == 0 && height % 2 == 0),
            r matches Ok(f) ==> f.spec_width() == width && f.spec_height() == height && f.view()
                == (FrameView::Converted { rgb: rgb@, width: width as int, height: height as int }),
            r matches Err(e) ==> e is FrameSizeMismatch,
    {
        let (w, h) = (width as u128, height as u128);
        assert(w * h <= 0xffff_ffff_ffff_ffff * 0xffff_ffff_ffff_ffff) by (nonlinear_arith)
            requires
                w <= 0xffff_ffff_ffff_ffff,
                h <= 0xffff_ffff_ffff_ffff,
        ;
        let pixels = w * h;
        assert(3 * (w as int) * (h as int) == 3 * ((w as int) * (h as int))) by (nonlinear_arith);
        let len = rgb.len();
        assert(len % 3 == 0 && (len / 3) as u128 == pixels <==> len == 3 * pixels);
        if len % 3 != 0 || (len / 3) as u128 != pixels || width % 2 != 0 || height % 2 != 0 {
            return Err(StreamError::FrameSizeMismatch);
        }
        Ok(rgb_to_yuv(width, height, rgb))
    }

    pub fn width(&self) -> (r: usize)
        ensures
            r == self.spec_width(),
    {
        self.width
    }

    pub fn height(&self) -> (r: usize)
        ensures
            r == self.spec_height(),
    {
        self.height
    }
}

} // verus!
