use vstd::prelude::*;

use crate::codec::decode_h264;
use crate::codec::decode_jpeg;
use crate::codec::encode_converted;
use crate::codec::encode_decoded;
use crate::codec::jpeg_decoded;
use crate::codec::ConvertedFrame;
use crate::codec::DecodedFrame;
use crate::codec::FrameDecoder;
use crate::codec::FrameEncoder;
use crate::codec::FrameView;
use crate::codec::MAX_DIMENSION;
use crate::error::StreamError;
use crate::negotiate::CompressedFormat;
use crate::negotiate::NegotiatedConfig;

verus! {

/// How captured buffers become H264: passed through, or transcoded from JPEG.
pub enum EncoderMode {
    /// The device emits H264; the decoder yields raw frames on request.
    H264Native(FrameDecoder),
    /// The device emits JPEG images, which are re-encoded as H264.
    MjpegNative(FrameEncoder),
}

/// A raw frame, either decoded from the device's H264 or converted from a JPEG image.
pub enum YUVFrame<'a> {
    Decoded(DecodedFrame<'a>),
    Buffer(ConvertedFrame),
}

pub open spec fn view_width(v: FrameView) -> int {
    match v {
        FrameView::Decoded { width, .. } => width,
        FrameView::Converted { width, .. } => width,
    }
}

pub open spec fn view_height(v: FrameView) -> int {
    match v {
        FrameView::Decoded { height, .. } => height,
        FrameView::Converted { height, .. } => height,
    }
}

impl<'a> YUVFrame<'a> {
    /// What the frame was made from, and its size.
    pub open spec fn view(&self) -> FrameView {
        match self {
            YUVFrame::Decoded(f) => f.view(),
            YUVFrame::Buffer(f) => f.view(),
        }
    }

    /// Encodes the frame with `encoder` and returns the H264 bitstream. A frame
    /// of another size than the encoder's is refused and the encoder left alone.
    pub fn encode_using(&self, encoder: &mut FrameEncoder) -> (r: Result<Vec<u8>, StreamError>)
        requires
            old(encoder).wf(),
        ensures
            final(encoder).wf(),
            final(encoder).spec_width() == old(encoder).spec_width(),
            final(encoder).spec_height() == old(encoder).spec_height(),
            (r matches Err(StreamError::FrameSizeMismatch)) <==> (view_width(self.view())
                != old(encoder).spec_width() || view_height(self.view())
                != old(encoder).spec_height()),
            r matches Err(StreamError::FrameSizeMismatch) ==> final(encoder).log() == old(
                encoder,
            ).log(),
            !(r matches Err(StreamError::FrameSizeMismatch)) ==> {
                &&& final(encoder).log() == old(encoder).log().push(
                    (self.view(), final(encoder).log().last().1),
                )
                &&& r matches Ok(b) ==> final(encoder).log().last().1 == Some(b@)
                &&& r matches Err(e) ==> e is H264EncoderError && final(encoder).log().last().1
                    is None
            },
    {
        let out = match self {
            YUVFrame::Decoded(frame) => {
                if frame.width() as i64 != encoder.width() as i64 || frame.height() as i64
                    != encoder.height() as i64 {
                    return Err(StreamError::FrameSizeMismatch);
                }
                encode_decoded(encoder, frame)
            },
            YUVFrame::Buffer(frame) => {
                if frame.width() as u64 != encoder.width() as u64 || frame.height() as u64
                    != encoder.height() as u64 {
                    return Err(StreamError::FrameSizeMismatch);
                }
                encode_converted(encoder, frame)
            },
        };
        match out {
            Ok(bytes) => Ok(bytes),
            Err(e) => Err(StreamError::H264EncoderError(e)),
        }
    }
}

/// Pairs the output bytes with what the decoder answered: a frame is handed
/// on, "no frame yet" is no error, and a decoder failure is an error.
pub fn with_decoded<'a>(
    out: Vec<u8>,
    answer: Result<Option<DecodedFrame<'a>>, openh264::Error>,
) -> (r: Result<(Vec<u8>, Option<YUVFrame<'a>>), StreamError>)
    ensures
        answer is Ok <==> r is Ok,
        r matches Ok((o, _)) ==> o == out,
        answer matches Ok(None) ==> (r matches Ok((_, f)) && f is None),
        answer matches Ok(Some(d)) ==> (r matches Ok((_, f)) && f matches Some(y) && y
            == YUVFrame::Decoded(d)),
        r matches Err(e) ==> e is H264EncoderError,
{
    match answer {
        Ok(Some(frame)) => Ok((out, Some(YUVFrame::Decoded(frame)))),
        Ok(None) => Ok((out, None)),
        Err(e) => Err(StreamError::H264EncoderError(e)),
    }
}

/// The per-frame half of a capture session: the mode chosen at negotiation and
/// the negotiated frame size.
pub struct FramePipeline {
    pub mode: EncoderMode,
    pub width: u32,
    pub height: u32,
}

impl FramePipeline {
    pub open spec fn wf(&self) -> bool {
        match self.mode {
            EncoderMode::H264Native(_) => true,
            EncoderMode::MjpegNative(e) => e.wf() && e.spec_width() == self.width
                && e.spec_height() == self.height,
        }
    }

    /// Builds the mode for a negotiated configuration: a decoder where the device
    /// emits H264, an encoder of the negotiated size where it emits JPEG.
    pub fn new(config: &NegotiatedConfig) -> (r: Result<FramePipeline, StreamError>)
        ensures
            r matches Ok(p) ==> {
                &&& p.wf()
                &&& p.width == config.width
                &&& p.height == config.height
                &&& (p.mode is H264Native <==> config.format == CompressedFormat::H264)
                &&& p.mode matches EncoderMode::H264Native(d) ==> d.fed().len() == 0
                &&& p.mode matches EncoderMode::MjpegNative(e) ==> e.log().len() == 0
            },
            (r matches Err(StreamError::FrameSizeMismatch)) <==> (config.format
                == CompressedFormat::Mjpeg && (config.width > MAX_DIMENSION || config.height
                > MAX_DIMENSION)),
            r matches Err(e) ==> e is H264EncoderError || e is FrameSizeMismatch,
    {
        let mode = match config.format {
            CompressedFormat::H264 => match FrameDecoder::new() {
                Ok(d) => EncoderMode::H264Native(d),
                Err(e) => {
                    return Err(e);
                },
            },
            CompressedFormat::Mjpeg => match FrameEncoder::new(config.width, config.height) {
                Ok(e) => EncoderMode::MjpegNative(e),
                Err(e) => {
                    return Err(e);
                },
            },
        };
        Ok(FramePipeline { mode, width: config.width, height: config.height })
    }

    /// Turns one captured buffer into H264 bytes, and into a raw frame when
    /// `get_yuv_frame` is set.
    ///
    /// In H264 mode the buffer is the output and the decoder is fed the buffer
    /// only for the raw frame, which may be absent while the decoder waits for
    /// more data. In JPEG mode the buffer is decoded, converted and handed to the
    /// encoder once, and the raw frame is the converted image.
    pub fn process_buffer<'s>(&'s mut self, buf: &[u8], get_yuv_frame: bool) -> (r: Result<
        (Vec<u8>, Option<YUVFrame<'s>>),
        StreamError,
    >)
        requires
            old(self).wf(),
        ensures
            final(self).wf(),
            final(self).width == old(self).width,
            final(self).height == old(self).height,
            r matches Ok((_, f)) ==> (!get_yuv_frame ==> f is None),
            old(self).mode matches EncoderMode::H264Native(d0) ==> {
                &&& !get_yuv_frame ==> r is Ok && final(self).mode == old(self).mode
                &&& get_yuv_frame ==> (final(self).mode matches EncoderMode::H264Native(d1)
                    && d1.fed() == d0.fed().push(buf@) && (r matches Ok((_, f)) ==> (f matches Some(y)
                    ==> y.view() matches FrameView::Decoded { fed, .. } && fed == d1.fed())))
                &&& r matches Ok((out, f)) ==> out@ == buf@ && (f matches Some(y) ==> y is Decoded)
                &&& r matches Err(e) ==> e is H264EncoderError
            },
            old(self).mode matches EncoderMode::MjpegNative(e0) ==> {
                let w = old(self).width as int;
                let h = old(self).height as int;
                &&& final(self).mode matches EncoderMode::MjpegNative(e1)
                &&& match jpeg_decoded(buf@) {
                    None => {
                        &&& r matches Err(e) && e is JPEGDecoderError
                        &&& final(self).mode == old(self).mode
                    },
                    Some(px) => if px.len() != 3 * w * h || w % 2 != 0 || h % 2 != 0 {
                        &&& r matches Err(e) && e is FrameSizeMismatch
                        &&& final(self).mode == old(self).mode
                    } else {
                        let handed = FrameView::Converted { rgb: px, width: w, height: h };
                        let log = final(self).mode->MjpegNative_0.log();
                        &&& log == e0.log().push((handed, log.last().1))
                        &&& r matches Err(e) ==> e is H264EncoderError && log.last().1 is None
                        &&& r matches Ok((out, f)) ==> {
                            &&& log.last().1 == Some(out@)
                            &&& get_yuv_frame ==> (f matches Some(y) && y.view() == handed)
                        }
                    },
                }
            },
    {
        let width = self.width;
        let height = self.height;
        match &mut self.mode {
            EncoderMode::H264Native(decoder) => {
                let out = vstd::slice::slice_to_vec(buf);
                if get_yuv_frame {
                    with_decoded(out, decode_h264(decoder, buf))
                } else {
                    Ok((out, None))
                }
            },
            EncoderMode::MjpegNative(encoder) => {
                let rgb = match decode_jpeg(buf) {
                    Ok(px) => px,
                    Err(e) => {
                        return Err(StreamError::JPEGDecoderError(e));
                    },
                };
                let frame = match ConvertedFrame::from_rgb(
                    width as usize,
                    height as usize,
                    rgb.as_slice(),
                ) {
                    Ok(f) => f,
                    Err(e) => {
                        return Err(e);
                    },
                };
                match encode_converted(encoder, &frame) {
                    Ok(out) => if get_yuv_frame {
                        Ok((out, Some(YUVFrame::Buffer(frame))))
                    } else {
                        Ok((out, None))
                    },
                    Err(e) => Err(StreamError::H264EncoderError(e)),
                }
            },
        }
    }
}

} // verus!
