use h264_webcam_stream::error::StreamError;
use h264_webcam_stream::negotiate::{CompressedFormat, Fraction, NegotiatedConfig};
use h264_webcam_stream::codec::{ConvertedFrame, FrameEncoder};
use h264_webcam_stream::pipeline::{EncoderMode, FramePipeline, YUVFrame};

fn config(format: CompressedFormat, width: u32, height: u32) -> NegotiatedConfig {
    NegotiatedConfig { format, width, height, frame_interval: Fraction { numerator: 1, denominator: 30 } }
}

fn gray_frame(width: usize, height: usize) -> ConvertedFrame {
    ConvertedFrame::from_rgb(width, height, &vec![128u8; width * height * 3]).unwrap()
}

#[test]
fn h264_mode_passes_buffer_through() {
    let mut p = FramePipeline::new(&config(CompressedFormat::H264, 64, 48)).unwrap();
    assert!(matches!(p.mode, EncoderMode::H264Native(_)));
    let buf = vec![0u8, 0, 0, 1, 9, 16];
    let (out, frame) = p.process_buffer(&buf, false).unwrap();
    assert_eq!(out, buf);
    assert!(frame.is_none());
}

#[test]
fn mjpeg_mode_builds_sized_encoder() {
    let p = FramePipeline::new(&config(CompressedFormat::Mjpeg, 64, 48)).unwrap();
    assert_eq!((p.width, p.height), (64, 48));
    match &p.mode {
        EncoderMode::MjpegNative(e) => assert_eq!((e.width(), e.height()), (64, 48)),
        EncoderMode::H264Native(_) => panic!("expected an encoder"),
    }
}

#[test]
fn mjpeg_mode_rejects_non_jpeg() {
    let mut p = FramePipeline::new(&config(CompressedFormat::Mjpeg, 64, 48)).unwrap();
    let got = p.process_buffer(&[1u8, 2, 3, 4], true);
    assert!(matches!(got, Err(StreamError::JPEGDecoderError(_))));
}

#[test]
fn oversized_encoder_is_refused() {
    assert!(matches!(FrameEncoder::new(0x8000_0000, 16), Err(StreamError::FrameSizeMismatch)));
    let got = FramePipeline::new(&config(CompressedFormat::Mjpeg, 16, 0x8000_0000));
    assert!(matches!(got, Err(StreamError::FrameSizeMismatch)));
}

#[test]
fn converted_frame_encodes_with_independent_encoder() {
    let frame = YUVFrame::Buffer(gray_frame(64, 48));
    let mut encoder = FrameEncoder::new(64, 48).unwrap();
    let bytes = frame.encode_using(&mut encoder).unwrap();
    assert!(!bytes.is_empty());
    assert_eq!((encoder.width(), encoder.height()), (64, 48));
}

#[test]
fn frame_of_other_size_is_refused() {
    let frame = YUVFrame::Buffer(gray_frame(64, 48));
    let mut encoder = FrameEncoder::new(32, 32).unwrap();
    assert!(matches!(frame.encode_using(&mut encoder), Err(StreamError::FrameSizeMismatch)));
}

#[test]
fn decoded_frame_reencodes() {
    let mut source = FrameEncoder::new(64, 48).unwrap();
    let stream = YUVFrame::Buffer(gray_frame(64, 48)).encode_using(&mut source).unwrap();
    let mut p = FramePipeline::new(&config(CompressedFormat::H264, 64, 48)).unwrap();
    let mut timelapse = FrameEncoder::new(64, 48).unwrap();
    let (out, frame) = p.process_buffer(&stream, true).unwrap();
    assert_eq!(out, stream);
    let frame = frame.expect("a complete access unit yields a frame");
    assert!(matches!(frame, YUVFrame::Decoded(_)));
    let bytes = frame.encode_using(&mut timelapse).unwrap();
    assert!(!bytes.is_empty());
}

fn segment(marker: u8, payload: &[u8]) -> Vec<u8> {
    let len = (payload.len() + 2) as u16;
    let mut s = vec![0xFF, marker, (len >> 8) as u8, len as u8];
    s.extend_from_slice(payload);
    s
}

/// A baseline JPEG of mid-gray pixels: every block holds only a zero DC difference.
fn gray_jpeg(width: u16, height: u16) -> Vec<u8> {
    let mut out = vec![0xFF, 0xD8];
    let mut quant = vec![0u8];
    quant.extend_from_slice(&[1u8; 64]);
    out.extend(segment(0xDB, &quant));
    let mut frame = vec![8, (height >> 8) as u8, height as u8, (width >> 8) as u8, width as u8, 3];
    frame.extend_from_slice(&[1, 0x11, 0, 2, 0x11, 0, 3, 0x11, 0]);
    out.extend(segment(0xC0, &frame));
    for class in [0x00u8, 0x10] {
        let mut table = vec![class, 0, 2];
        table.extend_from_slice(&[0u8; 14]);
        table.extend_from_slice(&[0, 1]);
        out.extend(segment(0xC4, &table));
    }
    out.extend(segment(0xDA, &[3, 1, 0x00, 2, 0x00, 3, 0x00, 0, 63, 0]));
    let blocks = (width as usize / 8) * (height as usize / 8) * 3;
    out.extend(vec![0u8; (blocks * 4 + 7) / 8]);
    out.extend_from_slice(&[0xFF, 0xD9]);
    out
}

#[test]
fn mjpeg_mode_transcodes_and_hands_out_frame() {
    let jpeg = gray_jpeg(32, 32);
    let mut p = FramePipeline::new(&config(CompressedFormat::Mjpeg, 32, 32)).unwrap();
    let (out, frame) = p.process_buffer(&jpeg, true).unwrap();
    assert!(!out.is_empty());
    assert_ne!(out, jpeg);
    let frame = frame.expect("transcoding always yields the converted frame");
    assert!(matches!(frame, YUVFrame::Buffer(_)));
    let mut timelapse = FrameEncoder::new(32, 32).unwrap();
    assert!(!frame.encode_using(&mut timelapse).unwrap().is_empty());
}

#[test]
fn mjpeg_mode_without_raw_frame() {
    let jpeg = gray_jpeg(32, 32);
    let mut p = FramePipeline::new(&config(CompressedFormat::Mjpeg, 32, 32)).unwrap();
    let (out, frame) = p.process_buffer(&jpeg, false).unwrap();
    assert!(!out.is_empty());
    assert!(frame.is_none());
}

#[test]
fn mjpeg_image_of_other_size_is_refused() {
    let jpeg = gray_jpeg(32, 32);
    let mut p = FramePipeline::new(&config(CompressedFormat::Mjpeg, 64, 48)).unwrap();
    let got = p.process_buffer(&jpeg, true);
    assert!(matches!(got, Err(StreamError::FrameSizeMismatch)));
}

#[test]
fn conversion_checks_pixel_count_and_parity() {
    let f = ConvertedFrame::from_rgb(4, 2, &[7u8; 24]).unwrap();
    assert_eq!((f.width(), f.height()), (4, 2));
    assert!(matches!(ConvertedFrame::from_rgb(4, 2, &[7u8; 23]), Err(StreamError::FrameSizeMismatch)));
    assert!(matches!(ConvertedFrame::from_rgb(3, 2, &[7u8; 18]), Err(StreamError::FrameSizeMismatch)));
    assert!(matches!(ConvertedFrame::from_rgb(4, 1, &[7u8; 12]), Err(StreamError::FrameSizeMismatch)));
    assert!(ConvertedFrame::from_rgb(0, 0, &[]).is_ok());
}

#[test]
fn h264_mode_without_raw_frame_leaves_decoder_alone() {
    let mut source = FrameEncoder::new(32, 32).unwrap();
    let stream = YUVFrame::Buffer(gray_frame(32, 32)).encode_using(&mut source).unwrap();
    let mut p = FramePipeline::new(&config(CompressedFormat::H264, 32, 32)).unwrap();
    let (out, frame) = p.process_buffer(&stream, false).unwrap();
    assert_eq!(out, stream);
    assert!(frame.is_none());
    let (_, frame) = p.process_buffer(&stream, true).unwrap();
    assert!(frame.is_some());
}

#[test]
fn configured_encoder_reencodes_converted_frame() {
    let frame = YUVFrame::Buffer(gray_frame(32, 32));
    let mut timelapse = FrameEncoder::with_settings(32, 32, 500_000, false).unwrap();
    assert_eq!((timelapse.width(), timelapse.height()), (32, 32));
    assert!(!frame.encode_using(&mut timelapse).unwrap().is_empty());
    assert!(matches!(
        FrameEncoder::with_settings(32, 0x8000_0000, 500_000, false),
        Err(StreamError::FrameSizeMismatch)
    ));
}

#[test]
fn decoded_frame_of_other_size_is_refused() {
    let mut source = FrameEncoder::new(32, 32).unwrap();
    let stream = YUVFrame::Buffer(gray_frame(32, 32)).encode_using(&mut source).unwrap();
    let mut p = FramePipeline::new(&config(CompressedFormat::H264, 32, 32)).unwrap();
    let (_, frame) = p.process_buffer(&stream, true).unwrap();
    let frame = frame.expect("a complete access unit yields a frame");
    let mut other = FrameEncoder::new(64, 48).unwrap();
    assert!(matches!(frame.encode_using(&mut other), Err(StreamError::FrameSizeMismatch)));
}
