// Capture-side logic of an H264 webcam stream: choosing a capture
// configuration from a device's advertised capabilities, and turning captured
// buffers into H264 (passed through, or transcoded from JPEG) with an optional
// raw frame that can be re-encoded elsewhere.

pub mod codec;
pub mod error;
pub mod negotiate;
pub mod pipeline;
