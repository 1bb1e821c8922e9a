use vstd::prelude::*;

verus! {

/// Pixel format of a captured frame.
///
/// The engine passes the requested format through to the backend; the frames
/// the backend produces carry the format tag back to the consumer.
#[derive(Clone, Copy, Debug, Default, PartialEq, Eq, Structural)]
pub enum FrameType {
    YUVFrame,
    BGR0,
    RGB,
    #[default]
    BGRAFrame,
}

/// One captured image: a tagged pixel buffer plus its metadata.
///
/// A frame is move-only data: the backend produces it once and the channel
/// transfers it to the consumer exactly once.
#[derive(Debug)]
pub struct Frame {
    /// Pixel format of `data`.
    pub frame_type: FrameType,
    /// Width of the image in pixels.
    pub width: u32,
    /// Height of the image in pixels.
    pub height: u32,
    /// Presentation timestamp of the frame, in nanoseconds.
    pub display_time: u64,
    /// The raw pixel buffer, laid out as `frame_type` dictates.
    pub data: Vec<u8>,
}

} // verus!
