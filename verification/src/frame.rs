//! Delivered frames: the time and number each one carries, and the image
//! in canonical form.

use vstd::prelude::*;
use crate::formats::{bytes_per_pixel, PixFmt, Resolution};

verus! {

/// The frame number that stands for "no frame". No frame is ever given it.
pub const BAD_FNO: usize = usize::MAX;

/// A moment of the wall clock, in UTC: the whole seconds since the start of
/// 1970 and the nanoseconds into the second.
#[derive(Clone, Copy, Debug, PartialEq, Eq, Structural)]
pub struct Timestamp {
    pub secs: i64,
    pub nanos: u32,
}

/// What the host knows of a frame: its number in the camera's count and the
/// moment it arrived.
#[derive(Clone, Copy, Debug, PartialEq, Eq, Structural)]
pub struct HostTimingInfo {
    pub fno: usize,
    pub datetime: Timestamp,
}

/// What came of a blocking fetch that the device answered with a frame: the
/// size of the frame, the moment it arrived, and the outcome of decoding its
/// pixels to three bytes each.
#[derive(Debug, PartialEq, Eq)]
pub struct FetchedFrame {
    pub resolution: Resolution,
    /// The wall clock's reading right after the fetch came back.
    pub datetime: Timestamp,
    /// The decoded pixels, or the decoder's message.
    pub decoded: Result<Vec<u8>, String>,
}

/// The size of a frame and the host's record of it, to which its decoded
/// pixels are joined.
#[derive(Clone, Copy, Debug, PartialEq, Eq, Structural)]
pub struct PendingFrame {
    pub resolution: Resolution,
    pub host_timing: HostTimingInfo,
}

/// What a backend may pass along with a frame. This backend passes nothing.
#[derive(Clone, Copy, Debug, PartialEq, Eq, Structural)]
pub struct BackendData {}

/// A delivered frame: the image in a canonical format, row after row, and
/// the host's record of it.
#[derive(Clone, Debug, PartialEq, Eq)]
pub struct AcquiredFrame {
    pub width: u32,
    pub height: u32,
    /// The number of bytes from the start of one row to the start of the next.
    pub stride: u64,
    pub image_data: Vec<u8>,
    pub pixel_format: PixFmt,
    pub host_timing: HostTimingInfo,
    pub backend_data: Option<BackendData>,
}

impl AcquiredFrame {
    /// The stride is the width times the bytes of one pixel, and the data
    /// holds every row.
    pub open spec fn wf(&self) -> bool {
        &&& Some(self.stride as nat) == stride_of(self.width, self.pixel_format)
        &&& self.image_data@.len() >= self.stride * self.height
    }
}

/// The stride of an image without padding: its width times the bytes of one
/// pixel.
pub open spec fn stride_of(width: u32, format: PixFmt) -> Option<nat> {
    match bytes_per_pixel(format) {
        Some(bytes) => Some(width as nat * bytes),
        None => None,
    }
}

/// The number of bytes of an image of three bytes to the pixel.
pub open spec fn rgb_len(resolution: Resolution) -> nat {
    3 * resolution.width_x as nat * resolution.height_y as nat
}

/// What a numbered frame and its pixels, decoded to three bytes each, make:
/// the delivered frame in `RGB8`, without padding between the rows.
pub open spec fn assembled(pending: PendingFrame, data: Seq<u8>, frame: AcquiredFrame) -> bool {
    &&& frame.width == pending.resolution.width_x
    &&& frame.height == pending.resolution.height_y
    &&& frame.stride == 3 * pending.resolution.width_x
    &&& frame.image_data@ == data
    &&& frame.pixel_format == PixFmt::RGB8
    &&& frame.host_timing == pending.host_timing
    &&& frame.backend_data is None
    &&& frame.wf()
}

/// Makes the delivered frame from a numbered frame and its pixels, decoded
/// to `RGB8`. The data must hold the whole image.
pub fn assemble_frame(pending: PendingFrame, data: Vec<u8>) -> (frame: AcquiredFrame)
    requires
        data@.len() >= rgb_len(pending.resolution),
    ensures
        assembled(pending, data@, frame),
{
    let stride: u64 = 3 * (pending.resolution.width_x as u64);
    assert(stride * pending.resolution.height_y == rgb_len(pending.resolution))
        by (nonlinear_arith)
        requires
            stride == 3 * pending.resolution.width_x,
    ;
    AcquiredFrame {
        width: pending.resolution.width_x,
        height: pending.resolution.height_y,
        stride,
        image_data: data,
        pixel_format: PixFmt::RGB8,
        host_timing: pending.host_timing,
        backend_data: None,
    }
}

/// Whether decoded data is long enough to be assembled into a frame of the
/// given size.
pub fn holds_image(resolution: Resolution, data: &Vec<u8>) -> (enough: bool)
    ensures
        enough == (data@.len() >= rgb_len(resolution)),
{
    let width = resolution.width_x as u64;
    let height = resolution.height_y as u64;
    assert(width * height <= 0xFFFF_FFFF * 0xFFFF_FFFF && 3 * (width * height) == rgb_len(
        resolution,
    )) by (nonlinear_arith)
        requires
            width == resolution.width_x,
            height == resolution.height_y,
            width <= 0xFFFF_FFFF,
            height <= 0xFFFF_FFFF,
    ;
    let pixels: u64 = width * height;
    let need: u128 = 3 * (pixels as u128);
    (data.len() as u128) >= need
}

} // verus!
