//! Pixel encodings: the canonical formats that clients see, the encodings
//! that the device speaks, and the table between the two.

use vstd::prelude::*;
use vstd::string::*;
use crate::error::{Error, ErrorView, ValueKind};
use crate::text::str_eq;

verus! {

/// A canonical pixel format.
#[derive(Clone, Copy, Debug, PartialEq, Eq, Structural)]
pub enum PixFmt {
    Mono8,
    Mono32f,
    RGB8,
    RGBA8,
    BayerRG8,
    BayerRG32f,
    BayerBG8,
    BayerBG32f,
    BayerGB8,
    BayerGB32f,
    BayerGR8,
    BayerGR32f,
    YUV444,
    YUV422,
    NV12,
}

/// An encoding in which the device hands out frames.
#[derive(Clone, Copy, Debug, PartialEq, Eq, Structural)]
pub enum FrameFormat {
    MJPEG,
    YUYV,
    NV12,
    GRAY,
    RAWRGB,
    RAWBGR,
}

/// The size of an image in pixels.
#[derive(Clone, Copy, Debug, PartialEq, Eq, Structural)]
pub struct Resolution {
    pub width_x: u32,
    pub height_y: u32,
}

/// What the device is set to produce: size, encoding and frames per second.
#[derive(Clone, Copy, Debug, PartialEq, Eq, Structural)]
pub struct CameraFormat {
    pub resolution: Resolution,
    pub format: FrameFormat,
    pub frame_rate: u32,
}

/// The name of a canonical format.
pub open spec fn pixel_format_name(format: PixFmt) -> Seq<char> {
    match format {
        PixFmt::Mono8 => "Mono8"@,
        PixFmt::Mono32f => "Mono32f"@,
        PixFmt::RGB8 => "RGB8"@,
        PixFmt::RGBA8 => "RGBA8"@,
        PixFmt::BayerRG8 => "BayerRG8"@,
        PixFmt::BayerRG32f => "BayerRG32f"@,
        PixFmt::BayerBG8 => "BayerBG8"@,
        PixFmt::BayerBG32f => "BayerBG32f"@,
        PixFmt::BayerGB8 => "BayerGB8"@,
        PixFmt::BayerGB32f => "BayerGB32f"@,
        PixFmt::BayerGR8 => "BayerGR8"@,
        PixFmt::BayerGR32f => "BayerGR32f"@,
        PixFmt::YUV444 => "YUV444"@,
        PixFmt::YUV422 => "YUV422"@,
        PixFmt::NV12 => "NV12"@,
    }
}

/// The number of bytes that one pixel takes in a format whose pixels are
/// whole bytes; `None` for `NV12`, whose pixels average a byte and a half.
pub open spec fn bytes_per_pixel(format: PixFmt) -> Option<nat> {
    match format {
        PixFmt::Mono8 | PixFmt::BayerRG8 | PixFmt::BayerBG8 | PixFmt::BayerGB8
        | PixFmt::BayerGR8 => Some(1),
        PixFmt::YUV422 => Some(2),
        PixFmt::RGB8 | PixFmt::YUV444 => Some(3),
        PixFmt::Mono32f | PixFmt::RGBA8 | PixFmt::BayerRG32f | PixFmt::BayerBG32f
        | PixFmt::BayerGB32f | PixFmt::BayerGR32f => Some(4),
        PixFmt::NV12 => None,
    }
}

/// The canonical format that stands for a device encoding. The three
/// encodings without a canonical format of their own fall back to `RGB8`.
pub open spec fn canonical_of(format: FrameFormat) -> PixFmt {
    match format {
        FrameFormat::MJPEG => PixFmt::RGB8,
        FrameFormat::YUYV => PixFmt::YUV422,
        FrameFormat::GRAY => PixFmt::Mono8,
        _ => PixFmt::RGB8,
    }
}

/// The device encoding that produces a canonical format, where there is one.
pub open spec fn backend_of(format: PixFmt) -> Option<FrameFormat> {
    match format {
        PixFmt::RGB8 => Some(FrameFormat::MJPEG),
        PixFmt::YUV422 => Some(FrameFormat::YUYV),
        PixFmt::Mono8 => Some(FrameFormat::GRAY),
        _ => None,
    }
}

/// The name of a device encoding on the feature protocol.
pub open spec fn frame_format_name(format: FrameFormat) -> Seq<char> {
    match format {
        FrameFormat::MJPEG => "MJPEG"@,
        FrameFormat::YUYV => "YUYV"@,
        FrameFormat::NV12 => "NV12"@,
        FrameFormat::GRAY => "GRAY"@,
        FrameFormat::RAWRGB => "RAWRGB"@,
        FrameFormat::RAWBGR => "RAWBGR"@,
    }
}

/// The device encoding that a name selects. Only the three encodings with a
/// canonical format of their own can be selected.
pub open spec fn frame_format_of(name: Seq<char>) -> Option<FrameFormat> {
    if name == "MJPEG"@ {
        Some(FrameFormat::MJPEG)
    } else if name == "YUYV"@ {
        Some(FrameFormat::YUYV)
    } else if name == "GRAY"@ {
        Some(FrameFormat::GRAY)
    } else {
        None
    }
}

impl PixFmt {
    /// The name of this format.
    pub fn as_str(&self) -> (s: &'static str)
        ensures
            s@ == pixel_format_name(*self),
    {
        match self {
            PixFmt::Mono8 => "Mono8",
            PixFmt::Mono32f => "Mono32f",
            PixFmt::RGB8 => "RGB8",
            PixFmt::RGBA8 => "RGBA8",
            PixFmt::BayerRG8 => "BayerRG8",
            PixFmt::BayerRG32f => "BayerRG32f",
            PixFmt::BayerBG8 => "BayerBG8",
            PixFmt::BayerBG32f => "BayerBG32f",
            PixFmt::BayerGB8 => "BayerGB8",
            PixFmt::BayerGB32f => "BayerGB32f",
            PixFmt::BayerGR8 => "BayerGR8",
            PixFmt::BayerGR32f => "BayerGR32f",
            PixFmt::YUV444 => "YUV444",
            PixFmt::YUV422 => "YUV422",
            PixFmt::NV12 => "NV12",
        }
    }
}

/// The canonical format of a device encoding. Never fails: an encoding
/// without a canonical format of its own is reported as `RGB8`.
pub fn convert_nokhwa_to_machine_vision_format(format: FrameFormat) -> (r: Result<PixFmt, Error>)
    ensures
        r == Ok::<PixFmt, Error>(canonical_of(format)),
{
    match format {
        FrameFormat::MJPEG => Ok(PixFmt::RGB8),
        FrameFormat::YUYV => Ok(PixFmt::YUV422),
        FrameFormat::GRAY => Ok(PixFmt::Mono8),
        _ => Ok(PixFmt::RGB8),
    }
}

/// The device encoding for a canonical format. Fails, with the format in the
/// error, for every format that the device cannot produce.
pub fn convert_machine_vision_to_nokhwa_format(format: PixFmt) -> (r: Result<FrameFormat, Error>)
    ensures
        match backend_of(format) {
            Some(encoding) => r == Ok::<FrameFormat, Error>(encoding),
            None => r matches Err(e) && e@ == (ErrorView::UnsupportedPixelFormat { format }),
        },
{
    match format {
        PixFmt::RGB8 => Ok(FrameFormat::MJPEG),
        PixFmt::YUV422 => Ok(FrameFormat::YUYV),
        PixFmt::Mono8 => Ok(FrameFormat::GRAY),
        _ => Err(Error::UnsupportedPixelFormat { format }),
    }
}

/// The name of a device encoding.
pub fn convert_from_nokhwa_format(format: FrameFormat) -> (s: String)
    ensures
        s@ == frame_format_name(format),
{
    match format {
        FrameFormat::MJPEG => String::from_str("MJPEG"),
        FrameFormat::YUYV => String::from_str("YUYV"),
        FrameFormat::GRAY => String::from_str("GRAY"),
        FrameFormat::NV12 => String::from_str("NV12"),
        FrameFormat::RAWRGB => String::from_str("RAWRGB"),
        FrameFormat::RAWBGR => String::from_str("RAWBGR"),
    }
}

/// Reads a device encoding from its name. Any text but the three names that
/// can be selected is refused, and the error carries it.
pub fn convert_to_nokhwa_format(format_str: &str) -> (r: Result<FrameFormat, Error>)
    ensures
        match frame_format_of(format_str@) {
            Some(encoding) => r == Ok::<FrameFormat, Error>(encoding),
            None => r matches Err(e) && e@ == (ErrorView::ParseError {
                what: ValueKind::FrameFormat,
                text: format_str@,
            }),
        },
{
    if str_eq(format_str, "MJPEG") {
        Ok(FrameFormat::MJPEG)
    } else if str_eq(format_str, "YUYV") {
        Ok(FrameFormat::YUYV)
    } else if str_eq(format_str, "GRAY") {
        Ok(FrameFormat::GRAY)
    } else {
        Err(Error::ParseError { what: ValueKind::FrameFormat, text: String::from_str(format_str) })
    }
}

/// A canonical format that the device can produce comes back unchanged from
/// the device encoding it is sent as, and the formats that the device cannot
/// produce are exactly those other than `RGB8`, `YUV422` and `Mono8`.
pub proof fn lemma_pixel_format_round_trip(format: PixFmt)
    ensures
        backend_of(format) matches Some(encoding) ==> canonical_of(encoding) == format,
        backend_of(format) is None <==> !(format is RGB8 || format is YUV422 || format is Mono8),
{
}

/// A device encoding comes back from its canonical format exactly when it
/// has a canonical format of its own.
pub proof fn lemma_frame_format_round_trip(encoding: FrameFormat)
    ensures
        backend_of(canonical_of(encoding)) == Some(encoding) <==> (encoding is MJPEG
            || encoding is YUYV || encoding is GRAY),
        backend_of(canonical_of(encoding)) is Some,
{
}

/// The three names that select an encoding differ from one another.
pub proof fn lemma_selectable_names_differ()
    ensures
        "MJPEG"@ != "YUYV"@,
        "MJPEG"@ != "GRAY"@,
        "YUYV"@ != "GRAY"@,
{
    reveal_strlit("MJPEG");
    reveal_strlit("YUYV");
    reveal_strlit("GRAY");
    assert("MJPEG"@.len() == 5);
    assert("YUYV"@.len() == 4);
    assert("YUYV"@[0] == 'Y');
    assert("GRAY"@[0] == 'G');
}

/// An encoding that can be selected is read back from its own name.
pub proof fn lemma_selectable_name_round_trip(encoding: FrameFormat)
    requires
        encoding is MJPEG || encoding is YUYV || encoding is GRAY,
    ensures
        frame_format_of(frame_format_name(encoding)) == Some(encoding),
{
    lemma_selectable_names_differ();
}

} // verus!
