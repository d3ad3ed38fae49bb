//! One camera: what is known of it, what the device is set to, how many
//! frames it has delivered, and the feature protocol that reads and writes
//! all this by name. The camera's record follows the device: it changes
//! only once the device's answer is in.

use vstd::prelude::*;
use vstd::string::*;
use crate::directory::{info_of, CameraInfoView, DeviceInfo, NokhwaCameraInfo};
use crate::error::{Error, ErrorView, FeatureKind, ValueKind};
use crate::formats::{
    backend_of,
    canonical_of,
    convert_from_nokhwa_format,
    convert_machine_vision_to_nokhwa_format,
    convert_nokhwa_to_machine_vision_format,
    convert_to_nokhwa_format,
    frame_format_name,
    frame_format_of,
    CameraFormat,
    FrameFormat,
    PixFmt,
};
use crate::frame::{
    assemble_frame,
    assembled,
    rgb_len,
    AcquiredFrame,
    FetchedFrame,
    HostTimingInfo,
    PendingFrame,
    BAD_FNO,
};
use crate::modes::{AcquisitionMode, TriggerMode, TriggerSelector};
use crate::text::str_eq;

verus! {

/// A command of the feature protocol.
#[derive(Clone, Copy, Debug, PartialEq, Eq, Structural)]
pub enum Command {
    AcquisitionStart,
    AcquisitionStop,
}

/// A feature that holds a number with a fraction.
#[derive(Clone, Copy, Debug, PartialEq, Eq, Structural)]
pub enum FloatFeature {
    ExposureTime,
    Gain,
    AcquisitionFrameRate,
}

/// A feature that holds one of a list of names.
#[derive(Clone, Copy, Debug, PartialEq, Eq, Structural)]
pub enum EnumFeature {
    PixelFormat,
    TriggerMode,
    AcquisitionMode,
    TriggerSelector,
    ExposureAuto,
    GainAuto,
}

/// A write that a camera accepted, as its journal records it.
#[allow(inconsistent_fields)]
pub enum Write {
    Bool { name: Seq<char>, value: bool },
    Int { name: Seq<char>, value: i64 },
    Float { name: Seq<char>, bits: u64 },
    Enum { name: Seq<char>, value: Seq<char> },
    PixelFormat { format: PixFmt },
    TriggerMode { value: TriggerMode },
    TriggerSelector { value: TriggerSelector },
    AcquisitionMode { value: AcquisitionMode },
    FrameRateEnable { value: bool },
    Settings { text: Seq<char> },
}

/// The state of a camera as the contracts speak of it.
pub struct CameraModel {
    /// What is known of the device.
    pub info: CameraInfoView,
    /// The number that the next delivered frame gets.
    pub next_frame_number: usize,
    /// What the device is set to produce.
    pub format: CameraFormat,
    /// Whether the stream was opened and not closed since.
    pub streaming: bool,
    /// Every write that was accepted, oldest first.
    pub writes: Seq<Write>,
}

/// A camera bound to one device.
pub struct WrappedCamera {
    info: NokhwaCameraInfo,
    store_fno: usize,
    current_format: CameraFormat,
    streaming: bool,
    journal: Ghost<Seq<Write>>,
}

/// The exposure time that is reported, in microseconds.
pub const EXPOSURE_TIME: u32 = 1000;

/// The gain that is reported, in decibels.
pub const GAIN: u32 = 0;

/// The command that a name stands for, if any.
pub open spec fn command_of(name: Seq<char>) -> Option<Command> {
    if name == "AcquisitionStart"@ {
        Some(Command::AcquisitionStart)
    } else if name == "AcquisitionStop"@ {
        Some(Command::AcquisitionStop)
    } else {
        None
    }
}

/// The float feature that a name stands for, if any.
pub open spec fn float_feature_of(name: Seq<char>) -> Option<FloatFeature> {
    if name == "ExposureTime"@ {
        Some(FloatFeature::ExposureTime)
    } else if name == "Gain"@ {
        Some(FloatFeature::Gain)
    } else if name == "AcquisitionFrameRate"@ || name == "AcquisitionFrameRateAbs"@ {
        Some(FloatFeature::AcquisitionFrameRate)
    } else {
        None
    }
}

/// The enumerated feature that a name stands for, if any.
pub open spec fn enum_feature_of(name: Seq<char>) -> Option<EnumFeature> {
    if name == "PixelFormat"@ {
        Some(EnumFeature::PixelFormat)
    } else if name == "TriggerMode"@ {
        Some(EnumFeature::TriggerMode)
    } else if name == "AcquisitionMode"@ {
        Some(EnumFeature::AcquisitionMode)
    } else if name == "TriggerSelector"@ {
        Some(EnumFeature::TriggerSelector)
    } else if name == "ExposureAuto"@ {
        Some(EnumFeature::ExposureAuto)
    } else if name == "GainAuto"@ {
        Some(EnumFeature::GainAuto)
    } else {
        None
    }
}

/// The value of a float feature. Every value that this backend reports is a
/// whole number: the fixed exposure time and gain, which the device gives no
/// control over, and the frame rate that the device is set to.
pub open spec fn float_value(camera: CameraModel, feature: FloatFeature) -> u32 {
    match feature {
        FloatFeature::ExposureTime => EXPOSURE_TIME,
        FloatFeature::Gain => GAIN,
        FloatFeature::AcquisitionFrameRate => camera.format.frame_rate,
    }
}

/// The value of an enumerated feature. All but the pixel format are fixed:
/// the device has no trigger, no acquisition modes and no automatic
/// exposure or gain.
pub open spec fn enum_value(camera: CameraModel, feature: EnumFeature) -> Seq<char> {
    match feature {
        EnumFeature::PixelFormat => frame_format_name(camera.format.format),
        EnumFeature::TriggerMode => "Off"@,
        EnumFeature::AcquisitionMode => "Continuous"@,
        EnumFeature::TriggerSelector => "FrameStart"@,
        EnumFeature::ExposureAuto => "Off"@,
        EnumFeature::GainAuto => "Off"@,
    }
}

/// The value of an integer feature: the width and the height of the image,
/// and zero under every other name.
pub open spec fn int_value(camera: CameraModel, name: Seq<char>) -> i64 {
    if name == "Width"@ {
        camera.format.resolution.width_x as i64
    } else if name == "Height"@ {
        camera.format.resolution.height_y as i64
    } else {
        0
    }
}

/// The model with one more write in its journal.
pub open spec fn journaled(camera: CameraModel, write: Write) -> CameraModel {
    CameraModel { writes: camera.writes.push(write), ..camera }
}

/// What the device is asked for to change the encoding to `encoding`: the
/// format that the camera is set to, with that encoding in place of its own.
pub open spec fn request_for(camera: CameraModel, encoding: FrameFormat) -> CameraFormat {
    CameraFormat { format: encoding, ..camera.format }
}

/// The model after the device took the format `format`, asked for by `write`.
pub open spec fn with_format(camera: CameraModel, format: CameraFormat, write: Write)
    -> CameraModel {
    CameraModel { format, writes: camera.writes.push(write), ..camera }
}

/// What a write of an enumerated feature needs of the device, or why the
/// write is refused.
///
/// Under a name that is none of the six enumerated features the write is
/// refused. A pixel format must be one of the names that select an encoding,
/// and the device is then to be asked for the camera's format with that
/// encoding. Every other write needs nothing of the device.
pub open spec fn enum_request(camera: CameraModel, name: Seq<char>, value: Seq<char>) -> Result<
    Option<CameraFormat>,
    ErrorView,
> {
    match enum_feature_of(name) {
        Some(EnumFeature::PixelFormat) => match frame_format_of(value) {
            Some(encoding) => Ok(Some(request_for(camera, encoding))),
            None => Err(ErrorView::ParseError { what: ValueKind::FrameFormat, text: value }),
        },
        Some(_) => Ok(None),
        None => Err(ErrorView::UnsupportedFeature { kind: FeatureKind::Enum, name }),
    }
}

/// What setting a canonical pixel format needs of the device: the camera's
/// format with the encoding that produces the pixel format; or why it is
/// refused: the device cannot produce the pixel format.
pub open spec fn pixel_format_request_for(camera: CameraModel, pixel_format: PixFmt) -> Result<
    CameraFormat,
    ErrorView,
> {
    match backend_of(pixel_format) {
        Some(encoding) => Ok(request_for(camera, encoding)),
        None => Err(ErrorView::UnsupportedPixelFormat { format: pixel_format }),
    }
}

/// The model after one more frame was delivered.
pub open spec fn after_frame(camera: CameraModel) -> CameraModel {
    CameraModel { next_frame_number: (camera.next_frame_number + 1) as usize, ..camera }
}

/// The command that a name stands for, if any.
pub fn parse_command(name: &str) -> (c: Option<Command>)
    ensures
        c == command_of(name@),
{
    if str_eq(name, "AcquisitionStart") {
        Some(Command::AcquisitionStart)
    } else if str_eq(name, "AcquisitionStop") {
        Some(Command::AcquisitionStop)
    } else {
        None
    }
}

/// The float feature that a name stands for, if any.
pub fn parse_float_feature(name: &str) -> (f: Option<FloatFeature>)
    ensures
        f == float_feature_of(name@),
{
    if str_eq(name, "ExposureTime") {
        Some(FloatFeature::ExposureTime)
    } else if str_eq(name, "Gain") {
        Some(FloatFeature::Gain)
    } else if str_eq(name, "AcquisitionFrameRate") || str_eq(name, "AcquisitionFrameRateAbs") {
        Some(FloatFeature::AcquisitionFrameRate)
    } else {
        None
    }
}

/// The enumerated feature that a name stands for, if any.
pub fn parse_enum_feature(name: &str) -> (f: Option<EnumFeature>)
    ensures
        f == enum_feature_of(name@),
{
    if str_eq(name, "PixelFormat") {
        Some(EnumFeature::PixelFormat)
    } else if str_eq(name, "TriggerMode") {
        Some(EnumFeature::TriggerMode)
    } else if str_eq(name, "AcquisitionMode") {
        Some(EnumFeature::AcquisitionMode)
    } else if str_eq(name, "TriggerSelector") {
        Some(EnumFeature::TriggerSelector)
    } else if str_eq(name, "ExposureAuto") {
        Some(EnumFeature::ExposureAuto)
    } else if str_eq(name, "GainAuto") {
        Some(EnumFeature::GainAuto)
    } else {
        None
    }
}

impl View for WrappedCamera {
    type V = CameraModel;

    closed spec fn view(&self) -> CameraModel {
        CameraModel {
            info: self.info@,
            next_frame_number: self.store_fno,
            format: self.current_format,
            streaming: self.streaming,
            writes: self.journal@,
        }
    }
}

impl WrappedCamera {
    /// What `new` gives for a device and the outcome of opening it: a camera
    /// that has delivered no frame, is not streaming, has taken no write and
    /// is set to the format that the device reported; or the device's failure.
    pub open spec fn bound_to(
        device: &DeviceInfo,
        opened: Result<CameraFormat, String>,
        r: Result<WrappedCamera, Error>,
    ) -> bool {
        match opened {
            Ok(format) => r matches Ok(camera) && camera@ == (CameraModel {
                info: info_of(device),
                next_frame_number: 0,
                format,
                streaming: false,
                writes: Seq::empty(),
            }),
            Err(msg) => r matches Err(e) && e@ == (ErrorView::BackendError { msg: msg@ }),
        }
    }

    /// Binds a camera to a device, from the outcome of opening the device:
    /// the format it is set to, or its failure.
    pub fn new(device: &DeviceInfo, opened: Result<CameraFormat, String>) -> (r: Result<
        WrappedCamera,
        Error,
    >)
        ensures
            Self::bound_to(device, opened, r),
    {
        match opened {
            Ok(current_format) => Ok(
                WrappedCamera {
                    info: NokhwaCameraInfo::of(device),
                    store_fno: 0,
                    current_format,
                    streaming: false,
                    journal: Ghost(Seq::empty()),
                },
            ),
            Err(msg) => Err(Error::from_backend(msg)),
        }
    }

    pub fn name(&self) -> (s: &str)
        ensures
            s@ == self@.info.name,
    {
        self.info.name()
    }

    pub fn serial(&self) -> (s: &str)
        ensures
            s@ == self@.info.serial,
    {
        self.info.serial()
    }

    pub fn model(&self) -> (s: &str)
        ensures
            s@ == self@.info.model,
    {
        self.info.model()
    }

    pub fn vendor(&self) -> (s: &str)
        ensures
            s@ == self@.info.vendor,
    {
        self.info.vendor()
    }

    /// The number that the next frame gets.
    pub fn frame_count(&self) -> (n: usize)
        ensures
            n == self@.next_frame_number,
    {
        self.store_fno
    }

    /// Whether the stream was opened and not closed since.
    pub fn is_streaming(&self) -> (b: bool)
        ensures
            b == self@.streaming,
    {
        self.streaming
    }

    /// What the device is set to produce.
    pub fn current_format(&self) -> (format: CameraFormat)
        ensures
            format == self@.format,
    {
        self.current_format
    }

    /// Which command a name asks for. The caller carries it out on the
    /// device and reports the outcome to `acquisition_start` or
    /// `acquisition_stop`. An unknown name fails, and the error carries it.
    pub fn command_execute(&self, name: &str, verify: bool) -> (r: Result<Command, Error>)
        ensures
            match command_of(name@) {
                Some(command) => r == Ok::<Command, Error>(command),
                None => r matches Err(e) && e@ == (ErrorView::UnsupportedCommand { name: name@ }),
            },
    {
        match parse_command(name) {
            Some(command) => Ok(command),
            None => Err(Error::UnsupportedCommand { name: String::from_str(name) }),
        }
    }

    /// The value of a boolean feature. The backend has none, and every name
    /// reads as `false`.
    pub fn feature_bool(&self, name: &str) -> (r: Result<bool, Error>)
        ensures
            r == Ok::<bool, Error>(false),
    {
        Ok(false)
    }

    /// Writes a boolean feature. The write is accepted and changes nothing.
    pub fn feature_bool_set(&mut self, name: &str, value: bool) -> (r: Result<(), Error>)
        ensures
            r is Ok,
            final(self)@ == journaled(old(self)@, Write::Bool { name: name@, value }),
    {
        self.journal = Ghost(self.journal@.push(Write::Bool { name: name@, value }));
        Ok(())
    }

    /// The value of an enumerated feature. A name that is none of the six
    /// enumerated features fails, and the error carries it.
    pub fn feature_enum(&self, name: &str) -> (r: Result<String, Error>)
        ensures
            match enum_feature_of(name@) {
                Some(feature) => r matches Ok(value) && value@ == enum_value(self@, feature),
                None => r matches Err(e) && e@ == (ErrorView::UnsupportedFeature {
                    kind: FeatureKind::Enum,
                    name: name@,
                }),
            },
    {
        match parse_enum_feature(name) {
            Some(EnumFeature::PixelFormat) => Ok(
                convert_from_nokhwa_format(self.current_format.format),
            ),
            Some(EnumFeature::TriggerMode) => Ok(String::from_str("Off")),
            Some(EnumFeature::AcquisitionMode) => Ok(String::from_str("Continuous")),
            Some(EnumFeature::TriggerSelector) => Ok(String::from_str("FrameStart")),
            Some(EnumFeature::ExposureAuto) => Ok(String::from_str("Off")),
            Some(EnumFeature::GainAuto) => Ok(String::from_str("Off")),
            None => Err(
                Error::UnsupportedFeature { kind: FeatureKind::Enum, name: String::from_str(name) },
            ),
        }
    }

    /// What the device is to be asked for before an enumerated feature is
    /// written, if anything. The camera does not change. The caller asks the
    /// device and hands its answer to `feature_enum_set`.
    pub fn feature_enum_request(&self, name: &str, value: &str) -> (r: Result<
        Option<CameraFormat>,
        Error,
    >)
        ensures
            match enum_request(self@, name@, value@) {
                Ok(request) => r == Ok::<Option<CameraFormat>, Error>(request),
                Err(refusal) => r matches Err(e) && e@ == refusal,
            },
    {
        match parse_enum_feature(name) {
            Some(EnumFeature::PixelFormat) => {
                match convert_to_nokhwa_format(value) {
                    Ok(format) => Ok(
                        Some(
                            CameraFormat {
                                resolution: self.current_format.resolution,
                                format,
                                frame_rate: self.current_format.frame_rate,
                            },
                        ),
                    ),
                    Err(e) => Err(e),
                }
            },
            Some(_) => Ok(None),
            None => Err(
                Error::UnsupportedFeature { kind: FeatureKind::Enum, name: String::from_str(name) },
            ),
        }
    }

    /// What writing an enumerated feature does and gives, `answer` being the
    /// device's answer to the request that the write needs.
    ///
    /// A write that is refused leaves the camera as it was. A write that
    /// needs nothing of the device is accepted and changes no setting; the
    /// answer plays no part then. A write of the pixel format takes effect
    /// only if the device accepted the request: the camera is then set to
    /// the format asked for. If the device refused, the camera stays as it
    /// was, and the device's message is reported.
    pub open spec fn enum_written(
        before: CameraModel,
        name: Seq<char>,
        value: Seq<char>,
        answer: Result<(), String>,
        after: CameraModel,
        r: Result<(), Error>,
    ) -> bool {
        let write = Write::Enum { name, value };
        match enum_request(before, name, value) {
            Ok(Some(request)) => match answer {
                Ok(_) => after == with_format(before, request, write) && r is Ok,
                Err(msg) => {
                    &&& after == before
                    &&& r matches Err(e) && e@ == (ErrorView::BackendError { msg: msg@ })
                },
            },
            Ok(None) => after == journaled(before, write) && r is Ok,
            Err(refusal) => {
                &&& after == before
                &&& r matches Err(e) && e@ == refusal
            },
        }
    }

    /// Writes an enumerated feature, once the device has answered the
    /// request that `feature_enum_request` gave for it.
    pub fn feature_enum_set(&mut self, name: &str, value: &str, answer: Result<(), String>) -> (r:
        Result<(), Error>)
        ensures
            Self::enum_written(old(self)@, name@, value@, answer, final(self)@, r),
    {
        match self.feature_enum_request(name, value) {
            Ok(Some(request)) => match answer {
                Ok(_) => {
                    self.current_format = request;
                    self.journal = Ghost(
                        self.journal@.push(Write::Enum { name: name@, value: value@ }),
                    );
                    Ok(())
                },
                Err(msg) => Err(Error::from_backend(msg)),
            },
            Ok(None) => {
                self.journal = Ghost(self.journal@.push(Write::Enum { name: name@, value: value@ }));
                Ok(())
            },
            Err(e) => Err(e),
        }
    }

    /// The value of a float feature, as the whole number that it is. A name
    /// that is none of the float features fails, and the error carries it.
    pub fn feature_float(&self, name: &str) -> (r: Result<u32, Error>)
        ensures
            match float_feature_of(name@) {
                Some(feature) => r == Ok::<u32, Error>(float_value(self@, feature)),
                None => r matches Err(e) && e@ == (ErrorView::UnsupportedFeature {
                    kind: FeatureKind::Float,
                    name: name@,
                }),
            },
    {
        match parse_float_feature(name) {
            Some(FloatFeature::ExposureTime) => Ok(EXPOSURE_TIME),
            Some(FloatFeature::Gain) => Ok(GAIN),
            Some(FloatFeature::AcquisitionFrameRate) => Ok(self.current_format.frame_rate),
            None => Err(
                Error::UnsupportedFeature { kind: FeatureKind::Float, name: String::from_str(name) },
            ),
        }
    }

    /// Writes a float feature; `bits` is the value in the sixty-four bits of
    /// its IEEE 754 form. Under the name of a float feature the write is
    /// accepted and changes no setting; under any other name it fails and
    /// leaves the camera as it was.
    pub fn feature_float_set(&mut self, name: &str, bits: u64) -> (r: Result<(), Error>)
        ensures
            match float_feature_of(name@) {
                Some(_) => r is Ok && final(self)@ == journaled(
                    old(self)@,
                    Write::Float { name: name@, bits },
                ),
                None => {
                    &&& final(self)@ == old(self)@
                    &&& r matches Err(e) && e@ == (ErrorView::UnsupportedFeature {
                        kind: FeatureKind::Float,
                        name: name@,
                    })
                },
            },
    {
        match parse_float_feature(name) {
            Some(_) => {
                self.journal = Ghost(self.journal@.push(Write::Float { name: name@, bits }));
                Ok(())
            },
            None => Err(
                Error::UnsupportedFeature { kind: FeatureKind::Float, name: String::from_str(name) },
            ),
        }
    }

    /// The value of an integer feature. Never fails: a name that the
    /// backend has no value for reads as zero.
    pub fn feature_int(&self, name: &str) -> (r: Result<i64, Error>)
        ensures
            r == Ok::<i64, Error>(int_value(self@, name@)),
    {
        if str_eq(name, "Width") {
            Ok(self.current_format.resolution.width_x as i64)
        } else if str_eq(name, "Height") {
            Ok(self.current_format.resolution.height_y as i64)
        } else {
            Ok(0)
        }
    }

    /// Writes an integer feature. The write is accepted and changes no
    /// setting.
    pub fn feature_int_set(&mut self, name: &str, value: i64) -> (r: Result<(), Error>)
        ensures
            r is Ok,
            final(self)@ == journaled(old(self)@, Write::Int { name: name@, value }),
    {
        self.journal = Ghost(self.journal@.push(Write::Int { name: name@, value }));
        Ok(())
    }

    /// Takes in saved settings. Every document is accepted, and no setting
    /// changes: the backend keeps nothing in such documents.
    pub fn node_map_load(&mut self, settings: &str) -> (r: Result<(), Error>)
        ensures
            r is Ok,
            final(self)@ == journaled(old(self)@, Write::Settings { text: settings@ }),
    {
        self.journal = Ghost(self.journal@.push(Write::Settings { text: settings@ }));
        Ok(())
    }

    /// The settings as a document to save: the empty document.
    pub fn node_map_save(&self) -> (r: Result<String, Error>)
        ensures
            r matches Ok(text) && text@ == "{}"@,
    {
        Ok(String::from_str("{}"))
    }

    /// The width of the image in pixels.
    pub fn width(&self) -> (r: Result<u32, Error>)
        ensures
            r == Ok::<u32, Error>(self@.format.resolution.width_x),
    {
        Ok(self.current_format.resolution.width_x)
    }

    /// The height of the image in pixels.
    pub fn height(&self) -> (r: Result<u32, Error>)
        ensures
            r == Ok::<u32, Error>(self@.format.resolution.height_y),
    {
        Ok(self.current_format.resolution.height_y)
    }

    /// The canonical format of the encoding that the device is set to.
    pub fn pixel_format(&self) -> (r: Result<PixFmt, Error>)
        ensures
            r == Ok::<PixFmt, Error>(canonical_of(self@.format.format)),
    {
        convert_nokhwa_to_machine_vision_format(self.current_format.format)
    }

    /// The canonical formats that can be set.
    pub fn possible_pixel_formats(&self) -> (r: Result<Vec<PixFmt>, Error>)
        ensures
            r matches Ok(formats) && formats@ == seq![PixFmt::RGB8, PixFmt::Mono8, PixFmt::YUV422],
    {
        let mut formats: Vec<PixFmt> = Vec::new();
        formats.push(PixFmt::RGB8);
        formats.push(PixFmt::Mono8);
        formats.push(PixFmt::YUV422);
        Ok(formats)
    }

    /// What the device is to be asked for before the pixel format is set.
    /// The camera does not change. The caller asks the device and hands its
    /// answer to `set_pixel_format`. A format that the device cannot produce
    /// is refused.
    pub fn pixel_format_request(&self, pixel_format: PixFmt) -> (r: Result<CameraFormat, Error>)
        ensures
            match pixel_format_request_for(self@, pixel_format) {
                Ok(request) => r == Ok::<CameraFormat, Error>(request),
                Err(refusal) => r matches Err(e) && e@ == refusal,
            },
    {
        match convert_machine_vision_to_nokhwa_format(pixel_format) {
            Ok(format) => Ok(
                CameraFormat {
                    resolution: self.current_format.resolution,
                    format,
                    frame_rate: self.current_format.frame_rate,
                },
            ),
            Err(e) => Err(e),
        }
    }

    /// What setting the pixel format does and gives, `answer` being the
    /// device's answer to the request for it. A format that the device
    /// cannot produce is refused. Otherwise the camera is set to the format
    /// asked for if the device accepted the request; if the device refused,
    /// the device's message is reported. Wherever the call fails the camera
    /// stays as it was.
    pub open spec fn pixel_format_set(
        before: CameraModel,
        pixel_format: PixFmt,
        answer: Result<(), String>,
        after: CameraModel,
        r: Result<(), Error>,
    ) -> bool {
        match pixel_format_request_for(before, pixel_format) {
            Ok(request) => match answer {
                Ok(_) => {
                    &&& after == with_format(
                        before,
                        request,
                        Write::PixelFormat { format: pixel_format },
                    )
                    &&& r is Ok
                },
                Err(msg) => {
                    &&& after == before
                    &&& r matches Err(e) && e@ == (ErrorView::BackendError { msg: msg@ })
                },
            },
            Err(refusal) => {
                &&& after == before
                &&& r matches Err(e) && e@ == refusal
            },
        }
    }

    /// Sets the pixel format, once the device has answered the request that
    /// `pixel_format_request` gave for it.
    pub fn set_pixel_format(&mut self, pixel_format: PixFmt, answer: Result<(), String>) -> (r:
        Result<(), Error>)
        ensures
            Self::pixel_format_set(old(self)@, pixel_format, answer, final(self)@, r),
    {
        match self.pixel_format_request(pixel_format) {
            Ok(request) => match answer {
                Ok(_) => {
                    self.current_format = request;
                    self.journal = Ghost(
                        self.journal@.push(Write::PixelFormat { format: pixel_format }),
                    );
                    Ok(())
                },
                Err(msg) => Err(Error::from_backend(msg)),
            },
            Err(e) => Err(e),
        }
    }

    /// Writes the trigger mode. The device has no trigger: the write is
    /// accepted and changes no setting.
    pub fn set_trigger_mode(&mut self, value: TriggerMode) -> (r: Result<(), Error>)
        ensures
            r is Ok,
            final(self)@ == journaled(old(self)@, Write::TriggerMode { value }),
    {
        self.journal = Ghost(self.journal@.push(Write::TriggerMode { value }));
        Ok(())
    }

    /// Writes the trigger selector. The device has no trigger: the write is
    /// accepted and changes no setting.
    pub fn set_trigger_selector(&mut self, value: TriggerSelector) -> (r: Result<(), Error>)
        ensures
            r is Ok,
            final(self)@ == journaled(old(self)@, Write::TriggerSelector { value }),
    {
        self.journal = Ghost(self.journal@.push(Write::TriggerSelector { value }));
        Ok(())
    }

    /// Writes the acquisition mode. The device takes frames continuously:
    /// the write is accepted and changes no setting.
    pub fn set_acquisition_mode(&mut self, value: AcquisitionMode) -> (r: Result<(), Error>)
        ensures
            r is Ok,
            final(self)@ == journaled(old(self)@, Write::AcquisitionMode { value }),
    {
        self.journal = Ghost(self.journal@.push(Write::AcquisitionMode { value }));
        Ok(())
    }

    /// Switches the frame rate limit on or off. The limit is always on: the
    /// write is accepted and changes no setting.
    pub fn set_acquisition_frame_rate_enable(&mut self, value: bool) -> (r: Result<(), Error>)
        ensures
            r is Ok,
            final(self)@ == journaled(old(self)@, Write::FrameRateEnable { value }),
    {
        self.journal = Ghost(self.journal@.push(Write::FrameRateEnable { value }));
        Ok(())
    }

    /// Takes note of the outcome of opening the stream on the device: the
    /// camera is streaming from then on, or the device's failure is reported
    /// and nothing changes.
    pub fn acquisition_start(&mut self, opened: Result<(), String>) -> (r: Result<(), Error>)
        ensures
            match opened {
                Ok(_) => r is Ok && final(self)@ == (CameraModel { streaming: true, ..old(self)@ }),
                Err(msg) => {
                    &&& final(self)@ == old(self)@
                    &&& r matches Err(e) && e@ == (ErrorView::BackendError { msg: msg@ })
                },
            },
    {
        match opened {
            Ok(_) => {
                self.streaming = true;
                Ok(())
            },
            Err(msg) => Err(Error::from_backend(msg)),
        }
    }

    /// Takes note of the outcome of closing the stream on the device: the
    /// camera is stopped from then on, or the device's failure is reported
    /// and nothing changes.
    pub fn acquisition_stop(&mut self, closed: Result<(), String>) -> (r: Result<(), Error>)
        ensures
            match closed {
                Ok(_) => r is Ok && final(self)@ == (CameraModel { streaming: false, ..old(self)@ }),
                Err(msg) => {
                    &&& final(self)@ == old(self)@
                    &&& r matches Err(e) && e@ == (ErrorView::BackendError { msg: msg@ })
                },
            },
    {
        match closed {
            Ok(_) => {
                self.streaming = false;
                Ok(())
            },
            Err(msg) => Err(Error::from_backend(msg)),
        }
    }

    /// What taking in a fetched frame does and gives.
    ///
    /// A fetch that failed, and a frame whose pixels could not be decoded,
    /// are reported with the message of the device or of the decoder, and
    /// leave the camera as it was: no number is used up. A frame that was
    /// fetched and decoded is delivered under the camera's next number, with
    /// the moment it arrived, and the count goes up by one.
    pub open spec fn frame_delivered(
        before: CameraModel,
        fetched: Result<FetchedFrame, String>,
        after: CameraModel,
        r: Result<AcquiredFrame, Error>,
    ) -> bool {
        match fetched {
            Ok(frame) => match frame.decoded {
                Ok(data) => {
                    &&& after == after_frame(before)
                    &&& r matches Ok(delivered)
                    &&& assembled(
                        PendingFrame {
                            resolution: frame.resolution,
                            host_timing: HostTimingInfo {
                                fno: before.next_frame_number,
                                datetime: frame.datetime,
                            },
                        },
                        data@,
                        delivered,
                    )
                },
                Err(msg) => {
                    &&& after == before
                    &&& r matches Err(e) && e@ == (ErrorView::BackendError { msg: msg@ })
                },
            },
            Err(msg) => {
                &&& after == before
                &&& r matches Err(e) && e@ == (ErrorView::BackendError { msg: msg@ })
            },
        }
    }

    /// Takes in the outcome of a blocking fetch on the device: the frame
    /// with the moment it arrived and the outcome of decoding its pixels to
    /// `RGB8`, or the device's failure. Delivers the frame under the next
    /// number of the count.
    ///
    /// The count must not have reached the number that stands for "no
    /// frame", and decoded data must hold the whole image.
    ///
    /// Whether the stream is open is the device's matter: the camera's own
    /// record of it plays no part here, and a fetch on a closed stream comes
    /// in as whatever the device answered.
    pub fn next_frame(&mut self, fetched: Result<FetchedFrame, String>) -> (r: Result<
        AcquiredFrame,
        Error,
    >)
        requires
            old(self)@.next_frame_number < BAD_FNO,
            fetched matches Ok(frame) ==> (frame.decoded matches Ok(data) ==> data@.len()
                >= rgb_len(frame.resolution)),
        ensures
            Self::frame_delivered(old(self)@, fetched, final(self)@, r),
            r matches Ok(frame) ==> frame.host_timing.fno != BAD_FNO,
    {
        match fetched {
            Ok(frame) => {
                let resolution = frame.resolution;
                let datetime = frame.datetime;
                match frame.decoded {
                    Ok(data) => {
                        let fno = self.store_fno;
                        self.store_fno = self.store_fno + 1;
                        let pending = PendingFrame {
                            resolution,
                            host_timing: HostTimingInfo { fno, datetime },
                        };
                        Ok(assemble_frame(pending, data))
                    },
                    Err(msg) => Err(Error::from_backend(msg)),
                }
            },
            Err(msg) => Err(Error::from_backend(msg)),
        }
    }
}

} // verus!
