//! A camera backend for webcams, as a verified core over plain values.
//!
//! The crate holds everything the backend decides: the table between the
//! device's frame encodings and the canonical pixel formats, the weakly typed
//! feature protocol, the typed settings built on it, frame numbering and the
//! assembly of delivered frames, and the directory that names the attached
//! devices. Talking to the device, decoding its frames and reading the clock
//! are left to the caller, who carries out the requests that the functions
//! here hand back and hands the answers in as plain values.

pub mod text;
pub mod formats;
pub mod modes;
pub mod error;
pub mod directory;
pub mod frame;
pub mod camera;
pub mod settings;
pub mod laws;

pub use camera::{CameraModel, Command, EnumFeature, FloatFeature, WrappedCamera, Write};
pub use directory::{
    make_singleton_guard, new_module, DeviceIndex, DeviceInfo, NokhwaCameraInfo,
    NokhwaTerminateGuard, WrappedModule,
};
pub use error::{Error, ErrorView, FeatureKind, ValueKind};
pub use formats::{CameraFormat, FrameFormat, PixFmt, Resolution};
pub use frame::{
    AcquiredFrame, BackendData, FetchedFrame, HostTimingInfo, PendingFrame, Timestamp, BAD_FNO,
};
pub use modes::{AcquisitionMode, AutoMode, TriggerMode, TriggerSelector};
