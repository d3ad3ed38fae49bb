//! The camera directory: the module that lists the attached devices and
//! finds one by its name, and the guard of the backend's lifetime.

use vstd::prelude::*;
use vstd::string::*;
use crate::camera::WrappedCamera;
use crate::error::{Error, ErrorView};
use crate::formats::CameraFormat;
use crate::text::{decimal, str_eq};

verus! {

/// How the backend tells one device from another.
#[derive(Clone, Debug, PartialEq, Eq)]
pub enum DeviceIndex {
    /// A position in the system's list of cameras.
    Index(u32),
    /// An address, as network cameras have.
    String(String),
}

/// One entry of the backend's list of attached devices.
#[derive(Clone, Debug, PartialEq, Eq)]
pub struct DeviceInfo {
    pub human_name: String,
    pub index: DeviceIndex,
}

impl DeviceIndex {
    /// The index as text: the decimal numeral of a position, an address as it
    /// is.
    pub open spec fn text(&self) -> Seq<char> {
        match self {
            DeviceIndex::Index(i) => decimal(*i as nat),
            DeviceIndex::String(s) => s@,
        }
    }
}

impl DeviceInfo {
    /// The name under which the device is listed and found: its human
    /// name, a hyphen and its index.
    pub open spec fn display_name(&self) -> Seq<char> {
        self.human_name@ + "-"@ + self.index.text()
    }
}

/// The text of a device index, through `nokhwa::utils::CameraIndex::as_string`.
/// That function writes a position with `u32::to_string`, which gives the
/// decimal numeral, and copies an address; the contract says exactly this.
#[verifier::external_body]
fn index_text(index: &DeviceIndex) -> (s: String)
    ensures
        s@ == index.text(),
{
    let outside = match index {
        DeviceIndex::Index(i) => nokhwa::utils::CameraIndex::Index(*i),
        DeviceIndex::String(s) => nokhwa::utils::CameraIndex::String(s.clone()),
    };
    outside.as_string()
}

/// The name under which a device is listed.
pub fn to_name(info: &DeviceInfo) -> (s: String)
    ensures
        s@ == info.display_name(),
{
    let mut s = info.human_name.clone();
    s.append("-");
    let index = index_text(&info.index);
    s.append(index.as_str());
    s
}

/// What is known of a camera: the name it is found by, its serial, its model
/// and its vendor.
#[derive(Clone, Debug, PartialEq, Eq)]
pub struct NokhwaCameraInfo {
    name: String,
    serial: String,
    model: String,
    vendor: String,
}

/// A [`NokhwaCameraInfo`] with its texts as sequences of characters.
pub struct CameraInfoView {
    pub name: Seq<char>,
    pub serial: Seq<char>,
    pub model: Seq<char>,
    pub vendor: Seq<char>,
}

/// What is listed for a device: its display name, its index as serial, its
/// human name as model, and no vendor, which the backend does not report.
pub open spec fn info_of(device: &DeviceInfo) -> CameraInfoView {
    CameraInfoView {
        name: device.display_name(),
        serial: device.index.text(),
        model: device.human_name@,
        vendor: "Unknown"@,
    }
}

impl View for NokhwaCameraInfo {
    type V = CameraInfoView;

    closed spec fn view(&self) -> CameraInfoView {
        CameraInfoView {
            name: self.name@,
            serial: self.serial@,
            model: self.model@,
            vendor: self.vendor@,
        }
    }
}

impl NokhwaCameraInfo {
    /// The listing of one device.
    pub fn of(device: &DeviceInfo) -> (info: NokhwaCameraInfo)
        ensures
            info@ == info_of(device),
    {
        NokhwaCameraInfo {
            name: to_name(device),
            serial: index_text(&device.index),
            model: device.human_name.clone(),
            vendor: String::from_str("Unknown"),
        }
    }

    pub fn name(&self) -> (s: &str)
        ensures
            s@ == self@.name,
    {
        self.name.as_str()
    }

    pub fn serial(&self) -> (s: &str)
        ensures
            s@ == self@.serial,
    {
        self.serial.as_str()
    }

    pub fn model(&self) -> (s: &str)
        ensures
            s@ == self@.model,
    {
        self.model.as_str()
    }

    pub fn vendor(&self) -> (s: &str)
        ensures
            s@ == self@.vendor,
    {
        self.vendor.as_str()
    }
}

/// Whether `i` is the first place in `devices` whose display name is `name`.
pub open spec fn is_first_match(devices: Seq<DeviceInfo>, name: Seq<char>, i: int) -> bool {
    &&& 0 <= i < devices.len()
    &&& devices[i].display_name() == name
    &&& forall|j: int| 0 <= j < i ==> (#[trigger] devices[j]).display_name() != name
}

/// Whether no device in `devices` has the display name `name`.
pub open spec fn no_match(devices: Seq<DeviceInfo>, name: Seq<char>) -> bool {
    forall|j: int| 0 <= j < devices.len() ==> (#[trigger] devices[j]).display_name() != name
}

/// The first place in `devices` whose display name is `name`, if there is one.
pub fn find_device(devices: &Vec<DeviceInfo>, name: &str) -> (found: Option<usize>)
    ensures
        match found {
            Some(i) => is_first_match(devices@, name@, i as int),
            None => no_match(devices@, name@),
        },
{
    let mut i: usize = 0;
    while i < devices.len()
        invariant
            i <= devices.len(),
            forall|j: int| 0 <= j < i ==> (#[trigger] devices@[j]).display_name() != name@,
        decreases devices.len() - i,
    {
        let this_name = to_name(&devices[i]);
        if str_eq(this_name.as_str(), name) {
            return Some(i);
        }
        i += 1;
    }
    None
}

/// The camera module of the backend. It holds no state: every listing asks
/// the backend anew.
pub struct WrappedModule {}

/// The guard of the backend's lifetime. Releasing it a second time does
/// nothing.
pub struct NokhwaTerminateGuard {
    already_dropped: bool,
}

/// A new module. Never fails.
pub fn new_module() -> (r: Result<WrappedModule, Error>)
    ensures
        r is Ok,
{
    Ok(WrappedModule {  })
}

/// The guard for a module, not yet released. Never fails.
pub fn make_singleton_guard(module: &WrappedModule) -> (r: Result<NokhwaTerminateGuard, Error>)
    ensures
        r matches Ok(guard) && !guard.released(),
{
    Ok(NokhwaTerminateGuard { already_dropped: false })
}

impl NokhwaTerminateGuard {
    /// Whether the guard has been released.
    pub closed spec fn released(&self) -> bool {
        self.already_dropped
    }

    /// Whether the guard has been released.
    pub fn is_released(&self) -> (b: bool)
        ensures
            b == self.released(),
    {
        self.already_dropped
    }

    /// Releases the guard. Says whether this call was the one that released
    /// it; on a guard already released nothing changes.
    pub fn release(&mut self) -> (first: bool)
        ensures
            final(self).released(),
            first == !old(self).released(),
            old(self).released() ==> *final(self) == *old(self),
    {
        if !self.already_dropped {
            self.already_dropped = true;
            true
        } else {
            false
        }
    }
}

impl Drop for NokhwaTerminateGuard {
    /// Releases the guard if it was not released before.
    fn drop(&mut self)
        ensures
            final(self).released(),
        opens_invariants none
        no_unwind
    {
        if !self.already_dropped {
            self.already_dropped = true;
        }
    }
}

impl WrappedModule {
    /// The name of the backend.
    pub fn name(&self) -> (s: &'static str)
        ensures
            s@ == "nokhwa"@,
    {
        "nokhwa"
    }

    /// The extension of the files that hold saved settings.
    pub fn settings_file_extension(&self) -> (s: &'static str)
        ensures
            s@ == "json"@,
    {
        "json"
    }

    /// The listing of the attached devices, from the backend's answer to the
    /// query for them: one entry for each device, in the backend's order. A
    /// failed query is reported with the backend's message.
    pub fn camera_infos(&self, queried: Result<Vec<DeviceInfo>, String>) -> (r: Result<
        Vec<NokhwaCameraInfo>,
        Error,
    >)
        ensures
            match queried {
                Ok(devices) => r matches Ok(infos) && infos@.len() == devices@.len() && forall|
                    i: int,
                |
                    0 <= i < devices@.len() ==> (#[trigger] infos@[i])@ == info_of(&devices@[i]),
                Err(msg) => r matches Err(e) && e@ == (ErrorView::BackendError { msg: msg@ }),
            },
    {
        match queried {
            Ok(devices) => {
                let mut infos: Vec<NokhwaCameraInfo> = Vec::new();
                let mut i: usize = 0;
                while i < devices.len()
                    invariant
                        i <= devices.len(),
                        infos@.len() == i,
                        forall|k: int|
                            0 <= k < i ==> (#[trigger] infos@[k])@ == info_of(&devices@[k]),
                    decreases devices.len() - i,
                {
                    infos.push(NokhwaCameraInfo::of(&devices[i]));
                    i += 1;
                }
                Ok(infos)
            },
            Err(msg) => Err(Error::from_backend(msg)),
        }
    }

    /// Which device a name stands for, from the backend's answer to a fresh
    /// query: the place of the first device listed under that name. Fails
    /// with the name if no device is listed under it, and with the backend's
    /// message if the query failed.
    pub fn resolve(&self, name: &str, queried: Result<Vec<DeviceInfo>, String>) -> (r: Result<
        usize,
        Error,
    >)
        ensures
            match queried {
                Ok(devices) => match r {
                    Ok(i) => is_first_match(devices@, name@, i as int),
                    Err(e) => no_match(devices@, name@) && e@ == (ErrorView::NotFound {
                        name: name@,
                    }),
                },
                Err(msg) => r matches Err(e) && e@ == (ErrorView::BackendError { msg: msg@ }),
            },
    {
        match queried {
            Ok(devices) => match find_device(&devices, name) {
                Some(i) => Ok(i),
                None => Err(Error::NotFound { name: String::from_str(name) }),
            },
            Err(msg) => Err(Error::from_backend(msg)),
        }
    }

    /// The camera bound to a device that was found and opened.
    pub fn camera(&self, device: &DeviceInfo, opened: Result<CameraFormat, String>) -> (r: Result<
        WrappedCamera,
        Error,
    >)
        ensures
            WrappedCamera::bound_to(device, opened, r),
    {
        WrappedCamera::new(device, opened)
    }
}

} // verus!
