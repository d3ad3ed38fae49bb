//! What holds of the camera across calls, stated over the models that the
//! contracts of the functions use.

use vstd::prelude::*;
use crate::camera::{
    after_frame,
    enum_feature_of,
    enum_value,
    float_value,
    int_value,
    journaled,
    CameraModel,
    EnumFeature,
    FloatFeature,
    WrappedCamera,
    Write,
};
use crate::directory::{info_of, is_first_match, no_match, DeviceInfo};
use crate::error::Error;
use crate::formats::{
    canonical_of,
    frame_format_of,
    lemma_selectable_name_round_trip,
    lemma_selectable_names_differ,
    CameraFormat,
    PixFmt,
};
use crate::frame::{AcquiredFrame, FetchedFrame, BAD_FNO};

verus! {

/// The model after `n` more frames were delivered.
pub open spec fn after_frames(camera: CameraModel, n: nat) -> CameraModel
    decreases n,
{
    if n == 0 {
        camera
    } else {
        after_frame(after_frames(camera, (n - 1) as nat))
    }
}

/// Delivered frames are numbered one after the other. After `n` frames the
/// next number is `n` more than it was, so a camera that starts at zero
/// gives its frames the numbers 0, 1, 2 and so on; nothing else about the camera
/// changes; and as long as the count has room, no frame gets the number that
/// stands for "no frame".
pub proof fn lemma_frame_numbers_count_up(camera: CameraModel, n: nat)
    requires
        camera.next_frame_number + n <= BAD_FNO,
    ensures
        after_frames(camera, n) == (CameraModel {
            next_frame_number: (camera.next_frame_number + n) as usize,
            ..camera
        }),
        n > 0 ==> after_frames(camera, (n - 1) as nat).next_frame_number != BAD_FNO,
    decreases n,
{
    if n > 0 {
        lemma_frame_numbers_count_up(camera, (n - 1) as nat);
    }
}

/// Of two frames delivered one after the other, whatever failed between
/// them, the second has the number of the first plus one.
pub proof fn lemma_consecutive_frames(camera: CameraModel)
    requires
        camera.next_frame_number < BAD_FNO,
    ensures
        after_frame(camera).next_frame_number == camera.next_frame_number + 1,
{
}

/// No write moves the frame count, stops or starts the stream, or changes
/// what is known of the device.
pub proof fn lemma_writes_keep_the_count(camera: CameraModel, write: Write)
    ensures
        journaled(camera, write).next_frame_number == camera.next_frame_number,
        journaled(camera, write).streaming == camera.streaming,
        journaled(camera, write).info == camera.info,
        journaled(camera, write).format == camera.format,
{
}

/// Saving the settings and loading them back right away leaves every
/// setting as it was: whatever document is loaded, each feature and each
/// typed setting reads the same before and after.
pub proof fn lemma_settings_round_trip(before: CameraModel, text: Seq<char>)
    ensures
        ({
            let after = journaled(before, Write::Settings { text });
            &&& after.format == before.format
            &&& canonical_of(after.format.format) == canonical_of(before.format.format)
            &&& forall|feature: FloatFeature|
                float_value(after, feature) == float_value(before, feature)
            &&& forall|feature: EnumFeature|
                enum_value(after, feature) == enum_value(before, feature)
            &&& forall|name: Seq<char>| int_value(after, name) == int_value(before, name)
        }),
{
}

/// A pixel format that was set is the one that is read afterwards, and the
/// size and the frame rate stay.
pub proof fn lemma_pixel_format_is_read_back(
    before: CameraModel,
    pixel_format: PixFmt,
    answer: Result<(), String>,
    after: CameraModel,
    r: Result<(), Error>,
)
    requires
        WrappedCamera::pixel_format_set(before, pixel_format, answer, after, r),
        r is Ok,
    ensures
        answer is Ok,
        canonical_of(after.format.format) == pixel_format,
        after.format.resolution == before.format.resolution,
        after.format.frame_rate == before.format.frame_rate,
{
}

/// A pixel format that was written on the feature protocol is the one that
/// is read there afterwards.
pub proof fn lemma_enum_pixel_format_is_read_back(
    before: CameraModel,
    name: Seq<char>,
    value: Seq<char>,
    answer: Result<(), String>,
    after: CameraModel,
    r: Result<(), Error>,
)
    requires
        WrappedCamera::enum_written(before, name, value, answer, after, r),
        enum_feature_of(name) == Some(EnumFeature::PixelFormat),
        r is Ok,
    ensures
        answer is Ok,
        enum_value(after, EnumFeature::PixelFormat) == value,
{
    let encoding = frame_format_of(value)->0;
    lemma_selectable_name_round_trip(encoding);
    lemma_selectable_names_differ();
}

/// The camera's record of the format follows the device: where the device
/// refused the request for a new pixel format, on either way of writing it,
/// the camera is as it was and reads the format it read before.
pub proof fn lemma_refused_format_keeps_the_record(
    before: CameraModel,
    pixel_format: PixFmt,
    name: Seq<char>,
    value: Seq<char>,
    answer: Result<(), String>,
    after: CameraModel,
    typed: Result<(), Error>,
    named: Result<(), Error>,
)
    requires
        answer is Err,
    ensures
        WrappedCamera::pixel_format_set(before, pixel_format, answer, after, typed) ==> after
            == before && typed is Err,
        WrappedCamera::enum_written(before, name, value, answer, after, named) && enum_feature_of(
            name,
        ) == Some(EnumFeature::PixelFormat) ==> after == before && named is Err,
{
}

/// Only a frame that is delivered uses up a number: whatever comes of a
/// fetch, the camera either is as it was and the call failed, or has
/// delivered one more frame, under the number that was next.
pub proof fn lemma_only_delivered_frames_are_numbered(
    before: CameraModel,
    fetched: Result<FetchedFrame, String>,
    after: CameraModel,
    r: Result<AcquiredFrame, Error>,
)
    requires
        WrappedCamera::frame_delivered(before, fetched, after, r),
    ensures
        r is Err ==> after == before,
        r matches Ok(frame) ==> after == after_frame(before) && frame.host_timing.fno
            == before.next_frame_number,
{
}

/// A name taken from the listing of the devices is found among the same
/// devices: some device at or before the place it was listed at is the
/// first of that name.
pub proof fn lemma_listed_name_resolves(devices: Seq<DeviceInfo>, i: int)
    requires
        0 <= i < devices.len(),
    ensures
        !no_match(devices, info_of(&devices[i]).name),
        exists|j: int| 0 <= j <= i && is_first_match(devices, info_of(&devices[i]).name, j),
    decreases i,
{
    let name = info_of(&devices[i]).name;
    assert(devices[i].display_name() == name);
    if exists|k: int| 0 <= k < i && (#[trigger] devices[k]).display_name() == name {
        let k = choose|k: int| 0 <= k < i && (#[trigger] devices[k]).display_name() == name;
        lemma_listed_name_resolves(devices, k);
        let j = choose|j: int|
            0 <= j <= k && is_first_match(devices, info_of(&devices[k]).name, j);
        assert(is_first_match(devices, name, j));
    } else {
        assert(is_first_match(devices, name, i));
    }
}

} // verus!
