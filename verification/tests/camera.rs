use ci2_nokhwa::camera::{parse_command, parse_enum_feature, parse_float_feature};
use ci2_nokhwa::frame::{assemble_frame, holds_image};
use ci2_nokhwa::settings::{
    EXPOSURE_TIME_MAX, EXPOSURE_TIME_MIN, FRAME_RATE_MAX, FRAME_RATE_MIN, GAIN_MAX, GAIN_MIN,
};
use ci2_nokhwa::{
    new_module, AcquisitionMode, AutoMode, CameraFormat, Command, DeviceIndex, DeviceInfo,
    EnumFeature, Error, FeatureKind, FetchedFrame, FloatFeature, FrameFormat, HostTimingInfo,
    PendingFrame, PixFmt, Resolution, Timestamp, TriggerMode, TriggerSelector, ValueKind,
    WrappedCamera, BAD_FNO,
};

fn device() -> DeviceInfo {
    DeviceInfo { human_name: "HD Webcam".to_string(), index: DeviceIndex::Index(2) }
}

fn format_640() -> CameraFormat {
    CameraFormat {
        resolution: Resolution { width_x: 640, height_y: 480 },
        format: FrameFormat::MJPEG,
        frame_rate: 30,
    }
}

fn camera() -> WrappedCamera {
    WrappedCamera::new(&device(), Ok(format_640())).unwrap()
}

fn now() -> Timestamp {
    let now = chrono::Utc::now();
    Timestamp { secs: now.timestamp(), nanos: now.timestamp_subsec_nanos() }
}

fn small() -> Resolution {
    Resolution { width_x: 2, height_y: 2 }
}

fn arrived(resolution: Resolution) -> Result<FetchedFrame, String> {
    let pixels = vec![0u8; 3 * resolution.width_x as usize * resolution.height_y as usize];
    Ok(FetchedFrame { resolution, datetime: now(), decoded: Ok(pixels) })
}

fn undecoded(resolution: Resolution, msg: &str) -> Result<FetchedFrame, String> {
    Ok(FetchedFrame { resolution, datetime: now(), decoded: Err(msg.to_string()) })
}

fn decode(resolution: Resolution, format: nokhwa::utils::FrameFormat, data: &[u8]) -> Result<Vec<u8>, String> {
    let size = nokhwa::utils::Resolution::new(resolution.width_x, resolution.height_y);
    let buffer = nokhwa::Buffer::new(size, data, format);
    match buffer.decode_image::<nokhwa::pixel_format::RgbFormat>() {
        Ok(image) => Ok(image.into_raw()),
        Err(e) => Err(e.to_string()),
    }
}

#[test]
fn new_camera_knows_its_device() {
    let cam = camera();
    assert_eq!(cam.name(), "HD Webcam-2");
    assert_eq!(cam.serial(), "2");
    assert_eq!(cam.model(), "HD Webcam");
    assert_eq!(cam.vendor(), "Unknown");
    assert_eq!(cam.frame_count(), 0);
    assert!(!cam.is_streaming());
    assert_eq!(cam.current_format(), format_640());
    assert_eq!(cam.width(), Ok(640));
    assert_eq!(cam.height(), Ok(480));
}

#[test]
fn camera_of_a_device_that_did_not_open() {
    let r = WrappedCamera::new(&device(), Err("permission denied".to_string()));
    match r {
        Err(e) => assert_eq!(e, Error::BackendError { msg: "permission denied".to_string() }),
        Ok(_) => panic!("a camera was made of a device that did not open"),
    }
    let module = new_module().unwrap();
    assert!(module.camera(&device(), Err("busy".to_string())).is_err());
    assert_eq!(module.camera(&device(), Ok(format_640())).unwrap().name(), "HD Webcam-2");
}

#[test]
fn enumerate_resolve_and_take_three_frames() {
    let module = new_module().unwrap();
    let devices = vec![
        DeviceInfo { human_name: "Front".to_string(), index: DeviceIndex::Index(0) },
        DeviceInfo { human_name: "Back".to_string(), index: DeviceIndex::Index(1) },
    ];
    let infos = module.camera_infos(Ok(devices.clone())).unwrap();
    let name = infos[1].name().to_string();
    let place = module.resolve(&name, Ok(devices.clone())).unwrap();
    assert_eq!(place, 1);
    let opened = CameraFormat {
        resolution: Resolution { width_x: 4, height_y: 2 },
        format: FrameFormat::YUYV,
        frame_rate: 15,
    };
    let mut cam = module.camera(&devices[place], Ok(opened)).unwrap();
    assert_eq!(cam.name(), name);
    assert_eq!(cam.acquisition_start(Ok(())), Ok(()));
    assert!(cam.is_streaming());

    let raw: Vec<u8> = vec![16, 128, 235, 128, 81, 90, 81, 240, 145, 54, 145, 34, 41, 240, 41, 110];
    let mut frames = Vec::new();
    for _ in 0..3 {
        let datetime = now();
        let decoded = decode(opened.resolution, nokhwa::utils::FrameFormat::YUYV, &raw);
        if let Ok(data) = &decoded {
            assert!(holds_image(opened.resolution, data));
        }
        let fetched = FetchedFrame { resolution: opened.resolution, datetime, decoded };
        frames.push(cam.next_frame(Ok(fetched)).unwrap());
    }
    for (i, frame) in frames.iter().enumerate() {
        assert_eq!(frame.host_timing.fno, i);
        assert_eq!(frame.width, 4);
        assert_eq!(frame.height, 2);
        assert_eq!(frame.stride, 12);
        assert_eq!(frame.pixel_format, PixFmt::RGB8);
        assert_eq!(frame.image_data.len(), 24);
        assert_eq!(&frame.image_data[0..6], &[0, 0, 0, 255, 255, 255]);
    }
    for pair in frames.windows(2) {
        let earlier = (pair[0].host_timing.datetime.secs, pair[0].host_timing.datetime.nanos);
        let later = (pair[1].host_timing.datetime.secs, pair[1].host_timing.datetime.nanos);
        assert!(earlier <= later);
    }
    assert_eq!(cam.frame_count(), 3);
    assert_eq!(cam.acquisition_stop(Ok(())), Ok(()));
    assert!(!cam.is_streaming());
}

#[test]
fn frame_carries_the_moment_it_arrived() {
    let mut cam = camera();
    let datetime = Timestamp { secs: 1_700_000_000, nanos: 999_999_999 };
    let fetched = FetchedFrame { resolution: small(), datetime, decoded: Ok(vec![9u8; 12]) };
    let frame = cam.next_frame(Ok(fetched)).unwrap();
    assert_eq!(frame.host_timing, HostTimingInfo { fno: 0, datetime });
    assert_eq!(frame.image_data, vec![9u8; 12]);
    assert_eq!(frame.backend_data, None);
}

#[test]
fn failed_fetch_keeps_the_count() {
    let mut cam = camera();
    assert_eq!(cam.next_frame(arrived(small())).unwrap().host_timing.fno, 0);
    assert_eq!(
        cam.next_frame(Err("timeout".to_string())),
        Err(Error::BackendError { msg: "timeout".to_string() })
    );
    assert_eq!(cam.frame_count(), 1);
    assert_eq!(cam.next_frame(arrived(small())).unwrap().host_timing.fno, 1);
    assert_eq!(cam.frame_count(), 2);
}

#[test]
fn failed_decoding_keeps_the_count() {
    let mut cam = camera();
    assert_eq!(cam.next_frame(arrived(small())).unwrap().host_timing.fno, 0);
    assert_eq!(
        cam.next_frame(undecoded(small(), "bad stream")),
        Err(Error::BackendError { msg: "bad stream".to_string() })
    );
    assert_eq!(cam.frame_count(), 1);
    assert_eq!(
        cam.next_frame(undecoded(small(), "bad stream again")),
        Err(Error::BackendError { msg: "bad stream again".to_string() })
    );
    assert_eq!(cam.next_frame(arrived(small())).unwrap().host_timing.fno, 1);
    assert_eq!(cam.next_frame(arrived(small())).unwrap().host_timing.fno, 2);
    assert_eq!(cam.frame_count(), 3);
}

#[test]
fn undecodable_frame_from_the_decoder_keeps_the_count() {
    let mut cam = camera();
    let size = Resolution { width_x: 4, height_y: 2 };
    let decoded = decode(size, nokhwa::utils::FrameFormat::YUYV, &[1, 2, 3]);
    assert!(decoded.is_err());
    let fetched = FetchedFrame { resolution: size, datetime: now(), decoded };
    assert!(cam.next_frame(Ok(fetched)).is_err());
    assert_eq!(cam.frame_count(), 0);
}

#[test]
fn delivered_frames_count_up_from_zero() {
    let mut cam = camera();
    let datetime = Timestamp { secs: 1_700_000_000, nanos: 5 };
    let size = Resolution { width_x: 8, height_y: 6 };
    for expected in 0..5usize {
        let fetched = FetchedFrame { resolution: size, datetime, decoded: Ok(vec![0u8; 144]) };
        let frame = cam.next_frame(Ok(fetched)).unwrap();
        assert_eq!(frame.host_timing, HostTimingInfo { fno: expected, datetime });
        assert_ne!(frame.host_timing.fno, BAD_FNO);
        assert_eq!((frame.width, frame.height, frame.stride), (8, 6, 24));
    }
    assert_eq!(cam.next_frame(Err("gone".to_string())), Err(Error::from_backend("gone".to_string())));
    assert_eq!(cam.frame_count(), 5);
}

#[test]
fn writes_and_stream_changes_keep_the_count() {
    let mut cam = camera();
    cam.next_frame(arrived(small())).unwrap();
    cam.set_pixel_format(PixFmt::Mono8, Ok(())).unwrap();
    cam.feature_int_set("Width", 3).unwrap();
    cam.acquisition_stop(Ok(())).unwrap();
    cam.acquisition_start(Ok(())).unwrap();
    cam.node_map_load("{}").unwrap();
    assert_eq!(cam.next_frame(arrived(small())).unwrap().host_timing.fno, 1);
}

#[test]
fn assembled_frame_is_rgb8_without_padding() {
    let pending = PendingFrame {
        resolution: Resolution { width_x: 5, height_y: 2 },
        host_timing: HostTimingInfo { fno: 9, datetime: Timestamp { secs: 1, nanos: 2 } },
    };
    let data: Vec<u8> = (0..30).collect();
    let frame = assemble_frame(pending, data.clone());
    assert_eq!(frame.width, 5);
    assert_eq!(frame.height, 2);
    assert_eq!(frame.stride, 15);
    assert_eq!(frame.image_data, data);
    assert_eq!(frame.pixel_format, PixFmt::RGB8);
    assert_eq!(frame.host_timing, pending.host_timing);
    assert_eq!(frame.backend_data, None);
}

#[test]
fn decoded_data_is_measured_against_the_image() {
    let size = Resolution { width_x: 5, height_y: 2 };
    assert!(holds_image(size, &vec![0u8; 30]));
    assert!(holds_image(size, &vec![0u8; 31]));
    assert!(!holds_image(size, &vec![0u8; 29]));
    assert!(holds_image(Resolution { width_x: 0, height_y: 7 }, &Vec::new()));
    assert!(!holds_image(Resolution { width_x: 4294967295, height_y: 4294967295 }, &vec![0u8; 8]));
}

#[test]
fn gray_frame_is_decoded_and_delivered() {
    let mut cam = camera();
    let size = Resolution { width_x: 2, height_y: 1 };
    let decoded = decode(size, nokhwa::utils::FrameFormat::GRAY, &[7, 200]);
    let fetched = FetchedFrame { resolution: size, datetime: now(), decoded };
    let frame = cam.next_frame(Ok(fetched)).unwrap();
    assert_eq!(frame.image_data, vec![7, 7, 7, 200, 200, 200]);
    assert_eq!(frame.stride, 6);
    assert_eq!(frame.pixel_format, PixFmt::RGB8);
}

#[test]
fn stream_state_follows_the_device() {
    let mut cam = camera();
    assert_eq!(
        cam.acquisition_start(Err("busy".to_string())),
        Err(Error::BackendError { msg: "busy".to_string() })
    );
    assert!(!cam.is_streaming());
    assert_eq!(cam.acquisition_start(Ok(())), Ok(()));
    assert!(cam.is_streaming());
    assert_eq!(
        cam.acquisition_stop(Err("stuck".to_string())),
        Err(Error::BackendError { msg: "stuck".to_string() })
    );
    assert!(cam.is_streaming());
    assert_eq!(cam.acquisition_stop(Ok(())), Ok(()));
    assert!(!cam.is_streaming());
}

#[test]
fn fetch_on_a_stopped_stream_is_the_devices_matter() {
    let mut cam = camera();
    assert!(!cam.is_streaming());
    assert_eq!(
        cam.next_frame(Err("Could not capture frame: Stream Not Started".to_string())),
        Err(Error::BackendError { msg: "Could not capture frame: Stream Not Started".to_string() })
    );
    assert_eq!(cam.frame_count(), 0);
    let frame = cam.next_frame(arrived(Resolution { width_x: 1, height_y: 1 })).unwrap();
    assert_eq!(frame.host_timing.fno, 0);
    assert!(!cam.is_streaming());
}

#[test]
fn commands_are_known_by_name() {
    let cam = camera();
    assert_eq!(cam.command_execute("AcquisitionStart", true), Ok(Command::AcquisitionStart));
    assert_eq!(cam.command_execute("AcquisitionStop", false), Ok(Command::AcquisitionStop));
    assert_eq!(
        cam.command_execute("AcquisitionAbort", true),
        Err(Error::UnsupportedCommand { name: "AcquisitionAbort".to_string() })
    );
    assert_eq!(parse_command("acquisitionstart"), None);
    assert_eq!(parse_command(""), None);
}

#[test]
fn feature_names_are_told_apart() {
    assert_eq!(parse_float_feature("ExposureTime"), Some(FloatFeature::ExposureTime));
    assert_eq!(parse_float_feature("Gain"), Some(FloatFeature::Gain));
    assert_eq!(parse_float_feature("AcquisitionFrameRate"), Some(FloatFeature::AcquisitionFrameRate));
    assert_eq!(parse_float_feature("AcquisitionFrameRateAbs"), Some(FloatFeature::AcquisitionFrameRate));
    assert_eq!(parse_float_feature("GainAuto"), None);
    assert_eq!(parse_enum_feature("PixelFormat"), Some(EnumFeature::PixelFormat));
    assert_eq!(parse_enum_feature("TriggerMode"), Some(EnumFeature::TriggerMode));
    assert_eq!(parse_enum_feature("AcquisitionMode"), Some(EnumFeature::AcquisitionMode));
    assert_eq!(parse_enum_feature("TriggerSelector"), Some(EnumFeature::TriggerSelector));
    assert_eq!(parse_enum_feature("ExposureAuto"), Some(EnumFeature::ExposureAuto));
    assert_eq!(parse_enum_feature("GainAuto"), Some(EnumFeature::GainAuto));
    assert_eq!(parse_enum_feature("Gain"), None);
}

#[test]
fn unknown_float_feature_fails_and_unimplemented_bool_is_false() {
    let cam = camera();
    assert_eq!(
        cam.feature_float("NoSuchFeature"),
        Err(Error::UnsupportedFeature { kind: FeatureKind::Float, name: "NoSuchFeature".to_string() })
    );
    assert_eq!(
        cam.feature_float("NoSuchFeature").unwrap_err().message(),
        "Unknown float feature: NoSuchFeature"
    );
    assert_eq!(cam.feature_bool("SomeKnownButUnimplementedFeature"), Ok(false));
}

#[test]
fn features_without_support_read_their_defaults() {
    let cam = camera();
    assert_eq!(cam.feature_bool("ReverseX"), Ok(false));
    assert_eq!(cam.feature_bool(""), Ok(false));
    assert_eq!(cam.feature_int("OffsetX"), Ok(0));
    assert_eq!(cam.feature_int("width"), Ok(0));
    assert_eq!(cam.feature_float("Gain"), Ok(0));
    assert_eq!(cam.feature_float("ExposureTime"), Ok(1000));
    assert_eq!(cam.feature_enum("TriggerMode"), Ok("Off".to_string()));
    assert_eq!(cam.feature_enum("AcquisitionMode"), Ok("Continuous".to_string()));
    assert_eq!(cam.feature_enum("TriggerSelector"), Ok("FrameStart".to_string()));
    assert_eq!(cam.feature_enum("ExposureAuto"), Ok("Off".to_string()));
    assert_eq!(cam.feature_enum("GainAuto"), Ok("Off".to_string()));
}

#[test]
fn features_of_the_format_read_the_format() {
    let cam = camera();
    assert_eq!(cam.feature_int("Width"), Ok(640));
    assert_eq!(cam.feature_int("Height"), Ok(480));
    assert_eq!(cam.feature_float("AcquisitionFrameRate"), Ok(30));
    assert_eq!(cam.feature_float("AcquisitionFrameRateAbs"), Ok(30));
    assert_eq!(cam.feature_enum("PixelFormat"), Ok("MJPEG".to_string()));
    let wide = CameraFormat {
        resolution: Resolution { width_x: 4294967295, height_y: 1 },
        format: FrameFormat::RAWBGR,
        frame_rate: 0,
    };
    let cam = WrappedCamera::new(&device(), Ok(wide)).unwrap();
    assert_eq!(cam.feature_int("Width"), Ok(4294967295));
    assert_eq!(cam.feature_enum("PixelFormat"), Ok("RAWBGR".to_string()));
    assert_eq!(cam.pixel_format(), Ok(PixFmt::RGB8));
}

#[test]
fn unknown_enum_feature_fails() {
    let mut cam = camera();
    let unknown = Error::UnsupportedFeature { kind: FeatureKind::Enum, name: "Gain".to_string() };
    assert_eq!(cam.feature_enum("Gain"), Err(unknown.clone()));
    assert_eq!(cam.feature_enum_request("Gain", "Off"), Err(unknown.clone()));
    assert_eq!(cam.feature_enum_set("Gain", "Off", Ok(())), Err(unknown));
    assert_eq!(cam.current_format(), format_640());
}

#[test]
fn unknown_float_feature_cannot_be_written() {
    let mut cam = camera();
    assert_eq!(
        cam.feature_float_set("Zoom", 0),
        Err(Error::UnsupportedFeature { kind: FeatureKind::Float, name: "Zoom".to_string() })
    );
}

#[test]
fn writes_without_support_are_accepted_and_change_nothing() {
    let mut cam = camera();
    assert_eq!(cam.feature_bool_set("ReverseX", true), Ok(()));
    assert_eq!(cam.feature_int_set("Width", 320), Ok(()));
    assert_eq!(cam.feature_float_set("ExposureTime", 0x40a3_8800_0000_0000), Ok(()));
    assert_eq!(cam.feature_float_set("Gain", 0x4024_0000_0000_0000), Ok(()));
    assert_eq!(cam.feature_float_set("AcquisitionFrameRate", 0x404e_0000_0000_0000), Ok(()));
    assert_eq!(cam.feature_enum_request("TriggerMode", "On"), Ok(None));
    assert_eq!(cam.feature_enum_set("TriggerMode", "On", Ok(())), Ok(()));
    assert_eq!(cam.feature_enum_set("ExposureAuto", "Continuous", Ok(())), Ok(()));
    assert_eq!(cam.feature_enum_set("GainAuto", "anything", Ok(())), Ok(()));
    assert_eq!(cam.feature_bool("ReverseX"), Ok(false));
    assert_eq!(cam.feature_int("Width"), Ok(640));
    assert_eq!(cam.feature_float("ExposureTime"), Ok(1000));
    assert_eq!(cam.feature_float("Gain"), Ok(0));
    assert_eq!(cam.feature_float("AcquisitionFrameRate"), Ok(30));
    assert_eq!(cam.feature_enum("TriggerMode"), Ok("Off".to_string()));
    assert_eq!(cam.feature_enum("ExposureAuto"), Ok("Off".to_string()));
    assert_eq!(cam.current_format(), format_640());
}

#[test]
fn pixel_format_feature_sets_the_encoding() {
    let mut cam = camera();
    let expected = CameraFormat { format: FrameFormat::YUYV, ..format_640() };
    assert_eq!(cam.feature_enum_request("PixelFormat", "YUYV"), Ok(Some(expected)));
    assert_eq!(cam.current_format(), format_640());
    assert_eq!(cam.feature_enum_set("PixelFormat", "YUYV", Ok(())), Ok(()));
    assert_eq!(cam.current_format(), expected);
    assert_eq!(cam.feature_enum("PixelFormat"), Ok("YUYV".to_string()));
    assert_eq!(cam.pixel_format(), Ok(PixFmt::YUV422));
}

#[test]
fn pixel_format_feature_that_the_device_refused_changes_nothing() {
    let mut cam = camera();
    assert_eq!(
        cam.feature_enum_set("PixelFormat", "GRAY", Err("no such mode".to_string())),
        Err(Error::BackendError { msg: "no such mode".to_string() })
    );
    assert_eq!(cam.current_format(), format_640());
    assert_eq!(cam.feature_enum("PixelFormat"), Ok("MJPEG".to_string()));
    assert_eq!(cam.pixel_format(), Ok(PixFmt::RGB8));
}

#[test]
fn pixel_format_feature_refuses_other_names() {
    let mut cam = camera();
    let refused = Error::ParseError { what: ValueKind::FrameFormat, text: "NV12".to_string() };
    assert_eq!(cam.feature_enum_request("PixelFormat", "NV12"), Err(refused.clone()));
    assert_eq!(cam.feature_enum_set("PixelFormat", "NV12", Ok(())), Err(refused));
    assert_eq!(cam.current_format(), format_640());
}

#[test]
fn set_pixel_format_mono8_then_read_it() {
    let mut cam = camera();
    let asked = cam.pixel_format_request(PixFmt::Mono8).unwrap();
    assert_eq!(asked, CameraFormat { format: FrameFormat::GRAY, ..format_640() });
    assert_eq!(cam.pixel_format(), Ok(PixFmt::RGB8));
    assert_eq!(cam.set_pixel_format(PixFmt::Mono8, Ok(())), Ok(()));
    assert_eq!(cam.pixel_format(), Ok(PixFmt::Mono8));
    assert_eq!(cam.current_format(), asked);
}

#[test]
fn pixel_format_that_the_device_refused_is_not_recorded() {
    let mut cam = camera();
    cam.set_pixel_format(PixFmt::YUV422, Ok(())).unwrap();
    assert_eq!(
        cam.set_pixel_format(PixFmt::Mono8, Err("format not offered".to_string())),
        Err(Error::BackendError { msg: "format not offered".to_string() })
    );
    assert_eq!(cam.pixel_format(), Ok(PixFmt::YUV422));
    assert_eq!(cam.current_format(), CameraFormat { format: FrameFormat::YUYV, ..format_640() });
}

#[test]
fn every_possible_pixel_format_can_be_set_and_read() {
    let mut cam = camera();
    let possible = cam.possible_pixel_formats().unwrap();
    assert_eq!(possible, vec![PixFmt::RGB8, PixFmt::Mono8, PixFmt::YUV422]);
    for format in possible {
        assert!(cam.pixel_format_request(format).is_ok());
        assert_eq!(cam.set_pixel_format(format, Ok(())), Ok(()));
        assert_eq!(cam.pixel_format(), Ok(format));
        assert_eq!(cam.width(), Ok(640));
        assert_eq!(cam.height(), Ok(480));
        assert_eq!(cam.acquisition_frame_rate(), Ok(30));
    }
}

#[test]
fn unsupported_pixel_format_is_refused() {
    let mut cam = camera();
    cam.set_pixel_format(PixFmt::YUV422, Ok(())).unwrap();
    let refused = Error::UnsupportedPixelFormat { format: PixFmt::RGBA8 };
    assert_eq!(cam.pixel_format_request(PixFmt::RGBA8), Err(refused.clone()));
    assert_eq!(cam.set_pixel_format(PixFmt::RGBA8, Ok(())), Err(refused.clone()));
    assert_eq!(cam.set_pixel_format(PixFmt::RGBA8, Err("unasked".to_string())), Err(refused));
    assert_eq!(cam.pixel_format(), Ok(PixFmt::YUV422));
}

#[test]
fn typed_settings_read_their_features() {
    let cam = camera();
    assert_eq!(cam.exposure_time(), Ok(1000));
    assert_eq!(cam.gain(), Ok(0));
    assert_eq!(cam.acquisition_frame_rate(), Ok(30));
    assert_eq!(cam.exposure_auto(), Ok(AutoMode::Off));
    assert_eq!(cam.gain_auto(), Ok(AutoMode::Off));
    assert_eq!(cam.trigger_mode(), Ok(TriggerMode::Off));
    assert_eq!(cam.trigger_selector(), Ok(TriggerSelector::FrameStart));
    assert_eq!(cam.acquisition_mode(), Ok(AcquisitionMode::Continuous));
    assert_eq!(cam.acquisition_frame_rate_enable(), Ok(true));
}

#[test]
fn ranges_are_the_documented_ones() {
    let cam = camera();
    assert_eq!(cam.exposure_time_range(), Ok((1, 10000)));
    assert_eq!(cam.gain_range(), Ok((0, 100)));
    assert_eq!(cam.acquisition_frame_rate_range(), Ok((1, 120)));
    assert_eq!((EXPOSURE_TIME_MIN, EXPOSURE_TIME_MAX), (1, 10000));
    assert_eq!((GAIN_MIN, GAIN_MAX), (0, 100));
    assert_eq!((FRAME_RATE_MIN, FRAME_RATE_MAX), (1, 120));
}

#[test]
fn typed_writes_are_accepted_and_ignored() {
    let mut cam = camera();
    assert_eq!(cam.set_exposure_time(0x40a3_8800_0000_0000), Ok(()));
    assert_eq!(cam.set_gain(0x4024_0000_0000_0000), Ok(()));
    assert_eq!(cam.set_acquisition_frame_rate(0x404e_0000_0000_0000), Ok(()));
    assert_eq!(cam.set_exposure_auto(AutoMode::Continuous), Ok(()));
    assert_eq!(cam.set_gain_auto(AutoMode::Once), Ok(()));
    assert_eq!(cam.set_trigger_mode(TriggerMode::On), Ok(()));
    assert_eq!(cam.set_trigger_selector(TriggerSelector::ExposureActive), Ok(()));
    assert_eq!(cam.set_acquisition_mode(AcquisitionMode::SingleFrame), Ok(()));
    assert_eq!(cam.set_acquisition_frame_rate_enable(false), Ok(()));
    assert_eq!(cam.exposure_time(), Ok(1000));
    assert_eq!(cam.gain(), Ok(0));
    assert_eq!(cam.acquisition_frame_rate(), Ok(30));
    assert_eq!(cam.exposure_auto(), Ok(AutoMode::Off));
    assert_eq!(cam.gain_auto(), Ok(AutoMode::Off));
    assert_eq!(cam.trigger_mode(), Ok(TriggerMode::Off));
    assert_eq!(cam.trigger_selector(), Ok(TriggerSelector::FrameStart));
    assert_eq!(cam.acquisition_mode(), Ok(AcquisitionMode::Continuous));
    assert_eq!(cam.acquisition_frame_rate_enable(), Ok(true));
}

#[test]
fn external_triggering_is_set_up_like_selector_then_mode() {
    let mut composite = camera();
    assert_eq!(composite.start_default_external_triggering(), Ok(()));
    let mut by_hand = camera();
    assert_eq!(by_hand.set_trigger_selector(TriggerSelector::FrameStart), Ok(()));
    assert_eq!(by_hand.set_trigger_mode(TriggerMode::On), Ok(()));
    assert_eq!(composite.current_format(), by_hand.current_format());
    assert_eq!(composite.trigger_mode(), by_hand.trigger_mode());
    assert_eq!(composite.trigger_selector(), by_hand.trigger_selector());
    assert_eq!(composite.frame_count(), by_hand.frame_count());
}

#[test]
fn frame_rate_limit_is_accepted() {
    let mut cam = camera();
    assert_eq!(cam.set_software_frame_rate_limit(0x4039_0000_0000_0000), Ok(()));
    assert_eq!(cam.acquisition_frame_rate_enable(), Ok(true));
    assert_eq!(cam.acquisition_frame_rate(), Ok(30));
}

#[test]
fn saved_settings_load_back_without_a_change() {
    let mut cam = camera();
    cam.set_pixel_format(PixFmt::YUV422, Ok(())).unwrap();
    let saved = cam.node_map_save().unwrap();
    assert_eq!(saved, "{}");
    assert_eq!(cam.node_map_load(&saved), Ok(()));
    assert_eq!(cam.node_map_save(), Ok(saved));
    assert_eq!(cam.pixel_format(), Ok(PixFmt::YUV422));
    assert_eq!(cam.exposure_time(), Ok(1000));
    assert_eq!(cam.exposure_auto(), Ok(AutoMode::Off));
    assert_eq!(cam.gain(), Ok(0));
    assert_eq!(cam.gain_auto(), Ok(AutoMode::Off));
    assert_eq!(cam.trigger_mode(), Ok(TriggerMode::Off));
    assert_eq!(cam.trigger_selector(), Ok(TriggerSelector::FrameStart));
    assert_eq!(cam.acquisition_mode(), Ok(AcquisitionMode::Continuous));
    assert_eq!(cam.acquisition_frame_rate(), Ok(30));
    assert_eq!(cam.acquisition_frame_rate_enable(), Ok(true));
    assert_eq!(cam.width(), Ok(640));
    assert_eq!(cam.height(), Ok(480));
}

#[test]
fn any_document_loads() {
    let mut cam = camera();
    assert_eq!(cam.node_map_load(""), Ok(()));
    assert_eq!(cam.node_map_load("{\"ExposureTime\": \"fast\"}"), Ok(()));
    assert_eq!(cam.current_format(), format_640());
}
