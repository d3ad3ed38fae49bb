use ci2_nokhwa::{Error, FeatureKind, PixFmt, ValueKind};

#[test]
fn backend_error_keeps_the_device_message() {
    let e = Error::from_backend("device busy".to_string());
    assert_eq!(e, Error::BackendError { msg: "device busy".to_string() });
    assert_eq!(e.message(), "Nokhwa error: device busy");
}

#[test]
fn unsupported_feature_names_the_feature() {
    let float = Error::UnsupportedFeature { kind: FeatureKind::Float, name: "Zoom".to_string() };
    assert_eq!(float.message(), "Unknown float feature: Zoom");
    let en = Error::UnsupportedFeature { kind: FeatureKind::Enum, name: "Zoom".to_string() };
    assert_eq!(en.message(), "Unknown enum feature: Zoom");
}

#[test]
fn unsupported_command_names_the_command() {
    let e = Error::UnsupportedCommand { name: "Reboot".to_string() };
    assert_eq!(e.message(), "Unknown command: Reboot");
}

#[test]
fn unsupported_pixel_format_names_the_format() {
    let e = Error::UnsupportedPixelFormat { format: PixFmt::Mono32f };
    assert_eq!(e.message(), "Unsupported pixel format: Mono32f");
    let shown = format!("Unsupported pixel format: {}", machine_vision_formats::PixFmt::Mono32f);
    assert_eq!(e.message(), shown);
}

#[test]
fn not_found_names_the_camera() {
    let e = Error::NotFound { name: "Cam-7".to_string() };
    assert_eq!(e.message(), "requested camera 'Cam-7' was not found");
}

#[test]
fn parse_error_carries_the_text() {
    let format = Error::ParseError { what: ValueKind::FrameFormat, text: "H264".to_string() };
    assert_eq!(format.message(), "Unknown format string: H264");
    let mode = Error::ParseError { what: ValueKind::AutoMode, text: "Maybe".to_string() };
    assert_eq!(mode.message(), "unexpected AutoMode enum string: Maybe");
}

#[test]
fn message_of_an_empty_name() {
    let e = Error::UnsupportedCommand { name: String::new() };
    assert_eq!(e.message(), "Unknown command: ");
}
