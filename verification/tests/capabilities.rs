use std::any::Any;

use uvc_backend::compatible::check_rates_known;
use uvc_backend::create::DeviceDescription;
use uvc_backend::descriptor::{DescriptionSubtype, FormatDescription, FrameDescription};
use uvc_backend::device::UVCCaptureDevice;
use uvc_backend::error::NokhwaError;
use uvc_backend::rates_table::ResolutionRates;
use uvc_backend::text::decimal_text;
use uvc_backend::types::{
    ApiBackend, CameraControl, CameraFormat, FrameFormat, KnownCameraControl, KnownCameraControlFlag,
    Resolution,
};

fn camera() -> UVCCaptureDevice<u8, u16> {
    UVCCaptureDevice::<u8, u16>::create(0, None)
        .context_answered(Ok(()))
        .unwrap()
        .devices_answered(Ok(1))
        .unwrap()
        .description_answered(Ok(DeviceDescription {
            vendor_id: 1,
            product_id: 2,
            manufacturer: None,
            product: None,
        }))
        .unwrap()
}

fn frame(subtype: DescriptionSubtype, width: u16, height: u16, intervals: &[u128]) -> FrameDescription {
    FrameDescription { subtype, width, height, intervals: intervals.to_vec() }
}

fn listing() -> Vec<FormatDescription> {
    vec![
        FormatDescription {
            frames: vec![
                frame(DescriptionSubtype::FrameUncompressed, 640, 480, &[33_333_300, 66_666_600]),
                frame(DescriptionSubtype::FormatUncompressed, 320, 240, &[16_666_600]),
                frame(DescriptionSubtype::StillImageFrame, 9, 9, &[5]),
            ],
        },
        FormatDescription { frames: vec![] },
        FormatDescription {
            frames: vec![
                frame(DescriptionSubtype::FrameMJPEG, 640, 480, &[100_000_000]),
                frame(DescriptionSubtype::FrameMJPEG, 640, 480, &[1_000_000, 2_000_000_000]),
                frame(DescriptionSubtype::FrameFrameBased, 1, 1, &[1]),
            ],
        },
    ]
}

fn unsupported<T>(r: Result<T, NokhwaError>) -> bool {
    match r {
        Err(NokhwaError::UnsupportedOperationError(backend)) => {
            backend == ApiBackend::UniversalVideoClass
        }
        _ => false,
    }
}

fn get_error(error: NokhwaError) -> (String, String) {
    match error {
        NokhwaError::GetPropertyError { property, error } => (property, error),
        other => panic!("{:?}", other),
    }
}

#[test]
fn resolutions_of_an_encoding() {
    let table = camera().compatible_list_by_resolution(FrameFormat::YUYV, &listing()).unwrap();
    assert_eq!(table.get(Resolution::new(640, 480)), Some(&vec![30, 15]));
    assert_eq!(table.get(Resolution::new(320, 240)), Some(&vec![62]));
    assert_eq!(table.get(Resolution::new(9, 9)), None);
    assert_eq!(table.into_entries().len(), 2);
}

#[test]
fn later_frame_of_a_resolution_counts() {
    let table = camera().compatible_list_by_resolution(FrameFormat::MJPEG, &listing()).unwrap();
    assert_eq!(table.into_entries(), vec![(Resolution::new(640, 480), vec![1000, 0])]);
}

#[test]
fn no_formats_no_resolutions() {
    let table = camera().compatible_list_by_resolution(FrameFormat::MJPEG, &vec![]).unwrap();
    assert!(table.into_entries().is_empty());
    assert!(camera().compatible_fourcc(&vec![]).unwrap().is_empty());
}

#[test]
fn encodings_are_sorted_and_listed_once() {
    assert_eq!(
        camera().compatible_fourcc(&listing()).unwrap(),
        vec![FrameFormat::MJPEG, FrameFormat::YUYV]
    );
    let yuyv = vec![FormatDescription {
        frames: vec![
            frame(DescriptionSubtype::FormatUncompressed, 1, 1, &[]),
            frame(DescriptionSubtype::FrameUncompressed, 2, 2, &[]),
        ],
    }];
    assert_eq!(camera().compatible_fourcc(&yuyv).unwrap(), vec![FrameFormat::YUYV]);
    let other = vec![FormatDescription { frames: vec![frame(DescriptionSubtype::FormatDV, 1, 1, &[])] }];
    assert!(camera().compatible_fourcc(&other).unwrap().is_empty());
}

#[test]
fn intervals_under_a_millisecond_have_no_rate() {
    assert!(check_rates_known(&listing(), FrameFormat::MJPEG));
    assert!(check_rates_known(&listing(), FrameFormat::YUYV));
    let fast = vec![FormatDescription {
        frames: vec![frame(DescriptionSubtype::FrameMJPEG, 1, 1, &[1_000_000, 999_999])],
    }];
    assert!(!check_rates_known(&fast, FrameFormat::MJPEG));
    assert!(check_rates_known(&fast, FrameFormat::YUYV));
}

#[test]
fn table_keeps_one_entry_a_resolution() {
    let mut table = ResolutionRates::new();
    assert_eq!(table.get(Resolution::new(1, 2)), None);
    table.insert(Resolution::new(1, 2), vec![3]);
    table.insert(Resolution::new(2, 1), vec![4]);
    table.insert(Resolution::new(1, 2), vec![5, 6]);
    assert_eq!(table.get(Resolution::new(1, 2)), Some(&vec![5, 6]));
    assert_eq!(table.get(Resolution::new(2, 1)), Some(&vec![4]));
    assert_eq!(table.into_entries().len(), 2);
}

#[test]
fn exposure_and_focus_are_supported() {
    assert_eq!(
        camera().supported_camera_controls().unwrap(),
        vec![KnownCameraControl::Exposure, KnownCameraControl::Focus]
    );
}

#[test]
fn focus_reports_the_relative_exposure() {
    let camera = camera();
    let request = camera.camera_control(KnownCameraControl::Focus).unwrap();
    let control = camera.exposure_answered(request, Ok(-3)).unwrap();
    assert_eq!(
        control,
        CameraControl {
            control: KnownCameraControl::Focus,
            min: -128,
            max: 127,
            value: -3,
            step: 1,
            default: -3,
            flag: KnownCameraControlFlag::Automatic,
            active: true,
        }
    );
    for value in [i8::MIN, i8::MAX] {
        let request = camera.camera_control(KnownCameraControl::Focus).unwrap();
        assert_eq!(camera.exposure_answered(request, Ok(value)).unwrap().value, value as i32);
    }
}

#[test]
fn failed_reading_is_reported() {
    let camera = camera();
    let request = camera.camera_control(KnownCameraControl::Focus).unwrap();
    let error = camera.exposure_answered(request, Err("Timeout".to_string())).unwrap_err();
    assert_eq!(get_error(error), ("Focus".to_string(), "Timeout".to_string()));
}

#[test]
fn other_controls_cannot_be_read() {
    let names = [
        (KnownCameraControl::Brightness, "Brightness"),
        (KnownCameraControl::Contrast, "Contrast"),
        (KnownCameraControl::Hue, "Hue"),
        (KnownCameraControl::Saturation, "Saturation"),
        (KnownCameraControl::Sharpness, "Sharpness"),
        (KnownCameraControl::Gamma, "Gamma"),
        (KnownCameraControl::WhiteBalance, "WhiteBalance"),
        (KnownCameraControl::BacklightComp, "BacklightComp"),
        (KnownCameraControl::Gain, "Gain"),
        (KnownCameraControl::Pan, "Pan"),
        (KnownCameraControl::Tilt, "Tilt"),
        (KnownCameraControl::Zoom, "Zoom"),
        (KnownCameraControl::Exposure, "Exposure"),
        (KnownCameraControl::Iris, "Iris"),
    ];
    for (control, name) in names {
        let error = camera().camera_control(control).unwrap_err();
        assert_eq!(get_error(error), (name.to_string(), "Not Supported".to_string()));
    }
}

#[test]
fn controls_cannot_be_set() {
    let mut camera = camera();
    let control = CameraControl::new(
        KnownCameraControl::Focus,
        0,
        10,
        5,
        1,
        5,
        KnownCameraControlFlag::Manual,
        true,
    )
    .unwrap();
    let raw: &dyn Any = &1u8;
    assert!(unsupported(camera.set_camera_control(control)));
    assert!(unsupported(camera.raw_supported_camera_controls::<Box<dyn Any>>()));
    assert!(unsupported(camera.raw_camera_control::<dyn Any, Box<dyn Any>>(raw)));
    assert!(unsupported(camera.set_raw_camera_control(raw, raw)));
    assert_eq!(camera.camera_format(), CameraFormat::default());
}

#[test]
fn control_out_of_range_is_refused() {
    for (value, default) in [(11, 5), (-1, 5), (5, 11), (5, -1)] {
        let made = CameraControl::new(
            KnownCameraControl::Gain,
            0,
            10,
            value,
            1,
            default,
            KnownCameraControlFlag::Manual,
            true,
        );
        assert_eq!(
            made.unwrap_err().message(),
            "Could not generate required structure CameraControl: Value out of range"
        );
    }
}

#[test]
fn backend_is_uvc() {
    assert_eq!(camera().backend(), ApiBackend::UniversalVideoClass);
}

#[test]
fn error_messages() {
    let s = |text: &str| text.to_string();
    let messages = [
        (NokhwaError::OpenDeviceError(s("3"), s("Not Found")), "Could not open device 3: Not Found"),
        (
            NokhwaError::GetPropertyError { property: s("Focus"), error: s("no") },
            "Could not get device property Focus: no",
        ),
        (
            NokhwaError::SetPropertyError { property: s("P"), value: s("v"), error: s("no") },
            "Could not set device property P with value v: no",
        ),
        (NokhwaError::OpenStreamError(s("no")), "Could not open device stream: no"),
        (NokhwaError::ReadFrameError(s("no")), "Could not capture frame: no"),
        (
            NokhwaError::UnsupportedOperationError(ApiBackend::UniversalVideoClass),
            "This operation is not supported by backend UniversalVideoClass.",
        ),
    ];
    for (error, message) in messages {
        assert_eq!(error.message(), message);
    }
}

#[test]
fn backend_names() {
    let names = [
        (ApiBackend::AVFoundation, "AVFoundation"),
        (ApiBackend::MediaFoundation, "MediaFoundation"),
        (ApiBackend::OpenCv, "OpenCv"),
        (ApiBackend::UniversalVideoClass, "UniversalVideoClass"),
        (ApiBackend::Video4Linux, "Video4Linux"),
    ];
    for (backend, name) in names {
        assert_eq!(backend.name(), name);
    }
}

#[test]
fn decimal_numerals() {
    for n in [0u64, 9, 10, 99, 100, 640, 65535, u64::MAX] {
        assert_eq!(decimal_text(n), n.to_string());
    }
    assert_eq!(Resolution::new(1920, 1080).text(), "1920x1080");
    assert_eq!(CameraFormat::default().text(), "640x480@15FPS, MJPEG Format");
}
