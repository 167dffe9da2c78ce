use uvc_backend::create::{AwaitingContext, DeviceDescription};
use uvc_backend::device::UVCCaptureDevice;
use uvc_backend::error::NokhwaError;
use uvc_backend::types::{CameraFormat, FrameFormat, Resolution};

type Camera = UVCCaptureDevice<u8, u16>;

fn description(manufacturer: Option<&str>, product: Option<&str>) -> DeviceDescription {
    DeviceDescription {
        vendor_id: 1133,
        product_id: 2093,
        manufacturer: manufacturer.map(|s| s.to_string()),
        product: product.map(|s| s.to_string()),
    }
}

fn finish(begun: AwaitingContext, count: usize, description: DeviceDescription) -> Camera {
    begun
        .context_answered(Ok(()))
        .unwrap()
        .devices_answered(Ok(count))
        .unwrap()
        .description_answered(Ok(description))
        .unwrap()
}

fn open_error(error: NokhwaError) -> (String, String) {
    match error {
        NokhwaError::OpenDeviceError(device, why) => (device, why),
        other => panic!("{:?}", other),
    }
}

#[test]
fn default_format_is_640x480_at_15_fps_mjpeg() {
    let camera = finish(Camera::create(0, None), 1, description(None, None));
    assert_eq!(camera.camera_format(), CameraFormat::new_from(640, 480, FrameFormat::MJPEG, 15));
    assert_eq!(camera.resolution(), Resolution::new(640, 480));
    assert_eq!(camera.frame_rate(), 15);
    assert_eq!(camera.frame_format(), FrameFormat::MJPEG);
    assert!(!camera.is_stream_open());
    assert!(!camera.has_stream_handle());
}

#[test]
fn given_format_is_kept() {
    let format = CameraFormat::new_from(1280, 720, FrameFormat::YUYV, 10);
    let camera = finish(Camera::create(2, Some(format)), 3, description(None, None));
    assert_eq!(camera.camera_format(), format);
}

#[test]
fn create_with_takes_settings_apart() {
    let camera = finish(
        Camera::create_with(0, 320, 240, 60, FrameFormat::YUYV),
        1,
        description(None, None),
    );
    assert_eq!(camera.camera_format(), CameraFormat::new_from(320, 240, FrameFormat::YUYV, 60));
}

#[test]
fn names_by_what_the_device_says() {
    let names = [
        (Some("Logi"), Some("C920"), "Logi C920"),
        (None, Some("C920"), "C920"),
        (Some("Logi"), None, "1133:2093 Logi"),
        (None, None, "1133:2093"),
    ];
    for (manufacturer, product, expected) in names {
        let camera = finish(Camera::create(4, None), 5, description(manufacturer, product));
        let info = camera.camera_info();
        assert_eq!(info.human_name, expected);
        assert_eq!(info.description, "");
        assert_eq!(info.misc, "1133:2093");
        assert_eq!(info.index, 4);
    }
}

#[test]
fn context_failure_is_reported() {
    let error = Camera::create(12, None).context_answered(Err("Access denied".to_string())).unwrap_err();
    assert_eq!(open_error(error), ("12".to_string(), "Access denied".to_string()));
}

#[test]
fn listing_failure_is_reported() {
    let error = Camera::create(0, None)
        .context_answered(Ok(()))
        .unwrap()
        .devices_answered(Err("IO error".to_string()))
        .unwrap_err();
    assert_eq!(open_error(error), ("0".to_string(), "IO error".to_string()));
}

#[test]
fn index_past_the_list_is_not_found() {
    for (index, count, found) in [(0usize, 0usize, false), (0, 1, true), (3, 3, false), (3, 4, true)] {
        let listed =
            Camera::create(index, None).context_answered(Ok(())).unwrap().devices_answered(Ok(count));
        match listed {
            Ok(next) => {
                assert!(found);
                assert_eq!(next.index, index);
            }
            Err(error) => {
                assert!(!found);
                assert_eq!(open_error(error), (index.to_string(), "Not Found".to_string()));
            }
        }
    }
}

#[test]
fn description_failure_is_reported() {
    let error = Camera::create(1, None)
        .context_answered(Ok(()))
        .unwrap()
        .devices_answered(Ok(2))
        .unwrap()
        .description_answered::<u8, u16>(Err("No device".to_string()))
        .err()
        .unwrap();
    assert_eq!(open_error(error), ("1".to_string(), "No device".to_string()));
}
