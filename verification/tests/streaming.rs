use std::cell::RefCell;
use std::rc::Rc;

use uvc_backend::channel::{
    awaited_frame, deliver_frame, newest_frame, undelivered_frame, wait_for_frame,
};
use uvc_backend::create::DeviceDescription;
use uvc_backend::device::{HandleRequest, Released, UVCCaptureDevice};
use uvc_backend::error::NokhwaError;
use uvc_backend::picture::image_of_frame;
use uvc_backend::types::{CameraFormat, FrameFormat, Resolution, StreamFormat};

fn camera<H, S>(format: CameraFormat) -> UVCCaptureDevice<H, S> {
    UVCCaptureDevice::<H, S>::create(0, Some(format))
        .context_answered(Ok(()))
        .unwrap()
        .devices_answered(Ok(1))
        .unwrap()
        .description_answered(Ok(DeviceDescription {
            vendor_id: 1,
            product_id: 2,
            manufacturer: None,
            product: None,
        }))
        .unwrap()
}

fn small() -> CameraFormat {
    CameraFormat::new_from(2, 2, FrameFormat::YUYV, 30)
}

fn opened() -> UVCCaptureDevice<u8, u16> {
    let mut camera = camera(small());
    let (_, request) = camera.open_stream();
    let start = camera.stream_handle_answered(request, Ok(1)).unwrap();
    camera.stream_start_answered(start, Ok(2)).unwrap();
    camera
}

fn read_error(error: NokhwaError) -> String {
    match error {
        NokhwaError::ReadFrameError(why) => why,
        other => panic!("{:?}", other),
    }
}

fn stream_error(error: NokhwaError) -> String {
    match error {
        NokhwaError::OpenStreamError(why) => why,
        other => panic!("{:?}", other),
    }
}

fn property_error(error: NokhwaError) -> (String, String, String) {
    match error {
        NokhwaError::SetPropertyError { property, value, error } => (property, value, error),
        other => panic!("{:?}", other),
    }
}

#[test]
fn open_requests_the_current_format() {
    let mut camera = camera::<u8, u16>(CameraFormat::new_from(1280, 720, FrameFormat::MJPEG, 25));
    let (_, request) = camera.open_stream();
    assert_eq!(
        request.format,
        StreamFormat { width: 1280, height: 720, fps: 25, format: FrameFormat::MJPEG }
    );
}

#[test]
fn open_succeeds_with_handle_and_start() {
    let camera = opened();
    assert!(camera.is_stream_open());
    assert!(camera.has_stream_handle());
    assert_eq!(camera.camera_format(), small());
}

#[test]
fn open_fails_without_handle() {
    let mut camera = camera::<u8, u16>(small());
    let (_, request) = camera.open_stream();
    let error = camera.stream_handle_answered(request, Err("Invalid mode".to_string())).unwrap_err();
    assert_eq!(stream_error(error), "Invalid mode");
    assert!(!camera.is_stream_open());
    assert!(!camera.has_stream_handle());
}

#[test]
fn open_that_does_not_start_keeps_the_handle() {
    let mut camera = camera::<u8, u16>(small());
    let (_, request) = camera.open_stream();
    let start = camera.stream_handle_answered(request, Ok(1)).unwrap();
    let error = camera.stream_start_answered(start, Err("Busy".to_string())).unwrap_err();
    assert_eq!(stream_error(error), "Busy");
    assert!(!camera.is_stream_open());
    assert!(camera.has_stream_handle());
    assert_eq!(camera.camera_format(), small());
}

#[test]
fn format_change_while_closed_is_complete() {
    let mut camera = camera::<u8, u16>(small());
    let other = CameraFormat::new_from(4, 4, FrameFormat::MJPEG, 5);
    assert!(camera.set_camera_format(other).is_none());
    assert_eq!(camera.camera_format(), other);
    assert!(camera.set_camera_format(small()).is_none());
    assert_eq!(camera.camera_format(), small());
}

#[test]
fn single_settings_change_one_part() {
    let mut camera = camera::<u8, u16>(small());
    assert!(camera.set_resolution(Resolution::new(8, 6)).is_none());
    assert_eq!(camera.camera_format(), CameraFormat::new_from(8, 6, FrameFormat::YUYV, 30));
    assert!(camera.set_frame_rate(7).is_none());
    assert_eq!(camera.camera_format(), CameraFormat::new_from(8, 6, FrameFormat::YUYV, 7));
    assert!(camera.set_frame_format(FrameFormat::MJPEG).is_none());
    assert_eq!(camera.camera_format(), CameraFormat::new_from(8, 6, FrameFormat::MJPEG, 7));
}

#[test]
fn single_settings_reopen_an_open_stream() {
    type Change = fn(&mut UVCCaptureDevice<u8, u16>) -> Option<(Released<u8, u16>, HandleRequest)>;
    let changes: [(Change, CameraFormat); 3] = [
        (|c| c.set_resolution(Resolution::new(8, 6)), CameraFormat::new_from(8, 6, FrameFormat::YUYV, 30)),
        (|c| c.set_frame_rate(7), CameraFormat::new_from(2, 2, FrameFormat::YUYV, 7)),
        (|c| c.set_frame_format(FrameFormat::MJPEG), CameraFormat::new_from(2, 2, FrameFormat::MJPEG, 30)),
    ];
    for (change, expected) in changes {
        let mut camera = opened();
        let (released, request) = change(&mut camera).unwrap();
        assert_eq!((released.stream, released.handle), (Some(2), Some(1)));
        assert!(!camera.has_stream_handle());
        assert_eq!(request.format.width, expected.resolution.width);
        assert_eq!(request.format.height, expected.resolution.height);
        assert_eq!(request.format.fps, expected.frame_rate);
        assert_eq!(request.format.format, expected.format);
        let start = camera.stream_handle_answered(request, Ok(3)).unwrap();
        camera.stream_start_answered(start, Ok(4)).unwrap();
        assert_eq!(camera.camera_format(), expected);
        assert!(camera.is_stream_open());
    }
}

#[test]
fn format_change_without_handle_answer_is_taken_back() {
    let mut camera = opened();
    let (released, request) = camera
        .set_camera_format(CameraFormat::new_from(1920, 1080, FrameFormat::MJPEG, 60))
        .unwrap();
    assert_eq!((released.stream, released.handle), (Some(2), Some(1)));
    assert_eq!(camera.frame_rate(), 60);
    let error = camera.stream_handle_answered(request, Err("Not supported".to_string())).unwrap_err();
    assert_eq!(
        property_error(error),
        (
            "CameraFormat".to_string(),
            "1920x1080@60FPS, MJPEG Format".to_string(),
            "Could not open device stream: Not supported".to_string()
        )
    );
    assert_eq!(camera.camera_format(), small());
    assert!(!camera.is_stream_open());
    assert!(!camera.has_stream_handle());
}

#[test]
fn format_change_that_does_not_start_is_taken_back() {
    let mut camera = opened();
    let (_, request) = camera.set_frame_rate(60).unwrap();
    let start = camera.stream_handle_answered(request, Ok(9)).unwrap();
    let error = camera.stream_start_answered(start, Err("Pipe error".to_string())).unwrap_err();
    assert_eq!(
        property_error(error),
        (
            "CameraFormat".to_string(),
            "2x2@60FPS, YUYV Format".to_string(),
            "Could not open device stream: Pipe error".to_string()
        )
    );
    assert_eq!(camera.camera_format(), small());
    assert!(!camera.is_stream_open());
    assert!(camera.has_stream_handle());
}

#[test]
fn format_change_on_a_bare_handle_reopens() {
    let mut camera = camera::<u8, u16>(small());
    let (_, request) = camera.open_stream();
    let start = camera.stream_handle_answered(request, Ok(1)).unwrap();
    assert!(camera.stream_start_answered(start, Err("Busy".to_string())).is_err());
    let (released, _) = camera.set_frame_rate(5).unwrap();
    assert_eq!((released.stream, released.handle), (None, Some(1)));
}

#[test]
fn stop_releases_and_may_be_repeated() {
    let mut camera = opened();
    let released = camera.stop_stream().unwrap();
    assert_eq!((released.stream, released.handle), (Some(2), Some(1)));
    assert!(!camera.is_stream_open());
    assert!(!camera.has_stream_handle());
    let released = camera.stop_stream().unwrap();
    assert_eq!((released.stream, released.handle), (None, None));
    assert!(!camera.has_stream_handle());
    assert!(camera.set_frame_rate(5).is_none());
}

struct Logged(&'static str, Rc<RefCell<Vec<&'static str>>>);

impl Drop for Logged {
    fn drop(&mut self) {
        self.1.borrow_mut().push(self.0);
    }
}

#[test]
fn stream_is_released_before_its_handle() {
    let log = Rc::new(RefCell::new(Vec::new()));
    let mut camera = camera::<Logged, Logged>(small());
    let (released, request) = camera.open_stream();
    assert!(released.stream.is_none() && released.handle.is_none());
    let start = camera.stream_handle_answered(request, Ok(Logged("handle", log.clone()))).unwrap();
    camera.stream_start_answered(start, Ok(Logged("stream", log.clone()))).unwrap();
    let (released, request) = camera.open_stream();
    assert!(log.borrow().is_empty());
    drop(released);
    assert_eq!(*log.borrow(), vec!["stream", "handle"]);
    let start = camera.stream_handle_answered(request, Ok(Logged("second handle", log.clone()))).unwrap();
    camera.stream_start_answered(start, Ok(Logged("second stream", log.clone()))).unwrap();
    let released = camera.stop_stream().unwrap();
    assert_eq!(log.borrow().len(), 2);
    drop(released);
    assert_eq!(*log.borrow(), vec!["stream", "handle", "second stream", "second handle"]);
}

#[test]
fn each_stream_and_handle_is_released_once_over_a_history() {
    let mut camera = camera::<u8, u16>(small());
    let mut streams = Vec::new();
    let mut handles = Vec::new();
    let (released, request) = camera.open_stream();
    streams.extend(released.stream);
    handles.extend(released.handle);
    let start = camera.stream_handle_answered(request, Ok(10)).unwrap();
    camera.stream_start_answered(start, Ok(20)).unwrap();
    let (released, request) = camera.set_frame_rate(7).unwrap();
    streams.extend(released.stream);
    handles.extend(released.handle);
    let start = camera.stream_handle_answered(request, Ok(11)).unwrap();
    assert!(camera.stream_start_answered(start, Err("Busy".to_string())).is_err());
    let (released, request) = camera.open_stream();
    streams.extend(released.stream);
    handles.extend(released.handle);
    assert!(camera.stream_handle_answered(request, Err("Gone".to_string())).is_err());
    let (released, request) = camera.open_stream();
    streams.extend(released.stream);
    handles.extend(released.handle);
    let start = camera.stream_handle_answered(request, Ok(12)).unwrap();
    camera.stream_start_answered(start, Ok(22)).unwrap();
    assert_eq!((streams.clone(), handles.clone()), (vec![20], vec![10, 11]));
    let released = camera.stop_stream().unwrap();
    streams.extend(released.stream);
    handles.extend(released.handle);
    assert_eq!((streams, handles), (vec![20, 22], vec![10, 11, 12]));
}

#[test]
fn dropped_camera_releases_no_stream() {
    let log = Rc::new(RefCell::new(Vec::new()));
    let mut camera = camera::<Logged, Logged>(small());
    let (_, request) = camera.open_stream();
    let start = camera.stream_handle_answered(request, Ok(Logged("handle", log.clone()))).unwrap();
    camera.stream_start_answered(start, Ok(Logged("stream", log.clone()))).unwrap();
    drop(camera);
    assert!(log.borrow().is_empty());
}

#[test]
fn frames_need_an_open_stream() {
    let mut camera = camera::<u8, u16>(small());
    assert_eq!(read_error(camera.frame_raw().unwrap_err()), "Please call `open_stream()` first!");
    assert_eq!(read_error(camera.frame().unwrap_err()), "Please call `open_stream()` first!");
    let mut stopped = opened();
    deliver_frame(&mut stopped.frame_sender(), vec![1; 12]);
    stopped.stop_stream().unwrap();
    assert_eq!(read_error(stopped.frame_raw().unwrap_err()), "Please call `open_stream()` first!");
}

#[test]
fn only_the_latest_frame_is_read() {
    let mut camera = opened();
    let mut sender = camera.frame_sender();
    assert!(deliver_frame(&mut sender, vec![1]).is_none());
    assert!(deliver_frame(&mut sender, vec![2]).is_none());
    assert!(deliver_frame(&mut camera.frame_sender(), vec![3]).is_none());
    assert_eq!(camera.frame_raw().unwrap(), vec![3]);
    assert!(deliver_frame(&mut sender, vec![4]).is_none());
    assert_eq!(camera.frame_raw().unwrap(), vec![4]);
}

#[test]
fn waiting_takes_the_oldest_frame() {
    let (mut sender, mut receiver) = flume::unbounded();
    deliver_frame(&mut sender, vec![7]);
    deliver_frame(&mut sender, vec![8]);
    assert_eq!(wait_for_frame(&mut receiver, &sender).unwrap(), vec![7]);
    assert_eq!(wait_for_frame(&mut receiver, &sender).unwrap(), vec![8]);
}

#[test]
fn waiting_on_a_queue_without_senders_fails() {
    let (sender, mut receiver) = flume::unbounded();
    let (unrelated, _receiver) = flume::unbounded();
    drop(sender);
    let error = wait_for_frame(&mut receiver, &unrelated).unwrap_err();
    assert_eq!(read_error(error), "All sender dropped: receiving on a closed channel");
}

#[test]
fn frame_nobody_reads_comes_back() {
    let mut camera = opened();
    let mut sender = camera.frame_sender();
    drop(camera);
    assert_eq!(deliver_frame(&mut sender, vec![1, 2, 3]), Some(vec![1, 2, 3]));
}

#[test]
fn frame_is_the_raw_data_at_the_resolution() {
    let mut camera = opened();
    let data: Vec<u8> = (0..12).collect();
    deliver_frame(&mut camera.frame_sender(), data.clone());
    let image = camera.frame().unwrap();
    assert_eq!((image.width, image.height), (2, 2));
    assert_eq!(image.data, data);
}

#[test]
fn short_frame_is_refused() {
    let mut camera = opened();
    deliver_frame(&mut camera.frame_sender(), vec![0; 11]);
    assert_eq!(
        read_error(camera.frame().unwrap_err()),
        "ImageBuffer too small! This is probably a bug, please report it!"
    );
}

#[test]
fn image_bounds() {
    assert!(image_of_frame(Resolution::new(2, 1), vec![0; 6]).is_ok());
    assert!(image_of_frame(Resolution::new(2, 1), vec![0; 5]).is_err());
    assert_eq!(image_of_frame(Resolution::new(2, 1), vec![0; 9]).unwrap().data.len(), 9);
    assert!(image_of_frame(Resolution::new(0, 0), vec![]).is_ok());
    assert!(image_of_frame(Resolution::new(0, 5), vec![]).is_ok());
    assert!(image_of_frame(Resolution::new(u32::MAX, u32::MAX), vec![0; 100]).is_err());
}

#[test]
fn newest_of_waiting_frames() {
    assert_eq!(newest_frame(vec![]), None);
    assert_eq!(newest_frame(vec![vec![1]]), Some(vec![1]));
    assert_eq!(newest_frame(vec![vec![1], vec![], vec![2, 3]]), Some(vec![2, 3]));
}

#[test]
fn closed_queue_is_reported() {
    assert_eq!(awaited_frame(Ok(vec![5])).unwrap(), vec![5]);
    let error = awaited_frame(Err(flume::RecvError::Disconnected)).unwrap_err();
    assert_eq!(read_error(error), "All sender dropped: receiving on a closed channel");
}

#[test]
fn undelivered_is_what_the_queue_gave_back() {
    assert_eq!(undelivered_frame(Ok(())), None);
    assert_eq!(undelivered_frame(Err(vec![4, 5])), Some(vec![4, 5]));
}

fn answer(camera: &mut UVCCaptureDevice<u8, u16>, request: HandleRequest, granted: bool) -> bool {
    let start = camera.stream_handle_answered(request, Ok(1)).unwrap();
    let started = if granted { Ok(2) } else { Err("Busy".to_string()) };
    camera.stream_start_answered(start, started).is_ok()
}

#[test]
fn open_flag_and_identity_over_a_history() {
    let mut camera = camera::<u8, u16>(small());
    assert!(camera.set_frame_rate(5).is_none());
    assert!(!camera.is_stream_open());
    let (_, request) = camera.open_stream();
    assert!(answer(&mut camera, request, true));
    assert!(camera.is_stream_open());
    deliver_frame(&mut camera.frame_sender(), vec![0; 1]);
    assert!(camera.frame().is_err());
    assert!(camera.is_stream_open());
    let (_, request) = camera.set_frame_rate(6).unwrap();
    assert!(!answer(&mut camera, request, false));
    assert!(!camera.is_stream_open());
    let (_, request) = camera.set_frame_rate(7).unwrap();
    assert!(answer(&mut camera, request, true));
    assert!(camera.is_stream_open());
    camera.stop_stream().unwrap();
    assert!(camera.set_frame_rate(8).is_none());
    assert!(!camera.is_stream_open());
    assert_eq!(camera.camera_info().human_name, "1:2");
    assert_eq!(camera.camera_info().index, 0);
}

#[test]
fn no_frame_is_read_twice_over_a_history() {
    let mut camera = opened();
    let mut sender = camera.frame_sender();
    deliver_frame(&mut sender, vec![1]);
    deliver_frame(&mut sender, vec![2]);
    assert_eq!(camera.frame_raw().unwrap(), vec![2]);
    camera.stop_stream().unwrap();
    deliver_frame(&mut sender, vec![3]);
    let (_, request) = camera.open_stream();
    assert!(answer(&mut camera, request, true));
    assert_eq!(camera.frame_raw().unwrap(), vec![3]);
    deliver_frame(&mut sender, vec![4; 12]);
    assert_eq!(camera.frame().unwrap().data, vec![4; 12]);
    deliver_frame(&mut sender, vec![5]);
    assert_eq!(camera.frame_raw().unwrap(), vec![5]);
}

#[test]
fn image_without_pixels_is_always_made() {
    let mut camera = camera::<u8, u16>(CameraFormat::new_from(0, 7, FrameFormat::MJPEG, 1));
    let (_, request) = camera.open_stream();
    assert!(answer(&mut camera, request, true));
    deliver_frame(&mut camera.frame_sender(), vec![]);
    let image = camera.frame().unwrap();
    assert_eq!((image.width, image.height, image.data.len()), (0, 7, 0));
}
