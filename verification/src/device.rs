//! A UVC camera: its format, its streams, its frames and its controls.
//!
//! Talking to the device is left to the caller. A method that needs the device
//! returns a request; the caller makes the call and hands the reply to the
//! method that takes it.

use std::mem::ManuallyDrop;

use vstd::prelude::*;

use crate::channel;
use crate::compatible;
use crate::descriptor;
use crate::descriptor::FormatDescription;
use crate::error;
use crate::error::{NokhwaError, NokhwaErrorView};
use crate::listing_laws;
use crate::picture;
use crate::picture::RgbImage;
use crate::rates_table::ResolutionRates;
use crate::types::{
    ApiBackend, CameraControl, CameraFormat, CameraInfo, CameraInfoView, FrameFormat,
    KnownCameraControl, KnownCameraControlFlag, Resolution, StreamFormat,
};

verus! {

/// A UVC camera that has been opened. `H` is the device's stream handle, `S`
/// the running stream that was started on it; dropping either releases it.
/// Stopping or reopening the stream hands out both, to be released. A camera
/// that is dropped releases neither: that is left to the closing of the device.
pub struct UVCCaptureDevice<H, S> {
    camera_format: CameraFormat,
    camera_info: CameraInfo,
    frame_receiver: flume::Receiver<Vec<u8>>,
    frame_sender: flume::Sender<Vec<u8>>,
    stream_handle: Option<ManuallyDrop<H>>,
    active_stream: Option<ManuallyDrop<S>>,
}

/// The state of a [`UVCCaptureDevice`].
pub struct DeviceView<H, S> {
    pub camera_format: CameraFormat,
    pub camera_info: CameraInfoView,
    pub frame_receiver: flume::Receiver<Vec<u8>>,
    pub frame_sender: flume::Sender<Vec<u8>>,
    pub stream_handle: Option<H>,
    pub active_stream: Option<S>,
}

/// What the camera held and holds no more. It is for the caller to release, by
/// dropping it: the stream first, which runs on the handle, and before anything
/// else is asked of the device. Dropped as a whole it goes in that order.
#[derive(Debug)]
pub struct Released<H, S> {
    pub stream: Option<S>,
    pub handle: Option<H>,
}

/// What a stream is opened for.
#[derive(Clone, Copy, Debug, PartialEq, Eq, Structural)]
pub enum OpenPurpose {
    /// To capture frames.
    Open,
    /// To go on with another format.
    ChangeFormat { previous: CameraFormat, requested: CameraFormat },
}

/// Asks for a stream handle in a format.
#[derive(Debug)]
pub struct HandleRequest {
    pub format: StreamFormat,
    pub purpose: OpenPurpose,
}

/// Asks to start a stream on the handle just obtained.
#[derive(Debug)]
pub struct StartRequest {
    pub purpose: OpenPurpose,
}

/// Asks for the relative exposure, to be reported as the value of a control.
#[derive(Debug)]
pub struct ExposureRequest {
    pub control: KnownCameraControl,
}

impl OpenPurpose {
    /// The error that reports that the stream could not be opened.
    pub open spec fn failure(self, why: Seq<char>) -> NokhwaErrorView {
        match self {
            OpenPurpose::Open => NokhwaErrorView::OpenStreamError(why),
            OpenPurpose::ChangeFormat { previous, requested } => NokhwaErrorView::SetPropertyError {
                property: "CameraFormat"@,
                value: requested.text_spec(),
                error: NokhwaErrorView::OpenStreamError(why).message(),
            },
        }
    }
}

impl<H, S> DeviceView<H, S> {
    /// The two ends of the frame queue belong together, and a stream runs only
    /// on a stream handle.
    pub open spec fn wf(self) -> bool {
        &&& channel::connected(self.frame_sender, self.frame_receiver)
        &&& self.active_stream is Some ==> self.stream_handle is Some
    }

    /// What there is to release.
    pub open spec fn held(self) -> Released<H, S> {
        Released { stream: self.active_stream, handle: self.stream_handle }
    }

    /// Stream and stream handle have been handed out.
    pub open spec fn closed(self) -> DeviceView<H, S> {
        DeviceView { stream_handle: None, active_stream: None, ..self }
    }

    pub open spec fn with_format(self, camera_format: CameraFormat) -> DeviceView<H, S> {
        DeviceView { camera_format, ..self }
    }

    /// One more sender into the frame queue has been made.
    pub open spec fn with_sender(self, frame_sender: flume::Sender<Vec<u8>>) -> DeviceView<H, S> {
        DeviceView { frame_sender, ..self }
    }

    /// More has been taken out of the frame queue.
    pub open spec fn with_receiver(
        self,
        frame_receiver: flume::Receiver<Vec<u8>>,
    ) -> DeviceView<H, S> {
        DeviceView { frame_receiver, ..self }
    }

    /// The opening of a stream has failed: a change of format is taken back.
    pub open spec fn abandoned(self, purpose: OpenPurpose) -> DeviceView<H, S> {
        match purpose {
            OpenPurpose::Open => self,
            OpenPurpose::ChangeFormat { previous, requested } => self.with_format(previous),
        }
    }

    /// What opening a stream begins with.
    pub open spec fn begin_open(self) -> (DeviceView<H, S>, HandleRequest) {
        (
            self.closed(),
            HandleRequest {
                format: StreamFormat::of(self.camera_format),
                purpose: OpenPurpose::Open,
            },
        )
    }

    /// What a change of format begins with. Without a stream handle it is all
    /// there is to do.
    pub open spec fn begin_format_change(self, requested: CameraFormat) -> (
        DeviceView<H, S>,
        Option<HandleRequest>,
    ) {
        if self.stream_handle is Some {
            (
                self.with_format(requested).closed(),
                Some(
                    HandleRequest {
                        format: StreamFormat::of(requested),
                        purpose: OpenPurpose::ChangeFormat {
                            previous: self.camera_format,
                            requested,
                        },
                    },
                ),
            )
        } else {
            (self.with_format(requested), None)
        }
    }

    /// The device has answered the request for a stream handle.
    pub open spec fn handle_answered(
        self,
        request: HandleRequest,
        answer: Result<H, Seq<char>>,
    ) -> (DeviceView<H, S>, Result<StartRequest, NokhwaErrorView>) {
        match answer {
            Ok(handle) => (
                DeviceView { stream_handle: Some(handle), ..self },
                Ok(StartRequest { purpose: request.purpose }),
            ),
            Err(why) => (self.abandoned(request.purpose), Err(request.purpose.failure(why))),
        }
    }

    /// The device has answered the request to start a stream.
    pub open spec fn start_answered(
        self,
        request: StartRequest,
        answer: Result<S, Seq<char>>,
    ) -> (DeviceView<H, S>, Result<(), NokhwaErrorView>) {
        match answer {
            Ok(stream) => (DeviceView { active_stream: Some(stream), ..self }, Ok(())),
            Err(why) => (self.abandoned(request.purpose), Err(request.purpose.failure(why))),
        }
    }
}

/// The request that a change of format makes, if it makes one.
pub open spec fn request_of<H, S>(reopening: Option<(Released<H, S>, HandleRequest)>) -> Option<
    HandleRequest,
> {
    match reopening {
        Some((released, request)) => Some(request),
        None => None,
    }
}

/// The error for a frame asked of a closed stream.
pub open spec fn closed_stream_error() -> NokhwaErrorView {
    NokhwaErrorView::ReadFrameError("Please call `open_stream()` first!"@)
}

/// The image that is read off the data at a resolution, or the report that the
/// data is too short for it.
pub open spec fn image_read(
    r: Result<RgbImage, NokhwaError>,
    resolution: Resolution,
    data: Seq<u8>,
) -> bool {
    &&& r is Ok <==> picture::holds_image(data.len() as int, resolution.width, resolution.height)
    &&& r matches Ok(image) ==> {
        &&& image.width == resolution.width
        &&& image.height == resolution.height
        &&& image.data@ == data
    }
    &&& r matches Err(error) ==> error@ == picture::short_frame_error()
}

/// The error for what this backend cannot do.
pub open spec fn unsupported_error() -> NokhwaErrorView {
    NokhwaErrorView::UnsupportedOperationError(ApiBackend::UniversalVideoClass)
}

/// The controls of the camera.
pub open spec fn supported_controls() -> Seq<KnownCameraControl> {
    seq![KnownCameraControl::Exposure, KnownCameraControl::Focus]
}

/// The control has a value that can be asked for.
pub open spec fn readable(control: KnownCameraControl) -> bool {
    control == KnownCameraControl::Focus
}

/// The error for a control that cannot be read.
pub open spec fn unreadable_error(control: KnownCameraControl, why: Seq<char>) -> NokhwaErrorView {
    NokhwaErrorView::GetPropertyError { property: control.name_spec(), error: why }
}

/// A control as the relative exposure describes it.
pub open spec fn exposure_control(control: KnownCameraControl, value: i8) -> CameraControl {
    CameraControl {
        control,
        min: i8::MIN as i32,
        max: i8::MAX as i32,
        value: value as i32,
        step: 1,
        default: value as i32,
        flag: KnownCameraControlFlag::Automatic,
        active: true,
    }
}

/// What a slot holds.
spec fn slot<T>(slot: Option<ManuallyDrop<T>>) -> Option<T> {
    match slot {
        Some(value) => Some(value@),
        None => None,
    }
}

impl<H, S> View for UVCCaptureDevice<H, S> {
    type V = DeviceView<H, S>;

    closed spec fn view(&self) -> DeviceView<H, S> {
        DeviceView {
            camera_format: self.camera_format,
            camera_info: self.camera_info@,
            frame_receiver: self.frame_receiver,
            frame_sender: self.frame_sender,
            stream_handle: slot(self.stream_handle),
            active_stream: slot(self.active_stream),
        }
    }
}

impl<H, S> UVCCaptureDevice<H, S> {
    /// A camera without a stream and with an empty frame queue of its own.
    pub(crate) fn with_closed_stream(camera_format: CameraFormat, camera_info: CameraInfo) -> (device:
        UVCCaptureDevice<H, S>)
        ensures
            device@.wf(),
            device@.camera_format == camera_format,
            device@.camera_info == camera_info@,
            device@.stream_handle is None,
            device@.active_stream is None,
            channel::put(device@.frame_sender) == Seq::<Seq<u8>>::empty(),
            channel::copies(device@.frame_sender) == 0,
            channel::taken(device@.frame_receiver) == Seq::<Vec<u8>>::empty(),
    {
        let (frame_sender, frame_receiver) = channel::open_channel();
        UVCCaptureDevice {
            camera_format,
            camera_info,
            frame_receiver,
            frame_sender,
            stream_handle: None,
            active_stream: None,
        }
    }

    pub fn backend(&self) -> (backend: ApiBackend)
        ensures
            backend == ApiBackend::UniversalVideoClass,
    {
        ApiBackend::UniversalVideoClass
    }

    pub fn camera_info(&self) -> (info: &CameraInfo)
        ensures
            info@ == self@.camera_info,
            info.human_name@ == self@.camera_info.human_name,
            info.description@ == self@.camera_info.description,
            info.misc@ == self@.camera_info.misc,
            info.index == self@.camera_info.index,
    {
        &self.camera_info
    }

    pub fn camera_format(&self) -> (format: CameraFormat)
        ensures
            format == self@.camera_format,
    {
        self.camera_format
    }

    pub fn resolution(&self) -> (resolution: Resolution)
        ensures
            resolution == self@.camera_format.resolution,
    {
        self.camera_format.resolution
    }

    pub fn frame_rate(&self) -> (frame_rate: u32)
        ensures
            frame_rate == self@.camera_format.frame_rate,
    {
        self.camera_format.frame_rate
    }

    pub fn frame_format(&self) -> (format: FrameFormat)
        ensures
            format == self@.camera_format.format,
    {
        self.camera_format.format
    }

    /// Whether frames are being captured.
    pub fn is_stream_open(&self) -> (open: bool)
        ensures
            open == self@.active_stream is Some,
    {
        self.active_stream.is_some()
    }

    /// Whether there is a stream handle, with or without a stream on it.
    pub fn has_stream_handle(&self) -> (b: bool)
        ensures
            b == self@.stream_handle is Some,
    {
        self.stream_handle.is_some()
    }

    /// A sender into the frame queue, for the capture callback.
    pub fn frame_sender(&mut self) -> (sender: flume::Sender<Vec<u8>>)
        requires
            old(self)@.wf(),
        ensures
            final(self)@ == old(self)@.with_sender(final(self)@.frame_sender),
            final(self)@.wf(),
            channel::copied(old(self)@.frame_sender, final(self)@.frame_sender, sender),
            channel::connected(sender, final(self)@.frame_receiver),
            final(self)@ == (DeviceView {
                frame_sender: final(self)@.frame_sender,
                ..old(self)@
            }),
            channel::put(sender) == Seq::<Seq<u8>>::empty(),
            channel::put(final(self)@.frame_sender) == channel::put(old(self)@.frame_sender),
            channel::copies(final(self)@.frame_sender) == channel::copies(old(self)@.frame_sender)
                + 1,
    {
        channel::clone_sender(&mut self.frame_sender)
    }

    /// Hands the running stream out.
    fn release_stream(&mut self) -> (stream: Option<S>)
        ensures
            stream == old(self)@.active_stream,
            final(self)@ == (DeviceView { active_stream: None, ..old(self)@ }),
    {
        match self.active_stream.take() {
            Some(stream) => Some(ManuallyDrop::into_inner(stream)),
            None => None,
        }
    }

    /// Hands the stream handle out, once no stream runs on it.
    fn release_handle(&mut self) -> (handle: Option<H>)
        requires
            old(self)@.active_stream is None,
        ensures
            handle == old(self)@.stream_handle,
            final(self)@ == (DeviceView { stream_handle: None, ..old(self)@ }),
    {
        match self.stream_handle.take() {
            Some(handle) => Some(ManuallyDrop::into_inner(handle)),
            None => None,
        }
    }

    /// Hands the stream out, and the stream handle after it.
    fn release(&mut self) -> (released: Released<H, S>)
        ensures
            released == old(self)@.held(),
            final(self)@ == old(self)@.closed(),
    {
        let stream = self.release_stream();
        let handle = self.release_handle();
        Released { stream, handle }
    }

    /// Takes a change of format back, and makes the error that reports why.
    fn abandon(&mut self, purpose: OpenPurpose, why: String) -> (error: NokhwaError)
        ensures
            final(self)@ == old(self)@.abandoned(purpose),
            error@ == purpose.failure(why@),
    {
        let error = NokhwaError::OpenStreamError(why);
        match purpose {
            OpenPurpose::Open => error,
            OpenPurpose::ChangeFormat { previous, requested } => {
                self.camera_format = previous;
                NokhwaError::SetPropertyError {
                    property: "CameraFormat".to_owned(),
                    value: requested.text(),
                    error: error.message(),
                }
            },
        }
    }

    /// Begins to open a stream in the current format. What was open is handed
    /// out, to be released before the request is passed on.
    pub fn open_stream(&mut self) -> (r: (Released<H, S>, HandleRequest))
        requires
            old(self)@.wf(),
        ensures
            r.0 == old(self)@.held(),
            (final(self)@, r.1) == old(self)@.begin_open(),
            r.0.stream == old(self)@.active_stream,
            r.0.handle == old(self)@.stream_handle,
            r.1.format.width == old(self)@.camera_format.resolution.width,
            r.1.format.height == old(self)@.camera_format.resolution.height,
            r.1.format.fps == old(self)@.camera_format.frame_rate,
            r.1.format.format == old(self)@.camera_format.format,
            r.1.purpose is Open,
            final(self)@ == (DeviceView { stream_handle: None, active_stream: None, ..old(self)@ }),
            final(self)@.wf(),
    {
        let request = HandleRequest {
            format: StreamFormat {
                width: self.camera_format.resolution.width,
                height: self.camera_format.resolution.height,
                fps: self.camera_format.frame_rate,
                format: self.camera_format.format,
            },
            purpose: OpenPurpose::Open,
        };
        (self.release(), request)
    }

    /// Takes the device's answer to the request for a stream handle.
    pub fn stream_handle_answered(&mut self, request: HandleRequest, answer: Result<H, String>) -> (r:
        Result<StartRequest, NokhwaError>)
        requires
            old(self)@.wf(),
            old(self)@.stream_handle is None,
            old(self)@.active_stream is None,
        ensures
            (final(self)@, error::outcome(r)) == old(self)@.handle_answered(
                request,
                error::reply(answer),
            ),
            answer matches Ok(handle) ==> final(self)@ == (DeviceView {
                stream_handle: Some(handle),
                ..old(self)@
            }),
            answer is Err ==> final(self)@ == (DeviceView {
                camera_format: match request.purpose {
                    OpenPurpose::Open => old(self)@.camera_format,
                    OpenPurpose::ChangeFormat { previous, requested } => previous,
                },
                ..old(self)@
            }),
            answer matches Ok(handle) ==> r matches Ok(start) && start.purpose == request.purpose,
            answer matches Err(why) ==> match request.purpose {
                OpenPurpose::Open => r matches Err(NokhwaError::OpenStreamError(reason)) && reason@
                    == why@,
                OpenPurpose::ChangeFormat { previous, requested } => r matches Err(
                    NokhwaError::SetPropertyError { property, value, error },
                ) && property@ == "CameraFormat"@ && value@ == requested.text_spec() && error@
                    == "Could not open device stream: "@ + why@,
            },
            final(self)@.wf(),
    {
        match answer {
            Ok(handle) => {
                self.stream_handle = Some(ManuallyDrop::new(handle));
                Ok(StartRequest { purpose: request.purpose })
            },
            Err(why) => Err(self.abandon(request.purpose, why)),
        }
    }

    /// Takes the device's answer to the request to start a stream.
    pub fn stream_start_answered(&mut self, request: StartRequest, answer: Result<S, String>) -> (r:
        Result<(), NokhwaError>)
        requires
            old(self)@.wf(),
            old(self)@.stream_handle is Some,
            old(self)@.active_stream is None,
        ensures
            (final(self)@, error::outcome(r)) == old(self)@.start_answered(
                request,
                error::reply(answer),
            ),
            answer matches Ok(stream) ==> final(self)@ == (DeviceView {
                active_stream: Some(stream),
                ..old(self)@
            }),
            answer is Err ==> final(self)@ == (DeviceView {
                camera_format: match request.purpose {
                    OpenPurpose::Open => old(self)@.camera_format,
                    OpenPurpose::ChangeFormat { previous, requested } => previous,
                },
                ..old(self)@
            }),
            answer matches Ok(stream) ==> r is Ok,
            answer matches Err(why) ==> match request.purpose {
                OpenPurpose::Open => r matches Err(NokhwaError::OpenStreamError(reason)) && reason@
                    == why@,
                OpenPurpose::ChangeFormat { previous, requested } => r matches Err(
                    NokhwaError::SetPropertyError { property, value, error },
                ) && property@ == "CameraFormat"@ && value@ == requested.text_spec() && error@
                    == "Could not open device stream: "@ + why@,
            },
            final(self)@.wf(),
    {
        match answer {
            Ok(stream) => {
                self.active_stream = Some(ManuallyDrop::new(stream));
                Ok(())
            },
            Err(why) => Err(self.abandon(request.purpose, why)),
        }
    }

    /// Hands out the stream and the stream handle, to be released.
    pub fn stop_stream(&mut self) -> (r: Result<Released<H, S>, NokhwaError>)
        requires
            old(self)@.wf(),
        ensures
            r matches Ok(released) && released == old(self)@.held(),
            r matches Ok(released) && released.stream == old(self)@.active_stream
                && released.handle == old(self)@.stream_handle,
            final(self)@ == old(self)@.closed(),
            final(self)@ == (DeviceView { stream_handle: None, active_stream: None, ..old(self)@ }),
            final(self)@.wf(),
    {
        Ok(self.release())
    }

    /// Changes the format. With a stream handle the stream has to be opened
    /// anew: what was open is handed out, to be released before the request is
    /// passed on, and the change is taken back if the opening fails. Without a
    /// handle the change is complete and nothing is requested.
    pub fn set_camera_format(&mut self, new_fmt: CameraFormat) -> (reopening: Option<
        (Released<H, S>, HandleRequest),
    >)
        requires
            old(self)@.wf(),
        ensures
            (final(self)@, request_of(reopening)) == old(self)@.begin_format_change(new_fmt),
            reopening is Some <==> old(self)@.stream_handle is Some,
            final(self)@ == (DeviceView {
                camera_format: new_fmt,
                stream_handle: None,
                active_stream: None,
                ..old(self)@
            }),
            reopening matches Some((released, request)) ==> {
                &&& released.stream == old(self)@.active_stream
                &&& released.handle == old(self)@.stream_handle
                &&& request.format.width == new_fmt.resolution.width
                &&& request.format.height == new_fmt.resolution.height
                &&& request.format.fps == new_fmt.frame_rate
                &&& request.format.format == new_fmt.format
                &&& request.purpose == (OpenPurpose::ChangeFormat {
                    previous: old(self)@.camera_format,
                    requested: final(self)@.camera_format,
                })
            },
            reopening matches Some((released, request)) ==> released == old(self)@.held(),
            final(self)@.wf(),
    {
        let previous = self.camera_format;
        self.camera_format = new_fmt;
        if self.stream_handle.is_some() {
            let (released, request) = self.open_stream();
            let purpose = OpenPurpose::ChangeFormat { previous, requested: new_fmt };
            Some((released, HandleRequest { format: request.format, purpose }))
        } else {
            None
        }
    }

    /// Changes the resolution, as [`Self::set_camera_format`] does.
    pub fn set_resolution(&mut self, new_res: Resolution) -> (reopening: Option<
        (Released<H, S>, HandleRequest),
    >)
        requires
            old(self)@.wf(),
        ensures
            (final(self)@, request_of(reopening)) == old(self)@.begin_format_change(
                (CameraFormat { resolution: new_res, ..old(self)@.camera_format }),
            ),
            reopening is Some <==> old(self)@.stream_handle is Some,
            final(self)@ == (DeviceView {
                camera_format: CameraFormat { resolution: new_res, ..old(self)@.camera_format },
                stream_handle: None,
                active_stream: None,
                ..old(self)@
            }),
            reopening matches Some((released, request)) ==> {
                &&& released.stream == old(self)@.active_stream
                &&& released.handle == old(self)@.stream_handle
                &&& request.format.width == new_res.width
                &&& request.format.height == new_res.height
                &&& request.format.fps == old(self)@.camera_format.frame_rate
                &&& request.format.format == old(self)@.camera_format.format
                &&& request.purpose == (OpenPurpose::ChangeFormat {
                    previous: old(self)@.camera_format,
                    requested: final(self)@.camera_format,
                })
            },
            reopening matches Some((released, request)) ==> released == old(self)@.held(),
            final(self)@.wf(),
    {
        let mut current_format = self.camera_format;
        current_format.set_resolution(new_res);
        self.set_camera_format(current_format)
    }

    /// Changes the frame rate, as [`Self::set_camera_format`] does.
    pub fn set_frame_rate(&mut self, new_fps: u32) -> (reopening: Option<
        (Released<H, S>, HandleRequest),
    >)
        requires
            old(self)@.wf(),
        ensures
            (final(self)@, request_of(reopening)) == old(self)@.begin_format_change(
                (CameraFormat { frame_rate: new_fps, ..old(self)@.camera_format }),
            ),
            reopening is Some <==> old(self)@.stream_handle is Some,
            final(self)@ == (DeviceView {
                camera_format: CameraFormat { frame_rate: new_fps, ..old(self)@.camera_format },
                stream_handle: None,
                active_stream: None,
                ..old(self)@
            }),
            reopening matches Some((released, request)) ==> {
                &&& released.stream == old(self)@.active_stream
                &&& released.handle == old(self)@.stream_handle
                &&& request.format.width == old(self)@.camera_format.resolution.width
                &&& request.format.height == old(self)@.camera_format.resolution.height
                &&& request.format.fps == new_fps
                &&& request.format.format == old(self)@.camera_format.format
                &&& request.purpose == (OpenPurpose::ChangeFormat {
                    previous: old(self)@.camera_format,
                    requested: final(self)@.camera_format,
                })
            },
            reopening matches Some((released, request)) ==> released == old(self)@.held(),
            final(self)@.wf(),
    {
        let mut current_format = self.camera_format;
        current_format.set_frame_rate(new_fps);
        self.set_camera_format(current_format)
    }

    /// Changes the encoding, as [`Self::set_camera_format`] does.
    pub fn set_frame_format(&mut self, fourcc: FrameFormat) -> (reopening: Option<
        (Released<H, S>, HandleRequest),
    >)
        requires
            old(self)@.wf(),
        ensures
            (final(self)@, request_of(reopening)) == old(self)@.begin_format_change(
                (CameraFormat { format: fourcc, ..old(self)@.camera_format }),
            ),
            reopening is Some <==> old(self)@.stream_handle is Some,
            final(self)@ == (DeviceView {
                camera_format: CameraFormat { format: fourcc, ..old(self)@.camera_format },
                stream_handle: None,
                active_stream: None,
                ..old(self)@
            }),
            reopening matches Some((released, request)) ==> {
                &&& released.stream == old(self)@.active_stream
                &&& released.handle == old(self)@.stream_handle
                &&& request.format.width == old(self)@.camera_format.resolution.width
                &&& request.format.height == old(self)@.camera_format.resolution.height
                &&& request.format.fps == old(self)@.camera_format.frame_rate
                &&& request.format.format == fourcc
                &&& request.purpose == (OpenPurpose::ChangeFormat {
                    previous: old(self)@.camera_format,
                    requested: final(self)@.camera_format,
                })
            },
            reopening matches Some((released, request)) ==> released == old(self)@.held(),
            final(self)@.wf(),
    {
        let mut current_format = self.camera_format;
        current_format.set_format(fourcc);
        self.set_camera_format(current_format)
    }

    /// The resolutions that come in the encoding, each with its frame rates,
    /// out of the formats that the device lists.
    pub fn compatible_list_by_resolution(
        &mut self,
        fourcc: FrameFormat,
        formats: &Vec<FormatDescription>,
    ) -> (r: Result<ResolutionRates, NokhwaError>)
        requires
            descriptor::rates_known(descriptor::all_frames(formats@), fourcc),
        ensures
            final(self)@ == old(self)@,
            r matches Ok(table) && table@ == descriptor::rates_by_resolution(
                descriptor::all_frames(formats@),
                fourcc,
            ),
    {
        Ok(compatible::list_by_resolution(formats, fourcc))
    }

    /// The encodings that the device offers, each once, in their order, out of
    /// the formats that the device lists.
    pub fn compatible_fourcc(&mut self, formats: &Vec<FormatDescription>) -> (r: Result<
        Vec<FrameFormat>,
        NokhwaError,
    >)
        ensures
            final(self)@ == old(self)@,
            r matches Ok(listed) && {
                &&& forall|i: int, j: int|
                    0 <= i < j < listed@.len() ==> (#[trigger] listed@[i]).rank() < (
                    #[trigger] listed@[j]).rank()
                &&& forall|format: FrameFormat| #[trigger]
                    listed@.contains(format) <==> descriptor::offered(
                        descriptor::all_frames(formats@),
                        format,
                    )
                &&& forall|i: int, j: int|
                    0 <= i < j < listed@.len() ==> #[trigger] listed@[i] is MJPEG
                        && #[trigger] listed@[j] is YUYV
                &&& listed@.contains(FrameFormat::MJPEG) <==> exists|i: int, j: int|
                    0 <= i < formats@.len() && 0 <= j < formats@[i].frames@.len() && {
                        let subtype = (#[trigger] formats@[i].frames@[j]).subtype;
                        subtype is FormatMJPEG || subtype is FrameMJPEG
                    }
                &&& listed@.contains(FrameFormat::YUYV) <==> exists|i: int, j: int|
                    0 <= i < formats@.len() && 0 <= j < formats@[i].frames@.len() && {
                        let subtype = (#[trigger] formats@[i].frames@[j]).subtype;
                        subtype is FormatUncompressed || subtype is FrameUncompressed
                    }
            },
    {
        proof {
            listing_laws::law_offered_encodings(formats@);
        }
        Ok(compatible::list_fourcc(formats))
    }

    /// The latest frame, as raw RGB data. Blocks until there is one. Frames
    /// that came before it are dropped.
    pub fn frame_raw(&mut self) -> (r: Result<Vec<u8>, NokhwaError>)
        requires
            old(self)@.wf(),
        ensures
            final(self)@ == old(self)@.with_receiver(final(self)@.frame_receiver),
            final(self)@.wf(),
            r is Ok <==> old(self)@.active_stream is Some,
            r matches Ok(frame) ==> {
                &&& channel::shown(old(self)@.frame_receiver, frame)
                &&& channel::was_sent(old(self)@.frame_receiver, frame@)
                &&& channel::reads(old(self)@.frame_receiver, final(self)@.frame_receiver, frame)
                &&& channel::latest(old(self)@.frame_receiver, final(self)@.frame_receiver, frame)
            },
            r matches Ok(frame) ==> exists|waiting: Seq<Vec<u8>>|
                {
                    &&& #[trigger] channel::drained(old(self)@.frame_receiver, waiting)
                    &&& waiting.len() > 0 ==> frame == waiting.last()
                    &&& waiting.len() == 0 ==> channel::received(old(self)@.frame_receiver, frame)
                    &&& channel::taken(final(self)@.frame_receiver) == channel::taken(
                        old(self)@.frame_receiver,
                    ) + if waiting.len() == 0 {
                        seq![frame]
                    } else {
                        waiting
                    }
                },
            r matches Ok(frame) ==> {
                let numbers = channel::numbers(final(self)@.frame_receiver);
                &&& frame@ == channel::entered(old(self)@.frame_receiver, numbers.last())
                &&& forall|k: int| 0 <= k < numbers.len() - 1 ==> #[trigger] numbers[k] < numbers.last()
            },
            final(self)@ == (DeviceView {
                frame_receiver: final(self)@.frame_receiver,
                ..old(self)@
            }),
            r matches Err(error) ==> error matches NokhwaError::ReadFrameError(why) && why@
                == "Please call `open_stream()` first!"@,
            r matches Err(error) ==> error@ == closed_stream_error() && final(self)@ == old(self)@,
    {
        if self.active_stream.is_none() {
            return Err(
                NokhwaError::ReadFrameError("Please call `open_stream()` first!".to_owned()),
            );
        }
        match channel::newest_frame(channel::drain(&mut self.frame_receiver)) {
            Some(frame) => Ok(frame),
            None => channel::wait_for_frame(&mut self.frame_receiver, &self.frame_sender),
        }
    }

    /// The latest frame, as an image of the current resolution. Blocks until
    /// there is one.
    pub fn frame(&mut self) -> (r: Result<RgbImage, NokhwaError>)
        requires
            old(self)@.wf(),
        ensures
            final(self)@ == old(self)@.with_receiver(final(self)@.frame_receiver),
            final(self)@.wf(),
            old(self)@.active_stream is None ==> error::outcome(r) == Err::<RgbImage, _>(
                closed_stream_error(),
            ) && final(self)@ == old(self)@,
            old(self)@.active_stream is Some ==> exists|data: Vec<u8>|
                {
                    &&& #[trigger] channel::shown(old(self)@.frame_receiver, data)
                    &&& channel::was_sent(old(self)@.frame_receiver, data@)
                    &&& channel::reads(old(self)@.frame_receiver, final(self)@.frame_receiver, data)
                    &&& channel::latest(
                        old(self)@.frame_receiver,
                        final(self)@.frame_receiver,
                        data,
                    )
                    &&& image_read(r, old(self)@.camera_format.resolution, data@)
                },
            old(self)@.active_stream is Some && picture::holds_image(
                0,
                old(self)@.camera_format.resolution.width,
                old(self)@.camera_format.resolution.height,
            ) ==> r is Ok,
            r matches Ok(image) ==> {
                &&& old(self)@.active_stream is Some
                &&& image.width == old(self)@.camera_format.resolution.width
                &&& image.height == old(self)@.camera_format.resolution.height
                &&& 3 * image.width * image.height <= image.data@.len()
            },
            old(self)@.active_stream is Some ==> exists|waiting: Seq<Vec<u8>>, data: Vec<u8>|
                {
                    &&& #[trigger] channel::drained(old(self)@.frame_receiver, waiting)
                    &&& #[trigger] channel::reads(
                        old(self)@.frame_receiver,
                        final(self)@.frame_receiver,
                        data,
                    )
                    &&& waiting.len() > 0 ==> data == waiting.last()
                    &&& waiting.len() == 0 ==> channel::received(old(self)@.frame_receiver, data)
                    &&& channel::taken(final(self)@.frame_receiver) == channel::taken(
                        old(self)@.frame_receiver,
                    ) + if waiting.len() == 0 {
                        seq![data]
                    } else {
                        waiting
                    }
                    &&& r is Ok <==> 3 * old(self)@.camera_format.resolution.width <= usize::MAX
                        && 3 * old(self)@.camera_format.resolution.width * old(
                        self,
                    )@.camera_format.resolution.height <= data@.len()
                    &&& r matches Ok(image) ==> image.data@ == data@
                },
            final(self)@ == (DeviceView {
                frame_receiver: final(self)@.frame_receiver,
                ..old(self)@
            }),
            r matches Err(error) ==> error matches NokhwaError::ReadFrameError(why) && why@
                == if old(self)@.active_stream is None {
                "Please call `open_stream()` first!"@
            } else {
                "ImageBuffer too small! This is probably a bug, please report it!"@
            },
    {
        let resolution = self.camera_format.resolution;
        match self.frame_raw() {
            Ok(data) => picture::image_of_frame(resolution, data),
            Err(why) => Err(why),
        }
    }

    /// The controls of the camera.
    pub fn supported_camera_controls(&self) -> (r: Result<Vec<KnownCameraControl>, NokhwaError>)
        ensures
            r matches Ok(controls) && controls@ == supported_controls(),
            r matches Ok(controls) && controls@ == seq![
                KnownCameraControl::Exposure,
                KnownCameraControl::Focus,
            ],
    {
        let mut controls: Vec<KnownCameraControl> = Vec::new();
        controls.push(KnownCameraControl::Exposure);
        controls.push(KnownCameraControl::Focus);
        assert(controls@ =~= supported_controls());
        Ok(controls)
    }

    /// Begins to read a control. Only the focus can be read, and the relative
    /// exposure is what is read for it.
    pub fn camera_control(&self, control: KnownCameraControl) -> (r: Result<
        ExposureRequest,
        NokhwaError,
    >)
        ensures
            error::outcome(r) == if readable(control) {
                Ok(ExposureRequest { control })
            } else {
                Err(unreadable_error(control, "Not Supported"@))
            },
            r is Ok <==> control is Focus,
            r matches Ok(request) ==> request.control == control,
            r matches Err(failure) ==> failure matches NokhwaError::GetPropertyError {
                property,
                error,
            } && property@ == control.name_spec() && error@ == "Not Supported"@,
    {
        match control {
            KnownCameraControl::Focus => Ok(ExposureRequest { control }),
            _ => Err(
                NokhwaError::GetPropertyError {
                    property: control.name(),
                    error: "Not Supported".to_owned(),
                },
            ),
        }
    }

    /// Takes the device's answer to the request for the relative exposure.
    pub fn exposure_answered(&self, request: ExposureRequest, answer: Result<i8, String>) -> (r: Result<
        CameraControl,
        NokhwaError,
    >)
        ensures
            error::outcome(r) == match error::reply(answer) {
                Ok(value) => Ok(exposure_control(request.control, value)),
                Err(why) => Err(unreadable_error(request.control, why)),
            },
            answer matches Ok(value) ==> r matches Ok(made) && {
                &&& made.control == request.control
                &&& made.value == value
                &&& made.default == value
                &&& made.min == -128
                &&& made.max == 127
                &&& made.step == 1
                &&& made.flag is Automatic
                &&& made.active
            },
            answer matches Err(why) ==> r matches Err(
                NokhwaError::GetPropertyError { property, error },
            ) && property@ == request.control.name_spec() && error@ == why@,
    {
        let control = request.control;
        match answer {
            Ok(value) => match CameraControl::new(
                control,
                i8::MIN as i32,
                i8::MAX as i32,
                value as i32,
                1,
                value as i32,
                KnownCameraControlFlag::Automatic,
                true,
            ) {
                Ok(made) => Ok(made),
                Err(why) => Err(
                    NokhwaError::GetPropertyError { property: control.name(), error: why.message() },
                ),
            },
            Err(why) => Err(
                NokhwaError::GetPropertyError { property: control.name(), error: why },
            ),
        }
    }

    /// Controls cannot be set.
    pub fn set_camera_control(&mut self, _control: CameraControl) -> (r: Result<(), NokhwaError>)
        ensures
            final(self)@ == old(self)@,
            error::outcome(r) == Err::<(), _>(unsupported_error()),
            r matches Err(error) && error matches NokhwaError::UnsupportedOperationError(backend)
                && backend is UniversalVideoClass,
    {
        Err(NokhwaError::UnsupportedOperationError(ApiBackend::UniversalVideoClass))
    }

    /// There are no raw controls.
    pub fn raw_supported_camera_controls<C>(&self) -> (r: Result<Vec<C>, NokhwaError>)
        ensures
            error::outcome(r) == Err::<Vec<C>, _>(unsupported_error()),
            r matches Err(error) && error matches NokhwaError::UnsupportedOperationError(backend)
                && backend is UniversalVideoClass,
    {
        Err(NokhwaError::UnsupportedOperationError(ApiBackend::UniversalVideoClass))
    }

    /// Raw controls cannot be read.
    pub fn raw_camera_control<C: ?Sized, V>(&self, _control: &C) -> (r: Result<V, NokhwaError>)
        ensures
            error::outcome(r) == Err::<V, _>(unsupported_error()),
            r matches Err(error) && error matches NokhwaError::UnsupportedOperationError(backend)
                && backend is UniversalVideoClass,
    {
        Err(NokhwaError::UnsupportedOperationError(ApiBackend::UniversalVideoClass))
    }

    /// Raw controls cannot be set.
    pub fn set_raw_camera_control<C: ?Sized, V: ?Sized>(&mut self, _control: &C, _value: &V) -> (r:
        Result<(), NokhwaError>)
        ensures
            final(self)@ == old(self)@,
            error::outcome(r) == Err::<(), _>(unsupported_error()),
            r matches Err(error) && error matches NokhwaError::UnsupportedOperationError(backend)
                && backend is UniversalVideoClass,
    {
        Err(NokhwaError::UnsupportedOperationError(ApiBackend::UniversalVideoClass))
    }
}

} // verus!
