//! What holds of the library as a whole.

use vstd::prelude::*;

use crate::channel;
use crate::create::{AwaitingContext, DeviceDescription};
use crate::descriptor;
use crate::descriptor::FrameDescription;
use crate::device;
use crate::device::{DeviceView, HandleRequest, OpenPurpose, Released, StartRequest};
use crate::error::NokhwaErrorView;
use crate::text;
use crate::types::{
    CameraControl, CameraFormat, CameraInfoView, FrameFormat, KnownCameraControl,
    KnownCameraControlFlag, Resolution,
};

verus! {

/// The rest of the opening of a stream, once a handle has been requested, for
/// given answers of the device.
pub open spec fn finish_open<H, S>(
    device: DeviceView<H, S>,
    request: HandleRequest,
    handle: Result<H, Seq<char>>,
    stream: Result<S, Seq<char>>,
) -> (DeviceView<H, S>, Result<(), NokhwaErrorView>) {
    match device.handle_answered(request, handle) {
        (next, Ok(start)) => next.start_answered(start, stream),
        (next, Err(error)) => (next, Err(error)),
    }
}

/// Opening a stream from beginning to end.
pub open spec fn whole_open<H, S>(
    device: DeviceView<H, S>,
    handle: Result<H, Seq<char>>,
    stream: Result<S, Seq<char>>,
) -> (DeviceView<H, S>, Result<(), NokhwaErrorView>) {
    let (begun, request) = device.begin_open();
    finish_open(begun, request, handle, stream)
}

/// A change of format from beginning to end.
pub open spec fn whole_format_change<H, S>(
    device: DeviceView<H, S>,
    requested: CameraFormat,
    handle: Result<H, Seq<char>>,
    stream: Result<S, Seq<char>>,
) -> (DeviceView<H, S>, Result<(), NokhwaErrorView>) {
    match device.begin_format_change(requested) {
        (begun, Some(request)) => finish_open(begun, request, handle, stream),
        (begun, None) => (begun, Ok(())),
    }
}

/// The creation of a camera from beginning to end: its format and identity.
pub open spec fn whole_creation(
    begun: AwaitingContext,
    context: Result<(), Seq<char>>,
    devices: Result<usize, Seq<char>>,
    description: Result<DeviceDescription, Seq<char>>,
) -> Result<(CameraFormat, CameraInfoView), NokhwaErrorView> {
    match begun.context_answer(context) {
        Ok(listing) => match listing.devices_answer(devices) {
            Ok(describing) => describing.description_answer(description),
            Err(error) => Err(error),
        },
        Err(error) => Err(error),
    }
}

/// A camera comes out of its creation exactly when there is a context, the
/// devices can be listed, the index is one of theirs and the device there can
/// be described. It has the format it was begun with and the identity of the
/// device at the index. Otherwise the first failure is reported, under the
/// index.
pub proof fn law_creation(
    begun: AwaitingContext,
    context: Result<(), Seq<char>>,
    devices: Result<usize, Seq<char>>,
    description: Result<DeviceDescription, Seq<char>>,
)
    ensures
        ({
            let made = whole_creation(begun, context, devices, description);
            &&& made is Ok <==> {
                &&& context is Ok
                &&& devices is Ok
                &&& begun.index < devices->Ok_0
                &&& description is Ok
            }
            &&& made matches Ok((camera_format, camera_info)) ==> {
                let described = description->Ok_0;
                let ids = text::decimal(described.vendor_id as nat) + ":"@ + text::decimal(
                    described.product_id as nat,
                );
                &&& camera_format == begun.camera_format
                &&& camera_info.index == begun.index
                &&& camera_info.description == Seq::<char>::empty()
                &&& camera_info.misc == ids
                &&& camera_info.human_name == match (described.manufacturer, described.product) {
                    (Some(manufacturer), Some(product)) => manufacturer@ + " "@ + product@,
                    (None, Some(product)) => product@,
                    (Some(manufacturer), None) => ids + " "@ + manufacturer@,
                    (None, None) => ids,
                }
            }
            &&& made is Err ==> made->Err_0 == NokhwaErrorView::OpenDeviceError(
                text::decimal(begun.index as nat),
                if context is Err {
                    context->Err_0
                } else if devices is Err {
                    devices->Err_0
                } else if begun.index >= devices->Ok_0 {
                    "Not Found"@
                } else {
                    description->Err_0
                },
            )
        }),
{
}

/// Every step of an opening leaves the device ready for the next: with both
/// streams released when a handle is requested, and with a handle and no
/// stream when a start is requested.
pub proof fn law_steps_follow<H, S>(
    device: DeviceView<H, S>,
    requested: CameraFormat,
    request: HandleRequest,
    handle: Result<H, Seq<char>>,
)
    ensures
        device.begin_open().0.stream_handle is None,
        device.begin_open().0.active_stream is None,
        device.begin_format_change(requested).1 is Some ==> {
            &&& device.begin_format_change(requested).0.stream_handle is None
            &&& device.begin_format_change(requested).0.active_stream is None
        },
        device.active_stream is None && device.handle_answered(request, handle).1 is Ok ==> {
            &&& device.handle_answered(request, handle).0.stream_handle is Some
            &&& device.handle_answered(request, handle).0.active_stream is None
        },
{
}

/// Every step keeps a device well-formed: a stream runs only on a stream
/// handle, and the frame queue stays in one piece.
pub proof fn law_steps_keep_wf<H, S>(
    device: DeviceView<H, S>,
    requested: CameraFormat,
    handle: Result<H, Seq<char>>,
    stream: Result<S, Seq<char>>,
)
    requires
        device.wf(),
    ensures
        device.closed().wf(),
        whole_open(device, handle, stream).0.wf(),
        whole_format_change(device, requested, handle, stream).0.wf(),
{
}

/// Opening a stream succeeds exactly when the device gives a handle and starts
/// the stream, and exactly then the stream is open. It never changes the
/// format. The handle of a stream that could not be started is kept.
pub proof fn law_open_stream<H, S>(
    device: DeviceView<H, S>,
    handle: Result<H, Seq<char>>,
    stream: Result<S, Seq<char>>,
)
    ensures
        ({
            let (after, r) = whole_open(device, handle, stream);
            &&& r is Ok <==> handle is Ok && stream is Ok
            &&& after.active_stream is Some <==> r is Ok
            &&& after.stream_handle is Some <==> handle is Ok
            &&& r is Ok ==> after.active_stream == Some(stream->Ok_0)
            &&& handle is Ok ==> after.stream_handle == Some(handle->Ok_0)
            &&& handle is Err ==> r == Err::<(), _>(
                NokhwaErrorView::OpenStreamError(handle->Err_0),
            )
            &&& handle is Ok && stream is Err ==> r == Err::<(), _>(
                NokhwaErrorView::OpenStreamError(stream->Err_0),
            )
            &&& after.camera_format == device.camera_format
        }),
{
}

/// A stream is requested with the width, the height, the frames per second and
/// the encoding of the camera's format; for a change of format, with those of
/// the new one.
pub proof fn law_requested_format<H, S>(device: DeviceView<H, S>, requested: CameraFormat)
    ensures
        ({
            let asked = device.begin_open().1.format;
            &&& asked.width == device.camera_format.resolution.width
            &&& asked.height == device.camera_format.resolution.height
            &&& asked.fps == device.camera_format.frame_rate
            &&& asked.format == device.camera_format.format
        }),
        device.begin_format_change(requested).1 matches Some(request) ==> {
            &&& request.format.width == requested.resolution.width
            &&& request.format.height == requested.resolution.height
            &&& request.format.fps == requested.frame_rate
            &&& request.format.format == requested.format
        },
{
}

/// Two cameras ask the device for the same only if they have the same format.
pub proof fn law_requests_tell_formats_apart<H, S>(one: DeviceView<H, S>, other: DeviceView<H, S>)
    ensures
        one.begin_open().1.format == other.begin_open().1.format <==> one.camera_format
            == other.camera_format,
{
    let (a, b) = (one.camera_format, other.camera_format);
    if a.resolution.width == b.resolution.width && a.resolution.height == b.resolution.height
        && a.frame_rate == b.frame_rate && a.format == b.format {
        assert(a.resolution == b.resolution);
        assert(a == b);
    }
}

/// What an opening begins with leaves of the camera all but its streams, and a
/// change of format all but its streams and its format. The device is asked for
/// a handle by every opening, and by a change of format exactly when there is a
/// stream handle.
pub proof fn law_beginnings<H, S>(device: DeviceView<H, S>, requested: CameraFormat)
    ensures
        ({
            let (begun, request) = device.begin_open();
            &&& begun.camera_format == device.camera_format
            &&& begun.camera_info == device.camera_info
            &&& begun.frame_receiver == device.frame_receiver
            &&& begun.frame_sender == device.frame_sender
            &&& begun.stream_handle is None
            &&& begun.active_stream is None
            &&& request.purpose is Open
        }),
        ({
            let (begun, request) = device.begin_format_change(requested);
            &&& begun.camera_format == requested
            &&& begun.camera_info == device.camera_info
            &&& begun.frame_receiver == device.frame_receiver
            &&& begun.frame_sender == device.frame_sender
            &&& begun.stream_handle is None
            &&& request is None ==> begun.active_stream == device.active_stream
            &&& request is Some ==> begun.active_stream is None
            &&& request is Some <==> device.stream_handle is Some
            &&& request is Some ==> request->Some_0.purpose == (OpenPurpose::ChangeFormat {
                previous: device.camera_format,
                requested,
            })
            &&& device::request_of(None::<(Released<H, S>, HandleRequest)>) is None
            &&& forall|released: Released<H, S>, asked: HandleRequest|
                #[trigger] device::request_of(Some((released, asked))) == Some(asked)
        }),
{
}

/// A handle or a stream that the device gives is kept as it is given, and
/// changes nothing else. One that it does not give changes nothing but the
/// format, and that only where the format was being changed: it is then what it
/// was. What is reported is the device's own reason.
pub proof fn law_answers<H, S>(
    device: DeviceView<H, S>,
    purpose: OpenPurpose,
    request: HandleRequest,
    handle: Result<H, Seq<char>>,
    stream: Result<S, Seq<char>>,
)
    requires
        request.purpose == purpose,
    ensures
        ({
            let kept = match purpose {
                OpenPurpose::Open => device.camera_format,
                OpenPurpose::ChangeFormat { previous, requested } => previous,
            };
            let (held, next) = device.handle_answered(request, handle);
            let (running, done) = device.start_answered(StartRequest { purpose }, stream);
            &&& handle matches Ok(given) ==> {
                &&& held == (DeviceView { stream_handle: Some(given), ..device })
                &&& next matches Ok(start) && start.purpose == purpose
            }
            &&& handle is Err ==> held == (DeviceView { camera_format: kept, ..device })
            &&& stream matches Ok(given) ==> {
                &&& running == (DeviceView { active_stream: Some(given), ..device })
                &&& done is Ok
            }
            &&& stream is Err ==> running == (DeviceView { camera_format: kept, ..device })
            &&& handle matches Err(why) ==> next matches Err(error) && error == purpose.failure(why)
            &&& stream matches Err(why) ==> done matches Err(error) && error == purpose.failure(why)
        }),
{
}

/// The report of a stream that could not be opened gives the device's reason;
/// where the format was being changed, it gives the format that was asked for
/// too, not the one that the camera goes back to.
pub proof fn law_failure(purpose: OpenPurpose, why: Seq<char>)
    ensures
        purpose is Open ==> purpose.failure(why) == NokhwaErrorView::OpenStreamError(why),
        purpose matches OpenPurpose::ChangeFormat { previous, requested } ==> purpose.failure(why)
            == (NokhwaErrorView::SetPropertyError {
            property: "CameraFormat"@,
            value: text::decimal(requested.resolution.width as nat) + "x"@ + text::decimal(
                requested.resolution.height as nat,
            ) + "@"@ + text::decimal(requested.frame_rate as nat) + "FPS, "@
                + match requested.format {
                FrameFormat::MJPEG => "MJPEG"@,
                FrameFormat::YUYV => "YUYV"@,
            } + " Format"@,
            error: "Could not open device stream: "@ + why,
        }),
{
}

/// A change of format either succeeds and the camera has the new format, or
/// fails and the camera has the format it had.
pub proof fn law_format_change_is_all_or_nothing<H, S>(
    device: DeviceView<H, S>,
    requested: CameraFormat,
    handle: Result<H, Seq<char>>,
    stream: Result<S, Seq<char>>,
)
    ensures
        ({
            let (after, r) = whole_format_change(device, requested, handle, stream);
            after.camera_format == if r is Ok {
                requested
            } else {
                device.camera_format
            }
        }),
{
}

/// A change of format fails exactly when there was a stream handle and the
/// stream could not be opened anew; the stream is closed then, and the error
/// names the property, the format that was asked for and the reason.
pub proof fn law_failed_format_change<H, S>(
    device: DeviceView<H, S>,
    requested: CameraFormat,
    handle: Result<H, Seq<char>>,
    stream: Result<S, Seq<char>>,
)
    ensures
        ({
            let (after, r) = whole_format_change(device, requested, handle, stream);
            &&& r is Err <==> device.stream_handle is Some && (handle is Err || stream is Err)
            &&& r is Err ==> {
                &&& after.active_stream is None
                &&& r->Err_0 == NokhwaErrorView::SetPropertyError {
                    property: "CameraFormat"@,
                    value: requested.text_spec(),
                    error: "Could not open device stream: "@ + if handle is Err {
                        handle->Err_0
                    } else {
                        stream->Err_0
                    },
                }
            }
        }),
{
}

/// Without a stream handle a change of format asks nothing of the device and
/// changes nothing but the format; a change back restores the camera.
pub proof fn law_format_change_while_closed<H, S>(
    device: DeviceView<H, S>,
    requested: CameraFormat,
)
    requires
        device.stream_handle is None,
    ensures
        device.begin_format_change(requested).1 is None,
        device.begin_format_change(requested).0 == (DeviceView {
            camera_format: requested,
            ..device
        }),
        device.begin_format_change(requested).0.begin_format_change(device.camera_format).0
            == device,
{
}

/// A change of format on a stream handle does to the streams what opening the
/// stream in the new format would do, whatever the device answers.
pub proof fn law_format_change_reopens<H, S>(
    device: DeviceView<H, S>,
    requested: CameraFormat,
    handle: Result<H, Seq<char>>,
    stream: Result<S, Seq<char>>,
)
    requires
        device.stream_handle is Some,
    ensures
        ({
            let (after, r) = whole_format_change(device, requested, handle, stream);
            let (opened, s) = whole_open(device.with_format(requested), handle, stream);
            &&& after.stream_handle == opened.stream_handle
            &&& after.active_stream == opened.active_stream
            &&& r is Ok <==> s is Ok
            &&& device.begin_format_change(requested).1->Some_0.format == device.with_format(
                requested,
            ).begin_open().1.format
        }),
{
}

/// Stopping twice is stopping once, and hands nothing out the second time. A
/// stopped stream is opened like one that never ran, and a stopped camera
/// changes its format at once.
pub proof fn law_stop<H, S>(device: DeviceView<H, S>, requested: CameraFormat)
    ensures
        device.closed().active_stream is None,
        device.closed().stream_handle is None,
        device.closed().closed() == device.closed(),
        device.closed().begin_open() == device.begin_open(),
        device.closed().held() == (Released::<H, S> { stream: None, handle: None }),
        device.closed().begin_format_change(requested).1 is None,
{
}

/// Stopping hands out the stream and the stream handle that the camera has, and
/// takes nothing else away.
pub proof fn law_stop_releases<H, S>(device: DeviceView<H, S>)
    ensures
        device.held().stream == device.active_stream,
        device.held().handle == device.stream_handle,
        device.closed().camera_format == device.camera_format,
        device.closed().camera_info == device.camera_info,
        device.closed().frame_receiver == device.frame_receiver,
        device.closed().frame_sender == device.frame_sender,
{
}

/// A camera is well-formed exactly when its two ends belong to one channel and
/// it has no stream without a stream handle.
pub proof fn law_wf<H, S>(device: DeviceView<H, S>)
    ensures
        device.wf() <==> channel::connected(device.frame_sender, device.frame_receiver) && !(
        device.active_stream is Some && device.stream_handle is None),
{
}

/// Two states of one camera: same identity, same frame queue.
pub open spec fn same_camera<H, S>(one: DeviceView<H, S>, other: DeviceView<H, S>) -> bool {
    &&& one.camera_info == other.camera_info
    &&& one.frame_sender == other.frame_sender
    &&& one.frame_receiver == other.frame_receiver
}

/// Neither stopping nor opening a stream nor a change of format changes the
/// identity of the camera or its frame queue.
pub proof fn law_identity_is_kept<H, S>(
    device: DeviceView<H, S>,
    requested: CameraFormat,
    handle: Result<H, Seq<char>>,
    stream: Result<S, Seq<char>>,
)
    ensures
        same_camera(device.closed(), device),
        same_camera(whole_open(device, handle, stream).0, device),
        same_camera(whole_format_change(device, requested, handle, stream).0, device),
{
}

/// What the device hands over when a stream is opened: it is asked to start a
/// stream only on a handle that it gave.
pub open spec fn obtained_on_open<H, S>(
    handle: Result<H, Seq<char>>,
    stream: Result<S, Seq<char>>,
) -> Released<H, S> {
    match (handle, stream) {
        (Ok(handle), Ok(stream)) => Released { stream: Some(stream), handle: Some(handle) },
        (Ok(handle), Err(why)) => Released { stream: None, handle: Some(handle) },
        (Err(why), stream) => Released { stream: None, handle: None },
    }
}

/// A call on a camera, with the answers of the device that it got.
pub enum Call<H, S> {
    /// The stream is opened.
    OpenStream { handle: Result<H, Seq<char>>, stream: Result<S, Seq<char>> },
    /// The format is changed, as a whole or in one of its parts.
    ChangeFormat {
        requested: CameraFormat,
        handle: Result<H, Seq<char>>,
        stream: Result<S, Seq<char>>,
    },
    /// The stream is stopped.
    StopStream,
    /// A frame is read, raw or as an image; the frame queue is as given
    /// afterwards.
    Read { after: flume::Receiver<Vec<u8>>, frame: Vec<u8> },
    /// A sender into the frame queue is handed out; the camera's own is as
    /// given afterwards.
    HandOutSender { left: flume::Sender<Vec<u8>>, copy: flume::Sender<Vec<u8>> },
    /// Any other call. It changes nothing.
    Query,
}

impl<H, S> Call<H, S> {
    /// The call can have gone this way on this camera.
    pub open spec fn possible(self, device: DeviceView<H, S>) -> bool {
        match self {
            Call::Read { after, frame } => {
                &&& device.active_stream is Some
                &&& channel::reads(device.frame_receiver, after, frame)
            },
            Call::HandOutSender { left, copy } => channel::copied(device.frame_sender, left, copy),
            _ => true,
        }
    }

    /// The camera after the call.
    #[verifier::opaque]
    pub open spec fn applied(self, device: DeviceView<H, S>) -> DeviceView<H, S> {
        match self {
            Call::OpenStream { handle, stream } => whole_open(device, handle, stream).0,
            Call::ChangeFormat { requested, handle, stream } => whole_format_change(
                device,
                requested,
                handle,
                stream,
            ).0,
            Call::StopStream => device.closed(),
            Call::Read { after, frame } => device.with_receiver(after),
            Call::HandOutSender { left, copy } => device.with_sender(left),
            Call::Query => device,
        }
    }

    /// The call opens the stream, or opens it anew.
    pub open spec fn opens(self, device: DeviceView<H, S>) -> bool {
        match self {
            Call::OpenStream { handle, stream } => true,
            Call::ChangeFormat { requested, handle, stream } => device.stream_handle is Some,
            _ => false,
        }
    }

    /// The device gave a handle and started the stream.
    pub open spec fn granted(self) -> bool {
        match self {
            Call::OpenStream { handle, stream } => handle is Ok && stream is Ok,
            Call::ChangeFormat { requested, handle, stream } => handle is Ok && stream is Ok,
            _ => false,
        }
    }

    /// What the call hands out to be released.
    pub open spec fn released(self, device: DeviceView<H, S>) -> Released<H, S> {
        if self.opens(device) || self is StopStream {
            device.held()
        } else {
            Released { stream: None, handle: None }
        }
    }

    /// What the device hands to the camera in the course of the call.
    pub open spec fn obtained(self, device: DeviceView<H, S>) -> Released<H, S> {
        match self {
            Call::OpenStream { handle, stream } => obtained_on_open(handle, stream),
            Call::ChangeFormat { requested, handle, stream } => if device.stream_handle is Some {
                obtained_on_open(handle, stream)
            } else {
                Released { stream: None, handle: None }
            },
            _ => Released { stream: None, handle: None },
        }
    }

    /// Where the frame that was read stands among all that were taken out of
    /// the queue.
    pub open spec fn place(self) -> int {
        channel::taken(self->after).len() - 1
    }

    /// The number under which the frame that was read entered the queue.
    pub open spec fn number(self) -> nat {
        channel::numbers(self->after).last()
    }
}

/// The camera after a sequence of calls.
pub open spec fn after_calls<H, S>(
    device: DeviceView<H, S>,
    calls: Seq<Call<H, S>>,
) -> DeviceView<H, S>
    decreases calls.len(),
{
    if calls.len() == 0 {
        device
    } else {
        calls.last().applied(after_calls(device, calls.drop_last()))
    }
}

/// Each call can have gone its way on the camera that those before it left.
pub open spec fn possible_calls<H, S>(
    device: DeviceView<H, S>,
    calls: Seq<Call<H, S>>,
) -> bool {
    forall|k: int|
        0 <= k < calls.len() ==> (#[trigger] calls[k]).possible(after_calls(device, calls.take(k)))
}

/// The `k`-th call opens the stream, or opens it anew.
pub open spec fn opens_at<H, S>(
    device: DeviceView<H, S>,
    calls: Seq<Call<H, S>>,
    k: int,
) -> bool {
    calls[k].opens(after_calls(device, calls.take(k)))
}

/// The `k`-th call is the latest that opened the stream, and the stream has not
/// been stopped since.
pub open spec fn opened_last<H, S>(
    device: DeviceView<H, S>,
    calls: Seq<Call<H, S>>,
    k: int,
) -> bool {
    &&& 0 <= k < calls.len()
    &&& opens_at(device, calls, k)
    &&& forall|j: int|
        k < j < calls.len() ==> !#[trigger] opens_at(device, calls, j) && calls[j] !is StopStream
}

proof fn lemma_takes<H, S>(calls: Seq<Call<H, S>>, k: int)
    requires
        0 <= k < calls.len(),
    ensures
        calls.drop_last().take(k) == calls.take(k),
        calls.take(k + 1).drop_last() == calls.take(k),
        calls.take(k + 1).last() == calls[k],
        calls.take(calls.len() - 1) == calls.drop_last(),
{
    assert(calls.drop_last().take(k) =~= calls.take(k));
    assert(calls.take(k + 1).drop_last() =~= calls.take(k));
    assert(calls.take(calls.len() - 1) =~= calls.drop_last());
}

/// What one call does to the running stream.
proof fn lemma_call_on_stream<H, S>(device: DeviceView<H, S>, call: Call<H, S>)
    ensures
        call.opens(device) ==> (call.applied(device).active_stream is Some <==> call.granted()),
        call is StopStream ==> call.applied(device).active_stream is None,
        !call.opens(device) && call !is StopStream ==> call.applied(device).active_stream
            == device.active_stream,
{
    reveal(Call::applied);
}

/// A call that neither opens nor stops leaves the latest opening what it was.
proof fn lemma_opened_last_kept<H, S>(device: DeviceView<H, S>, calls: Seq<Call<H, S>>, k: int)
    requires
        calls.len() > 0,
        !calls.last().opens(after_calls(device, calls.drop_last())),
        calls.last() !is StopStream,
    ensures
        opened_last(device, calls, k) <==> opened_last(device, calls.drop_last(), k),
{
    let earlier = calls.drop_last();
    let n = calls.len() - 1;
    lemma_takes(calls, n);
    assert(!opens_at(device, calls, n));
    assert forall|j: int| 0 <= j < n implies #[trigger] opens_at(device, calls, j) == opens_at(
        device,
        earlier,
        j,
    ) && calls[j] == earlier[j] by {
        lemma_takes(calls, j);
    }
    if opened_last(device, calls, k) {
        assert(k < n);
        assert forall|j: int| k < j < earlier.len() implies !#[trigger] opens_at(
            device,
            earlier,
            j,
        ) && earlier[j] !is StopStream by {
            assert(!opens_at(device, calls, j));
        }
    }
    if opened_last(device, earlier, k) {
        assert(opens_at(device, calls, k));
        assert forall|j: int| k < j < calls.len() implies !#[trigger] opens_at(device, calls, j)
            && calls[j] !is StopStream by {
            if j < n {
                assert(!opens_at(device, earlier, j));
            }
        }
    }
}

/// After any sequence of calls the stream is open exactly when it has been
/// opened, by itself or for a change of format, the latest opening succeeded,
/// and it has not been stopped since.
pub proof fn law_open_after_calls<H, S>(device: DeviceView<H, S>, calls: Seq<Call<H, S>>)
    requires
        device.active_stream is None,
    ensures
        after_calls(device, calls).active_stream is Some <==> exists|k: int| #[trigger]
            opened_last(device, calls, k) && calls[k].granted(),
    decreases calls.len(),
{
    if calls.len() > 0 {
        let earlier = calls.drop_last();
        let n = calls.len() - 1;
        let call = calls[n];
        let before = after_calls(device, earlier);
        lemma_takes(calls, n);
        law_open_after_calls(device, earlier);
        lemma_call_on_stream(before, call);
        if call.opens(before) {
            assert(opened_last(device, calls, n));
            assert forall|k: int| #[trigger] opened_last(device, calls, k) implies k == n by {
                if k < n {
                    assert(!opens_at(device, calls, n));
                }
            }
        } else if call is StopStream {
            assert forall|k: int| !#[trigger] opened_last(device, calls, k) by {
                if opened_last(device, calls, k) && k < n {
                    assert(!opens_at(device, calls, n));
                }
            }
        } else {
            assert forall|k: int|
                (#[trigger] opened_last(device, calls, k) && calls[k].granted()) implies {
                opened_last(device, earlier, k) && earlier[k].granted()
            } by {
                lemma_opened_last_kept(device, calls, k);
            }
            assert forall|k: int|
                (#[trigger] opened_last(device, earlier, k) && earlier[k].granted()) implies {
                opened_last(device, calls, k) && calls[k].granted()
            } by {
                lemma_opened_last_kept(device, calls, k);
            }
        }
    }
}

/// How many of the calls handed out a sender.
pub open spec fn handed_out<H, S>(calls: Seq<Call<H, S>>) -> nat
    decreases calls.len(),
{
    if calls.len() == 0 {
        0
    } else {
        handed_out(calls.drop_last()) + if calls.last() is HandOutSender {
            1nat
        } else {
            0nat
        }
    }
}

/// What one call keeps of the camera.
proof fn lemma_call_keeps<H, S>(device: DeviceView<H, S>, call: Call<H, S>)
    requires
        call.possible(device),
    ensures
        call.applied(device).camera_info == device.camera_info,
        channel::same_source(call.applied(device).frame_sender, device.frame_sender),
        channel::put(call.applied(device).frame_sender) == channel::put(device.frame_sender),
        channel::copies(call.applied(device).frame_sender) == channel::copies(device.frame_sender)
            + if call is HandOutSender {
            1nat
        } else {
            0nat
        },
        channel::same_channel(call.applied(device).frame_receiver, device.frame_receiver),
        device.wf() ==> call.applied(device).wf(),
{
    reveal(Call::applied);
}

/// After any sequence of calls the camera has the identity it was created with,
/// and its frame queue is a part of the channel it always was. The camera puts
/// no frame of its own into the queue, and the senders into it are those that
/// the calls handed out.
pub proof fn law_identity_after_calls<H, S>(device: DeviceView<H, S>, calls: Seq<Call<H, S>>)
    requires
        possible_calls(device, calls),
    ensures
        after_calls(device, calls).camera_info == device.camera_info,
        channel::same_source(after_calls(device, calls).frame_sender, device.frame_sender),
        channel::put(after_calls(device, calls).frame_sender) == channel::put(device.frame_sender),
        channel::copies(after_calls(device, calls).frame_sender) == channel::copies(
            device.frame_sender,
        ) + handed_out(calls),
        channel::same_channel(after_calls(device, calls).frame_receiver, device.frame_receiver),
    decreases calls.len(),
{
    if calls.len() > 0 {
        let n = calls.len() - 1;
        lemma_takes(calls, n);
        lemma_possible_earlier(device, calls);
        law_identity_after_calls(device, calls.drop_last());
        assert(calls[n].possible(after_calls(device, calls.take(n))));
        lemma_call_keeps(after_calls(device, calls.take(n)), calls[n]);
    }
}

/// The streams that the calls handed out to be released, in order.
pub open spec fn released_streams<H, S>(
    device: DeviceView<H, S>,
    calls: Seq<Call<H, S>>,
) -> Seq<S>
    decreases calls.len(),
{
    if calls.len() == 0 {
        Seq::empty()
    } else {
        let earlier = calls.drop_last();
        released_streams(device, earlier) + as_seq(
            calls.last().released(after_calls(device, earlier)).stream,
        )
    }
}

/// The stream handles that the calls handed out to be released, in order.
pub open spec fn released_handles<H, S>(
    device: DeviceView<H, S>,
    calls: Seq<Call<H, S>>,
) -> Seq<H>
    decreases calls.len(),
{
    if calls.len() == 0 {
        Seq::empty()
    } else {
        let earlier = calls.drop_last();
        released_handles(device, earlier) + as_seq(
            calls.last().released(after_calls(device, earlier)).handle,
        )
    }
}

/// The streams that the device started in the course of the calls, in order.
pub open spec fn obtained_streams<H, S>(
    device: DeviceView<H, S>,
    calls: Seq<Call<H, S>>,
) -> Seq<S>
    decreases calls.len(),
{
    if calls.len() == 0 {
        Seq::empty()
    } else {
        let earlier = calls.drop_last();
        obtained_streams(device, earlier) + as_seq(
            calls.last().obtained(after_calls(device, earlier)).stream,
        )
    }
}

/// The stream handles that the device gave in the course of the calls, in
/// order.
pub open spec fn obtained_handles<H, S>(
    device: DeviceView<H, S>,
    calls: Seq<Call<H, S>>,
) -> Seq<H>
    decreases calls.len(),
{
    if calls.len() == 0 {
        Seq::empty()
    } else {
        let earlier = calls.drop_last();
        obtained_handles(device, earlier) + as_seq(
            calls.last().obtained(after_calls(device, earlier)).handle,
        )
    }
}

/// What is there, as a sequence.
pub open spec fn as_seq<T>(value: Option<T>) -> Seq<T> {
    match value {
        Some(value) => seq![value],
        None => Seq::empty(),
    }
}

/// What one call hands out and keeps: what was held and what the device hands
/// over is afterwards handed out or held, and the older goes first.
proof fn lemma_call_releases<H, S>(device: DeviceView<H, S>, call: Call<H, S>)
    ensures
        as_seq(device.active_stream) + as_seq(call.obtained(device).stream) == as_seq(
            call.released(device).stream,
        ) + as_seq(call.applied(device).active_stream),
        as_seq(device.stream_handle) + as_seq(call.obtained(device).handle) == as_seq(
            call.released(device).handle,
        ) + as_seq(call.applied(device).stream_handle),
{
    reveal(Call::applied);
}

/// What has come is out or held, one call later as well.
proof fn lemma_one_more<T>(
    came: Seq<T>,
    out: Seq<T>,
    held: Seq<T>,
    comes: Seq<T>,
    leaves: Seq<T>,
    stays: Seq<T>,
)
    requires
        came == out + held,
        held + comes == leaves + stays,
    ensures
        came + comes == out + leaves + stays,
{
    assert(came + comes =~= out + (held + comes));
    assert(out + (leaves + stays) =~= out + leaves + stays);
}

/// Every stream and every stream handle is released once: after any sequence
/// of calls those that the camera held and those that the device handed over
/// since have been handed out to be released, each once and in the order in
/// which they came, but for the ones that the camera still holds.
pub proof fn law_each_is_released_once<H, S>(device: DeviceView<H, S>, calls: Seq<Call<H, S>>)
    ensures
        as_seq(device.active_stream) + obtained_streams(device, calls) == released_streams(
            device,
            calls,
        ) + as_seq(after_calls(device, calls).active_stream),
        as_seq(device.stream_handle) + obtained_handles(device, calls) == released_handles(
            device,
            calls,
        ) + as_seq(after_calls(device, calls).stream_handle),
    decreases calls.len(),
{
    if calls.len() > 0 {
        let earlier = calls.drop_last();
        let before = after_calls(device, earlier);
        let call = calls.last();
        law_each_is_released_once(device, earlier);
        lemma_call_releases(before, call);
        lemma_one_more(
            as_seq(device.active_stream) + obtained_streams(device, earlier),
            released_streams(device, earlier),
            as_seq(before.active_stream),
            as_seq(call.obtained(before).stream),
            as_seq(call.released(before).stream),
            as_seq(call.applied(before).active_stream),
        );
        lemma_one_more(
            as_seq(device.stream_handle) + obtained_handles(device, earlier),
            released_handles(device, earlier),
            as_seq(before.stream_handle),
            as_seq(call.obtained(before).handle),
            as_seq(call.released(before).handle),
            as_seq(call.applied(before).stream_handle),
        );
        assert(as_seq(device.active_stream) + obtained_streams(device, calls) =~= as_seq(
            device.active_stream,
        ) + obtained_streams(device, earlier) + as_seq(call.obtained(before).stream));
        assert(as_seq(device.stream_handle) + obtained_handles(device, calls) =~= as_seq(
            device.stream_handle,
        ) + obtained_handles(device, earlier) + as_seq(call.obtained(before).handle));
    }
}

/// Every sequence of calls leaves a well-formed camera well-formed.
pub proof fn law_wf_after_calls<H, S>(device: DeviceView<H, S>, calls: Seq<Call<H, S>>)
    requires
        device.wf(),
        possible_calls(device, calls),
    ensures
        after_calls(device, calls).wf(),
    decreases calls.len(),
{
    if calls.len() > 0 {
        let n = calls.len() - 1;
        lemma_takes(calls, n);
        lemma_possible_earlier(device, calls);
        law_wf_after_calls(device, calls.drop_last());
        assert(calls[n].possible(after_calls(device, calls.take(n))));
        lemma_call_keeps(after_calls(device, calls.take(n)), calls[n]);
    }
}

proof fn lemma_possible_earlier<H, S>(device: DeviceView<H, S>, calls: Seq<Call<H, S>>)
    requires
        calls.len() > 0,
        possible_calls(device, calls),
    ensures
        possible_calls(device, calls.drop_last()),
{
    let earlier = calls.drop_last();
    assert forall|k: int| 0 <= k < earlier.len() implies (#[trigger] earlier[k]).possible(
        after_calls(device, earlier.take(k)),
    ) by {
        lemma_takes(calls, k);
        assert(calls[k].possible(after_calls(device, calls.take(k))));
    }
}

/// Of one channel nothing has been put back between the two states.
#[verifier::opaque]
spec fn grown(before: flume::Receiver<Vec<u8>>, after: flume::Receiver<Vec<u8>>) -> bool {
    &&& channel::taken(before).is_prefix_of(channel::taken(after))
    &&& channel::numbers(before).is_prefix_of(channel::numbers(after))
    &&& channel::same_channel(after, before)
}

proof fn lemma_grown_on(
    one: flume::Receiver<Vec<u8>>,
    two: flume::Receiver<Vec<u8>>,
    three: flume::Receiver<Vec<u8>>,
)
    requires
        grown(one, two),
        grown(two, three),
    ensures
        grown(one, three),
{
    reveal(grown);
}

/// What one call does to the frame queue.
proof fn lemma_call_on_queue<H, S>(device: DeviceView<H, S>, call: Call<H, S>)
    requires
        call.possible(device),
    ensures
        grown(device.frame_receiver, call.applied(device).frame_receiver),
        call is Read ==> call.applied(device).frame_receiver == call->after,
{
    reveal(Call::applied);
    reveal(grown);
}

/// What has been taken out of the queue stays taken out.
proof fn lemma_taken_grows<H, S>(
    device: DeviceView<H, S>,
    calls: Seq<Call<H, S>>,
    m: int,
    n: int,
)
    requires
        possible_calls(device, calls),
        0 <= m <= n <= calls.len(),
    ensures
        grown(
            after_calls(device, calls.take(m)).frame_receiver,
            after_calls(device, calls.take(n)).frame_receiver,
        ),
    decreases n - m,
{
    let earliest = after_calls(device, calls.take(m));
    if m < n {
        let earlier = after_calls(device, calls.take(n - 1));
        lemma_taken_grows(device, calls, m, n - 1);
        lemma_takes(calls, n - 1);
        assert(calls[n - 1].possible(earlier));
        lemma_call_on_queue(earlier, calls[n - 1]);
        lemma_grown_on(
            earliest.frame_receiver,
            earlier.frame_receiver,
            calls[n - 1].applied(earlier).frame_receiver,
        );
    } else {
        reveal(grown);
    }
}

/// Two readings, one after the other.
proof fn lemma_two_readings(
    start: flume::Receiver<Vec<u8>>,
    before_first: flume::Receiver<Vec<u8>>,
    first: flume::Receiver<Vec<u8>>,
    before_second: flume::Receiver<Vec<u8>>,
    second: flume::Receiver<Vec<u8>>,
    frames: (Vec<u8>, Vec<u8>),
)
    requires
        grown(start, before_first),
        channel::reads(before_first, first, frames.0),
        grown(first, before_second),
        channel::reads(before_second, second, frames.1),
    ensures
        channel::numbers(first).last() < channel::numbers(second).last(),
        channel::entered(start, channel::numbers(first).last()) == frames.0@,
        channel::entered(start, channel::numbers(second).last()) == frames.1@,
        0 < channel::taken(first).len() < channel::taken(second).len(),
        channel::taken(second)[channel::taken(first).len() - 1] == frames.0,
        channel::taken(second).last() == frames.1,
{
    reveal(grown);
    let n = channel::numbers(first).len() - 1;
    assert(channel::numbers(second)[n] == channel::numbers(first)[n]);
}

/// Frames never go back: of two readings of one camera the later hands out a
/// frame that entered the queue later, and left it later. No frame is handed
/// out twice, and those between the two are gone for good.
pub proof fn law_frames_never_go_back<H, S>(
    device: DeviceView<H, S>,
    calls: Seq<Call<H, S>>,
    i: int,
    j: int,
)
    requires
        possible_calls(device, calls),
        0 <= i < j < calls.len(),
        calls[i] is Read,
        calls[j] is Read,
    ensures
        calls[i].number() < calls[j].number(),
        channel::entered(device.frame_receiver, calls[i].number()) == calls[i]->frame@,
        channel::entered(device.frame_receiver, calls[j].number()) == calls[j]->frame@,
        0 <= calls[i].place() < calls[j].place(),
        channel::taken(calls[j]->after)[calls[i].place()] == calls[i]->frame,
        channel::taken(calls[j]->after)[calls[j].place()] == calls[j]->frame,
{
    let before_first = after_calls(device, calls.take(i));
    let before_second = after_calls(device, calls.take(j));
    lemma_takes(calls, i);
    assert(calls[i].possible(before_first));
    assert(calls[j].possible(before_second));
    lemma_call_on_queue(before_first, calls[i]);
    assert(calls.take(0) =~= Seq::empty());
    lemma_taken_grows(device, calls, 0, i);
    lemma_taken_grows(device, calls, i + 1, j);
    lemma_two_readings(
        device.frame_receiver,
        before_first.frame_receiver,
        calls[i]->after,
        before_second.frame_receiver,
        calls[j]->after,
        (calls[i]->frame, calls[j]->frame),
    );
}

/// The exposure and the focus are the controls, in this order, and only the
/// focus can be read.
pub proof fn law_controls(control: KnownCameraControl)
    ensures
        device::supported_controls().len() == 2,
        device::supported_controls()[0] is Exposure,
        device::supported_controls()[1] is Focus,
        device::readable(control) <==> control is Focus,
{
}

/// A control that was read has the value that the device gave, as its default
/// too, in the range of all values that the device can give.
pub proof fn law_control_value(control: KnownCameraControl, value: i8)
    ensures
        ({
            let made = device::exposure_control(control, value);
            &&& made.control == control
            &&& made.value == value
            &&& made.default == value
            &&& made.min == -128
            &&& made.max == 127
            &&& made.step == 1
            &&& made.flag == KnownCameraControlFlag::Automatic
            &&& made.active
        }),
{
}

/// Value and default of a control lie in its range exactly when neither is
/// below the least nor above the greatest value.
pub proof fn law_range(control: CameraControl)
    ensures
        control.in_range() <==> !(control.value < control.min || control.value > control.max
            || control.default < control.min || control.default > control.max),
{
}

/// Every control that can be read is among the supported ones.
pub proof fn law_readable_controls_are_supported(control: KnownCameraControl)
    requires
        device::readable(control),
    ensures
        device::supported_controls().contains(control),
{
    assert(device::supported_controls()[1] == control);
}

/// The value of a control that was read lies in its range.
pub proof fn law_control_in_range(control: KnownCameraControl, value: i8)
    ensures
        device::exposure_control(control, value).in_range(),
{
}

/// A resolution is listed exactly when some frame of the encoding has it, and
/// its frame rates are those of the last such frame.
pub proof fn law_rates_by_resolution(
    frames: Seq<FrameDescription>,
    format: FrameFormat,
    resolution: Resolution,
)
    ensures
        descriptor::rates_by_resolution(frames, format).contains_key(resolution) <==> exists|k: int|
            0 <= k < frames.len() && #[trigger] frames[k].offers(format) && frames[k].resolution()
                == resolution,
        forall|k: int|
            0 <= k < frames.len() && #[trigger] frames[k].offers(format) && frames[k].resolution()
                == resolution && (forall|j: int|
                k < j < frames.len() && #[trigger] frames[j].offers(format)
                    ==> frames[j].resolution() != resolution)
                ==> descriptor::rates_by_resolution(frames, format)[resolution]
                == frames[k].rates(),
    decreases frames.len(),
{
    if frames.len() > 0 {
        let earlier = frames.drop_last();
        let last = frames.len() - 1;
        law_rates_by_resolution(earlier, format, resolution);
        assert(forall|k: int| 0 <= k < last ==> #[trigger] frames[k] == earlier[k]);
        let table = descriptor::rates_by_resolution(frames, format);
        if table.contains_key(resolution) {
            if frames[last].offers(format) && frames[last].resolution() == resolution {
            } else {
                let k = choose|k: int|
                    0 <= k < earlier.len() && #[trigger] earlier[k].offers(format)
                        && earlier[k].resolution() == resolution;
                assert(frames[k].offers(format));
            }
        }
        if exists|k: int|
            0 <= k < frames.len() && #[trigger] frames[k].offers(format) && frames[k].resolution()
                == resolution {
            let k = choose|k: int|
                0 <= k < frames.len() && #[trigger] frames[k].offers(format)
                    && frames[k].resolution() == resolution;
            if k < last {
                assert(earlier[k].offers(format));
            }
        }
        assert forall|k: int|
            0 <= k < frames.len() && #[trigger] frames[k].offers(format) && frames[k].resolution()
                == resolution && (forall|j: int|
                k < j < frames.len() && #[trigger] frames[j].offers(format)
                    ==> frames[j].resolution() != resolution) implies table[resolution]
            == frames[k].rates() by {
            if k < last {
                assert(earlier[k].offers(format));
                assert forall|j: int|
                    k < j < earlier.len() && #[trigger] earlier[j].offers(
                        format,
                    ) implies earlier[j].resolution() != resolution by {
                    assert(frames[j].offers(format));
                }
                if frames[last].offers(format) {
                    assert(frames[last].resolution() != resolution);
                }
            }
        }
    }
}

/// An encoding is offered exactly when it has a resolution: the list of
/// encodings and the lists of resolutions agree.
pub proof fn law_encodings_have_resolutions(frames: Seq<FrameDescription>, format: FrameFormat)
    ensures
        descriptor::offered(frames, format) <==> exists|resolution: Resolution| #[trigger]
            descriptor::rates_by_resolution(frames, format).contains_key(resolution),
{
    if descriptor::offered(frames, format) {
        let k = choose|k: int| 0 <= k < frames.len() && #[trigger] frames[k].offers(format);
        law_rates_by_resolution(frames, format, frames[k].resolution());
    }
    if exists|resolution: Resolution| #[trigger]
        descriptor::rates_by_resolution(frames, format).contains_key(resolution) {
        let resolution = choose|resolution: Resolution| #[trigger]
            descriptor::rates_by_resolution(frames, format).contains_key(resolution);
        law_rates_by_resolution(frames, format, resolution);
    }
}

/// A frame rate is the number of times that the interval, in whole
/// milliseconds, fits into a second; so it is at most 1000.
pub proof fn law_frame_rate(nanos: u128)
    requires
        nanos >= 1_000_000,
    ensures
        descriptor::frame_rate(nanos) <= 1000,
        descriptor::frame_rate(nanos) * descriptor::whole_millis(nanos) <= 1000,
        1000 < (descriptor::frame_rate(nanos) + 1) * descriptor::whole_millis(nanos),
{
    let millis = descriptor::whole_millis(nanos);
    let rate = 1000u128 / millis;
    assert(millis >= 1);
    assert(rate <= 1000 && rate * millis <= 1000 && 1000 < (rate + 1) * millis) by (nonlinear_arith)
        requires
            millis >= 1,
            rate == 1000u128 / millis,
    ;
}

} // verus!
