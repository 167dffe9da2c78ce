//! What the texts of the library say.

use vstd::prelude::*;

use crate::channel;
use crate::device;
use crate::error;
use crate::error::{NokhwaError, NokhwaErrorView};
use crate::picture;
use crate::text;
use crate::types::{
    ApiBackend, CameraFormat, CameraInfo, FrameFormat, KnownCameraControl, Resolution,
};

verus! {

/// The number that a numeral in base ten stands for.
pub open spec fn numeral_value(numeral: Seq<char>) -> int
    decreases numeral.len(),
{
    if numeral.len() == 0 {
        0
    } else {
        10 * numeral_value(numeral.drop_last()) + (numeral.last() as int - '0' as int)
    }
}

/// The decimal text of a number consists of digits, does not begin with a
/// needless zero, and stands for that number.
pub proof fn law_decimal(n: nat)
    ensures
        numeral_value(text::decimal(n)) == n,
        text::decimal(n).len() > 0,
        forall|k: int|
            0 <= k < text::decimal(n).len() ==> '0' <= #[trigger] text::decimal(n)[k] <= '9',
        n > 0 ==> text::decimal(n)[0] != '0',
        n == 0 ==> text::decimal(n).len() == 1,
    decreases n,
{
    let digit = (n % 10 + '0' as nat) as char;
    assert(digit as nat == n % 10 + '0' as nat);
    if n < 10 {
        assert(text::decimal(n).drop_last() =~= Seq::empty());
        assert(numeral_value(text::decimal(n).drop_last()) == 0);
    } else {
        law_decimal(n / 10);
        assert(text::decimal(n).drop_last() =~= text::decimal(n / 10));
        assert(text::decimal(n)[0] == text::decimal(n / 10)[0]);
    }
}

/// Two numbers have the same decimal text only if they are the same.
pub proof fn law_decimal_tells_numbers_apart(m: nat, n: nat)
    requires
        text::decimal(m) == text::decimal(n),
    ensures
        m == n,
{
    law_decimal(m);
    law_decimal(n);
}

/// A format is written as its width, its height, its frames per second and its
/// encoding.
pub proof fn law_format_text(format: CameraFormat)
    ensures
        format.text_spec() == text::decimal(format.resolution.width as nat) + "x"@ + text::decimal(
            format.resolution.height as nat,
        ) + "@"@ + text::decimal(format.frame_rate as nat) + "FPS, "@ + match format.format {
            FrameFormat::MJPEG => "MJPEG"@,
            FrameFormat::YUYV => "YUYV"@,
        } + " Format"@,
        format.resolution.text_spec() == text::decimal(format.resolution.width as nat) + "x"@
            + text::decimal(format.resolution.height as nat),
{
}

/// Encodings stand in the order of their names.
pub proof fn law_encodings()
    ensures
        FrameFormat::MJPEG.rank() < FrameFormat::YUYV.rank(),
        FrameFormat::MJPEG.name_spec() == "MJPEG"@,
        FrameFormat::YUYV.name_spec() == "YUYV"@,
{
}

/// Without a choice the format is 640x480 at 15 frames per second, MJPEG.
pub proof fn law_default_format()
    ensures
        CameraFormat::default_spec() == (CameraFormat {
            resolution: Resolution { width: 640, height: 480 },
            format: FrameFormat::MJPEG,
            frame_rate: 15,
        }),
{
}

/// The names of the capture APIs.
pub proof fn law_backend_names()
    ensures
        ApiBackend::AVFoundation.name_spec() == "AVFoundation"@,
        ApiBackend::MediaFoundation.name_spec() == "MediaFoundation"@,
        ApiBackend::OpenCv.name_spec() == "OpenCv"@,
        ApiBackend::UniversalVideoClass.name_spec() == "UniversalVideoClass"@,
        ApiBackend::Video4Linux.name_spec() == "Video4Linux"@,
{
}

/// The names of the controls.
pub proof fn law_control_names()
    ensures
        KnownCameraControl::Brightness.name_spec() == "Brightness"@,
        KnownCameraControl::Contrast.name_spec() == "Contrast"@,
        KnownCameraControl::Hue.name_spec() == "Hue"@,
        KnownCameraControl::Saturation.name_spec() == "Saturation"@,
        KnownCameraControl::Sharpness.name_spec() == "Sharpness"@,
        KnownCameraControl::Gamma.name_spec() == "Gamma"@,
        KnownCameraControl::WhiteBalance.name_spec() == "WhiteBalance"@,
        KnownCameraControl::BacklightComp.name_spec() == "BacklightComp"@,
        KnownCameraControl::Gain.name_spec() == "Gain"@,
        KnownCameraControl::Pan.name_spec() == "Pan"@,
        KnownCameraControl::Tilt.name_spec() == "Tilt"@,
        KnownCameraControl::Zoom.name_spec() == "Zoom"@,
        KnownCameraControl::Exposure.name_spec() == "Exposure"@,
        KnownCameraControl::Iris.name_spec() == "Iris"@,
        KnownCameraControl::Focus.name_spec() == "Focus"@,
{
}

/// Every report says what failed, on what, and why, in this order.
pub proof fn law_messages(what: Seq<char>, value: Seq<char>, why: Seq<char>)
    ensures
        (NokhwaErrorView::StructureError { structure: what, error: why }).message()
            == "Could not generate required structure "@ + what + ": "@ + why,
        NokhwaErrorView::OpenDeviceError(what, why).message() == "Could not open device "@ + what
            + ": "@ + why,
        (NokhwaErrorView::GetPropertyError { property: what, error: why }).message()
            == "Could not get device property "@ + what + ": "@ + why,
        (NokhwaErrorView::SetPropertyError { property: what, value, error: why }).message()
            == "Could not set device property "@ + what + " with value "@ + value + ": "@ + why,
        NokhwaErrorView::OpenStreamError(why).message() == "Could not open device stream: "@ + why,
        NokhwaErrorView::ReadFrameError(why).message() == "Could not capture frame: "@ + why,
        forall|backend: ApiBackend| #[trigger]
            NokhwaErrorView::UnsupportedOperationError(backend).message()
                == "This operation is not supported by backend "@ + backend.name_spec() + "."@,
{
}

/// The errors that are reported in fixed words.
pub proof fn law_fixed_reports(control: KnownCameraControl, why: Seq<char>)
    ensures
        device::closed_stream_error() == NokhwaErrorView::ReadFrameError(
            "Please call `open_stream()` first!"@,
        ),
        picture::short_frame_error() == NokhwaErrorView::ReadFrameError(
            "ImageBuffer too small! This is probably a bug, please report it!"@,
        ),
        channel::closed_queue_error() == NokhwaErrorView::ReadFrameError(
            "All sender dropped: "@ + "receiving on a closed channel"@,
        ),
        device::unsupported_error() == NokhwaErrorView::UnsupportedOperationError(
            ApiBackend::UniversalVideoClass,
        ),
        device::unreadable_error(control, why) == (NokhwaErrorView::GetPropertyError {
            property: control.name_spec(),
            error: why,
        }),
{
}

/// An error is seen as what it is: its kind and all its texts.
pub proof fn law_errors_are_seen_whole(error: NokhwaError)
    ensures
        error matches NokhwaError::StructureError { structure, error: why } ==> error@ == (
        NokhwaErrorView::StructureError { structure: structure@, error: why@ }),
        error matches NokhwaError::OpenDeviceError(device, why) ==> error@
            == NokhwaErrorView::OpenDeviceError(device@, why@),
        error matches NokhwaError::GetPropertyError { property, error: why } ==> error@ == (
        NokhwaErrorView::GetPropertyError { property: property@, error: why@ }),
        error matches NokhwaError::SetPropertyError { property, value, error: why } ==> error@ == (
        NokhwaErrorView::SetPropertyError { property: property@, value: value@, error: why@ }),
        error matches NokhwaError::OpenStreamError(why) ==> error@
            == NokhwaErrorView::OpenStreamError(why@),
        error matches NokhwaError::ReadFrameError(why) ==> error@
            == NokhwaErrorView::ReadFrameError(why@),
        error matches NokhwaError::UnsupportedOperationError(backend) ==> error@
            == NokhwaErrorView::UnsupportedOperationError(backend),
{
}

/// A result is seen with its value as it is, and a failure with its texts.
pub proof fn law_results_are_seen_whole<T>(
    r: Result<T, NokhwaError>,
    answer: Result<T, String>,
)
    ensures
        r matches Ok(value) ==> error::outcome(r) == Ok::<T, NokhwaErrorView>(value),
        r matches Err(failure) ==> error::outcome(r) == Err::<T, NokhwaErrorView>(failure@),
        answer matches Ok(value) ==> error::reply(answer) == Ok::<T, Seq<char>>(value),
        answer matches Err(why) ==> error::reply(answer) == Err::<T, Seq<char>>(why@),
{
}

/// The identity of a camera is seen whole.
pub proof fn law_identity_is_seen_whole(info: CameraInfo)
    ensures
        info@.human_name == info.human_name@,
        info@.description == info.description@,
        info@.misc == info.misc@,
        info@.index == info.index,
{
}

} // verus!
