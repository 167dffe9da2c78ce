//! The vocabulary of a capture backend: resolutions, formats, controls and
//! the identity of a camera.

use vstd::prelude::*;

use crate::error;
use crate::error::{NokhwaError, NokhwaErrorView};
use crate::text;
use crate::text::decimal_text;

verus! {

/// Which capture API a camera is driven through.
#[derive(Clone, Copy, Debug, PartialEq, Eq, Structural)]
pub enum ApiBackend {
    AVFoundation,
    MediaFoundation,
    OpenCv,
    UniversalVideoClass,
    Video4Linux,
}

impl ApiBackend {
    pub open spec fn name_spec(self) -> Seq<char> {
        match self {
            ApiBackend::AVFoundation => "AVFoundation"@,
            ApiBackend::MediaFoundation => "MediaFoundation"@,
            ApiBackend::OpenCv => "OpenCv"@,
            ApiBackend::UniversalVideoClass => "UniversalVideoClass"@,
            ApiBackend::Video4Linux => "Video4Linux"@,
        }
    }

    /// The name of the API.
    pub fn name(&self) -> (name: String)
        ensures
            name@ == self.name_spec(),
    {
        match self {
            ApiBackend::AVFoundation => "AVFoundation".to_owned(),
            ApiBackend::MediaFoundation => "MediaFoundation".to_owned(),
            ApiBackend::OpenCv => "OpenCv".to_owned(),
            ApiBackend::UniversalVideoClass => "UniversalVideoClass".to_owned(),
            ApiBackend::Video4Linux => "Video4Linux".to_owned(),
        }
    }
}

/// The pixel encodings a stream can be requested in.
#[derive(Clone, Copy, Debug, PartialEq, Eq, Structural, PartialOrd, Ord, Hash)]
pub enum FrameFormat {
    MJPEG,
    YUYV,
}

impl FrameFormat {
    /// The position of the encoding in the order of encodings.
    pub open spec fn rank(self) -> nat {
        match self {
            FrameFormat::MJPEG => 0,
            FrameFormat::YUYV => 1,
        }
    }

    pub open spec fn name_spec(self) -> Seq<char> {
        match self {
            FrameFormat::MJPEG => "MJPEG"@,
            FrameFormat::YUYV => "YUYV"@,
        }
    }

    /// The name of the encoding.
    pub fn name(&self) -> (name: String)
        ensures
            name@ == self.name_spec(),
    {
        match self {
            FrameFormat::MJPEG => "MJPEG".to_owned(),
            FrameFormat::YUYV => "YUYV".to_owned(),
        }
    }
}

/// Width and height of a frame, in pixels.
#[derive(Clone, Copy, Debug, PartialEq, Eq, Structural, PartialOrd, Ord, Hash)]
pub struct Resolution {
    pub width: u32,
    pub height: u32,
}

impl Resolution {
    pub fn new(width: u32, height: u32) -> (resolution: Resolution)
        ensures
            resolution == (Resolution { width, height }),
    {
        Resolution { width, height }
    }

    /// `<width>x<height>`
    pub open spec fn text_spec(self) -> Seq<char> {
        text::decimal(self.width as nat) + "x"@ + text::decimal(self.height as nat)
    }

    /// The resolution as `<width>x<height>`.
    pub fn text(&self) -> (text: String)
        ensures
            text@ == self.text_spec(),
    {
        decimal_text(self.width as u64).concat("x").concat(
            decimal_text(self.height as u64).as_str(),
        )
    }
}

/// Everything a stream is opened with: resolution, encoding, frames per second.
#[derive(Clone, Copy, Debug, PartialEq, Eq, Structural, Hash)]
pub struct CameraFormat {
    pub resolution: Resolution,
    pub format: FrameFormat,
    pub frame_rate: u32,
}

impl Default for CameraFormat {
    /// 640x480 at 15 frames per second, MJPEG.
    fn default() -> (format: CameraFormat)
        ensures
            format == CameraFormat::default_spec(),
            format.resolution.width == 640,
            format.resolution.height == 480,
            format.frame_rate == 15,
            format.format == FrameFormat::MJPEG,
    {
        CameraFormat {
            resolution: Resolution { width: 640, height: 480 },
            format: FrameFormat::MJPEG,
            frame_rate: 15,
        }
    }
}

impl CameraFormat {
    /// 640x480 at 15 frames per second, MJPEG.
    pub open spec fn default_spec() -> CameraFormat {
        CameraFormat {
            resolution: Resolution { width: 640, height: 480 },
            format: FrameFormat::MJPEG,
            frame_rate: 15,
        }
    }

    pub fn new_from(width: u32, height: u32, format: FrameFormat, frame_rate: u32) -> (r: CameraFormat)
        ensures
            r == (CameraFormat { resolution: Resolution { width, height }, format, frame_rate }),
    {
        CameraFormat { resolution: Resolution::new(width, height), format, frame_rate }
    }

    pub fn set_resolution(&mut self, resolution: Resolution)
        ensures
            *final(self) == (CameraFormat { resolution, ..*old(self) }),
    {
        self.resolution = resolution;
    }

    pub fn set_frame_rate(&mut self, frame_rate: u32)
        ensures
            *final(self) == (CameraFormat { frame_rate, ..*old(self) }),
    {
        self.frame_rate = frame_rate;
    }

    pub fn set_format(&mut self, format: FrameFormat)
        ensures
            *final(self) == (CameraFormat { format, ..*old(self) }),
    {
        self.format = format;
    }

    /// `<resolution>@<frame rate>FPS, <encoding> Format`
    pub open spec fn text_spec(self) -> Seq<char> {
        self.resolution.text_spec() + "@"@ + text::decimal(self.frame_rate as nat) + "FPS, "@
            + self.format.name_spec() + " Format"@
    }

    /// The format as `<resolution>@<frame rate>FPS, <encoding> Format`.
    pub fn text(&self) -> (text: String)
        ensures
            text@ == self.text_spec(),
    {
        self.resolution.text().concat("@").concat(
            decimal_text(self.frame_rate as u64).as_str(),
        ).concat("FPS, ").concat(self.format.name().as_str()).concat(" Format")
    }
}

/// What a stream is requested from the device with.
#[derive(Clone, Copy, Debug, PartialEq, Eq, Structural)]
pub struct StreamFormat {
    pub width: u32,
    pub height: u32,
    pub fps: u32,
    pub format: FrameFormat,
}

impl StreamFormat {
    /// The request that a camera format stands for.
    pub open spec fn of(format: CameraFormat) -> StreamFormat {
        StreamFormat {
            width: format.resolution.width,
            height: format.resolution.height,
            fps: format.frame_rate,
            format: format.format,
        }
    }
}

/// The identity of a camera as shown to a user.
#[derive(Debug)]
pub struct CameraInfo {
    pub human_name: String,
    pub description: String,
    pub misc: String,
    pub index: usize,
}

/// The texts and the index of a [`CameraInfo`].
#[verifier::ext_equal]
pub struct CameraInfoView {
    pub human_name: Seq<char>,
    pub description: Seq<char>,
    pub misc: Seq<char>,
    pub index: usize,
}

impl View for CameraInfo {
    type V = CameraInfoView;

    open spec fn view(&self) -> CameraInfoView {
        CameraInfoView {
            human_name: self.human_name@,
            description: self.description@,
            misc: self.misc@,
            index: self.index,
        }
    }
}

/// The controls that a camera may have.
#[derive(Clone, Copy, Debug, PartialEq, Eq, Structural, PartialOrd, Ord, Hash)]
pub enum KnownCameraControl {
    Brightness,
    Contrast,
    Hue,
    Saturation,
    Sharpness,
    Gamma,
    WhiteBalance,
    BacklightComp,
    Gain,
    Pan,
    Tilt,
    Zoom,
    Exposure,
    Iris,
    Focus,
}

impl KnownCameraControl {
    pub open spec fn name_spec(self) -> Seq<char> {
        match self {
            KnownCameraControl::Brightness => "Brightness"@,
            KnownCameraControl::Contrast => "Contrast"@,
            KnownCameraControl::Hue => "Hue"@,
            KnownCameraControl::Saturation => "Saturation"@,
            KnownCameraControl::Sharpness => "Sharpness"@,
            KnownCameraControl::Gamma => "Gamma"@,
            KnownCameraControl::WhiteBalance => "WhiteBalance"@,
            KnownCameraControl::BacklightComp => "BacklightComp"@,
            KnownCameraControl::Gain => "Gain"@,
            KnownCameraControl::Pan => "Pan"@,
            KnownCameraControl::Tilt => "Tilt"@,
            KnownCameraControl::Zoom => "Zoom"@,
            KnownCameraControl::Exposure => "Exposure"@,
            KnownCameraControl::Iris => "Iris"@,
            KnownCameraControl::Focus => "Focus"@,
        }
    }

    /// The name of the control.
    pub fn name(&self) -> (name: String)
        ensures
            name@ == self.name_spec(),
    {
        match self {
            KnownCameraControl::Brightness => "Brightness".to_owned(),
            KnownCameraControl::Contrast => "Contrast".to_owned(),
            KnownCameraControl::Hue => "Hue".to_owned(),
            KnownCameraControl::Saturation => "Saturation".to_owned(),
            KnownCameraControl::Sharpness => "Sharpness".to_owned(),
            KnownCameraControl::Gamma => "Gamma".to_owned(),
            KnownCameraControl::WhiteBalance => "WhiteBalance".to_owned(),
            KnownCameraControl::BacklightComp => "BacklightComp".to_owned(),
            KnownCameraControl::Gain => "Gain".to_owned(),
            KnownCameraControl::Pan => "Pan".to_owned(),
            KnownCameraControl::Tilt => "Tilt".to_owned(),
            KnownCameraControl::Zoom => "Zoom".to_owned(),
            KnownCameraControl::Exposure => "Exposure".to_owned(),
            KnownCameraControl::Iris => "Iris".to_owned(),
            KnownCameraControl::Focus => "Focus".to_owned(),
        }
    }
}

/// Whether a control is driven by the device or by the user.
#[derive(Clone, Copy, Debug, PartialEq, Eq, Structural)]
pub enum KnownCameraControlFlag {
    Automatic,
    Manual,
}

/// The state of one control: its range, its value and its default.
#[derive(Clone, Copy, Debug, PartialEq, Eq, Structural)]
pub struct CameraControl {
    pub control: KnownCameraControl,
    pub min: i32,
    pub max: i32,
    pub value: i32,
    pub step: i32,
    pub default: i32,
    pub flag: KnownCameraControlFlag,
    pub active: bool,
}

impl CameraControl {
    /// Value and default lie in the range.
    pub open spec fn in_range(self) -> bool {
        &&& self.min <= self.value <= self.max
        &&& self.min <= self.default <= self.max
    }

    /// A control state; refused when the value or the default lies outside
    /// `min..=max`.
    pub fn new(
        control: KnownCameraControl,
        min: i32,
        max: i32,
        value: i32,
        step: i32,
        default: i32,
        flag: KnownCameraControlFlag,
        active: bool,
    ) -> (r: Result<CameraControl, NokhwaError>)
        ensures
            ({
                let made = CameraControl { control, min, max, value, step, default, flag, active };
                error::outcome(r) == if made.in_range() {
                    Ok(made)
                } else {
                    Err(
                        NokhwaErrorView::StructureError {
                            structure: "CameraControl"@,
                            error: "Value out of range"@,
                        },
                    )
                }
            }),
            r is Ok <==> min <= value <= max && min <= default <= max,
            r matches Ok(made) ==> {
                &&& made.control == control
                &&& made.min == min
                &&& made.max == max
                &&& made.value == value
                &&& made.step == step
                &&& made.default == default
                &&& made.flag == flag
                &&& made.active == active
            },
            r matches Err(refusal) ==> refusal matches NokhwaError::StructureError {
                structure,
                error,
            } && structure@ == "CameraControl"@ && error@ == "Value out of range"@,
    {
        if value < min || value > max || default < min || default > max {
            return Err(
                NokhwaError::StructureError {
                    structure: "CameraControl".to_owned(),
                    error: "Value out of range".to_owned(),
                },
            );
        }
        Ok(CameraControl { control, min, max, value, step, default, flag, active })
    }
}

} // verus!
