//! The steps that lead from an index to an opened camera.
//!
//! Each step waits for one answer of the USB layer: a context, the list of
//! devices, the description of the chosen one.

use vstd::prelude::*;

use crate::channel;
use crate::device::UVCCaptureDevice;
use crate::error;
use crate::error::{NokhwaError, NokhwaErrorView};
use crate::text;
use crate::text::decimal_text;
use crate::types::{CameraFormat, CameraInfo, CameraInfoView, FrameFormat, Resolution};

verus! {

/// What a device says of itself.
#[derive(Debug)]
pub struct DeviceDescription {
    pub vendor_id: u16,
    pub product_id: u16,
    pub manufacturer: Option<String>,
    pub product: Option<String>,
}

/// A camera that is being created: no context has been made yet.
#[derive(Debug)]
pub struct AwaitingContext {
    pub index: usize,
    pub camera_format: CameraFormat,
}

/// A camera that is being created: the devices have not been listed yet.
#[derive(Debug)]
pub struct AwaitingDevices {
    pub index: usize,
    pub camera_format: CameraFormat,
}

/// A camera that is being created: the device at the index exists and has not
/// been described yet.
#[derive(Debug)]
pub struct AwaitingDescription {
    pub index: usize,
    pub camera_format: CameraFormat,
}

/// The error for a camera that cannot be created.
pub open spec fn open_error(index: usize, why: Seq<char>) -> NokhwaErrorView {
    NokhwaErrorView::OpenDeviceError(text::decimal(index as nat), why)
}

fn make_open_error(index: usize, why: String) -> (error: NokhwaError)
    ensures
        error@ == open_error(index, why@),
        error matches NokhwaError::OpenDeviceError(device, reason) && device@ == text::decimal(
            index as nat,
        ) && reason@ == why@,
{
    NokhwaError::OpenDeviceError(decimal_text(index as u64), why)
}

impl DeviceDescription {
    /// `<vendor>:<product>`
    pub open spec fn ids(self) -> Seq<char> {
        text::decimal(self.vendor_id as nat) + ":"@ + text::decimal(self.product_id as nat)
    }

    /// Manufacturer and product where both are known; the product where only
    /// that is; otherwise the ids, followed by the manufacturer if it is known.
    pub open spec fn name(self) -> Seq<char> {
        match (self.manufacturer, self.product) {
            (Some(manufacturer), Some(product)) => manufacturer@ + " "@ + product@,
            (None, Some(product)) => product@,
            (Some(manufacturer), None) => self.ids() + " "@ + manufacturer@,
            (None, None) => self.ids(),
        }
    }

    /// The identity of the camera, under the index by which it was chosen.
    pub open spec fn info(self, index: usize) -> CameraInfoView {
        CameraInfoView {
            human_name: self.name(),
            description: Seq::empty(),
            misc: self.ids(),
            index,
        }
    }

    fn ids_text(&self) -> (ids: String)
        ensures
            ids@ == self.ids(),
    {
        decimal_text(self.vendor_id as u64).concat(":").concat(
            decimal_text(self.product_id as u64).as_str(),
        )
    }

    /// The identity of the camera, under the index by which it was chosen.
    pub fn into_camera_info(self, index: usize) -> (info: CameraInfo)
        ensures
            info@ == self.info(index),
            info.index == index,
            info.description@ == Seq::<char>::empty(),
            info.misc@ == text::decimal(self.vendor_id as nat) + ":"@ + text::decimal(
                self.product_id as nat,
            ),
            info.human_name@ == match (self.manufacturer, self.product) {
                (Some(manufacturer), Some(product)) => manufacturer@ + " "@ + product@,
                (None, Some(product)) => product@,
                (Some(manufacturer), None) => text::decimal(self.vendor_id as nat) + ":"@
                    + text::decimal(self.product_id as nat) + " "@ + manufacturer@,
                (None, None) => text::decimal(self.vendor_id as nat) + ":"@ + text::decimal(
                    self.product_id as nat,
                ),
            },
    {
        let misc = self.ids_text();
        let ids = self.ids_text();
        let human_name = match (self.manufacturer, self.product) {
            (Some(manufacturer), Some(product)) => manufacturer.concat(" ").concat(
                product.as_str(),
            ),
            (_, Some(product)) => product,
            (Some(manufacturer), _) => ids.concat(" ").concat(manufacturer.as_str()),
            (_, _) => ids,
        };
        CameraInfo { human_name, description: String::new(), misc, index }
    }
}

impl<H, S> UVCCaptureDevice<H, S> {
    /// Begins to create the camera at an index of the device list. Without a
    /// format it gets the default, 640x480 at 15 frames per second, MJPEG.
    pub fn create(index: usize, cam_fmt: Option<CameraFormat>) -> (next: AwaitingContext)
        ensures
            next.index == index,
            next.camera_format == match cam_fmt {
                Some(format) => format,
                None => CameraFormat::default_spec(),
            },
            cam_fmt is None ==> next.camera_format == (CameraFormat {
                resolution: Resolution { width: 640, height: 480 },
                format: FrameFormat::MJPEG,
                frame_rate: 15,
            }),
    {
        let camera_format = match cam_fmt {
            Some(format) => format,
            None => CameraFormat::default(),
        };
        AwaitingContext { index, camera_format }
    }

    /// Begins to create the camera at an index of the device list, with the
    /// given settings.
    pub fn create_with(index: usize, width: u32, height: u32, fps: u32, fourcc: FrameFormat) -> (next:
        AwaitingContext)
        ensures
            next == (AwaitingContext {
                index,
                camera_format: CameraFormat {
                    resolution: Resolution { width, height },
                    format: fourcc,
                    frame_rate: fps,
                },
            }),
    {
        let camera_format = Some(CameraFormat::new_from(width, height, fourcc, fps));
        Self::create(index, camera_format)
    }
}

impl AwaitingContext {
    pub open spec fn context_answer(self, answer: Result<(), Seq<char>>) -> Result<
        AwaitingDevices,
        NokhwaErrorView,
    > {
        match answer {
            Ok(_) => Ok(AwaitingDevices { index: self.index, camera_format: self.camera_format }),
            Err(why) => Err(open_error(self.index, why)),
        }
    }

    /// Takes the answer to the making of a context.
    pub fn context_answered(self, answer: Result<(), String>) -> (r: Result<
        AwaitingDevices,
        NokhwaError,
    >)
        ensures
            error::outcome(r) == self.context_answer(error::reply(answer)),
            answer is Ok ==> (r matches Ok(next) && next.index == self.index && next.camera_format
                == self.camera_format),
            answer matches Err(why) ==> r matches Err(NokhwaError::OpenDeviceError(device, reason))
                && device@ == text::decimal(self.index as nat) && reason@ == why@,
    {
        match answer {
            Ok(_) => Ok(AwaitingDevices { index: self.index, camera_format: self.camera_format }),
            Err(why) => Err(make_open_error(self.index, why)),
        }
    }
}

impl AwaitingDevices {
    pub open spec fn devices_answer(self, answer: Result<usize, Seq<char>>) -> Result<
        AwaitingDescription,
        NokhwaErrorView,
    > {
        match answer {
            Ok(count) => if self.index < count {
                Ok(AwaitingDescription { index: self.index, camera_format: self.camera_format })
            } else {
                Err(open_error(self.index, "Not Found"@))
            },
            Err(why) => Err(open_error(self.index, why)),
        }
    }

    /// Takes the answer to the listing of the devices: how many there are.
    pub fn devices_answered(self, answer: Result<usize, String>) -> (r: Result<
        AwaitingDescription,
        NokhwaError,
    >)
        ensures
            error::outcome(r) == self.devices_answer(error::reply(answer)),
            answer matches Ok(count) ==> (r is Ok <==> self.index < count),
            r matches Ok(next) ==> answer is Ok && next.index == self.index && next.camera_format
                == self.camera_format,
            r matches Err(error) ==> error matches NokhwaError::OpenDeviceError(device, reason)
                && device@ == text::decimal(self.index as nat) && reason@ == match answer {
                Ok(count) => "Not Found"@,
                Err(why) => why@,
            },
    {
        match answer {
            Ok(count) => if self.index < count {
                Ok(AwaitingDescription { index: self.index, camera_format: self.camera_format })
            } else {
                Err(make_open_error(self.index, "Not Found".to_owned()))
            },
            Err(why) => Err(make_open_error(self.index, why)),
        }
    }
}

impl AwaitingDescription {
    /// Format and identity of the camera that is made.
    pub open spec fn description_answer(
        self,
        answer: Result<DeviceDescription, Seq<char>>,
    ) -> Result<(CameraFormat, CameraInfoView), NokhwaErrorView> {
        match answer {
            Ok(description) => Ok((self.camera_format, description.info(self.index))),
            Err(why) => Err(open_error(self.index, why)),
        }
    }

    /// Takes the answer to the question for the description of the device at
    /// the index, and makes the camera.
    pub fn description_answered<H, S>(self, answer: Result<DeviceDescription, String>) -> (r: Result<
        UVCCaptureDevice<H, S>,
        NokhwaError,
    >)
        ensures
            match self.description_answer(error::reply(answer)) {
                Ok((camera_format, camera_info)) => r matches Ok(device) && {
                    &&& device@.wf()
                    &&& device@.camera_format == camera_format
                    &&& device@.camera_info == camera_info
                    &&& device@.stream_handle is None
                    &&& device@.active_stream is None
                    &&& channel::put(device@.frame_sender) == Seq::<Seq<u8>>::empty()
                    &&& channel::copies(device@.frame_sender) == 0
                    &&& channel::taken(device@.frame_receiver) == Seq::<Vec<u8>>::empty()
                },
                Err(failure) => r matches Err(error) && error@ == failure,
            },
            answer matches Ok(description) ==> r matches Ok(device) && {
                &&& device@.camera_format == self.camera_format
                &&& device@.camera_info.index == self.index
                &&& device@.camera_info.description == Seq::<char>::empty()
                &&& device@.camera_info.misc == text::decimal(description.vendor_id as nat) + ":"@
                    + text::decimal(description.product_id as nat)
                &&& device@.camera_info.human_name == match (
                    description.manufacturer,
                    description.product,
                ) {
                    (Some(manufacturer), Some(product)) => manufacturer@ + " "@ + product@,
                    (None, Some(product)) => product@,
                    (Some(manufacturer), None) => device@.camera_info.misc + " "@ + manufacturer@,
                    (None, None) => device@.camera_info.misc,
                }
            },
            answer matches Err(why) ==> r matches Err(NokhwaError::OpenDeviceError(device, reason))
                && device@ == text::decimal(self.index as nat) && reason@ == why@,
    {
        match answer {
            Ok(description) => {
                let camera_info = description.into_camera_info(self.index);
                Ok(UVCCaptureDevice::with_closed_stream(self.camera_format, camera_info))
            },
            Err(why) => Err(make_open_error(self.index, why)),
        }
    }
}

} // verus!
