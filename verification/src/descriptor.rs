//! What a device says it can stream, and the lists made from that.

use vstd::prelude::*;

use crate::types::{FrameFormat, Resolution};

verus! {

/// The kinds of video streaming descriptors.
#[derive(Clone, Copy, Debug, PartialEq, Eq, Structural)]
pub enum DescriptionSubtype {
    Undefined,
    InputHeader,
    OutputHeader,
    StillImageFrame,
    FormatUncompressed,
    FrameUncompressed,
    FormatMJPEG,
    FrameMJPEG,
    FormatMPEG2TS,
    FormatDV,
    ColorFormat,
    FormatFrameBased,
    FrameFrameBased,
    FormatStreamBased,
}

/// One frame size that a device offers.
#[derive(Debug)]
pub struct FrameDescription {
    pub subtype: DescriptionSubtype,
    pub width: u16,
    pub height: u16,
    /// Durations between captures, in nanoseconds.
    pub intervals: Vec<u128>,
}

/// One format that a device offers, with its frame sizes.
#[derive(Debug)]
pub struct FormatDescription {
    pub frames: Vec<FrameDescription>,
}

/// Nanoseconds in a millisecond.
pub const NANOS_PER_MILLI: u128 = 1_000_000;

/// The whole milliseconds of an interval.
pub open spec fn whole_millis(nanos: u128) -> u128 {
    nanos / 1_000_000
}

/// Frames per second at an interval, reckoned in whole milliseconds.
pub open spec fn frame_rate(nanos: u128) -> u32 {
    (1000u128 / whole_millis(nanos)) as u32
}

impl DescriptionSubtype {
    /// The encoding that frames of this kind come in, if it is a known one.
    pub open spec fn encoding(self) -> Option<FrameFormat> {
        match self {
            DescriptionSubtype::FormatMJPEG | DescriptionSubtype::FrameMJPEG => Some(
                FrameFormat::MJPEG,
            ),
            DescriptionSubtype::FormatUncompressed | DescriptionSubtype::FrameUncompressed => Some(
                FrameFormat::YUYV,
            ),
            _ => None,
        }
    }

    /// The encoding that frames of this kind come in, if it is a known one.
    pub fn frame_format(&self) -> (format: Option<FrameFormat>)
        ensures
            format == self.encoding(),
            format == Some(FrameFormat::MJPEG) <==> self is FormatMJPEG || self is FrameMJPEG,
            format == Some(FrameFormat::YUYV) <==> self is FormatUncompressed
                || self is FrameUncompressed,
    {
        match self {
            DescriptionSubtype::FormatMJPEG | DescriptionSubtype::FrameMJPEG => Some(
                FrameFormat::MJPEG,
            ),
            DescriptionSubtype::FormatUncompressed | DescriptionSubtype::FrameUncompressed => Some(
                FrameFormat::YUYV,
            ),
            _ => None,
        }
    }
}

impl FrameDescription {
    /// The frame comes in this encoding.
    pub open spec fn offers(self, format: FrameFormat) -> bool {
        self.subtype.encoding() == Some(format)
    }

    pub open spec fn resolution(self) -> Resolution {
        Resolution { width: self.width as u32, height: self.height as u32 }
    }

    /// The frame rates, one for each interval.
    pub open spec fn rates(self) -> Seq<u32> {
        self.intervals@.map_values(|nanos: u128| frame_rate(nanos))
    }

    /// No interval is shorter than a millisecond, so that every interval has a
    /// frame rate.
    pub open spec fn has_rates(self) -> bool {
        forall|k: int| 0 <= k < self.intervals@.len() ==> #[trigger] self.intervals@[k] >= 1_000_000
    }

    /// Tests that no interval is shorter than a millisecond.
    pub(crate) fn check_rates(&self) -> (b: bool)
        ensures
            b == self.has_rates(),
    {
        for k in 0..self.intervals.len()
            invariant
                forall|j: int| 0 <= j < k ==> #[trigger] self.intervals@[j] >= 1_000_000,
        {
            if self.intervals[k] < NANOS_PER_MILLI {
                return false;
            }
        }
        true
    }

    /// The frame rates, one for each interval.
    pub(crate) fn compute_rates(&self) -> (rates: Vec<u32>)
        requires
            self.has_rates(),
        ensures
            rates@ == self.rates(),
            rates@.len() == self.intervals@.len(),
            forall|k: int|
                0 <= k < self.intervals@.len() ==> #[trigger] rates@[k] == 1000int / (
                self.intervals@[k] as int / 1_000_000),
    {
        let mut rates: Vec<u32> = Vec::new();
        for k in 0..self.intervals.len()
            invariant
                self.has_rates(),
                rates@.len() == k,
                forall|j: int| 0 <= j < k ==> #[trigger] rates@[j] == frame_rate(self.intervals@[j]),
                forall|j: int|
                    0 <= j < k ==> #[trigger] rates@[j] == 1000int / (self.intervals@[j] as int
                        / 1_000_000),
        {
            let millis: u128 = self.intervals[k] / NANOS_PER_MILLI;
            assert(millis >= 1);
            assert(1000u128 / millis <= 1000) by (nonlinear_arith)
                requires
                    millis >= 1,
            ;
            rates.push((1000 / millis) as u32);
        }
        assert(rates@ =~= self.rates());
        rates
    }
}

/// The frames of all formats, in the order in which the device lists them.
pub open spec fn all_frames(formats: Seq<FormatDescription>) -> Seq<FrameDescription>
    decreases formats.len(),
{
    if formats.len() == 0 {
        Seq::empty()
    } else {
        all_frames(formats.drop_last()) + formats.last().frames@
    }
}

/// Some frame comes in this encoding.
pub open spec fn offered(frames: Seq<FrameDescription>, format: FrameFormat) -> bool {
    exists|k: int| 0 <= k < frames.len() && #[trigger] frames[k].offers(format)
}

/// Every frame of the encoding has a frame rate for each of its intervals.
pub open spec fn rates_known(frames: Seq<FrameDescription>, format: FrameFormat) -> bool {
    forall|k: int|
        0 <= k < frames.len() && #[trigger] frames[k].offers(format) ==> frames[k].has_rates()
}

/// The frame rates of each resolution that comes in the encoding. Of two
/// frames with one resolution the later counts.
pub open spec fn rates_by_resolution(
    frames: Seq<FrameDescription>,
    format: FrameFormat,
) -> Map<Resolution, Seq<u32>>
    decreases frames.len(),
{
    if frames.len() == 0 {
        Map::empty()
    } else {
        let earlier = rates_by_resolution(frames.drop_last(), format);
        if frames.last().offers(format) {
            earlier.insert(frames.last().resolution(), frames.last().rates())
        } else {
            earlier
        }
    }
}

} // verus!
