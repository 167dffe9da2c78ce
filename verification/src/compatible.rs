//! Which formats and resolutions a device can stream, as lists to choose from.

use vstd::prelude::*;

use crate::descriptor;
use crate::descriptor::{FormatDescription, FrameDescription};
use crate::rates_table::ResolutionRates;
use crate::types::{FrameFormat, Resolution};

verus! {

/// The frames of all formats, in the order in which the device lists them.
fn listed_frames(formats: &Vec<FormatDescription>) -> (frames: Vec<&FrameDescription>)
    ensures
        frames@.len() == descriptor::all_frames(formats@).len(),
        forall|k: int|
            0 <= k < frames@.len() ==> *(#[trigger] frames@[k]) == descriptor::all_frames(formats@)[k],
{
    let mut frames: Vec<&FrameDescription> = Vec::new();
    let ghost plain = |frame: &FrameDescription| *frame;
    assert(frames@.map_values(plain) =~= descriptor::all_frames(formats@.take(0)));
    for i in 0..formats.len()
        invariant
            plain == (|frame: &FrameDescription| *frame),
            frames@.map_values(plain) == descriptor::all_frames(formats@.take(i as int)),
    {
        let ghost before = descriptor::all_frames(formats@.take(i as int));
        let format = &formats[i];
        assert(before + format.frames@.take(0) =~= before);
        for j in 0..format.frames.len()
            invariant
                plain == (|frame: &FrameDescription| *frame),
                frames@.map_values(plain) == before + format.frames@.take(j as int),
        {
            let ghost so_far = frames@;
            frames.push(&format.frames[j]);
            assert(frames@.map_values(plain) =~= so_far.map_values(plain).push(format.frames@[j as int]));
            assert(before + format.frames@.take(j + 1) =~= (before + format.frames@.take(
                j as int,
            )).push(format.frames@[j as int]));
        }
        assert(format.frames@.take(format.frames@.len() as int) =~= format.frames@);
        assert(formats@.take(i + 1).drop_last() =~= formats@.take(i as int));
        assert(formats@.take(i + 1).last() == formats@[i as int]);
    }
    proof {
        assert(formats@.take(formats@.len() as int) =~= formats@);
        let all = descriptor::all_frames(formats@);
        assert(frames@.map_values(plain).len() == all.len());
        assert forall|k: int| 0 <= k < all.len() implies *(#[trigger] frames@[k]) == all[k] by {
            assert(frames@.map_values(plain)[k] == all[k]);
        }
    }
    frames
}

/// Tests that every frame of the encoding has a frame rate for each of its
/// intervals.
pub fn check_rates_known(formats: &Vec<FormatDescription>, fourcc: FrameFormat) -> (b: bool)
    ensures
        b == descriptor::rates_known(descriptor::all_frames(formats@), fourcc),
{
    let ghost all = descriptor::all_frames(formats@);
    let frames = listed_frames(formats);
    for k in 0..frames.len()
        invariant
            frames@.len() == all.len(),
            forall|j: int| 0 <= j < all.len() ==> *(#[trigger] frames@[j]) == all[j],
            forall|j: int|
                0 <= j < k && #[trigger] all[j].offers(fourcc) ==> all[j].has_rates(),
            all == descriptor::all_frames(formats@),
    {
        let frame = frames[k];
        assert(*frame == all[k as int]);
        if let Some(format) = frame.subtype.frame_format() {
            if format == fourcc && !frame.check_rates() {
                assert(all[k as int].offers(fourcc));
                return false;
            }
        }
    }
    true
}

/// The resolutions that come in the encoding, each with its frame rates. Of
/// two frames with one resolution the later counts.
pub(crate) fn list_by_resolution(formats: &Vec<FormatDescription>, fourcc: FrameFormat) -> (table:
    ResolutionRates)
    requires
        descriptor::rates_known(descriptor::all_frames(formats@), fourcc),
    ensures
        table@ == descriptor::rates_by_resolution(
            descriptor::all_frames(formats@),
            fourcc,
        ),
{
    let ghost all = descriptor::all_frames(formats@);
    let frames = listed_frames(formats);
    let mut table = ResolutionRates::new();
    for k in 0..frames.len()
        invariant
            frames@.len() == all.len(),
            forall|j: int| 0 <= j < all.len() ==> *(#[trigger] frames@[j]) == all[j],
            descriptor::rates_known(all, fourcc),
            table@ == descriptor::rates_by_resolution(all.take(k as int), fourcc),
    {
        let frame = frames[k];
        assert(*frame == all[k as int]);
        assert(all.take(k + 1).drop_last() =~= all.take(k as int));
        assert(all.take(k + 1).last() == all[k as int]);
        match frame.subtype.frame_format() {
            Some(format) => {
                if format == fourcc {
                    assert(all[k as int].offers(fourcc));
                    let resolution = Resolution::new(frame.width as u32, frame.height as u32);
                    table.insert(resolution, frame.compute_rates());
                }
            },
            None => {},
        }
    }
    assert(all.take(all.len() as int) =~= all);
    table
}

/// The encodings that the device offers, each once, in their order.
pub(crate) fn list_fourcc(formats: &Vec<FormatDescription>) -> (listed: Vec<FrameFormat>)
    ensures
        forall|i: int, j: int|
            0 <= i < j < listed@.len() ==> (#[trigger] listed@[i]).rank() < (
            #[trigger] listed@[j]).rank(),
        forall|format: FrameFormat| #[trigger]
            listed@.contains(format) <==> descriptor::offered(
                descriptor::all_frames(formats@),
                format,
            ),
{
    let ghost all = descriptor::all_frames(formats@);
    let frames = listed_frames(formats);
    let mut mjpeg = false;
    let mut yuyv = false;
    for k in 0..frames.len()
        invariant
            frames@.len() == all.len(),
            forall|j: int| 0 <= j < all.len() ==> *(#[trigger] frames@[j]) == all[j],
            mjpeg == descriptor::offered(all.take(k as int), FrameFormat::MJPEG),
            yuyv == descriptor::offered(all.take(k as int), FrameFormat::YUYV),
    {
        let frame = frames[k];
        proof {
            lemma_offered_next(all, k as int, FrameFormat::MJPEG);
            lemma_offered_next(all, k as int, FrameFormat::YUYV);
        }
        match frame.subtype.frame_format() {
            Some(FrameFormat::MJPEG) => mjpeg = true,
            Some(FrameFormat::YUYV) => yuyv = true,
            None => {},
        }
    }
    assert(all.take(all.len() as int) =~= all);
    let mut listed: Vec<FrameFormat> = Vec::new();
    if mjpeg {
        listed.push(FrameFormat::MJPEG);
    }
    if yuyv {
        listed.push(FrameFormat::YUYV);
    }
    proof {
        assert(mjpeg ==> listed@[0] == FrameFormat::MJPEG);
        assert(yuyv ==> listed@[listed@.len() - 1] == FrameFormat::YUYV);
        assert forall|format: FrameFormat| #[trigger]
            listed@.contains(format) <==> descriptor::offered(all, format) by {
            match format {
                FrameFormat::MJPEG => {},
                FrameFormat::YUYV => {},
            }
        }
    }
    listed
}

/// One more frame adds its own encoding to what is offered.
proof fn lemma_offered_next(frames: Seq<FrameDescription>, k: int, format: FrameFormat)
    requires
        0 <= k < frames.len(),
    ensures
        descriptor::offered(frames.take(k + 1), format) <==> descriptor::offered(
            frames.take(k),
            format,
        ) || frames[k].offers(format),
{
    let longer = frames.take(k + 1);
    let shorter = frames.take(k);
    if descriptor::offered(shorter, format) {
        let j = choose|j: int| 0 <= j < shorter.len() && #[trigger] shorter[j].offers(format);
        assert(longer[j].offers(format));
    }
    if frames[k].offers(format) {
        assert(longer[k].offers(format));
    }
    if descriptor::offered(longer, format) {
        let j = choose|j: int| 0 <= j < longer.len() && #[trigger] longer[j].offers(format);
        if j < k {
            assert(shorter[j].offers(format));
        }
    }
}

} // verus!
