//! What the lists of encodings, resolutions and frame rates say of the formats
//! that a device lists.

use vstd::prelude::*;

use crate::descriptor;
use crate::descriptor::{DescriptionSubtype, FormatDescription, FrameDescription};
use crate::laws;
use crate::types::{FrameFormat, Resolution};

verus! {

/// A frame comes as MJPEG exactly when its descriptor is one of the two kinds
/// for MJPEG, and as YUYV exactly when it is one of the two kinds for
/// uncompressed video. Every other kind comes in no known encoding.
pub proof fn law_encoding_of_a_kind(subtype: DescriptionSubtype)
    ensures
        subtype.encoding() == Some(FrameFormat::MJPEG) <==> subtype is FormatMJPEG
            || subtype is FrameMJPEG,
        subtype.encoding() == Some(FrameFormat::YUYV) <==> subtype is FormatUncompressed
            || subtype is FrameUncompressed,
{
}

/// Where the frames of a format begin among all frames.
spec fn offset(formats: Seq<FormatDescription>, i: int) -> int {
    descriptor::all_frames(formats.take(i)).len() as int
}

proof fn lemma_offset_next(formats: Seq<FormatDescription>, i: int)
    requires
        0 <= i < formats.len(),
    ensures
        offset(formats, i + 1) == offset(formats, i) + formats[i].frames@.len(),
        descriptor::all_frames(formats.take(i + 1)) == descriptor::all_frames(formats.take(i))
            + formats[i].frames@,
{
    assert(formats.take(i + 1).drop_last() =~= formats.take(i));
}

proof fn lemma_offsets_grow(formats: Seq<FormatDescription>, i: int, n: int)
    requires
        0 <= i <= n <= formats.len(),
    ensures
        offset(formats, i) <= offset(formats, n),
        descriptor::all_frames(formats.take(i)).is_prefix_of(
            descriptor::all_frames(formats.take(n)),
        ),
    decreases n - i,
{
    if i < n {
        lemma_offsets_grow(formats, i, n - 1);
        lemma_offset_next(formats, n - 1);
    }
}

/// Every frame of every format stands among all frames.
proof fn lemma_frame_is_listed(formats: Seq<FormatDescription>, i: int, j: int)
    requires
        0 <= i < formats.len(),
        0 <= j < formats[i].frames@.len(),
    ensures
        0 <= offset(formats, i) + j < descriptor::all_frames(formats).len(),
        descriptor::all_frames(formats)[offset(formats, i) + j] == formats[i].frames@[j],
{
    lemma_offset_next(formats, i);
    lemma_offsets_grow(formats, i + 1, formats.len() as int);
    assert(formats.take(formats.len() as int) =~= formats);
    assert(descriptor::all_frames(formats.take(i + 1))[offset(formats, i) + j]
        == formats[i].frames@[j]);
}

/// Each of all frames is one of a format.
proof fn lemma_listed_is_a_frame(formats: Seq<FormatDescription>, n: int, p: int) -> (place: (
    int,
    int,
))
    requires
        0 <= n <= formats.len(),
        0 <= p < offset(formats, n),
    ensures
        0 <= place.0 < n,
        0 <= place.1 < formats[place.0].frames@.len(),
        p == offset(formats, place.0) + place.1,
    decreases n,
{
    if n == 0 {
        assert(formats.take(0) =~= Seq::empty());
        (0, 0)
    } else {
        lemma_offset_next(formats, n - 1);
        if p < offset(formats, n - 1) {
            lemma_listed_is_a_frame(formats, n - 1, p)
        } else {
            (n - 1, p - offset(formats, n - 1))
        }
    }
}

/// An encoding is listed exactly when some frame of some format is of a kind
/// that comes in it, wherever the device lists that frame.
pub proof fn law_offered_encodings(formats: Seq<FormatDescription>)
    ensures
        descriptor::offered(descriptor::all_frames(formats), FrameFormat::MJPEG) <==> exists|
            i: int,
            j: int,
        |
            0 <= i < formats.len() && 0 <= j < formats[i].frames@.len() && {
                let subtype = (#[trigger] formats[i].frames@[j]).subtype;
                subtype is FormatMJPEG || subtype is FrameMJPEG
            },
        descriptor::offered(descriptor::all_frames(formats), FrameFormat::YUYV) <==> exists|
            i: int,
            j: int,
        |
            0 <= i < formats.len() && 0 <= j < formats[i].frames@.len() && {
                let subtype = (#[trigger] formats[i].frames@[j]).subtype;
                subtype is FormatUncompressed || subtype is FrameUncompressed
            },
{
    lemma_offered_somewhere(formats, FrameFormat::MJPEG);
    lemma_offered_somewhere(formats, FrameFormat::YUYV);
}

proof fn lemma_offered_somewhere(formats: Seq<FormatDescription>, format: FrameFormat)
    ensures
        descriptor::offered(descriptor::all_frames(formats), format) <==> exists|i: int, j: int|
            0 <= i < formats.len() && 0 <= j < formats[i].frames@.len() && (
            #[trigger] formats[i].frames@[j]).offers(format),
{
    let all = descriptor::all_frames(formats);
    assert(formats.take(formats.len() as int) =~= formats);
    if descriptor::offered(all, format) {
        let p = choose|p: int| 0 <= p < all.len() && #[trigger] all[p].offers(format);
        let (i, j) = lemma_listed_is_a_frame(formats, formats.len() as int, p);
        lemma_frame_is_listed(formats, i, j);
        assert(formats[i].frames@[j].offers(format));
    }
    if exists|i: int, j: int|
        0 <= i < formats.len() && 0 <= j < formats[i].frames@.len() && (
        #[trigger] formats[i].frames@[j]).offers(format) {
        let (i, j) = choose|i: int, j: int|
            0 <= i < formats.len() && 0 <= j < formats[i].frames@.len() && (
            #[trigger] formats[i].frames@[j]).offers(format);
        lemma_frame_is_listed(formats, i, j);
        assert(all[offset(formats, i) + j].offers(format));
    }
}

/// A resolution is listed for MJPEG exactly when some frame of some format is
/// of a kind for MJPEG and of that width and height; and likewise for YUYV.
pub proof fn law_listed_resolutions(formats: Seq<FormatDescription>, width: u32, height: u32)
    ensures
        descriptor::rates_by_resolution(
            descriptor::all_frames(formats),
            FrameFormat::MJPEG,
        ).contains_key(Resolution { width, height }) <==> exists|i: int, j: int|
            0 <= i < formats.len() && 0 <= j < formats[i].frames@.len() && {
                let frame = #[trigger] formats[i].frames@[j];
                &&& frame.subtype is FormatMJPEG || frame.subtype is FrameMJPEG
                &&& frame.width == width
                &&& frame.height == height
            },
        descriptor::rates_by_resolution(
            descriptor::all_frames(formats),
            FrameFormat::YUYV,
        ).contains_key(Resolution { width, height }) <==> exists|i: int, j: int|
            0 <= i < formats.len() && 0 <= j < formats[i].frames@.len() && {
                let frame = #[trigger] formats[i].frames@[j];
                &&& frame.subtype is FormatUncompressed || frame.subtype is FrameUncompressed
                &&& frame.width == width
                &&& frame.height == height
            },
{
    lemma_resolution_somewhere(formats, FrameFormat::MJPEG, Resolution { width, height });
    lemma_resolution_somewhere(formats, FrameFormat::YUYV, Resolution { width, height });
}

proof fn lemma_resolution_somewhere(
    formats: Seq<FormatDescription>,
    format: FrameFormat,
    resolution: Resolution,
)
    ensures
        descriptor::rates_by_resolution(descriptor::all_frames(formats), format).contains_key(
            resolution,
        ) <==> exists|i: int, j: int|
            0 <= i < formats.len() && 0 <= j < formats[i].frames@.len() && (
            #[trigger] formats[i].frames@[j]).offers(format)
                && formats[i].frames@[j].resolution() == resolution,
{
    let all = descriptor::all_frames(formats);
    assert(formats.take(formats.len() as int) =~= formats);
    laws::law_rates_by_resolution(all, format, resolution);
    if descriptor::rates_by_resolution(all, format).contains_key(resolution) {
        let p = choose|p: int|
            0 <= p < all.len() && #[trigger] all[p].offers(format) && all[p].resolution()
                == resolution;
        let (i, j) = lemma_listed_is_a_frame(formats, formats.len() as int, p);
        lemma_frame_is_listed(formats, i, j);
        assert(formats[i].frames@[j].offers(format));
    }
    if exists|i: int, j: int|
        0 <= i < formats.len() && 0 <= j < formats[i].frames@.len() && (
        #[trigger] formats[i].frames@[j]).offers(format) && formats[i].frames@[j].resolution()
            == resolution {
        let (i, j) = choose|i: int, j: int|
            0 <= i < formats.len() && 0 <= j < formats[i].frames@.len() && (
            #[trigger] formats[i].frames@[j]).offers(format)
                && formats[i].frames@[j].resolution() == resolution;
        lemma_frame_is_listed(formats, i, j);
        assert(all[offset(formats, i) + j].offers(format));
    }
}

/// The rates of a resolution are those of the last frame that the device lists
/// with it in the encoding: as many as that frame has intervals, and each the
/// number of times that its interval, in whole milliseconds, fits into a
/// second.
pub proof fn law_listed_rates(
    formats: Seq<FormatDescription>,
    format: FrameFormat,
    i: int,
    j: int,
)
    requires
        0 <= i < formats.len(),
        0 <= j < formats[i].frames@.len(),
        match format {
            FrameFormat::MJPEG => formats[i].frames@[j].subtype is FormatMJPEG
                || formats[i].frames@[j].subtype is FrameMJPEG,
            FrameFormat::YUYV => formats[i].frames@[j].subtype is FormatUncompressed
                || formats[i].frames@[j].subtype is FrameUncompressed,
        },
        forall|m: int, n: int|
            0 <= m < formats.len() && 0 <= n < formats[m].frames@.len() && (i < m || i == m && j
                < n) ==> {
                let later = #[trigger] formats[m].frames@[n];
                ||| later.width != formats[i].frames@[j].width
                ||| later.height != formats[i].frames@[j].height
                ||| match format {
                    FrameFormat::MJPEG => !(later.subtype is FormatMJPEG
                        || later.subtype is FrameMJPEG),
                    FrameFormat::YUYV => !(later.subtype is FormatUncompressed
                        || later.subtype is FrameUncompressed),
                }
            },
    ensures
        ({
            let frame = formats[i].frames@[j];
            let resolution = Resolution { width: frame.width as u32, height: frame.height as u32 };
            let table = descriptor::rates_by_resolution(descriptor::all_frames(formats), format);
            &&& table.contains_key(resolution)
            &&& table[resolution].len() == frame.intervals@.len()
            &&& forall|k: int|
                0 <= k < frame.intervals@.len() && frame.intervals@[k] >= 1_000_000
                    ==> #[trigger] table[resolution][k] == 1000int / (frame.intervals@[k] as int
                    / 1_000_000)
        }),
{
    let all = descriptor::all_frames(formats);
    let frame = formats[i].frames@[j];
    let p = offset(formats, i) + j;
    assert(formats.take(formats.len() as int) =~= formats);
    lemma_frame_is_listed(formats, i, j);
    laws::law_rates_by_resolution(all, format, frame.resolution());
    assert(all[p].offers(format));
    assert forall|q: int| p < q < all.len() && #[trigger] all[q].offers(format) implies all[q].resolution()
        != frame.resolution() by {
        let (m, n) = lemma_listed_is_a_frame(formats, formats.len() as int, q);
        lemma_frame_is_listed(formats, m, n);
        if m < i {
            lemma_offset_next(formats, m);
            lemma_offsets_grow(formats, m + 1, i);
        }
        assert(formats[m].frames@[n] == all[q]);
    }
    let rates = descriptor::rates_by_resolution(all, format)[frame.resolution()];
    assert(rates == frame.rates());
    assert forall|k: int| 0 <= k < frame.intervals@.len() && frame.intervals@[k] >= 1_000_000 implies #[trigger] rates[k]
        == 1000int / (frame.intervals@[k] as int / 1_000_000) by {
        lemma_rate(frame.intervals@[k]);
    }
}

proof fn lemma_rate(nanos: u128)
    requires
        nanos >= 1_000_000,
    ensures
        descriptor::frame_rate(nanos) == 1000int / (nanos as int / 1_000_000),
{
    let millis = nanos / 1_000_000;
    assert(0 <= 1000u128 / millis <= 1000) by (nonlinear_arith)
        requires
            millis >= 1,
    ;
}

/// The rates of an encoding are known exactly when none of its frames, in
/// whichever format the device lists it, has an interval of less than a
/// millisecond.
pub proof fn law_rates_known(formats: Seq<FormatDescription>, format: FrameFormat)
    ensures
        descriptor::rates_known(descriptor::all_frames(formats), format) <==> forall|
            i: int,
            j: int,
            k: int,
        |
            0 <= i < formats.len() && 0 <= j < formats[i].frames@.len() && 0 <= k
                < formats[i].frames@[j].intervals@.len() && match format {
                FrameFormat::MJPEG => formats[i].frames@[j].subtype is FormatMJPEG
                    || formats[i].frames@[j].subtype is FrameMJPEG,
                FrameFormat::YUYV => formats[i].frames@[j].subtype is FormatUncompressed
                    || formats[i].frames@[j].subtype is FrameUncompressed,
            } ==> #[trigger] formats[i].frames@[j].intervals@[k] >= 1_000_000,
{
    let all = descriptor::all_frames(formats);
    assert(formats.take(formats.len() as int) =~= formats);
    if descriptor::rates_known(all, format) {
        assert forall|i: int, j: int, k: int|
            0 <= i < formats.len() && 0 <= j < formats[i].frames@.len() && 0 <= k
                < formats[i].frames@[j].intervals@.len() && formats[i].frames@[j].offers(
                format,
            ) implies #[trigger] formats[i].frames@[j].intervals@[k] >= 1_000_000 by {
            lemma_frame_is_listed(formats, i, j);
            assert(all[offset(formats, i) + j].offers(format));
        }
    } else {
        let p = choose|p: int|
            0 <= p < all.len() && #[trigger] all[p].offers(format) && !all[p].has_rates();
        let k = choose|k: int|
            0 <= k < all[p].intervals@.len() && #[trigger] all[p].intervals@[k] < 1_000_000;
        let (i, j) = lemma_listed_is_a_frame(formats, formats.len() as int, p);
        lemma_frame_is_listed(formats, i, j);
        assert(formats[i].frames@[j].intervals@[k] < 1_000_000);
    }
}

} // verus!
