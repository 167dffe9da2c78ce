//! Frames as RGB images.

use vstd::prelude::*;

use crate::error::{NokhwaError, NokhwaErrorView};
use crate::types::Resolution;

verus! {

/// An image of 8-bit red, green and blue samples, row by row.
#[derive(Debug)]
pub struct RgbImage {
    pub width: u32,
    pub height: u32,
    /// Three bytes a pixel; bytes past the last pixel are kept.
    pub data: Vec<u8>,
}

/// The samples of an image of this size can be counted and are all there.
pub open spec fn holds_image(bytes: int, width: u32, height: u32) -> bool {
    &&& 3 * width <= usize::MAX
    &&& 3 * width * height <= bytes
}

/// Calls [`image::ImageBuffer::from_vec`] for 8-bit RGB, which wraps the vector
/// unchanged and refuses one that is shorter than three times the number of
/// pixels. The length is computed as `3 * width`, then times `height`, and an
/// overflow in either step is a refusal too.
#[verifier::external_body]
fn rgb_from_vec(width: u32, height: u32, data: Vec<u8>) -> (r: Option<RgbImage>)
    ensures
        r is Some <==> holds_image(data@.len() as int, width, height),
        r matches Some(image) ==> {
            &&& image.width == width
            &&& image.height == height
            &&& image.data@ == data@
        },
{
    image::ImageBuffer::<image::Rgb<u8>, Vec<u8>>::from_vec(width, height, data).map(
        |buffer| RgbImage { width: buffer.width(), height: buffer.height(), data: buffer.into_vec() },
    )
}

/// The error that reports a frame too short for the resolution.
pub open spec fn short_frame_error() -> NokhwaErrorView {
    NokhwaErrorView::ReadFrameError(
        "ImageBuffer too small! This is probably a bug, please report it!"@,
    )
}

/// Reads raw frame data as an image of the given resolution. The data is taken
/// as it is; data that does not fill the image is refused.
pub fn image_of_frame(resolution: Resolution, data: Vec<u8>) -> (r: Result<RgbImage, NokhwaError>)
    ensures
        r is Ok <==> holds_image(data@.len() as int, resolution.width, resolution.height),
        r matches Ok(image) ==> {
            &&& image.width == resolution.width
            &&& image.height == resolution.height
            &&& image.data@ == data@
        },
        r is Ok <==> 3 * resolution.width <= usize::MAX && 3 * resolution.width
            * resolution.height <= data@.len(),
        r matches Err(error) ==> error@ == short_frame_error(),
        r matches Err(error) ==> error matches NokhwaError::ReadFrameError(why) && why@
            == "ImageBuffer too small! This is probably a bug, please report it!"@,
{
    match rgb_from_vec(resolution.width, resolution.height, data) {
        Some(image) => Ok(image),
        None => Err(
            NokhwaError::ReadFrameError(
                "ImageBuffer too small! This is probably a bug, please report it!".to_owned(),
            ),
        ),
    }
}

} // verus!
