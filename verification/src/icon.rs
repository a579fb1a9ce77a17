//! The window icon: an encoded image turned into raw RGBA pixels. Decoding is
//! the work of the `image` crate.

use vstd::prelude::*;

verus! {

/// A decoded icon.
pub struct IconData {
    /// RGBA pixels, row by row, four bytes for each pixel.
    pub rgba: Vec<u8>,
    /// The width in pixels.
    pub width: u32,
    /// The height in pixels.
    pub height: u32,
}

impl IconData {
    /// The pixel buffer holds exactly `width * height` pixels.
    pub open spec fn wf(&self) -> bool {
        self.rgba@.len() == 4 * self.width * self.height
    }
}

/// What `image::load_from_memory` followed by `DynamicImage::to_rgba8` gives
/// for `bytes`: the raw pixels with width and height, or `None` where the
/// bytes are no image that the crate can decode.
pub uninterp spec fn decoded_rgba8(bytes: Seq<u8>) -> Option<(Seq<u8>, u32, u32)>;

/// `image::load_from_memory`, with the image converted by `to_rgba8` and
/// taken apart by `dimensions` and `into_raw`. `to_rgba8` allocates a buffer
/// of four bytes for each pixel of the image.
#[verifier::external_body]
fn decode_rgba8(bytes: &[u8]) -> (decoded: Option<(Vec<u8>, u32, u32)>)
    ensures
        match decoded {
            Some((rgba, width, height)) => decoded_rgba8(bytes@) == Some((rgba@, width, height))
                && rgba@.len() == 4 * width * height,
            None => decoded_rgba8(bytes@) is None,
        },
{
    let image = image::load_from_memory(bytes).ok()?.to_rgba8();
    let (width, height) = image.dimensions();
    Some((image.into_raw(), width, height))
}

/// The icon that decoded pixels make, or none where decoding failed.
pub fn icon_from_decoded(decoded: Option<(Vec<u8>, u32, u32)>) -> (icon: Option<IconData>)
    ensures
        match (decoded, icon) {
            (Some((rgba, width, height)), Some(data)) => data.rgba == rgba && data.width == width
                && data.height == height,
            (None, None) => true,
            _ => false,
        },
{
    match decoded {
        Some((rgba, width, height)) => Some(IconData { rgba, width, height }),
        None => None,
    }
}

/// Decodes the bytes of an icon file. A file that cannot be decoded gives no
/// icon; that is not an error.
pub fn load_icon(bytes: &[u8]) -> (icon: Option<IconData>)
    ensures
        match icon {
            Some(data) => decoded_rgba8(bytes@) == Some((data.rgba@, data.width, data.height))
                && data.wf(),
            None => decoded_rgba8(bytes@) is None,
        },
{
    icon_from_decoded(decode_rgba8(bytes))
}

} // verus!
