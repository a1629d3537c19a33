//! Writing layers as QOI images.

use crate::pixel::{raw_bytes, PixelBuffer};
use vstd::prelude::*;

verus! {

/// The most pixels that a QOI image can hold.
pub const QOI_PIXELS_MAX: u64 = 400_000_000;

/// What `qoi` makes of an image of the given raw bytes, width and height:
/// its QOI encoding, or nothing where it refuses the image.
pub uninterp spec fn qoi_of(data: Seq<u8>, width: u32, height: u32) -> Option<Seq<u8>>;

/// Calls `qoi::encode_to_vec`. Whether it encodes or refuses, and the bytes
/// it gives, depend on its arguments alone. Its header check refuses an
/// image without pixels or with more than four hundred million of them.
#[verifier::external_body]
fn qoi_encode(data: &Vec<u8>, width: u32, height: u32) -> (encoded: Result<Vec<u8>, qoi::Error>)
    ensures
        match encoded {
            Ok(bytes) => qoi_of(data@, width, height) == Some(bytes@),
            Err(_) => qoi_of(data@, width, height) is None,
        },
        width * height == 0 || width * height > QOI_PIXELS_MAX ==> encoded is Err,
{
    qoi::encode_to_vec(data, width, height)
}

/// A layer as the bytes of a QOI file: what `qoi` makes of the raw bytes of
/// the image, whether it encodes them or refuses them. An image without
/// pixels, or with more than a QOI image can hold, is always refused.
pub fn encode_layer(image: &PixelBuffer) -> (encoded: Result<Vec<u8>, qoi::Error>)
    ensures
        match encoded {
            Ok(bytes) => qoi_of(raw_bytes(image@), image.spec_width(), image.spec_height())
                == Some(bytes@),
            Err(_) => qoi_of(raw_bytes(image@), image.spec_width(), image.spec_height()) is None,
        },
        image@.len() == 0 || image@.len() > QOI_PIXELS_MAX ==> encoded is Err,
{
    let data = image.to_raw();
    qoi_encode(&data, image.width(), image.height())
}

/// The error of the `qoi` crate; nothing of its inside is used.
#[verifier::external_type_specification]
#[verifier::external_body]
pub struct ExQoiError(qoi::Error);

} // verus!
