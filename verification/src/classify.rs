//! Recognising an image: its container format and its pixel size.

use vstd::prelude::*;

verus! {

/// The container formats that matter to a package; every other recognised
/// format is `Other`.
#[derive(Clone, Copy, Debug, PartialEq, Eq, Structural)]
pub enum ImageKind {
    Gif,
    Jpeg,
    Png,
    Other,
}

/// The format that the leading bytes of `bytes` announce, if any is recognised.
pub uninterp spec fn guessed_format(bytes: Seq<u8>) -> Option<ImageKind>;

/// Width and height in pixels of the image that `bytes` decode to, if they decode.
pub uninterp spec fn decoded_size(bytes: Seq<u8>) -> Option<(u32, u32)>;

/// Calls `image::guess_format`, which compares the start of the buffer with a
/// table of signatures. The format found is reported as an `ImageKind`, an
/// unrecognised buffer as the decoder's error. The result depends on the bytes
/// alone, which is all the contract claims.
#[verifier::external_body]
pub(crate) fn guess_format(image_data: &[u8]) -> (r: Result<ImageKind, image::ImageError>)
    ensures
        match r {
            Ok(kind) => guessed_format(image_data@) == Some(kind),
            Err(_) => guessed_format(image_data@) is None,
        },
{
    match image::guess_format(image_data) {
        Ok(image::ImageFormat::Gif) => Ok(ImageKind::Gif),
        Ok(image::ImageFormat::Jpeg) => Ok(ImageKind::Jpeg),
        Ok(image::ImageFormat::Png) => Ok(ImageKind::Png),
        Ok(_) => Ok(ImageKind::Other),
        Err(e) => Err(e),
    }
}

/// Calls `image::load_from_memory` and reads the decoded image's
/// `dimensions()`. Data that does not decode gives the decoder's error. The
/// result depends on the bytes alone, which is all the contract claims.
#[verifier::external_body]
pub(crate) fn decode_size(image_data: &[u8]) -> (r: Result<(u32, u32), image::ImageError>)
    ensures
        match r {
            Ok(size) => decoded_size(image_data@) == Some(size),
            Err(_) => decoded_size(image_data@) is None,
        },
{
    match image::load_from_memory(image_data) {
        Ok(decoded) => Ok(image::GenericImageView::dimensions(&decoded)),
        Err(e) => Err(e),
    }
}

/// How a buffer of image data is judged.
pub enum Classification {
    /// A supported format that decodes to an image of this size.
    Image { kind: ImageKind, size: (u32, u32) },
    /// A recognised format that packages do not hold.
    Unsupported,
    /// An unknown format, or data that does not decode.
    Invalid,
}

/// The judgement on `bytes`. The format is settled first: an unsupported
/// format is reported whether or not the data would decode.
pub open spec fn classification(bytes: Seq<u8>) -> Classification {
    match guessed_format(bytes) {
        None => Classification::Invalid,
        Some(ImageKind::Other) => Classification::Unsupported,
        Some(kind) => match decoded_size(bytes) {
            None => Classification::Invalid,
            Some(size) => Classification::Image { kind, size },
        },
    }
}

} // verus!
