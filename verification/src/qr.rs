//! QR code generation through the `qrcode` crate, and its two renderings:
//! dense Unicode text and a grayscale image.

use image::Luma;
use qrcode::render::unicode::Dense1x2;
use qrcode::types::QrError;
use qrcode::QrCode;

use vstd::prelude::*;

verus! {

/// Why data could not be encoded: the variants of `qrcode::types::QrError`.
#[derive(Debug, Clone, Copy, PartialEq, Eq, Structural)]
pub enum QrFailure {
    DataTooLong,
    InvalidVersion,
    UnsupportedCharacterSet,
    InvalidEciDesignator,
    InvalidCharacter,
}

/// The text `QrError`'s `Display` gives for each variant.
pub open spec fn qr_failure_text(failure: QrFailure) -> Seq<char> {
    match failure {
        QrFailure::DataTooLong => "data too long"@,
        QrFailure::InvalidVersion => "invalid version"@,
        QrFailure::UnsupportedCharacterSet => "unsupported character set"@,
        QrFailure::InvalidEciDesignator => "invalid ECI designator"@,
        QrFailure::InvalidCharacter => "invalid character"@,
    }
}

/// Calls `to_string` (the `Display` impl) on the `QrError` variant that the
/// failure stands for; the contract states the five texts that impl writes.
#[verifier::external_body]
pub(crate) fn qr_failure_message(failure: QrFailure) -> (r: String)
    ensures
        r@ == qr_failure_text(failure),
{
    match failure {
        QrFailure::DataTooLong => QrError::DataTooLong,
        QrFailure::InvalidVersion => QrError::InvalidVersion,
        QrFailure::UnsupportedCharacterSet => QrError::UnsupportedCharacterSet,
        QrFailure::InvalidEciDesignator => QrError::InvalidEciDesignator,
        QrFailure::InvalidCharacter => QrError::InvalidCharacter,
    }.to_string()
}

/// A grayscale raster: `luma` holds one byte per pixel, row by row.
#[derive(Debug)]
pub struct GrayPixels {
    pub width: u32,
    pub height: u32,
    pub luma: Vec<u8>,
}

/// Names why `QrCode::new` refuses the data, or `None` where it encodes it.
pub uninterp spec fn qr_encode_failure(data: Seq<u8>) -> Option<QrFailure>;

/// Names the text that the dense 1x2 Unicode renderer builds, with its quiet
/// zone, from the QR code of the data.
pub uninterp spec fn qr_dense_text(data: Seq<u8>) -> Seq<char>;

/// Names the grayscale image (width, height, pixels) that the image
/// renderer builds from the QR code of the data at the given minimum size.
pub uninterp spec fn qr_luma_image(data: Seq<u8>, size: u32) -> (u32, u32, Seq<u8>);

/// Encodes the data with `QrCode::new` (medium error correction, smallest
/// version) and renders it with `Dense1x2` and its quiet zone. The contract
/// names both outcomes; it does not say what the text looks like.
#[verifier::external_body]
pub(crate) fn encode_text(data: &[u8]) -> (r: Result<String, QrFailure>)
    ensures
        match r {
            Ok(text) => qr_encode_failure(data@) is None && text@ == qr_dense_text(data@),
            Err(failure) => qr_encode_failure(data@) == Some(failure),
        },
{
    match QrCode::new(data) {
        Ok(code) => Ok(code.render::<Dense1x2>().quiet_zone(true).build()),
        Err(QrError::DataTooLong) => Err(QrFailure::DataTooLong),
        Err(QrError::InvalidVersion) => Err(QrFailure::InvalidVersion),
        Err(QrError::UnsupportedCharacterSet) => Err(QrFailure::UnsupportedCharacterSet),
        Err(QrError::InvalidEciDesignator) => Err(QrFailure::InvalidEciDesignator),
        Err(QrError::InvalidCharacter) => Err(QrFailure::InvalidCharacter),
    }
}

/// Whether an image of at least `size` pixels a side can be laid out: the
/// renderer's `u32` arithmetic and the pixel buffer stay in range for every
/// QR code, whose side with its quiet zone is at most 185 modules.
pub open spec fn image_size_in_range(size: u32) -> bool {
    size + 184 <= u32::MAX && (size + 184) * (size + 184) <= isize::MAX
}

/// Encodes the data with `QrCode::new` and renders it as a `Luma<u8>` image
/// with `min_dimensions(size, size)`. The contract names both outcomes and
/// states what the renderer's source shows of the image: it is square, has
/// one byte per pixel and is at least `size` pixels a side.
#[verifier::external_body]
pub(crate) fn encode_image(data: &[u8], size: u32) -> (r: Result<GrayPixels, QrFailure>)
    requires
        image_size_in_range(size),
    ensures
        match r {
            Ok(image) => {
                &&& qr_encode_failure(data@) is None
                &&& (image.width, image.height, image.luma@) == qr_luma_image(data@, size)
                &&& image.width == image.height
                &&& image.width >= size
                &&& image.luma@.len() == image.width * image.height
            },
            Err(failure) => qr_encode_failure(data@) == Some(failure),
        },
{
    match QrCode::new(data) {
        Ok(code) => {
            let image = code.render::<Luma<u8>>().min_dimensions(size, size).build();
            Ok(GrayPixels { width: image.width(), height: image.height(), luma: image.into_raw() })
        },
        Err(QrError::DataTooLong) => Err(QrFailure::DataTooLong),
        Err(QrError::InvalidVersion) => Err(QrFailure::InvalidVersion),
        Err(QrError::UnsupportedCharacterSet) => Err(QrFailure::UnsupportedCharacterSet),
        Err(QrError::InvalidEciDesignator) => Err(QrFailure::InvalidEciDesignator),
        Err(QrError::InvalidCharacter) => Err(QrFailure::InvalidCharacter),
    }
}

} // verus!
