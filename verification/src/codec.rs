//! The JPEG normalizer: re-encodes any raster, whatever its color model,
//! as a baseline JPEG byte stream suitable for PDF embedding, and decodes
//! an encoded byte stream back into a raster.

use vstd::prelude::*;

use crate::raster::RasterImage;
use crate::MkpdfError;

verus! {

/// The largest width or height a baseline JPEG stream can record.
pub const JPEG_MAX_DIM: u32 = 65535;

#[verifier::external_type_specification]
#[verifier::external_body]
pub struct ExImageError(image::ImageError);

/// What decoding an encoded image stream yields: `None` when the bytes do
/// not decode, else the decoded raster's width, height, and whether its
/// color model carries an alpha channel. Decoding here means the codec's
/// `ImageReader` with its format guessed from the bytes and its resource
/// limits disabled, so that the answer is a function of the bytes alone,
/// not of a decode-size cap.
pub uninterp spec fn decoded_info_of(bytes: Seq<u8>) -> Option<(u32, u32, bool)>;

/// Relies on `image::DynamicImage::into_rgb8` and
/// `image::ImageBuffer::write_to` with the JPEG format: the raster is
/// forced into 8-bit RGB (dropping any alpha channel) and encoded as
/// baseline JPEG into an in-memory buffer. The JPEG encoder accepts
/// exactly the dimensions from 1 to 65535 in each direction, and the
/// in-memory write itself cannot fail. The stream it writes is a
/// three-component YCbCr frame whose header records the raster's
/// dimensions, so decoding it yields those dimensions and a color model
/// with no alpha channel. Relies on the raster's recorded dimensions
/// matching its pixel buffer, which every constructor of `RasterImage`
/// establishes.
#[verifier::external_body]
fn jpeg_encode(image: RasterImage) -> (r: Result<Vec<u8>, image::ImageError>)
    ensures
        r is Ok <==> (1 <= image.spec_width() <= JPEG_MAX_DIM && 1 <= image.spec_height()
            <= JPEG_MAX_DIM),
        r is Ok ==> decoded_info_of(r.unwrap()@) == Some::<(u32, u32, bool)>(
            (image.spec_width(), image.spec_height(), false),
        ),
{
    let mut jpeg_buf = Vec::new();
    let mut seekable_jpeg_buf = std::io::Cursor::new(&mut jpeg_buf);
    match image.into_dynamic().into_rgb8().write_to(&mut seekable_jpeg_buf, image::ImageFormat::Jpeg)
    {
        Ok(()) => Ok(jpeg_buf),
        Err(e) => Err(e),
    }
}

/// Relies on `image::ImageReader` with the format guessed from the bytes
/// and resource limits disabled: decodes an encoded image stream (any
/// format the codec recognizes) into a raster, whose dimensions it
/// reports; fails exactly when the bytes do not decode.
#[verifier::external_body]
fn decode_bytes(bytes: &Vec<u8>) -> (r: Result<RasterImage, image::ImageError>)
    ensures
        r is Ok <==> decoded_info_of(bytes@) is Some,
        r is Ok ==> {
            let info = decoded_info_of(bytes@).unwrap();
            r.unwrap().spec_width() == info.0 && r.unwrap().spec_height() == info.1
        },
{
    let cursor = std::io::Cursor::new(bytes.as_slice());
    let mut reader = match image::ImageReader::new(cursor).with_guessed_format() {
        Ok(reader) => reader,
        Err(e) => return Err(image::ImageError::IoError(e)),
    };
    reader.no_limits();
    match reader.decode() {
        Ok(img) => {
            let (width, height) = (img.width(), img.height());
            Ok(RasterImage::from_parts(img, width, height))
        },
        Err(e) => Err(e),
    }
}

/// Converts a raster into a baseline JPEG byte stream, forcing the pixels
/// into 8-bit RGB first, so an alpha channel is dropped: the stream
/// decodes to an image with no alpha channel and the raster's dimensions.
/// Succeeds exactly when both dimensions fit a JPEG frame, from one pixel
/// to 65535. A failed write is surfaced as an encoding error, never
/// swallowed.
pub fn convert_to_jpeg(image: RasterImage) -> (r: Result<Vec<u8>, MkpdfError>)
    ensures
        r is Ok <==> (1 <= image.spec_width() <= JPEG_MAX_DIM && 1 <= image.spec_height()
            <= JPEG_MAX_DIM),
        r is Err ==> r == Err::<Vec<u8>, MkpdfError>(MkpdfError::Encode),
        r is Ok ==> decoded_info_of(r.unwrap()@) == Some::<(u32, u32, bool)>(
            (image.spec_width(), image.spec_height(), false),
        ),
{
    match jpeg_encode(image) {
        Ok(buf) => Ok(buf),
        Err(_) => Err(MkpdfError::Encode),
    }
}

/// Decodes an encoded image stream into a raster; fails with a decode
/// error exactly when the codec does not recognize the bytes.
pub fn decode_image_bytes(bytes: &Vec<u8>) -> (r: Result<RasterImage, MkpdfError>)
    ensures
        r is Ok <==> decoded_info_of(bytes@) is Some,
        r is Ok ==> {
            let info = decoded_info_of(bytes@).unwrap();
            r.unwrap().spec_width() == info.0 && r.unwrap().spec_height() == info.1
        },
        r is Err ==> r == Err::<RasterImage, MkpdfError>(MkpdfError::Decode),
{
    match decode_bytes(bytes) {
        Ok(raster) => Ok(raster),
        Err(_) => Err(MkpdfError::Decode),
    }
}

/// Law: the decode/re-encode round trip is idempotent in dimensions.
/// Decoding a stream and encoding the decoded raster again yields a JPEG
/// stream that records the same dimensions as the stream it came from —
/// and no alpha channel — whenever those dimensions fit a JPEG frame; in
/// particular for any stream that `convert_to_jpeg` produced.
pub fn reencode_jpeg(bytes: &Vec<u8>) -> (r: Result<Vec<u8>, MkpdfError>)
    ensures
        r is Ok <==> (decoded_info_of(bytes@) matches Some(d) && 1 <= d.0 <= JPEG_MAX_DIM && 1
            <= d.1 <= JPEG_MAX_DIM),
        r is Ok ==> (decoded_info_of(bytes@) matches Some(d) && decoded_info_of(r.unwrap()@)
            == Some::<(u32, u32, bool)>((d.0, d.1, false))),
        decoded_info_of(bytes@) is None ==> r == Err::<Vec<u8>, MkpdfError>(MkpdfError::Decode),
        decoded_info_of(bytes@) is Some && r is Err ==> r == Err::<Vec<u8>, MkpdfError>(
            MkpdfError::Encode,
        ),
{
    match decode_bytes(bytes) {
        Ok(raster) => convert_to_jpeg(raster),
        Err(_) => Err(MkpdfError::Decode),
    }
}

} // verus!
