//! Build a multi-page PDF from a batch of raster images: a resize-policy
//! engine that normalizes every page to a common target resolution, and a
//! JPEG normalizer that re-encodes each raster for PDF embedding.

use vstd::prelude::*;

pub mod cli;
pub mod codec;
pub mod policy;
pub mod raster;

pub use codec::convert_to_jpeg;
pub use policy::ResizeInfo;
pub use policy::ResizeMode;
pub use raster::RasterImage;

verus! {

/// Every way a run of this library can fail. All failures are surfaced as
/// values of this type; no function of the library panics.
#[derive(Debug, Clone, Copy, PartialEq, Eq, Structural)]
pub enum MkpdfError {
    /// An invalid mode/resolution combination, filter name, or resolution
    /// string.
    Configuration,
    /// An input image could not be decoded.
    Decode,
    /// A JPEG stream could not be written.
    Encode,
    /// A mode that aggregates over the batch was invoked with zero images.
    EmptyBatch,
}

impl MkpdfError {
    /// A short description, suitable for a user-facing message.
    pub fn message(&self) -> (r: &'static str)
        ensures
            *self is Configuration ==> r@ == "invalid configuration"@,
            *self is Decode ==> r@ == "could not decode input image"@,
            *self is Encode ==> r@ == "could not encode JPEG stream"@,
            *self is EmptyBatch ==> r@ == "resize mode needs at least one image"@,
    {
        proof {
            reveal_strlit("invalid configuration");
            reveal_strlit("could not decode input image");
            reveal_strlit("could not encode JPEG stream");
            reveal_strlit("resize mode needs at least one image");
        }
        match self {
            MkpdfError::Configuration => "invalid configuration",
            MkpdfError::Decode => "could not decode input image",
            MkpdfError::Encode => "could not encode JPEG stream",
            MkpdfError::EmptyBatch => "resize mode needs at least one image",
        }
    }
}

} // verus!
