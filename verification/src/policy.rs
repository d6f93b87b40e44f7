//! The resize-policy engine: a validated policy value (mode, optional target
//! resolution, resampling filter) and the `resize_all` algorithm that
//! normalizes a batch of rasters to a common bounding box.
//!
//! The aggregate modes reduce to the custom bounding-box path, so all modes
//! share one scale-to-fit routine.

use vstd::prelude::*;

use crate::raster::RasterImage;
use crate::MkpdfError;

verus! {

/// How a batch of images is resized before being placed on PDF pages.
#[derive(Debug, Clone, Copy, PartialEq, Eq, Structural)]
pub enum ResizeMode {
    /// Keep every image at its original resolution.
    Original,
    /// Scale every image to fit within a caller-chosen bounding box.
    Custom,
    /// Scale every image to fit the component-wise minimum of the batch.
    Min,
    /// Scale every image to fit the component-wise maximum of the batch.
    Max,
}

/// The resampling filter used when an image is rescaled.
#[derive(Debug, Clone, Copy, PartialEq, Eq, Structural)]
pub enum ResizeFilter {
    /// Nearest-neighbour sampling: fast, low quality.
    Nearest,
    /// Linear (triangle) filter: the default quality/speed tradeoff.
    Triangle,
    /// Catmull-Rom cubic filter.
    CatmullRom,
    /// Lanczos filter with window 3.
    Lanczos3,
    /// Gaussian filter.
    Gaussian,
}

/// The filter used when the caller does not choose one.
pub const DEFAULT_FILTER: ResizeFilter = ResizeFilter::Triangle;

/// The dimensions that scaling a `w` by `h` image to fit within a `bw` by
/// `bh` bounding box produces. The exact value rounds a floating-point
/// ratio inside the image codec; the trusted wrapper around the codec's
/// resize states the facts that hold of it.
pub uninterp spec fn fit_dims(w: u32, h: u32, bw: u32, bh: u32) -> (u32, u32);

/// What `res` being the scale-to-fit result of `orig` within the `bw` by
/// `bh` bounding box guarantees: the exact (named) dimensions; the result
/// stays inside the box and at least one pixel in each dimension; one
/// uniform scale factor is applied to both dimensions, so the side whose
/// ratio binds lands exactly on its bound and the other side is within one
/// pixel of exact proportionality (when the ratios agree exactly, both
/// sides land on the box).
pub open spec fn resized_to_fit(orig: RasterImage, res: RasterImage, bw: u32, bh: u32) -> bool {
    let w = orig.spec_width() as int;
    let h = orig.spec_height() as int;
    let rw = res.spec_width() as int;
    let rh = res.spec_height() as int;
    &&& (res.spec_width(), res.spec_height()) == fit_dims(orig.spec_width(), orig.spec_height(), bw, bh)
    &&& res.wf()
    &&& res.spec_width() <= bw
    &&& res.spec_height() <= bh
    &&& (h * bw <= w * bh ==> res.spec_width() == bw && rh * w - h * bw < w && h * bw - rh * w
        < w)
    &&& (w * bh <= h * bw ==> res.spec_height() == bh && rw * h - w * bh < h && w * bh - rw * h
        < h)
}

/// Law: an image scaled to fit a bounding box stays inside it in each
/// dimension, so in particular its longest side never exceeds the box's
/// longest side.
pub proof fn lemma_fit_stays_within_bounds(
    orig: RasterImage,
    res: RasterImage,
    bw: u32,
    bh: u32,
)
    requires
        resized_to_fit(orig, res, bw, bh),
    ensures
        res.spec_width() <= bw,
        res.spec_height() <= bh,
        (if res.spec_width() >= res.spec_height() {
            res.spec_width()
        } else {
            res.spec_height()
        }) <= (if bw >= bh {
            bw
        } else {
            bh
        }),
{
}

/// The smallest width that occurs in the batch.
pub open spec fn batch_min_width(s: Seq<RasterImage>) -> u32
    recommends
        s.len() >= 1,
    decreases s.len(),
{
    if s.len() <= 1 {
        s[0].spec_width()
    } else if s.last().spec_width() <= batch_min_width(s.drop_last()) {
        s.last().spec_width()
    } else {
        batch_min_width(s.drop_last())
    }
}

/// The smallest height that occurs in the batch.
pub open spec fn batch_min_height(s: Seq<RasterImage>) -> u32
    recommends
        s.len() >= 1,
    decreases s.len(),
{
    if s.len() <= 1 {
        s[0].spec_height()
    } else if s.last().spec_height() <= batch_min_height(s.drop_last()) {
        s.last().spec_height()
    } else {
        batch_min_height(s.drop_last())
    }
}

/// The largest width that occurs in the batch.
pub open spec fn batch_max_width(s: Seq<RasterImage>) -> u32
    recommends
        s.len() >= 1,
    decreases s.len(),
{
    if s.len() <= 1 {
        s[0].spec_width()
    } else if s.last().spec_width() >= batch_max_width(s.drop_last()) {
        s.last().spec_width()
    } else {
        batch_max_width(s.drop_last())
    }
}

/// The largest height that occurs in the batch.
pub open spec fn batch_max_height(s: Seq<RasterImage>) -> u32
    recommends
        s.len() >= 1,
    decreases s.len(),
{
    if s.len() <= 1 {
        s[0].spec_height()
    } else if s.last().spec_height() >= batch_max_height(s.drop_last()) {
        s.last().spec_height()
    } else {
        batch_max_height(s.drop_last())
    }
}

/// Law: the aggregate of the `Min` mode is the component-wise minimum —
/// the width and the height are each the minimum of their own component
/// over the whole batch, taken independently, and each is attained by
/// some image of the batch.
pub proof fn lemma_batch_min_is_componentwise_min(s: Seq<RasterImage>)
    requires
        s.len() >= 1,
    ensures
        forall|i: int|
            0 <= i < s.len() ==> batch_min_width(s) <= (#[trigger] s[i]).spec_width() && batch_min_height(
                s,
            ) <= s[i].spec_height(),
        exists|i: int| 0 <= i < s.len() && batch_min_width(s) == (#[trigger] s[i]).spec_width(),
        exists|i: int| 0 <= i < s.len() && batch_min_height(s) == (#[trigger] s[i]).spec_height(),
    decreases s.len(),
{
    if s.len() == 1 {
        assert(batch_min_width(s) == s[0].spec_width());
        assert(batch_min_height(s) == s[0].spec_height());
    } else {
        lemma_batch_min_is_componentwise_min(s.drop_last());
        assert(forall|i: int| 0 <= i < s.len() - 1 ==> s.drop_last()[i] == (#[trigger] s[i]));
        assert(s.last() == s[s.len() - 1]);
        if s.last().spec_width() <= batch_min_width(s.drop_last()) {
            assert(batch_min_width(s) == (s[s.len() - 1]).spec_width());
        } else {
            let i = choose|i: int|
                0 <= i < s.drop_last().len() && batch_min_width(s.drop_last()) == (#[trigger] s.drop_last()[i]).spec_width();
            assert(batch_min_width(s) == s[i].spec_width());
        }
        if s.last().spec_height() <= batch_min_height(s.drop_last()) {
            assert(batch_min_height(s) == (s[s.len() - 1]).spec_height());
        } else {
            let i = choose|i: int|
                0 <= i < s.drop_last().len() && batch_min_height(s.drop_last()) == (#[trigger] s.drop_last()[i]).spec_height();
            assert(batch_min_height(s) == s[i].spec_height());
        }
    }
}

/// Law: the aggregate of the `Max` mode is the component-wise maximum,
/// symmetric to the minimum: each component is the maximum of its own
/// component over the whole batch, and each is attained by some image.
pub proof fn lemma_batch_max_is_componentwise_max(s: Seq<RasterImage>)
    requires
        s.len() >= 1,
    ensures
        forall|i: int|
            0 <= i < s.len() ==> batch_max_width(s) >= (#[trigger] s[i]).spec_width() && batch_max_height(
                s,
            ) >= s[i].spec_height(),
        exists|i: int| 0 <= i < s.len() && batch_max_width(s) == (#[trigger] s[i]).spec_width(),
        exists|i: int| 0 <= i < s.len() && batch_max_height(s) == (#[trigger] s[i]).spec_height(),
    decreases s.len(),
{
    if s.len() == 1 {
        assert(batch_max_width(s) == s[0].spec_width());
        assert(batch_max_height(s) == s[0].spec_height());
    } else {
        lemma_batch_max_is_componentwise_max(s.drop_last());
        assert(forall|i: int| 0 <= i < s.len() - 1 ==> s.drop_last()[i] == (#[trigger] s[i]));
        assert(s.last() == s[s.len() - 1]);
        if s.last().spec_width() >= batch_max_width(s.drop_last()) {
            assert(batch_max_width(s) == (s[s.len() - 1]).spec_width());
        } else {
            let i = choose|i: int|
                0 <= i < s.drop_last().len() && batch_max_width(s.drop_last()) == (#[trigger] s.drop_last()[i]).spec_width();
            assert(batch_max_width(s) == s[i].spec_width());
        }
        if s.last().spec_height() >= batch_max_height(s.drop_last()) {
            assert(batch_max_height(s) == (s[s.len() - 1]).spec_height());
        } else {
            let i = choose|i: int|
                0 <= i < s.drop_last().len() && batch_max_height(s.drop_last()) == (#[trigger] s.drop_last()[i]).spec_height();
            assert(batch_max_height(s) == s[i].spec_height());
        }
    }
}

/// A resize policy: a mode, the target resolution that the `Custom` mode
/// requires, and the resampling filter.
#[derive(Debug)]
pub struct ResizeInfo {
    /// The mode that decides the target resolution of the batch.
    pub mode: ResizeMode,
    /// The bounding box for the `Custom` mode; must be present then.
    pub new_resolution: Option<(u32, u32)>,
    /// The resampling filter used for every rescale.
    pub filter: ResizeFilter,
}

/// A mode/resolution pair is valid when the `Custom` mode comes with a
/// target resolution and any given resolution is nonzero in both
/// components. Constructors and setters fail fast on anything else.
pub open spec fn valid_config(mode: ResizeMode, new_resolution: Option<(u32, u32)>) -> bool {
    &&& (mode is Custom ==> new_resolution is Some)
    &&& (new_resolution is Some ==> new_resolution.unwrap().0 >= 1 && new_resolution.unwrap().1
        >= 1)
}

impl ResizeInfo {
    /// A policy is well-formed when its mode and resolution are a valid
    /// combination; every constructor and setter of this type keeps it so.
    pub open spec fn wf(self) -> bool {
        valid_config(self.mode, self.new_resolution)
    }

    /// The bounding box that the policy assigns to the batch: the custom
    /// resolution, or the component-wise minimum or maximum of the batch.
    pub open spec fn target_of(self, s: Seq<RasterImage>) -> (u32, u32)
        recommends
            self.wf(),
            !(self.mode is Original),
            self.mode is Custom || s.len() >= 1,
    {
        match self.mode {
            ResizeMode::Original => (0u32, 0u32),
            ResizeMode::Custom => self.new_resolution.unwrap(),
            ResizeMode::Min => (batch_min_width(s), batch_min_height(s)),
            ResizeMode::Max => (batch_max_width(s), batch_max_height(s)),
        }
    }

    /// What a successful `resize_all` returns: one output per input, in
    /// input order, each scaled to fit the policy's target for the batch.
    pub open spec fn resize_output_ok(self, input: Seq<RasterImage>, out: Seq<RasterImage>) -> bool {
        let t = self.target_of(input);
        &&& out.len() == input.len()
        &&& forall|i: int|
            0 <= i < input.len() ==> #[trigger] resized_to_fit(input[i], out[i], t.0, t.1)
    }

    /// Builds a validated policy. Fails (with a configuration error) exactly
    /// when the `Custom` mode comes without a resolution or a resolution has
    /// a zero component; a missing filter falls back to the default.
    pub fn new(
        mode: ResizeMode,
        new_resolution: Option<(u32, u32)>,
        filter: Option<ResizeFilter>,
    ) -> (r: Result<ResizeInfo, MkpdfError>)
        ensures
            r is Ok <==> valid_config(mode, new_resolution),
            r is Err ==> r == Err::<ResizeInfo, MkpdfError>(MkpdfError::Configuration),
            r is Ok ==> {
                let info = r.unwrap();
                &&& info.mode == mode
                &&& info.new_resolution == new_resolution
                &&& info.filter == (if filter is Some {
                    filter.unwrap()
                } else {
                    DEFAULT_FILTER
                })
                &&& info.wf()
            },
    {
        if mode == ResizeMode::Custom && new_resolution.is_none() {
            return Err(MkpdfError::Configuration);
        }
        if let Some((w, h)) = new_resolution {
            if w == 0 || h == 0 {
                return Err(MkpdfError::Configuration);
            }
        }
        let filter = match filter {
            Some(f) => f,
            None => DEFAULT_FILTER,
        };
        Ok(ResizeInfo { mode, new_resolution, filter })
    }

    /// The resize mode.
    pub fn mode(&self) -> (r: &ResizeMode)
        ensures
            r == self.mode,
    {
        &self.mode
    }

    /// Switches the mode. Fails (leaving the policy unchanged) exactly when
    /// switching to `Custom` while no resolution is set.
    pub fn set_mode(&mut self, mode: ResizeMode) -> (r: Result<(), MkpdfError>)
        requires
            old(self).wf(),
        ensures
            r is Ok <==> valid_config(mode, old(self).new_resolution),
            r is Ok ==> *final(self) == (ResizeInfo { mode, ..*old(self) }),
            r is Err ==> *final(self) == *old(self) && r == Err::<(), MkpdfError>(
                MkpdfError::Configuration,
            ),
            final(self).wf(),
    {
        if mode == ResizeMode::Custom && self.new_resolution.is_none() {
            return Err(MkpdfError::Configuration);
        }
        self.mode = mode;
        Ok(())
    }

    /// The resolution used by the `Custom` mode, if one is set.
    pub fn resolution(&self) -> (r: &Option<(u32, u32)>)
        ensures
            r == self.new_resolution,
    {
        &self.new_resolution
    }

    /// Replaces the resolution. Fails (leaving the policy unchanged) exactly
    /// when the resolution is cleared while the mode is `Custom`, or a
    /// component of the new resolution is zero.
    pub fn set_resoluton(&mut self, new_resolution: Option<(u32, u32)>) -> (r: Result<
        (),
        MkpdfError,
    >)
        requires
            old(self).wf(),
        ensures
            r is Ok <==> valid_config(old(self).mode, new_resolution),
            r is Ok ==> *final(self) == (ResizeInfo { new_resolution, ..*old(self) }),
            r is Err ==> *final(self) == *old(self) && r == Err::<(), MkpdfError>(
                MkpdfError::Configuration,
            ),
            final(self).wf(),
    {
        if self.mode == ResizeMode::Custom && new_resolution.is_none() {
            return Err(MkpdfError::Configuration);
        }
        if let Some((w, h)) = new_resolution {
            if w == 0 || h == 0 {
                return Err(MkpdfError::Configuration);
            }
        }
        self.new_resolution = new_resolution;
        Ok(())
    }

    /// The filter used for every rescale.
    pub fn filter(&self) -> (r: &ResizeFilter)
        ensures
            r == self.filter,
    {
        &self.filter
    }

    /// Replaces the filter; a missing value falls back to the default.
    pub fn set_filter(&mut self, filter: Option<ResizeFilter>)
        requires
            old(self).wf(),
        ensures
            *final(self) == (ResizeInfo {
                filter: if filter is Some {
                    filter.unwrap()
                } else {
                    DEFAULT_FILTER
                },
                ..*old(self)
            }),
            final(self).wf(),
    {
        self.filter = match filter {
            Some(f) => f,
            None => DEFAULT_FILTER,
        };
    }

    /// Applies the policy to a batch: `Original` returns the batch as it
    /// came, every other mode scales each image to fit the policy's target
    /// for the batch. An aggregate mode over an empty batch is the one
    /// error, reported and never a panic.
    pub fn resize_all(&self, images: Vec<RasterImage>) -> (r: Result<Vec<RasterImage>, MkpdfError>)
        requires
            self.wf(),
            forall|i: int| 0 <= i < images@.len() ==> (#[trigger] images@[i]).wf(),
        ensures
            self.mode is Original ==> r == Ok::<Vec<RasterImage>, MkpdfError>(images),
            r is Err <==> (self.mode is Min || self.mode is Max) && images@.len() == 0,
            r is Err ==> r == Err::<Vec<RasterImage>, MkpdfError>(MkpdfError::EmptyBatch),
            !(self.mode is Original) && r is Ok ==> self.resize_output_ok(images@, r.unwrap()@),
    {
        match self.mode {
            ResizeMode::Original => Ok(images),
            ResizeMode::Custom => {
                let (bw, bh) = self.new_resolution.unwrap();
                Ok(resize_batch_to(images, bw, bh, self.filter))
            },
            ResizeMode::Min => {
                if images.len() == 0 {
                    return Err(MkpdfError::EmptyBatch);
                }
                let (bw, bh) = batch_min_dims(&images);
                proof {
                    lemma_batch_min_is_componentwise_min(images@);
                }
                Ok(resize_batch_to(images, bw, bh, self.filter))
            },
            ResizeMode::Max => {
                if images.len() == 0 {
                    return Err(MkpdfError::EmptyBatch);
                }
                let (bw, bh) = batch_max_dims(&images);
                proof {
                    lemma_batch_max_is_componentwise_max(images@);
                }
                Ok(resize_batch_to(images, bw, bh, self.filter))
            },
        }
    }
}

/// Resizes a single image under a policy: `Original` hands it back
/// untouched, `Custom` scales it to fit the policy's resolution with the
/// configured filter, and the aggregate modes — which only make sense over
/// a batch — are rejected as a configuration error.
pub fn resize_image(image: RasterImage, r_info: &ResizeInfo) -> (r: Result<RasterImage, MkpdfError>)
    requires
        r_info.wf(),
        image.wf(),
    ensures
        r_info.mode is Original ==> r == Ok::<RasterImage, MkpdfError>(image),
        r_info.mode is Custom ==> r is Ok && resized_to_fit(
            image,
            r.unwrap(),
            r_info.new_resolution.unwrap().0,
            r_info.new_resolution.unwrap().1,
        ),
        r is Err <==> (r_info.mode is Min || r_info.mode is Max),
        r is Err ==> r == Err::<RasterImage, MkpdfError>(MkpdfError::Configuration),
{
    match r_info.mode {
        ResizeMode::Original => Ok(image),
        ResizeMode::Custom => {
            let (bw, bh) = r_info.new_resolution.unwrap();
            Ok(resize_fit(&image, bw, bh, r_info.filter))
        },
        ResizeMode::Min => Err(MkpdfError::Configuration),
        ResizeMode::Max => Err(MkpdfError::Configuration),
    }
}

/// The component-wise minimum dimensions of a non-empty batch.
fn batch_min_dims(images: &Vec<RasterImage>) -> (r: (u32, u32))
    requires
        images@.len() >= 1,
    ensures
        r == (batch_min_width(images@), batch_min_height(images@)),
{
    let mut w = images[0].width();
    let mut h = images[0].height();
    let mut i: usize = 1;
    while i < images.len()
        invariant
            1 <= i <= images@.len(),
            w == batch_min_width(images@.subrange(0, i as int)),
            h == batch_min_height(images@.subrange(0, i as int)),
        decreases images@.len() - i,
    {
        let iw = images[i].width();
        let ih = images[i].height();
        proof {
            assert(images@.subrange(0, i + 1).drop_last() =~= images@.subrange(0, i as int));
            assert(images@.subrange(0, i + 1).last() == images@[i as int]);
        }
        if iw < w {
            w = iw;
        }
        if ih < h {
            h = ih;
        }
        i += 1;
    }
    proof {
        assert(images@.subrange(0, images@.len() as int) =~= images@);
    }
    (w, h)
}

/// The component-wise maximum dimensions of a non-empty batch.
fn batch_max_dims(images: &Vec<RasterImage>) -> (r: (u32, u32))
    requires
        images@.len() >= 1,
    ensures
        r == (batch_max_width(images@), batch_max_height(images@)),
{
    let mut w = images[0].width();
    let mut h = images[0].height();
    let mut i: usize = 1;
    while i < images.len()
        invariant
            1 <= i <= images@.len(),
            w == batch_max_width(images@.subrange(0, i as int)),
            h == batch_max_height(images@.subrange(0, i as int)),
        decreases images@.len() - i,
    {
        let iw = images[i].width();
        let ih = images[i].height();
        proof {
            assert(images@.subrange(0, i + 1).drop_last() =~= images@.subrange(0, i as int));
            assert(images@.subrange(0, i + 1).last() == images@[i as int]);
        }
        if iw > w {
            w = iw;
        }
        if ih > h {
            h = ih;
        }
        i += 1;
    }
    proof {
        assert(images@.subrange(0, images@.len() as int) =~= images@);
    }
    (w, h)
}

/// Relies on `image::DynamicImage::resize`: it scales to the maximum size
/// that fits within the `bw` by `bh` bounds, preserving aspect ratio, and
/// never returns a zero-sized image (the codec clamps each rounded
/// dimension to at least one pixel). When the aspect ratios of the image
/// and of the box agree exactly, both rounded dimensions land on the box
/// itself. Dimensions depend on the inputs' dimensions alone, never on the
/// filter.
#[verifier::external_body]
fn resize_fit(img: &RasterImage, bw: u32, bh: u32, filter: ResizeFilter) -> (r: RasterImage)
    requires
        img.wf(),
        bw >= 1,
        bh >= 1,
    ensures
        (r.spec_width(), r.spec_height()) == fit_dims(img.spec_width(), img.spec_height(), bw, bh),
        resized_to_fit(*img, r, bw, bh),
{
    let f = match filter {
        ResizeFilter::Nearest => image::imageops::FilterType::Nearest,
        ResizeFilter::Triangle => image::imageops::FilterType::Triangle,
        ResizeFilter::CatmullRom => image::imageops::FilterType::CatmullRom,
        ResizeFilter::Lanczos3 => image::imageops::FilterType::Lanczos3,
        ResizeFilter::Gaussian => image::imageops::FilterType::Gaussian,
    };
    let out = img.as_dynamic().resize(bw, bh, f);
    let width = out.width();
    let height = out.height();
    RasterImage::from_parts(out, width, height)
}

/// The shared scale-to-fit pass: every mode that resizes funnels its batch
/// through this one routine, so all modes share identical arithmetic.
fn resize_batch_to(images: Vec<RasterImage>, bw: u32, bh: u32, filter: ResizeFilter) -> (r: Vec<
    RasterImage,
>)
    requires
        bw >= 1,
        bh >= 1,
        forall|i: int| 0 <= i < images@.len() ==> (#[trigger] images@[i]).wf(),
    ensures
        r@.len() == images@.len(),
        forall|i: int|
            0 <= i < images@.len() ==> #[trigger] resized_to_fit(images@[i], r@[i], bw, bh),
{
    let mut out: Vec<RasterImage> = Vec::new();
    let mut i: usize = 0;
    while i < images.len()
        invariant
            0 <= i <= images@.len(),
            out@.len() == i,
            bw >= 1,
            bh >= 1,
            forall|j: int| 0 <= j < images@.len() ==> (#[trigger] images@[j]).wf(),
            forall|j: int|
                0 <= j < i ==> #[trigger] resized_to_fit(images@[j], out@[j], bw, bh),
        decreases images@.len() - i,
    {
        let resized = resize_fit(&images[i], bw, bh, filter);
        out.push(resized);
        i += 1;
    }
    out
}

} // verus!
