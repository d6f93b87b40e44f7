use image::DynamicImage;
use mkpdf::policy::{ResizeFilter, ResizeInfo, ResizeMode, DEFAULT_FILTER};
use mkpdf::raster::RasterImage;
use mkpdf::MkpdfError;

fn rgb(w: u32, h: u32) -> RasterImage {
    RasterImage::from_dynamic(DynamicImage::new_rgb8(w, h)).unwrap()
}

#[test]
fn original_mode_returns_batch_unchanged() {
    let info = ResizeInfo::new(ResizeMode::Original, None, None).unwrap();
    let mut img = image::RgbImage::new(5, 4);
    img.put_pixel(2, 3, image::Rgb([10, 200, 30]));
    img.put_pixel(0, 0, image::Rgb([1, 2, 3]));
    let dyn_img = DynamicImage::ImageRgb8(img.clone());
    let expected_bytes = dyn_img.as_bytes().to_vec();
    let batch = vec![RasterImage::from_dynamic(dyn_img).unwrap(), rgb(9, 7)];
    let out = info.resize_all(batch).unwrap();
    assert_eq!(out.len(), 2);
    assert_eq!(out[0].width(), 5);
    assert_eq!(out[0].height(), 4);
    assert_eq!(out[0].as_dynamic().as_bytes(), expected_bytes.as_slice());
    assert_eq!(out[1].width(), 9);
    assert_eq!(out[1].height(), 7);
}

#[test]
fn custom_mode_fits_bounds_and_keeps_aspect() {
    let info = ResizeInfo::new(ResizeMode::Custom, Some((300, 200)), None).unwrap();
    let batch = vec![rgb(640, 480), rgb(123, 456)];
    let out = info.resize_all(batch).unwrap();
    assert_eq!(out.len(), 2);
    for (r, (ow, oh)) in out.iter().zip([(640u32, 480u32), (123, 456)]) {
        assert!(r.width() <= 300 && r.height() <= 200);
        assert!(r.width() >= 1 && r.height() >= 1);
        // aspect ratio preserved within rounding tolerance of one pixel
        let ratio = f64::min(300.0 / ow as f64, 200.0 / oh as f64);
        let ew = (ow as f64 * ratio).round().max(1.0) as u32;
        let eh = (oh as f64 * ratio).round().max(1.0) as u32;
        assert_eq!((r.width(), r.height()), (ew, eh));
        assert_eq!((r.as_dynamic().width(), r.as_dynamic().height()), (ew, eh));
    }
}

#[test]
fn min_mode_takes_componentwise_minimum() {
    // asymmetric batch: target is (100, 50), no image's own size
    let info = ResizeInfo::new(ResizeMode::Min, None, None).unwrap();
    let batch = vec![rgb(100, 200), rgb(300, 50)];
    let out = info.resize_all(batch).unwrap();
    assert_eq!((out[0].width(), out[0].height()), (25, 50));
    assert_eq!((out[1].width(), out[1].height()), (100, 17));
}

#[test]
fn min_mode_three_images_scenario() {
    // target is the component-wise minimum (200, 500)
    let info = ResizeInfo::new(ResizeMode::Min, None, None).unwrap();
    let batch = vec![rgb(1000, 500), rgb(200, 800), rgb(600, 600)];
    let out = info.resize_all(batch).unwrap();
    assert_eq!((out[0].width(), out[0].height()), (200, 100));
    assert_eq!((out[1].width(), out[1].height()), (125, 500));
    assert_eq!((out[2].width(), out[2].height()), (200, 200));
}

#[test]
fn max_mode_scales_up_to_bounding_box() {
    // target is (800, 600); the matching aspect ratio lands exactly on it
    let info = ResizeInfo::new(ResizeMode::Max, None, None).unwrap();
    let batch = vec![rgb(800, 600), rgb(400, 300)];
    let out = info.resize_all(batch).unwrap();
    assert_eq!((out[0].width(), out[0].height()), (800, 600));
    assert_eq!((out[1].width(), out[1].height()), (800, 600));
    assert_eq!((out[1].as_dynamic().width(), out[1].as_dynamic().height()), (800, 600));
}

#[test]
fn max_mode_takes_componentwise_maximum() {
    let info = ResizeInfo::new(ResizeMode::Max, None, None).unwrap();
    let batch = vec![rgb(100, 200), rgb(300, 50)];
    // target (300, 200): outputs fit it and touch each bound
    let out = info.resize_all(batch).unwrap();
    assert_eq!((out[0].width(), out[0].height()), (100, 200));
    assert_eq!((out[1].width(), out[1].height()), (300, 50));
}

#[test]
fn empty_batch_under_min_is_an_error() {
    let info = ResizeInfo::new(ResizeMode::Min, None, None).unwrap();
    assert_eq!(info.resize_all(Vec::new()).unwrap_err(), MkpdfError::EmptyBatch);
}

#[test]
fn empty_batch_under_max_is_an_error() {
    let info = ResizeInfo::new(ResizeMode::Max, None, None).unwrap();
    assert_eq!(info.resize_all(Vec::new()).unwrap_err(), MkpdfError::EmptyBatch);
}

#[test]
fn empty_batch_under_original_is_fine() {
    let info = ResizeInfo::new(ResizeMode::Original, None, None).unwrap();
    assert_eq!(info.resize_all(Vec::new()).unwrap().len(), 0);
}

#[test]
fn custom_without_resolution_fails_at_construction() {
    assert_eq!(
        ResizeInfo::new(ResizeMode::Custom, None, None).unwrap_err(),
        MkpdfError::Configuration
    );
}

#[test]
fn zero_resolution_fails_at_construction() {
    assert_eq!(
        ResizeInfo::new(ResizeMode::Custom, Some((0, 600)), None).unwrap_err(),
        MkpdfError::Configuration
    );
    assert_eq!(
        ResizeInfo::new(ResizeMode::Original, Some((800, 0)), None).unwrap_err(),
        MkpdfError::Configuration
    );
}

#[test]
fn setters_keep_the_policy_valid() {
    let mut info = ResizeInfo::new(ResizeMode::Original, None, None).unwrap();
    // cannot switch to Custom while no resolution is set
    assert_eq!(info.set_mode(ResizeMode::Custom).unwrap_err(), MkpdfError::Configuration);
    assert_eq!(*info.mode(), ResizeMode::Original);
    info.set_resoluton(Some((800, 600))).unwrap();
    info.set_mode(ResizeMode::Custom).unwrap();
    assert_eq!(*info.mode(), ResizeMode::Custom);
    assert_eq!(*info.resolution(), Some((800, 600)));
    // cannot clear the resolution while the mode is Custom
    assert_eq!(info.set_resoluton(None).unwrap_err(), MkpdfError::Configuration);
    assert_eq!(*info.resolution(), Some((800, 600)));
    // a zero component is rejected
    assert_eq!(info.set_resoluton(Some((800, 0))).unwrap_err(), MkpdfError::Configuration);
}

#[test]
fn filter_defaults_to_triangle() {
    let info = ResizeInfo::new(ResizeMode::Original, None, None).unwrap();
    assert_eq!(*info.filter(), ResizeFilter::Triangle);
    assert_eq!(DEFAULT_FILTER, ResizeFilter::Triangle);
    let mut info = ResizeInfo::new(ResizeMode::Original, None, Some(ResizeFilter::Lanczos3))
        .unwrap();
    assert_eq!(*info.filter(), ResizeFilter::Lanczos3);
    info.set_filter(None);
    assert_eq!(*info.filter(), ResizeFilter::Triangle);
    info.set_filter(Some(ResizeFilter::Gaussian));
    assert_eq!(*info.filter(), ResizeFilter::Gaussian);
}

#[test]
fn resize_image_single() {
    let info = ResizeInfo::new(ResizeMode::Original, None, None).unwrap();
    let out = mkpdf::policy::resize_image(rgb(33, 44), &info).unwrap();
    assert_eq!((out.width(), out.height()), (33, 44));

    let info = ResizeInfo::new(ResizeMode::Custom, Some((400, 300)), None).unwrap();
    let out = mkpdf::policy::resize_image(rgb(800, 600), &info).unwrap();
    assert_eq!((out.width(), out.height()), (400, 300));

    let info = ResizeInfo::new(ResizeMode::Min, None, None).unwrap();
    assert_eq!(
        mkpdf::policy::resize_image(rgb(10, 10), &info).unwrap_err(),
        MkpdfError::Configuration
    );
}
