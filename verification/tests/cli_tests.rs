use mkpdf::cli::{
    has_pdf_suffix, is_long_option, is_short_option, parse_filter_name, parse_resize_spec,
    parse_resolution, title_of,
};
use mkpdf::policy::{ResizeFilter, ResizeMode};
use mkpdf::MkpdfError;

#[test]
fn resolution_strings_parse_exactly() {
    assert_eq!(parse_resolution("800x600"), Some((800, 600)));
    assert_eq!(parse_resolution("1024x768"), Some((1024, 768)));
    assert_eq!(parse_resolution("999x100"), Some((999, 100)));
    assert_eq!(parse_resolution("1920x1080"), Some((1920, 1080)));
    assert_eq!(parse_resolution("100x9999"), Some((100, 9999)));
}

#[test]
fn malformed_resolution_strings_are_rejected() {
    assert_eq!(parse_resolution(""), None);
    assert_eq!(parse_resolution("800"), None);
    assert_eq!(parse_resolution("80x600"), None); // two-digit side
    assert_eq!(parse_resolution("800x60"), None);
    assert_eq!(parse_resolution("0800x600"), None); // leading zero
    assert_eq!(parse_resolution("800x0600"), None);
    assert_eq!(parse_resolution("12345x678"), None); // five-digit side
    assert_eq!(parse_resolution("800X600"), None); // capital separator
    assert_eq!(parse_resolution("800x600x"), None);
    assert_eq!(parse_resolution("x800x600"), None);
    assert_eq!(parse_resolution("abcxdef"), None);
    assert_eq!(parse_resolution("800 600"), None);
    assert_eq!(parse_resolution("8O0x600"), None); // letter O, not zero
}

#[test]
fn filter_vocabulary_maps_every_name() {
    for name in ["nearest", "low", "fast"] {
        assert_eq!(parse_filter_name(name), Some(ResizeFilter::Nearest));
    }
    for name in ["linear", "good", "triangle"] {
        assert_eq!(parse_filter_name(name), Some(ResizeFilter::Triangle));
    }
    for name in ["lanczos", "best", "slow"] {
        assert_eq!(parse_filter_name(name), Some(ResizeFilter::Lanczos3));
    }
    for name in ["cubic", "better", "catmullrom"] {
        assert_eq!(parse_filter_name(name), Some(ResizeFilter::CatmullRom));
    }
    for name in ["gaussian", "blur"] {
        assert_eq!(parse_filter_name(name), Some(ResizeFilter::Gaussian));
    }
    assert_eq!(parse_filter_name("sharp"), None);
    assert_eq!(parse_filter_name(""), None);
    assert_eq!(parse_filter_name("Nearest"), None);
}

#[test]
fn resize_spec_words() {
    assert_eq!(parse_resize_spec("min"), Ok((ResizeMode::Min, None)));
    assert_eq!(parse_resize_spec("max"), Ok((ResizeMode::Max, None)));
    assert_eq!(
        parse_resize_spec("800x600"),
        Ok((ResizeMode::Custom, Some((800, 600))))
    );
    assert_eq!(parse_resize_spec("tiny"), Err(MkpdfError::Configuration));
    assert_eq!(parse_resize_spec("80x60"), Err(MkpdfError::Configuration));
}

#[test]
fn title_strips_every_trailing_pdf_extension() {
    assert_eq!(title_of("out.pdf"), "out");
    assert_eq!(title_of("album"), "album");
    assert_eq!(title_of("a.pdf.pdf"), "a");
    assert_eq!(title_of("archive.tar"), "archive.tar");
    assert_eq!(title_of(".pdf"), "");
    assert_eq!(title_of("x.PDF"), "x.PDF"); // case-sensitive
}

#[test]
fn option_classification() {
    assert!(is_short_option("-h"));
    assert!(is_short_option("-rv"));
    assert!(is_short_option("-9"));
    assert!(!is_short_option("-"));
    assert!(!is_short_option("--help"));
    assert!(!is_short_option("out.pdf"));
    assert!(!is_short_option(""));
    assert!(is_long_option("--help"));
    assert!(is_long_option("--resize-filter"));
    assert!(!is_long_option("--"));
    assert!(!is_long_option("-h"));
    assert!(!is_long_option("photo.png"));
}

#[test]
fn pdf_suffix_detection() {
    assert!(has_pdf_suffix("out.pdf"));
    assert!(has_pdf_suffix(".pdf"));
    assert!(!has_pdf_suffix("pdf"));
    assert!(!has_pdf_suffix("out.pd"));
    assert!(!has_pdf_suffix("out.pdfx"));
}
