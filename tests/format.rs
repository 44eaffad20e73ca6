use favicon_rover::format::{
    choose_output_format, format_for_mime, format_for_negotiated, mime_type, negotiate_format, negotiate_mime,
    supported_output_formats, supported_output_mime_types, ImageFormatOutput,
};
use image::ImageFormat;

#[test]
fn webp_preferred_over_png() {
    let offered = supported_output_mime_types();
    let f = negotiate_format(Some("image/webp,image/png;q=0.5"), &offered, ImageFormat::Jpeg);
    assert_eq!(f, ImageFormat::WebP);
}

#[test]
fn higher_quality_wins_whatever_the_order() {
    let offered = supported_output_mime_types();
    let f = negotiate_format(Some("image/png;q=0.5,image/gif"), &offered, ImageFormat::Jpeg);
    assert_eq!(f, ImageFormat::Gif);
}

#[test]
fn negotiation_defaults() {
    let offered = supported_output_mime_types();
    assert_eq!(negotiate_format(None, &offered, ImageFormat::Jpeg), ImageFormat::Jpeg);
    assert_eq!(negotiate_format(Some("text/html"), &offered, ImageFormat::Jpeg), ImageFormat::Jpeg);
    assert_eq!(negotiate_format(Some("image/png;q=7"), &offered, ImageFormat::Jpeg), ImageFormat::Jpeg);
    assert_eq!(negotiate_format(Some("*/*"), &offered, ImageFormat::Jpeg), ImageFormat::Png);
}

#[test]
fn negotiated_mime_is_one_offered() {
    let offered = vec!["image/png".to_string(), "image/webp".to_string()];
    assert_eq!(negotiate_mime("image/webp", &offered), Some("image/webp".to_string()));
    assert_eq!(negotiate_mime("image/avif", &offered), None);
}

#[test]
fn mime_types_both_ways() {
    assert_eq!(mime_type(ImageFormat::Ico), "image/x-icon");
    assert_eq!(mime_type(ImageFormat::Farbfeld), "application/octet-stream");
    assert_eq!(format_for_mime("image/x-tga"), Some(ImageFormat::Tga));
    assert_eq!(format_for_mime("application/octet-stream"), None);
    assert_eq!(format_for_negotiated(Some("application/octet-stream".to_string()), ImageFormat::Jpeg), ImageFormat::Jpeg);
    assert_eq!(format_for_negotiated(Some("image/bmp".to_string()), ImageFormat::Jpeg), ImageFormat::Bmp);
}

#[test]
fn catalogue_is_in_order() {
    let formats = supported_output_formats();
    let mimes = supported_output_mime_types();
    assert_eq!(formats.len(), 14);
    assert_eq!(mimes.len(), 14);
    assert_eq!(mimes[0], "image/png");
    assert_eq!(mimes[3], "image/webp");
    assert_eq!(mimes[13], "image/x-qoi");
}

#[test]
fn named_formats() {
    assert_eq!(ImageFormat::from(ImageFormatOutput::Webp), ImageFormat::WebP);
    assert_eq!(ImageFormat::from(ImageFormatOutput::Tiff), ImageFormat::Tiff);
    assert_eq!(choose_output_format(Some(ImageFormatOutput::Gif), Some(ImageFormat::Png), ImageFormat::Png), ImageFormat::Gif);
    assert_eq!(choose_output_format(None, Some(ImageFormat::Bmp), ImageFormat::Png), ImageFormat::Bmp);
    assert_eq!(choose_output_format(None, None, ImageFormat::Png), ImageFormat::Png);
}
