use favicon_rover::fallback::{fallback_glyph, fallback_svg, is_drawable_size, generate_fallback};
use favicon_rover::pixels::PixelBuffer;

#[test]
fn glyph_is_first_letter_upper() {
    assert_eq!(fallback_glyph("example.com"), 'E');
    assert_eq!(fallback_glyph("Zed"), 'Z');
    assert_eq!(fallback_glyph("9lives"), '9');
    assert_eq!(fallback_glyph(""), '?');
    assert_eq!(fallback_glyph("élan"), 'é');
}

#[test]
fn placeholder_document() {
    let svg = fallback_svg("github.com");
    assert!(svg.starts_with("<svg viewBox=\"0 0 256 256\""));
    assert!(svg.contains("fill=\"#666666\""));
    assert!(svg.contains("font-family=\"arial\""));
    assert!(svg.ends_with(">G</text></svg>"));
    assert!(fallback_svg("").contains(">?</text>"));
}

#[test]
fn placeholder_has_the_size_asked_for() {
    for size in [1u32, 16, 256] {
        let img = generate_fallback(None, size);
        assert_eq!((img.data.width(), img.data.height()), (size, size));
        assert_eq!(img.format, None);
    }
}

#[test]
fn rendering_of_the_wrong_size_is_replaced() {
    let wrong = PixelBuffer::from_rgba(3, 3, vec![0; 36]).unwrap();
    let img = generate_fallback(Some(wrong), 8);
    assert_eq!((img.data.width(), img.data.height()), (8, 8));
    let right = PixelBuffer::from_rgba(8, 8, vec![0; 256]).unwrap();
    let img = generate_fallback(Some(right), 8);
    assert_eq!((img.data.width(), img.data.height()), (8, 8));
}

#[test]
fn drawable_sizes() {
    assert!(is_drawable_size(1));
    assert!(is_drawable_size(256));
    assert!(!is_drawable_size(0));
}
