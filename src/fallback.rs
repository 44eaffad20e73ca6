//! The placeholder that stands in for an icon that could not be had: a grey
//! square with the first letter of a name.

use vstd::prelude::*;

use crate::favicon::FaviconImage;
use crate::pixels::{PixelBuffer, PixelView};
use crate::text::{ascii_upper, char_text, to_ascii_upper};

verus! {

/// The font family that the placeholder's letter is set in.
pub const FALLBACK_FONT_FAMILY: &'static str = "arial";

/// The grey of the placeholder's background, as RGBA.
pub const FALLBACK_GREY: [u8; 4] = [0x66, 0x66, 0x66, 0xff];

/// The letter that a placeholder shows for `name`: its first character in upper
/// case, or `?` for an empty name.
pub open spec fn glyph_of(name: Seq<char>) -> char {
    if name.len() == 0 {
        '?'
    } else {
        ascii_upper(name[0])
    }
}

pub open spec fn svg_head() -> Seq<char> {
    "<svg viewBox=\"0 0 256 256\" xmlns=\"http://www.w3.org/2000/svg\"><rect width=\"100%\" height=\"100%\" fill=\"#666666\" /><text x=\"50%\" y=\"58%\" font-family=\""@
}

pub open spec fn svg_text_attributes() -> Seq<char> {
    "\" font-size=\"200\" fill=\"#FFFFFF\" dominant-baseline=\"middle\" text-anchor=\"middle\">"@
}

pub open spec fn svg_tail() -> Seq<char> {
    "</text></svg>"@
}

/// The placeholder document for `name`: a 256 x 256 grey square with the letter
/// centred in white.
pub open spec fn fallback_document(name: Seq<char>) -> Seq<char> {
    svg_head() + FALLBACK_FONT_FAMILY@ + svg_text_attributes() + seq![glyph_of(name)] + svg_tail()
}

/// The letter that a placeholder shows for `name`.
pub fn fallback_glyph(name: &str) -> (r: char)
    ensures
        r == glyph_of(name@),
{
    if name.unicode_len() == 0 {
        '?'
    } else {
        to_ascii_upper(name.get_char(0))
    }
}

/// The vector document of the placeholder for `name`.
pub fn fallback_svg(name: &str) -> (r: String)
    ensures
        r@ == fallback_document(name@),
{
    let glyph = char_text(fallback_glyph(name));
    let head = "<svg viewBox=\"0 0 256 256\" xmlns=\"http://www.w3.org/2000/svg\"><rect width=\"100%\" height=\"100%\" fill=\"#666666\" /><text x=\"50%\" y=\"58%\" font-family=\"";
    let attributes = "\" font-size=\"200\" fill=\"#FFFFFF\" dominant-baseline=\"middle\" text-anchor=\"middle\">";
    let tail = "</text></svg>";
    String::from_str(head).concat(FALLBACK_FONT_FAMILY).concat(attributes).concat(glyph.as_str()).concat(tail)
}

/// A size that the placeholder can be drawn at: at least one pixel, and an RGBA
/// square of it fits in memory that a `usize` can count.
pub open spec fn drawable_size(size: nat) -> bool {
    1 <= size && 4 * size * size <= usize::MAX
}

/// Whether `size` is a size that the placeholder can be drawn at.
pub fn is_drawable_size(size: u32) -> (r: bool)
    ensures
        r == drawable_size(size as nat),
{
    let n: u128 = size as u128;
    assert(4 * n * n <= 4 * 0xffff_ffff * 0xffff_ffff) by (nonlinear_arith)
        requires
            n <= 0xffff_ffff,
    ;
    1 <= n && 4 * n * n <= usize::MAX as u128
}

/// `img` is the placeholder at `size` x `size` made from `rendered`: the
/// rendering where it came out at that size, else a grey 8-bit RGBA square; no
/// output encoding yet.
pub open spec fn is_placeholder(img: FaviconImage, rendered: Option<PixelBuffer>, size: nat) -> bool {
    &&& img.format is None
    &&& match rendered {
        Some(p) => if p@.width == size && p@.height == size {
            img.data == p
        } else {
            img.data@ == (PixelView { width: size, height: size, color: image::ColorType::Rgba8 })
        },
        None => img.data@ == (PixelView { width: size, height: size, color: image::ColorType::Rgba8 }),
    }
}

/// The placeholder image at `size` x `size`: the rendering of the placeholder
/// document where it came out at that size, else a plain grey square. It has no
/// output encoding yet.
pub fn generate_fallback(rendered: Option<PixelBuffer>, size: u32) -> (r: FaviconImage)
    requires
        drawable_size(size as nat),
    ensures
        r.data@.width == size,
        r.data@.height == size,
        is_placeholder(r, rendered, size as nat),
{
    match rendered {
        Some(p) => {
            if p.width() == size && p.height() == size {
                FaviconImage { data: p, format: None }
            } else {
                FaviconImage { data: PixelBuffer::filled(size, FALLBACK_GREY), format: None }
            }
        },
        None => FaviconImage { data: PixelBuffer::filled(size, FALLBACK_GREY), format: None },
    }
}

} // verus!
