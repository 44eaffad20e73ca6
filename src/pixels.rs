//! Decoded pixel buffers and the work that the `image` and `webp` crates do on them.

use image::GenericImageView;
use vstd::prelude::*;

verus! {

#[verifier::external_type_specification]
#[verifier::external_body]
pub struct ExDynamicImage(::image::DynamicImage);

#[verifier::external_type_specification]
#[verifier::external_body]
pub struct ExImageError(::image::ImageError);

/// What the library knows of a pixel buffer: its size and its pixel layout.
pub ghost struct PixelView {
    pub width: nat,
    pub height: nat,
    pub color: image::ColorType,
}

/// A decoded image. Its width, height and layout are read from the decoded
/// value whenever one is made, and never change afterwards.
pub struct PixelBuffer {
    data: image::DynamicImage,
    width: u32,
    height: u32,
    color: image::ColorType,
}

impl View for PixelBuffer {
    type V = PixelView;

    closed spec fn view(&self) -> PixelView {
        PixelView { width: self.width as nat, height: self.height as nat, color: self.color }
    }
}

/// The largest number of bytes that one pixel of a decoded image takes.
pub open spec fn max_pixel_bytes() -> nat {
    16
}

/// Resizing a `width` x `height` image to `size` x `size` stays within memory
/// that a `usize` can count, intermediate image included.
pub open spec fn resize_fits(width: nat, height: nat, size: nat) -> bool {
    (width + height) * (width + height) * size * size * max_pixel_bytes() <= usize::MAX
}

/// What resizing a pixel buffer to `size` x `size` gives: that size, the same layout.
pub open spec fn resized(v: PixelView, size: nat) -> PixelView {
    PixelView { width: size, height: size, color: v.color }
}

/// Resizing twice to the same size gives the dimensions of resizing once.
pub proof fn lemma_resize_idempotent(v: PixelView, size: nat)
    requires
        size >= 1,
    ensures
        resized(resized(v, size), size) == resized(v, size),
        resized(resized(v, size), size).width == size,
        resized(resized(v, size), size).height == size,
{
}

/// The layouts that the lossy web encoder takes.
pub open spec fn is_webp_layout(c: image::ColorType) -> bool {
    c == image::ColorType::Rgb8 || c == image::ColorType::Rgba8
}

/// The encoding that the `image` crate reads from the first bytes of a file.
pub uninterp spec fn sniffed_format(bytes: Seq<u8>) -> Option<image::ImageFormat>;

/// What the `image` crate decodes from `bytes` in the given encoding.
pub uninterp spec fn generic_decoded(bytes: Seq<u8>, format: image::ImageFormat) -> Option<PixelView>;

/// What the `webp` crate decodes from `bytes`.
pub uninterp spec fn webp_decoded(bytes: Seq<u8>) -> Option<PixelView>;

pub open spec fn opt_pixels(o: Option<PixelBuffer>) -> Option<PixelView> {
    match o {
        Some(p) => Some(p@),
        None => None,
    }
}

impl PixelBuffer {
    /// Relies on `image::ImageBuffer::from_raw`: it takes a buffer of RGBA samples
    /// that holds at least `4 * width * height` bytes.
    #[verifier::external_body]
    pub fn from_rgba(width: u32, height: u32, samples: Vec<u8>) -> (r: Option<PixelBuffer>)
        ensures
            r is Some <==> 4 * width * height <= samples.len(),
            r is Some ==> r->Some_0@ == (PixelView { width: width as nat, height: height as nat, color: image::ColorType::Rgba8 }),
    {
        image::RgbaImage::from_raw(width, height, samples).map(|b| PixelBuffer {
            data: image::DynamicImage::ImageRgba8(b), width, height, color: image::ColorType::Rgba8,
        })
    }

    /// Relies on `image::ImageBuffer::from_pixel`: a `size` x `size` image whose
    /// pixels all have the colour `rgba`.
    #[verifier::external_body]
    pub fn filled(size: u32, rgba: [u8; 4]) -> (r: PixelBuffer)
        requires
            4 * size * size <= usize::MAX,
        ensures
            r@ == (PixelView { width: size as nat, height: size as nat, color: image::ColorType::Rgba8 }),
    {
        let b = image::RgbaImage::from_pixel(size, size, image::Rgba(rgba));
        PixelBuffer { data: image::DynamicImage::ImageRgba8(b), width: size, height: size, color: image::ColorType::Rgba8 }
    }

    pub fn width(&self) -> (r: u32)
        ensures
            r == self@.width,
    {
        self.width
    }

    pub fn height(&self) -> (r: u32)
        ensures
            r == self@.height,
    {
        self.height
    }

    pub fn color(&self) -> (r: image::ColorType)
        ensures
            r == self@.color,
    {
        self.color
    }

    /// Whether resizing to `size` x `size` stays within memory that a `usize` can count.
    pub fn can_resize(&self, size: u32) -> (r: bool)
        ensures
            r == resize_fits(self@.width, self@.height, size as nat),
    {
        let span: u128 = self.width as u128 + self.height as u128;
        let n: u128 = size as u128;
        if n == 0 {
            assert(span * span * n * n * 16 == 0) by (nonlinear_arith)
                requires
                    n == 0,
            ;
            return true;
        }
        let limit: u128 = usize::MAX as u128;
        assert(span * span * 16 <= 0x10_0000_0000_0000_0000 * 16) by (nonlinear_arith)
            requires
                span <= 0x2_0000_0000,
        ;
        assert(n * n <= 0x1_0000_0000_0000_0000) by (nonlinear_arith)
            requires
                n <= 0xffff_ffff,
        ;
        let a: u128 = span * span * 16;
        assert(n * n > 0) by (nonlinear_arith)
            requires
                n > 0,
        ;
        let b: u128 = n * n;
        proof {
            let x = a as int;
            let y = b as int;
            let l = limit as int;
            assert(x * y <= l <==> x <= l / y) by (nonlinear_arith)
                requires
                    y > 0,
                    x >= 0,
                    l >= 0,
            ;
            assert(x * y == span * span * n * n * 16) by (nonlinear_arith)
                requires
                    x == span * span * 16,
                    y == n * n,
            ;
        }
        a <= limit / b
    }

    /// Relies on `image::DynamicImage::resize_to_fill` with the Lanczos filter: the
    /// image is scaled to cover `size` x `size` and cropped to exactly that; the
    /// layout is kept.
    #[verifier::external_body]
    pub fn resize_to_fill(&self, size: u32) -> (r: PixelBuffer)
        requires
            size >= 1,
            self@.width >= 1,
            self@.height >= 1,
            resize_fits(self@.width, self@.height, size as nat),
        ensures
            r@ == resized(self@, size as nat),
    {
        let d = self.data.resize_to_fill(size, size, image::imageops::FilterType::Lanczos3);
        PixelBuffer { width: d.width(), height: d.height(), color: d.color(), data: d }
    }

    /// Relies on `image::DynamicImage::to_rgba8`: the same image in 8-bit RGBA. The
    /// new buffer's length must fit in a `usize`.
    #[verifier::external_body]
    pub fn to_rgba8(&self) -> (r: PixelBuffer)
        requires
            4 * self@.width * self@.height <= usize::MAX,
        ensures
            r@ == (PixelView { width: self@.width, height: self@.height, color: image::ColorType::Rgba8 }),
    {
        let d = image::DynamicImage::ImageRgba8(self.data.to_rgba8());
        PixelBuffer { width: d.width(), height: d.height(), color: d.color(), data: d }
    }

    /// The same image in a layout that the lossy web encoder takes: unchanged
    /// where it is 8-bit RGB or RGBA, else converted to 8-bit RGBA.
    pub fn to_rgba8_unless_webp_ready(&self) -> (r: PixelBuffer)
        requires
            4 * self@.width * self@.height <= usize::MAX,
        ensures
            r@.width == self@.width,
            r@.height == self@.height,
            is_webp_layout(r@.color),
            is_webp_layout(self@.color) ==> r@ == self@,
    {
        match self.color {
            image::ColorType::Rgb8 | image::ColorType::Rgba8 => self.clone(),
            _ => self.to_rgba8(),
        }
    }

    /// Relies on `image::DynamicImage::write_to`, with the writer that
    /// `image::ImageOutputFormat::from` gives for `format`.
    #[verifier::external_body]
    pub fn encode(&self, format: image::ImageFormat) -> (r: Result<Vec<u8>, image::ImageError>) {
        let mut out = std::io::Cursor::new(Vec::new());
        self.data.write_to(&mut out, image::ImageOutputFormat::from(format))?;
        Ok(out.into_inner())
    }

    /// Relies on `image::DynamicImage::clone`: a copy of the same image.
    #[verifier::external_body]
    pub fn clone(&self) -> (r: PixelBuffer)
        ensures
            r@ == self@,
    {
        PixelBuffer { data: self.data.clone(), width: self.width, height: self.height, color: self.color }
    }

    /// The decoded value, for the encoders that run outside the library.
    pub fn as_dynamic(&self) -> &image::DynamicImage {
        &self.data
    }
}

/// Relies on `image::guess_format`: the encoding read from the first bytes.
#[verifier::external_body]
pub fn guess_format(bytes: &[u8]) -> (r: Option<image::ImageFormat>)
    ensures
        r == sniffed_format(bytes@),
{
    image::guess_format(bytes).ok()
}

/// Relies on `image::load_from_memory_with_format`: `bytes` decoded as `format`.
#[verifier::external_body]
pub fn decode_generic(bytes: &[u8], format: image::ImageFormat) -> (r: Result<PixelBuffer, image::ImageError>)
    ensures
        match r {
            Ok(p) => generic_decoded(bytes@, format) == Some(p@),
            Err(_) => generic_decoded(bytes@, format) is None,
        },
{
    image::load_from_memory_with_format(bytes, format)
        .map(|d| PixelBuffer { width: d.width(), height: d.height(), color: d.color(), data: d })
}

/// Relies on `webp::Decoder::decode` and `webp::WebPImage::to_image`.
#[verifier::external_body]
pub fn decode_webp(bytes: &[u8]) -> (r: Option<PixelBuffer>)
    ensures
        opt_pixels(r) == webp_decoded(bytes@),
{
    webp::Decoder::new(bytes).decode().map(|w| w.to_image())
        .map(|d| PixelBuffer { width: d.width(), height: d.height(), color: d.color(), data: d })
}

/// The message of an error of the `image` crate.
pub fn image_error_text(e: &image::ImageError) -> String {
    e.to_string()
}

} // verus!
