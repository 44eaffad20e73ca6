//! Favicons: a decoded image with the encoding it should be written in, and the
//! outcome of one resolution, real or substituted.

use vstd::prelude::*;

use crate::pixels::{image_error_text, is_webp_layout, resize_fits, resized, PixelBuffer};
use crate::format::has_writer;
use crate::text::{decimal_digits, decimal_text};

verus! {

/// A decoded image and the encoding it is to be written in, if one was chosen.
pub struct FaviconImage {
    pub data: PixelBuffer,
    pub format: Option<image::ImageFormat>,
}

/// A favicon whose pixel buffer is not empty.
pub open spec fn image_ok(img: FaviconImage) -> bool {
    img.data@.width >= 1 && img.data@.height >= 1
}

/// What an image turns into on its way out.
pub enum Encoded {
    /// The bytes of the file, from the generic encoder.
    Bytes(Vec<u8>),
    /// The pixels, in 8-bit RGB or RGBA, for the lossy web encoder.
    Webp(PixelBuffer),
}

/// Why an image could not be written.
#[derive(Debug)]
pub enum WriteImageError {
    /// The generic encoder failed; its message.
    ImageError(String),
    /// No encoder takes the image in the asked encoding.
    UnsupportedImageFormat,
    /// Writing the bytes failed; the message.
    IOError(String),
}

impl FaviconImage {
    /// Resized to `size` x `size`, filling the square and cropping what is over.
    pub fn resize(self, size: u32) -> (r: Self)
        requires
            size >= 1,
            image_ok(self),
            resize_fits(self.data@.width, self.data@.height, size as nat),
        ensures
            r.data@ == resized(self.data@, size as nat),
            r.format == self.format,
    {
        let data = self.data.resize_to_fill(size);
        FaviconImage { data, format: self.format }
    }

    /// The same pixels, to be written as `format`.
    pub fn reformat(self, format: image::ImageFormat) -> (r: Self)
        ensures
            r.data == self.data,
            r.format == Some(format),
    {
        FaviconImage { data: self.data, format: Some(format) }
    }

    /// Whether the image can be handed to [`FaviconImage::write_to`] for `format`:
    /// the lossy web encoding may need an RGBA copy, whose length must fit in a `usize`.
    pub fn can_write_to(&self, format: image::ImageFormat) -> (r: bool)
        ensures
            r == (format == image::ImageFormat::WebP ==> 4 * self.data@.width * self.data@.height <= usize::MAX),
    {
        if !crate::format::is_webp(format) {
            return true;
        }
        let w: u128 = self.data.width() as u128;
        let h: u128 = self.data.height() as u128;
        assert(4 * w * h <= 4 * 0xffff_ffff * 0xffff_ffff) by (nonlinear_arith)
            requires
                w <= 0xffff_ffff,
                h <= 0xffff_ffff,
        ;
        4 * w * h <= usize::MAX as u128
    }

    /// Serializes the image as `format`. The lossy web encoding is handed out as
    /// pixels in a layout its encoder takes; every other encoding goes through the
    /// generic encoder, and one it has no writer for is an unsupported format.
    pub fn write_to(&self, format: image::ImageFormat) -> (r: Result<Encoded, WriteImageError>)
        requires
            format == image::ImageFormat::WebP ==> 4 * self.data@.width * self.data@.height <= usize::MAX,
        ensures
            format == image::ImageFormat::WebP ==> (r matches Ok(Encoded::Webp(p)) && p@.width
                == self.data@.width && p@.height == self.data@.height && is_webp_layout(p@.color)),
            format != image::ImageFormat::WebP && has_writer(format) ==> (r matches Ok(Encoded::Bytes(_))
                || r matches Err(WriteImageError::ImageError(_))),
            !has_writer(format) ==> r matches Err(WriteImageError::UnsupportedImageFormat),
    {
        if crate::format::is_webp(format) {
            return Ok(Encoded::Webp(self.write_to_webp()));
        }
        if !crate::format::has_generic_writer(format) {
            return Err(WriteImageError::UnsupportedImageFormat);
        }
        match self.data.encode(format) {
            Ok(bytes) => Ok(Encoded::Bytes(bytes)),
            Err(e) => Err(WriteImageError::ImageError(image_error_text(&e))),
        }
    }

    fn write_to_webp(&self) -> (r: PixelBuffer)
        requires
            4 * self.data@.width * self.data@.height <= usize::MAX,
        ensures
            r@.width == self.data@.width,
            r@.height == self.data@.height,
            is_webp_layout(r@.color),
    {
        self.data.to_rgba8_unless_webp_ready()
    }
}

/// Why a real favicon could not be had.
#[derive(Debug)]
pub enum FetchFaviconError {
    /// A request failed; the transport's message.
    Network(String),
    /// The server answered the icon request with a status other than success.
    HttpStatus(u16),
    /// The decoding task could not run to its end; its message.
    TokioError(String),
    /// The decoder refused the bytes; its message.
    ImageError(String),
    /// The requested address is no URL.
    InvalidUrl,
    /// The bytes are in no encoding that can be decoded.
    CannotDecode,
}

/// The text that explains a failure, as sent to clients.
pub open spec fn reason_text(e: FetchFaviconError) -> Seq<char> {
    match e {
        FetchFaviconError::Network(m) => m@,
        FetchFaviconError::HttpStatus(code) => "HTTP status "@ + decimal_digits(code as nat),
        FetchFaviconError::TokioError(m) => m@,
        FetchFaviconError::ImageError(m) => "Failed to decode image: "@ + m@,
        FetchFaviconError::InvalidUrl => "Provided URL is not a valid url"@,
        FetchFaviconError::CannotDecode => "Cannot decode the image type"@,
    }
}

impl FetchFaviconError {
    /// The text that explains the failure.
    pub fn reason(&self) -> (r: String)
        ensures
            r@ == reason_text(*self),
    {
        match self {
            FetchFaviconError::Network(m) => m.clone(),
            FetchFaviconError::HttpStatus(code) => String::from_str("HTTP status ").concat(
                decimal_text(*code).as_str(),
            ),
            FetchFaviconError::TokioError(m) => m.clone(),
            FetchFaviconError::ImageError(m) => String::from_str("Failed to decode image: ").concat(
                m.as_str(),
            ),
            FetchFaviconError::InvalidUrl => String::from_str("Provided URL is not a valid url"),
            FetchFaviconError::CannotDecode => String::from_str("Cannot decode the image type"),
        }
    }
}

/// The outcome of one resolution: the real icon, or a placeholder and the reason
/// the real one could not be had.
pub enum Favicon {
    Image(FaviconImage),
    Fallback(FaviconImage, FetchFaviconError),
}

pub open spec fn image_of(f: Favicon) -> FaviconImage {
    match f {
        Favicon::Image(img) => img,
        Favicon::Fallback(img, _) => img,
    }
}

/// `b` is `a` with its image replaced by `img`.
pub open spec fn with_image(a: Favicon, b: Favicon, img: FaviconImage) -> bool {
    match (a, b) {
        (Favicon::Image(_), Favicon::Image(x)) => x == img,
        (Favicon::Fallback(_, e), Favicon::Fallback(x, e2)) => x == img && e2 == e,
        _ => false,
    }
}

impl Favicon {
    /// The image, whichever the outcome.
    pub fn image(&self) -> (r: &FaviconImage)
        ensures
            *r == image_of(*self),
    {
        match self {
            Favicon::Image(image) => image,
            Favicon::Fallback(image, _) => image,
        }
    }

    /// The failure that a placeholder stands for, if it is one.
    pub fn failure(&self) -> (r: Option<&FetchFaviconError>)
        ensures
            match self {
                Favicon::Image(_) => r is None,
                Favicon::Fallback(_, e) => r matches Some(x) && *x == e,
            },
    {
        match self {
            Favicon::Image(_) => None,
            Favicon::Fallback(_, e) => Some(e),
        }
    }

    /// Chooses the encoding the image is to be written in; the pixels stay.
    pub fn format(&mut self, format: image::ImageFormat)
        ensures
            with_image(*old(self), *final(self), FaviconImage { data: image_of(*old(self)).data, format: Some(format) }),
    {
        self.set_image_format(format)
    }

    fn set_image_format(&mut self, format: image::ImageFormat)
        ensures
            with_image(*old(self), *final(self), FaviconImage { data: image_of(*old(self)).data, format: Some(format) }),
    {
        match self {
            Favicon::Image(img) => {
                img.format = Some(format);
            },
            Favicon::Fallback(img, _) => {
                img.format = Some(format);
            },
        }
    }

    fn set_image_data(&mut self, data: PixelBuffer)
        ensures
            with_image(*old(self), *final(self), FaviconImage { data, format: image_of(*old(self)).format }),
    {
        match self {
            Favicon::Image(img) => {
                img.data = data;
            },
            Favicon::Fallback(img, _) => {
                img.data = data;
            },
        }
    }

    /// Resizes the image to `size` x `size`; the encoding and the outcome stay.
    pub fn resize(&mut self, size: u32)
        requires
            size >= 1,
            image_ok(image_of(*old(self))),
            resize_fits(image_of(*old(self)).data@.width, image_of(*old(self)).data@.height, size as nat),
        ensures
            image_of(*final(self)).data@ == resized(image_of(*old(self)).data@, size as nat),
            image_of(*final(self)).format == image_of(*old(self)).format,
            match (*old(self), *final(self)) {
                (Favicon::Image(_), Favicon::Image(_)) => true,
                (Favicon::Fallback(_, e), Favicon::Fallback(_, e2)) => e == e2,
                _ => false,
            },
    {
        let image = self.image();
        let data = image.data.resize_to_fill(size);
        self.set_image_data(data);
    }
}

} // verus!
