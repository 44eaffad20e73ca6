//! What the HTTP surface decides: the size asked for, and the response for a
//! resolved favicon with its headers.

use vstd::prelude::*;

use crate::fallback::{drawable_size, is_drawable_size};
use crate::favicon::{reason_text, Favicon, FaviconImage};
use crate::pixels::resized;
use crate::resolve::done_ok;
use crate::text::{parse_decimal, parsed_decimal};
use crate::DEFAULT_IMAGE_SIZE;

verus! {

/// How the server is started: where it listens and which origins may read.
pub struct ServerOptions {
    pub host: String,
    pub port: u16,
    pub origin: Vec<String>,
}

/// The size a request asks for with `?size=`: the number given, where it is one
/// the placeholder can be drawn at, else the default size.
pub open spec fn size_asked(param: Option<Seq<char>>) -> u32 {
    match param {
        Some(s) => match parsed_decimal(s, u32::MAX as nat) {
            Some(v) => if drawable_size(v) {
                v as u32
            } else {
                DEFAULT_IMAGE_SIZE
            },
            None => DEFAULT_IMAGE_SIZE,
        },
        None => DEFAULT_IMAGE_SIZE,
    }
}

/// The size a request asks for.
pub fn requested_size(param: Option<&str>) -> (r: u32)
    ensures
        r == size_asked(match param {
            Some(s) => Some(s@),
            None => None,
        }),
        drawable_size(r as nat),
{
    assert(drawable_size(256)) by (nonlinear_arith);
    match param {
        Some(s) => match parse_decimal(s, u32::MAX as u64) {
            Some(v) => {
                if is_drawable_size(v as u32) {
                    v as u32
                } else {
                    DEFAULT_IMAGE_SIZE
                }
            },
            None => DEFAULT_IMAGE_SIZE,
        },
        None => DEFAULT_IMAGE_SIZE,
    }
}

/// A response: the image to send and its headers.
pub struct FaviconResponse {
    pub image: FaviconImage,
    pub headers: Vec<(String, String)>,
}

pub open spec fn header_texts(h: Seq<(String, String)>) -> Seq<(Seq<char>, Seq<char>)> {
    h.map_values(|p: (String, String)| (p.0@, p.1@))
}

/// The headers of the response for `f`: a week of caching always; for a
/// placeholder, a flag and the reason.
pub open spec fn response_headers(f: Favicon) -> Seq<(Seq<char>, Seq<char>)> {
    let cache = seq![("cache-control"@, "max-age=604800"@)];
    match f {
        Favicon::Image(_) => cache,
        Favicon::Fallback(_, e) => cache + seq![("x-fallback"@, "true"@), ("x-fallback-reason"@, reason_text(e))],
    }
}

impl FaviconResponse {
    /// The response for a resolved favicon: a real image resized to `size`, or
    /// the placeholder (already of that size), to be written as `format`.
    pub fn from_fetch_result(favicon: Favicon, size: u32, format: image::ImageFormat) -> (r: FaviconResponse)
        requires
            size >= 1,
            done_ok(favicon, size as nat),
        ensures
            r.image.data@.width == size,
            r.image.data@.height == size,
            r.image.format == Some(format),
            header_texts(r.headers@) == response_headers(favicon),
            favicon matches Favicon::Fallback(img, _) ==> r.image.data == img.data,
            favicon matches Favicon::Image(img) ==> r.image.data@ == resized(img.data@, size as nat),
    {
        let mut headers: Vec<(String, String)> = Vec::new();
        headers.push((String::from_str("cache-control"), String::from_str("max-age=604800")));
        let image = match favicon {
            Favicon::Image(img) => img.resize(size),
            Favicon::Fallback(img, error) => {
                headers.push((String::from_str("x-fallback"), String::from_str("true")));
                headers.push((String::from_str("x-fallback-reason"), error.reason()));
                img
            },
        };
        assert(header_texts(headers@) =~= response_headers(favicon));
        FaviconResponse { image: image.reformat(format), headers }
    }

    /// The MIME type of the body.
    pub fn content_type(&self) -> (r: &'static str)
        ensures
            r@ == crate::format::mime_of(match self.image.format {
                Some(f) => f,
                None => crate::DEFAULT_IMAGE_FORMAT,
            }),
    {
        let format = match self.image.format {
            Some(f) => f,
            None => crate::DEFAULT_IMAGE_FORMAT,
        };
        crate::format::mime_type(format)
    }
}

} // verus!
