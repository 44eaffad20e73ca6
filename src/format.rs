//! Image encodings, their MIME types and the pixel layouts of decoded images.

use vstd::prelude::*;

verus! {

#[verifier::external_type_specification]
pub struct ExImageFormat(::image::ImageFormat);

#[verifier::external_type_specification]
pub struct ExColorType(::image::ColorType);

/// The MIME type that `image` gives for each encoding.
pub open spec fn mime_of(f: image::ImageFormat) -> Seq<char> {
    match f {
        image::ImageFormat::Avif => "image/avif"@,
        image::ImageFormat::Jpeg => "image/jpeg"@,
        image::ImageFormat::Png => "image/png"@,
        image::ImageFormat::Gif => "image/gif"@,
        image::ImageFormat::WebP => "image/webp"@,
        image::ImageFormat::Tiff => "image/tiff"@,
        image::ImageFormat::Tga => "image/x-targa"@,
        image::ImageFormat::Dds => "image/vnd-ms.dds"@,
        image::ImageFormat::Bmp => "image/bmp"@,
        image::ImageFormat::Ico => "image/x-icon"@,
        image::ImageFormat::Hdr => "image/vnd.radiance"@,
        image::ImageFormat::OpenExr => "image/x-exr"@,
        image::ImageFormat::Pnm => "image/x-portable-anymap"@,
        image::ImageFormat::Qoi => "image/x-qoi"@,
        _ => "application/octet-stream"@,
    }
}

/// Relies on `image::ImageFormat::to_mime_type`: the MIME type of an encoding.
#[verifier::external_body]
pub fn mime_type(f: image::ImageFormat) -> (r: &'static str)
    ensures
        r@ == mime_of(f),
{
    f.to_mime_type()
}

pub fn is_webp(f: image::ImageFormat) -> (r: bool)
    ensures
        r == (f == image::ImageFormat::WebP),
{
    match f {
        image::ImageFormat::WebP => true,
        _ => false,
    }
}


/// The encodings for which `image::ImageOutputFormat::from` names a writer of the
/// generic encoder, with the crate's default features; every other encoding maps
/// to `ImageOutputFormat::Unsupported`.
pub open spec fn has_writer(f: image::ImageFormat) -> bool {
    match f {
        image::ImageFormat::Png | image::ImageFormat::Jpeg | image::ImageFormat::Pnm | image::ImageFormat::Gif
        | image::ImageFormat::Ico | image::ImageFormat::Bmp | image::ImageFormat::Farbfeld | image::ImageFormat::Tga
        | image::ImageFormat::OpenExr | image::ImageFormat::Tiff | image::ImageFormat::WebP | image::ImageFormat::Qoi => true,
        _ => false,
    }
}

/// Relies on `image::ImageOutputFormat::from`: whether it gives a writer for
/// `format` rather than `ImageOutputFormat::Unsupported`.
#[verifier::external_body]
pub fn has_generic_writer(format: image::ImageFormat) -> (r: bool)
    ensures
        r == has_writer(format),
{
    !matches!(image::ImageOutputFormat::from(format), image::ImageOutputFormat::Unsupported(_))
}

/// The encoding that `image::ImageFormat::from_mime_type` gives for a MIME type.
pub open spec fn format_of_mime(m: Seq<char>) -> Option<image::ImageFormat> {
    if m == "image/avif"@ {
        Some(image::ImageFormat::Avif)
    } else if m == "image/jpeg"@ {
        Some(image::ImageFormat::Jpeg)
    } else if m == "image/png"@ {
        Some(image::ImageFormat::Png)
    } else if m == "image/gif"@ {
        Some(image::ImageFormat::Gif)
    } else if m == "image/webp"@ {
        Some(image::ImageFormat::WebP)
    } else if m == "image/tiff"@ {
        Some(image::ImageFormat::Tiff)
    } else if m == "image/x-targa"@ || m == "image/x-tga"@ {
        Some(image::ImageFormat::Tga)
    } else if m == "image/vnd-ms.dds"@ {
        Some(image::ImageFormat::Dds)
    } else if m == "image/bmp"@ {
        Some(image::ImageFormat::Bmp)
    } else if m == "image/x-icon"@ {
        Some(image::ImageFormat::Ico)
    } else if m == "image/vnd.radiance"@ {
        Some(image::ImageFormat::Hdr)
    } else if m == "image/x-exr"@ {
        Some(image::ImageFormat::OpenExr)
    } else if m == "image/x-portable-bitmap"@ || m == "image/x-portable-graymap"@
        || m == "image/x-portable-pixmap"@ || m == "image/x-portable-anymap"@ {
        Some(image::ImageFormat::Pnm)
    } else if m == "image/x-qoi"@ {
        Some(image::ImageFormat::Qoi)
    } else {
        None
    }
}

/// Relies on `image::ImageFormat::from_mime_type`: the encoding of a MIME type.
#[verifier::external_body]
pub fn format_for_mime(m: &str) -> (r: Option<image::ImageFormat>)
    ensures
        r == format_of_mime(m@),
{
    image::ImageFormat::from_mime_type(m)
}

/// The encodings offered to clients, most preferred first.
pub open spec fn offered_formats() -> Seq<image::ImageFormat> {
    seq![
        image::ImageFormat::Png,
        image::ImageFormat::Jpeg,
        image::ImageFormat::Gif,
        image::ImageFormat::WebP,
        image::ImageFormat::Pnm,
        image::ImageFormat::Tiff,
        image::ImageFormat::Tga,
        image::ImageFormat::Dds,
        image::ImageFormat::Bmp,
        image::ImageFormat::Ico,
        image::ImageFormat::Hdr,
        image::ImageFormat::OpenExr,
        image::ImageFormat::Farbfeld,
        image::ImageFormat::Qoi,
    ]
}

/// The MIME types offered to clients, in the order of [`offered_formats`].
pub open spec fn offered_mime_types() -> Seq<Seq<char>> {
    offered_formats().map_values(|f: image::ImageFormat| mime_of(f))
}

pub open spec fn texts(v: Seq<String>) -> Seq<Seq<char>> {
    v.map_values(|s: String| s@)
}

/// The encodings offered to clients, most preferred first.
pub fn supported_output_formats() -> (r: Vec<image::ImageFormat>)
    ensures
        r@ == offered_formats(),
{
    let r = vec![
        image::ImageFormat::Png,
        image::ImageFormat::Jpeg,
        image::ImageFormat::Gif,
        image::ImageFormat::WebP,
        image::ImageFormat::Pnm,
        image::ImageFormat::Tiff,
        image::ImageFormat::Tga,
        image::ImageFormat::Dds,
        image::ImageFormat::Bmp,
        image::ImageFormat::Ico,
        image::ImageFormat::Hdr,
        image::ImageFormat::OpenExr,
        image::ImageFormat::Farbfeld,
        image::ImageFormat::Qoi,
    ];
    assert(r@ =~= offered_formats());
    r
}

/// The catalogue of MIME types that content negotiation chooses from; built once
/// and then only read.
pub fn supported_output_mime_types() -> (r: Vec<String>)
    ensures
        texts(r@) == offered_mime_types(),
{
    let formats = supported_output_formats();
    let mut out: Vec<String> = Vec::new();
    let mut i: usize = 0;
    while i < formats.len()
        invariant
            formats@ == offered_formats(),
            i <= formats.len(),
            texts(out@) == offered_mime_types().subrange(0, i as int),
        decreases formats.len() - i,
    {
        let m = mime_type(formats[i]);
        let ghost before = out@;
        out.push(String::from_str(m));
        assert(offered_mime_types()[i as int] == mime_of(offered_formats()[i as int]));
        assert(out@ == before.push(out@.last()));
        assert(texts(out@) == texts(before).push(m@));
        assert(texts(out@) =~= offered_mime_types().subrange(0, i as int + 1));
        i = i + 1;
    }
    assert(offered_mime_types().subrange(0, i as int) == offered_mime_types());
    out
}

/// The MIME type that `accept_header::Accept::negotiate` picks from `offered`
/// for the header value `accept`; `None` where the header does not parse or
/// nothing offered is acceptable.
pub uninterp spec fn negotiated(accept: Seq<char>, offered: Seq<Seq<char>>) -> Option<Seq<char>>;

/// Relies on `accept_header::Accept` (parsed from the header value with
/// `FromStr`) and its `negotiate`, over the offered types read as `mime::Mime`.
#[verifier::external_body]
pub fn negotiate_mime(accept: &str, offered: &Vec<String>) -> (r: Option<String>)
    ensures
        match r {
            Some(m) => negotiated(accept@, texts(offered@)) == Some(m@),
            None => negotiated(accept@, texts(offered@)) is None,
        },
{
    let accept: accept_header::Accept = accept.parse().ok()?;
    let offered = offered.iter().map(|m| m.parse::<mime::Mime>().ok()).collect::<Option<Vec<_>>>()?;
    accept.negotiate(&offered).ok().map(|m| m.to_string())
}

/// The encoding for a negotiated MIME type: the one it names, else `default`.
pub open spec fn format_for(m: Option<Seq<char>>, default: image::ImageFormat) -> image::ImageFormat {
    match m {
        Some(t) => match format_of_mime(t) {
            Some(f) => f,
            None => default,
        },
        None => default,
    }
}

/// The encoding that a negotiated MIME type names, or `default` where negotiation
/// gave none or a type without an encoding.
pub fn format_for_negotiated(m: Option<String>, default: image::ImageFormat) -> (r: image::ImageFormat)
    ensures
        r == format_for(crate::url_text::opt_text(m), default),
{
    match m {
        Some(t) => match format_for_mime(t.as_str()) {
            Some(f) => f,
            None => default,
        },
        None => default,
    }
}

/// The output encoding for a request: negotiated from its `Accept` header
/// against `offered`, else `default`.
pub fn negotiate_format(accept: Option<&str>, offered: &Vec<String>, default: image::ImageFormat) -> (r: image::ImageFormat)
    ensures
        match accept {
            Some(a) => r == format_for(negotiated(a@, texts(offered@)), default),
            None => r == default,
        },
{
    match accept {
        Some(a) => format_for_negotiated(negotiate_mime(a, offered), default),
        None => default,
    }
}

/// The encodings that can be asked for by name.
#[derive(Clone, Copy, Debug, PartialEq, Eq, Structural)]
pub enum ImageFormatOutput {
    Png,
    Jpeg,
    Webp,
    Bmp,
    Ico,
    Gif,
    Tiff,
}

pub open spec fn output_format(o: ImageFormatOutput) -> image::ImageFormat {
    match o {
        ImageFormatOutput::Png => image::ImageFormat::Png,
        ImageFormatOutput::Jpeg => image::ImageFormat::Jpeg,
        ImageFormatOutput::Webp => image::ImageFormat::WebP,
        ImageFormatOutput::Bmp => image::ImageFormat::Bmp,
        ImageFormatOutput::Ico => image::ImageFormat::Ico,
        ImageFormatOutput::Gif => image::ImageFormat::Gif,
        ImageFormatOutput::Tiff => image::ImageFormat::Tiff,
    }
}

impl From<ImageFormatOutput> for image::ImageFormat {
    fn from(value: ImageFormatOutput) -> (r: image::ImageFormat)
        ensures
            r == output_format(value),
    {
        match value {
            ImageFormatOutput::Png => image::ImageFormat::Png,
            ImageFormatOutput::Jpeg => image::ImageFormat::Jpeg,
            ImageFormatOutput::Webp => image::ImageFormat::WebP,
            ImageFormatOutput::Bmp => image::ImageFormat::Bmp,
            ImageFormatOutput::Ico => image::ImageFormat::Ico,
            ImageFormatOutput::Gif => image::ImageFormat::Gif,
            ImageFormatOutput::Tiff => image::ImageFormat::Tiff,
        }
    }
}

impl vstd::std_specs::convert::FromSpecImpl<ImageFormatOutput> for image::ImageFormat {
    open spec fn obeys_from_spec() -> bool {
        true
    }

    open spec fn from_spec(v: ImageFormatOutput) -> image::ImageFormat {
        output_format(v)
    }
}

/// The encoding of a file to write: the one asked for by name, else the one
/// that the file's name suggests, else `default`.
pub fn choose_output_format(
    asked: Option<ImageFormatOutput>,
    from_name: Option<image::ImageFormat>,
    default: image::ImageFormat,
) -> (r: image::ImageFormat)
    ensures
        r == match asked {
            Some(o) => output_format(o),
            None => match from_name {
                Some(f) => f,
                None => default,
            },
        },
{
    match asked {
        Some(o) => image::ImageFormat::from(o),
        None => match from_name {
            Some(f) => f,
            None => default,
        },
    }
}

} // verus!
