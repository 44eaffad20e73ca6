//! One favicon resolution as a state machine. The library decides each next
//! step; the caller performs it (a request, a decode on a worker, a rendering)
//! and hands back what came of it.

use vstd::prelude::*;
use vstd::utf8::encode_utf8;

use crate::fallback::{is_placeholder, drawable_size, fallback_document, fallback_svg, generate_fallback};
use crate::favicon::{image_ok, Favicon, FaviconImage, FetchFaviconError};
use crate::pixels::{
    decode_generic, decode_webp, generic_decoded, guess_format, image_error_text, resize_fits,
    sniffed_format, webp_decoded, PixelBuffer,
};
use crate::scrape::{scrape_link_tags, scrape_outcome};
use crate::url_text::{host_of, join_url, joined_url, opt_text, parse_url, parsed_url, url_host};

verus! {

/// The answer to a request for an icon.
pub struct IconResponse {
    pub status: u16,
    pub content_type: Option<String>,
    pub body: Vec<u8>,
}

/// What came of the step that the caller performed.
pub enum Event {
    /// The page's markup, or the transport's message.
    PageFetched(Result<String, String>),
    /// The icon's response, or the transport's message.
    IconFetched(Result<IconResponse, String>),
    /// What [`decode_icon`] gave on the worker, or the failure of the worker.
    Decoded(Result<FaviconImage, FetchFaviconError>),
    /// The rendering of a vector document, where it succeeded.
    Rendered(Option<PixelBuffer>),
}

/// The step that the caller performs next.
pub enum Step {
    /// Fetch the page at this address, as text.
    FetchPage(String),
    /// Fetch the icon at this address.
    FetchIcon(String),
    /// Run [`decode_icon`] on these bytes, away from the request handling.
    Decode(Vec<u8>),
    /// Render this vector document at `size` x `size` pixels.
    Render(Vec<u8>, u32),
    /// The resolution is over.
    Done(Favicon),
}

/// Where a resolution stands.
pub enum Stage {
    AwaitingPage(String),
    AwaitingIcon,
    AwaitingDecode,
    AwaitingIconRender,
    AwaitingFallbackRender(FetchFaviconError),
    Finished,
}

/// One resolution: the name that a placeholder would show, the size asked for,
/// and the stage.
pub struct Resolver {
    pub name: String,
    pub size: u32,
    pub stage: Stage,
}

/// The MIME type of vector documents.
pub open spec fn svg_mime() -> Seq<char> {
    "image/svg+xml"@
}

pub open spec fn is_success(status: u16) -> bool {
    200 <= status < 300
}

/// The address of the site for a requested `url-or-host`: the input where it is
/// a URL, else the input behind `http://`.
pub open spec fn target_of(input: Seq<char>) -> Option<Seq<char>> {
    match parsed_url(input) {
        Some(u) => Some(u),
        None => parsed_url("http://"@ + input),
    }
}

/// The name a placeholder shows: the host of the target, `?` for a target without
/// a host, the raw input where there is no target.
pub open spec fn display_name_of(input: Seq<char>) -> Seq<char> {
    match target_of(input) {
        Some(t) => match url_host(t) {
            Some(h) => h,
            None => "?"@,
        },
        None => input,
    }
}

/// The address to fetch an icon from, given the target and the page fetch.
pub open spec fn icon_address(target: Seq<char>, page: Result<Seq<char>, Seq<char>>, size: nat) -> Option<Seq<char>> {
    let scraped = match page {
        Ok(html) => scrape_outcome(target, html, size),
        Err(_) => Err(crate::scrape::ScrapeError::LinkNotFound),
    };
    match scraped {
        Ok(u) => Some(u),
        Err(_) => joined_url(target, "/favicon.ico"@),
    }
}

/// A page without usable icon links sends the resolution to the conventional
/// `/favicon.ico` of the target.
pub proof fn lemma_no_icon_links_uses_default_path(target: Seq<char>, html: Seq<char>, size: nat)
    requires
        crate::scrape::icon_link_tags(html) matches Some(tags) && crate::scrape::candidates(tags).len() == 0,
    ensures
        icon_address(target, Ok(html), size) == joined_url(target, "/favicon.ico"@),
{
}

/// A finished favicon that can be resized to `size`: a real image that is not
/// empty and fits, or a placeholder of exactly that size.
pub open spec fn done_ok(f: Favicon, size: nat) -> bool {
    match f {
        Favicon::Image(img) => image_ok(img) && resize_fits(img.data@.width, img.data@.height, size),
        Favicon::Fallback(img, _) => img.data@.width == size && img.data@.height == size,
    }
}

pub open spec fn step_ok(s: Step, size: nat) -> bool {
    match s {
        Step::Done(f) => done_ok(f, size),
        _ => true,
    }
}

/// The event that a stage waits for.
pub open spec fn expects(stage: Stage, e: Event) -> bool {
    match (stage, e) {
        (Stage::AwaitingPage(_), Event::PageFetched(_)) => true,
        (Stage::AwaitingIcon, Event::IconFetched(_)) => true,
        (Stage::AwaitingDecode, Event::Decoded(_)) => true,
        (Stage::AwaitingIconRender, Event::Rendered(_)) => true,
        (Stage::AwaitingFallbackRender(_), Event::Rendered(_)) => true,
        _ => false,
    }
}

/// The resolver after a failure: it waits for the placeholder's rendering.
pub open spec fn degraded(r: Resolver, name: Seq<char>, size: u32, reason: FetchFaviconError, s: Step) -> bool {
    &&& r.name@ == name
    &&& r.size == size
    &&& r.stage == Stage::AwaitingFallbackRender(reason)
    &&& s matches Step::Render(doc, n) && n == size && doc@ == encode_utf8(fallback_document(name))
}

/// What [`decode_icon`] gives for `bytes`.
pub open spec fn decode_ok(bytes: Seq<u8>, img: FaviconImage) -> bool {
    match sniffed_format(bytes) {
        Some(image::ImageFormat::WebP) => webp_decoded(bytes) == Some(img.data@) && img.format == Some(image::ImageFormat::WebP),
        Some(f) => generic_decoded(bytes, f) == Some(img.data@) && img.format == Some(f),
        None => false,
    }
}

/// Decodes the bytes of an icon: the encoding is read from the first bytes; the
/// lossy web encoding goes to its own decoder, every other to the generic one.
/// The image keeps the encoding it came in.
pub fn decode_icon(bytes: &Vec<u8>) -> (r: Result<FaviconImage, FetchFaviconError>)
    ensures
        match r {
            Ok(img) => decode_ok(bytes@, img),
            Err(FetchFaviconError::CannotDecode) => match sniffed_format(bytes@) {
                None => true,
                Some(image::ImageFormat::WebP) => webp_decoded(bytes@) is None,
                Some(_) => false,
            },
            Err(FetchFaviconError::ImageError(_)) => match sniffed_format(bytes@) {
                Some(image::ImageFormat::WebP) => false,
                Some(f) => generic_decoded(bytes@, f) is None,
                None => false,
            },
            Err(_) => false,
        },
{
    match guess_format(bytes.as_slice()) {
        None => Err(FetchFaviconError::CannotDecode),
        Some(format) => {
            if crate::format::is_webp(format) {
                match decode_webp(bytes.as_slice()) {
                    Some(data) => Ok(FaviconImage { data, format: Some(format) }),
                    None => Err(FetchFaviconError::CannotDecode),
                }
            } else {
                match decode_generic(bytes.as_slice(), format) {
                    Ok(data) => Ok(FaviconImage { data, format: Some(format) }),
                    Err(e) => Err(FetchFaviconError::ImageError(image_error_text(&e))),
                }
            }
        },
    }
}

/// The address of the site for a requested `url-or-host`.
pub fn target_url(input: &str) -> (r: Option<String>)
    ensures
        opt_text(r) == target_of(input@),
{
    match parse_url(input) {
        Some(u) => Some(u),
        None => {
            let prefixed = String::from_str("http://").concat(input);
            parse_url(prefixed.as_str())
        },
    }
}

/// The name that a placeholder for a requested `url-or-host` shows.
pub fn display_name(input: &str, target: &Option<String>) -> (r: String)
    requires
        opt_text(*target) == target_of(input@),
    ensures
        r@ == display_name_of(input@),
{
    match target {
        Some(t) => match host_of(t.as_str()) {
            Some(h) => h,
            None => String::from_str("?"),
        },
        None => String::from_str(input),
    }
}


pub open spec fn page_view(p: Result<String, String>) -> Result<Seq<char>, Seq<char>> {
    match p {
        Ok(h) => Ok(h@),
        Err(m) => Err(m@),
    }
}

/// Whether a rendered or decoded image can stand as the real favicon at `size`.
pub fn usable_at(data: &PixelBuffer, size: u32) -> (r: bool)
    ensures
        r == (data@.width >= 1 && data@.height >= 1 && resize_fits(data@.width, data@.height, size as nat)),
{
    data.width() >= 1 && data.height() >= 1 && data.can_resize(size)
}

/// Whether a finished favicon can be resized to `size`.
pub fn is_done_ok(f: &Favicon, size: u32) -> (r: bool)
    ensures
        r == done_ok(*f, size as nat),
{
    match f {
        Favicon::Image(img) => usable_at(&img.data, size),
        Favicon::Fallback(img, _) => img.data.width() == size && img.data.height() == size,
    }
}

impl Resolver {
    /// The resolver after a failure, and its step: render the placeholder.
    fn degrade(name: String, size: u32, reason: FetchFaviconError) -> (r: (Resolver, Step))
        ensures
            r.0.name == name,
            degraded(r.0, name@, size, reason, r.1),
    {
        let doc = fallback_svg(name.as_str()).as_str().as_bytes_vec();
        (Resolver { name, size, stage: Stage::AwaitingFallbackRender(reason) }, Step::Render(doc, size))
    }

    /// Starts the resolution of a requested `url-or-host` at `size` pixels: fetch
    /// the target's page, or, where the input is no URL, render a placeholder.
    pub fn start(input: &str, size: u32) -> (r: (Resolver, Step))
        requires
            drawable_size(size as nat),
        ensures
            r.0.size == size,
            r.0.name@ == display_name_of(input@),
            match target_of(input@) {
                Some(t) => (r.0.stage matches Stage::AwaitingPage(x) && x@ == t) && (r.1 matches Step::FetchPage(u) && u@ == t),
                None => degraded(r.0, display_name_of(input@), size, FetchFaviconError::InvalidUrl, r.1),
            },
    {
        let target = target_url(input);
        let name = display_name(input, &target);
        match target {
            Some(t) => {
                let u = t.clone();
                (Resolver { name, size, stage: Stage::AwaitingPage(t) }, Step::FetchPage(u))
            },
            None => Resolver::degrade(name, size, FetchFaviconError::InvalidUrl),
        }
    }

    /// Whether the resolver waits for `e`.
    pub fn accepts(&self, e: &Event) -> (r: bool)
        ensures
            r == expects(self.stage, *e),
    {
        match (&self.stage, e) {
            (Stage::AwaitingPage(_), Event::PageFetched(_)) => true,
            (Stage::AwaitingIcon, Event::IconFetched(_)) => true,
            (Stage::AwaitingDecode, Event::Decoded(_)) => true,
            (Stage::AwaitingIconRender, Event::Rendered(_)) => true,
            (Stage::AwaitingFallbackRender(_), Event::Rendered(_)) => true,
            _ => false,
        }
    }

    /// The next stage and step, given what came of the last step. Every failure
    /// before a usable image exists turns into a placeholder, tagged with why.
    pub fn step(self, e: Event) -> (r: (Resolver, Step))
        requires
            expects(self.stage, e),
            drawable_size(self.size as nat),
        ensures
            r.0.name == self.name,
            r.0.size == self.size,
            step_ok(r.1, self.size as nat),
            match (self.stage, e) {
                (Stage::AwaitingPage(t), Event::PageFetched(p)) => match icon_address(t@, page_view(p), self.size as nat) {
                    Some(a) => r.0.stage == Stage::AwaitingIcon && (r.1 matches Step::FetchIcon(u) && u@ == a),
                    None => degraded(r.0, self.name@, self.size, FetchFaviconError::InvalidUrl, r.1),
                },
                (Stage::AwaitingIcon, Event::IconFetched(Err(m))) =>
                    degraded(r.0, self.name@, self.size, FetchFaviconError::Network(m), r.1),
                (Stage::AwaitingIcon, Event::IconFetched(Ok(resp))) => if !is_success(resp.status) {
                    degraded(r.0, self.name@, self.size, FetchFaviconError::HttpStatus(resp.status), r.1)
                } else if opt_text(resp.content_type) == Some(svg_mime()) {
                    r.0.stage == Stage::AwaitingIconRender && r.1 == Step::Render(resp.body, self.size)
                } else {
                    r.0.stage == Stage::AwaitingDecode && r.1 == Step::Decode(resp.body)
                },
                (Stage::AwaitingDecode, Event::Decoded(Ok(img))) => if image_ok(img) && resize_fits(
                    img.data@.width,
                    img.data@.height,
                    self.size as nat,
                ) {
                    r.0.stage == Stage::Finished && r.1 == Step::Done(Favicon::Image(img))
                } else {
                    degraded(r.0, self.name@, self.size, FetchFaviconError::CannotDecode, r.1)
                },
                (Stage::AwaitingDecode, Event::Decoded(Err(reason))) =>
                    degraded(r.0, self.name@, self.size, reason, r.1),
                (Stage::AwaitingIconRender, Event::Rendered(Some(p))) => if p@.width >= 1 && p@.height >= 1
                    && resize_fits(p@.width, p@.height, self.size as nat) {
                    r.0.stage == Stage::Finished && r.1 == Step::Done(Favicon::Image(FaviconImage { data: p, format: None }))
                } else {
                    degraded(r.0, self.name@, self.size, FetchFaviconError::CannotDecode, r.1)
                },
                (Stage::AwaitingIconRender, Event::Rendered(None)) =>
                    degraded(r.0, self.name@, self.size, FetchFaviconError::CannotDecode, r.1),
                (Stage::AwaitingFallbackRender(reason), Event::Rendered(rendered)) =>
                    r.0.stage == Stage::Finished && (r.1 matches Step::Done(Favicon::Fallback(img, why)) && why == reason
                        && img.data@.width == self.size && img.data@.height == self.size
                        && is_placeholder(img, rendered, self.size as nat)),
                _ => false,
            },
    {
        let name = self.name;
        let size = self.size;
        match (self.stage, e) {
            (Stage::AwaitingPage(t), Event::PageFetched(p)) => {
                let scraped = match &p {
                    Ok(html) => scrape_link_tags(t.as_str(), html.as_str(), size),
                    Err(_) => Err(crate::scrape::ScrapeError::LinkNotFound),
                };
                let address = match scraped {
                    Ok(u) => Some(u),
                    Err(_) => join_url(t.as_str(), "/favicon.ico"),
                };
                match address {
                    Some(u) => (Resolver { name, size, stage: Stage::AwaitingIcon }, Step::FetchIcon(u)),
                    None => Resolver::degrade(name, size, FetchFaviconError::InvalidUrl),
                }
            },
            (Stage::AwaitingIcon, Event::IconFetched(fetched)) => match fetched {
                Err(m) => Resolver::degrade(name, size, FetchFaviconError::Network(m)),
                Ok(resp) => {
                    if !(200 <= resp.status && resp.status < 300) {
                        Resolver::degrade(name, size, FetchFaviconError::HttpStatus(resp.status))
                    } else {
                        let is_svg = match &resp.content_type {
                            Some(ct) => *ct == String::from_str("image/svg+xml"),
                            None => false,
                        };
                        if is_svg {
                            (Resolver { name, size, stage: Stage::AwaitingIconRender }, Step::Render(resp.body, size))
                        } else {
                            (Resolver { name, size, stage: Stage::AwaitingDecode }, Step::Decode(resp.body))
                        }
                    }
                },
            },
            (Stage::AwaitingDecode, Event::Decoded(decoded)) => match decoded {
                Ok(img) => {
                    if usable_at(&img.data, size) {
                        (Resolver { name, size, stage: Stage::Finished }, Step::Done(Favicon::Image(img)))
                    } else {
                        Resolver::degrade(name, size, FetchFaviconError::CannotDecode)
                    }
                },
                Err(reason) => Resolver::degrade(name, size, reason),
            },
            (Stage::AwaitingIconRender, Event::Rendered(rendered)) => match rendered {
                Some(p) => {
                    if usable_at(&p, size) {
                        let img = FaviconImage { data: p, format: None };
                        (Resolver { name, size, stage: Stage::Finished }, Step::Done(Favicon::Image(img)))
                    } else {
                        Resolver::degrade(name, size, FetchFaviconError::CannotDecode)
                    }
                },
                None => Resolver::degrade(name, size, FetchFaviconError::CannotDecode),
            },
            (Stage::AwaitingFallbackRender(reason), Event::Rendered(rendered)) => {
                let img = generate_fallback(rendered, size);
                (Resolver { name, size, stage: Stage::Finished }, Step::Done(Favicon::Fallback(img, reason)))
            },
            (_, _) => {
                assert(false);
                Resolver::degrade(name, size, FetchFaviconError::CannotDecode)
            },
        }
    }
}

} // verus!
