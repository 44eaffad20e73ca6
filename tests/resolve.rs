use favicon_rover::favicon::{Favicon, FaviconImage, FetchFaviconError};
use favicon_rover::pixels::PixelBuffer;
use favicon_rover::resolve::{display_name, target_url, Event, IconResponse, Resolver, Stage, Step};
use favicon_rover::server::FaviconResponse;
use image::ImageFormat;

fn png_bytes(w: u32, h: u32) -> Vec<u8> {
    let img = FaviconImage { data: PixelBuffer::filled(w.max(h), [0, 0, 0, 255]), format: None };
    let img = if w == h { img } else { img };
    match img.write_to(ImageFormat::Png) {
        Ok(favicon_rover::favicon::Encoded::Bytes(b)) => b,
        _ => panic!("png encoding failed"),
    }
}

#[test]
fn missing_icon_degrades_to_placeholder() {
    let (r, step) = Resolver::start("example.com", 64);
    assert_eq!(r.name, "example.com");
    let url = match step {
        Step::FetchPage(u) => u,
        _ => panic!("expected a page fetch"),
    };
    assert_eq!(url, "http://example.com/");
    let (r, step) = r.step(Event::PageFetched(Ok("<html><head></head></html>".to_string())));
    match step {
        Step::FetchIcon(u) => assert_eq!(u, "http://example.com/favicon.ico"),
        _ => panic!("expected an icon fetch"),
    }
    let resp = IconResponse { status: 404, content_type: Some("text/html".to_string()), body: b"nope".to_vec() };
    let (r, step) = r.step(Event::IconFetched(Ok(resp)));
    match &step {
        Step::Render(doc, size) => {
            assert_eq!(*size, 64);
            assert!(String::from_utf8(doc.clone()).unwrap().contains(">E</text>"));
        }
        _ => panic!("expected the placeholder to be rendered"),
    }
    assert!(matches!(r.stage, Stage::AwaitingFallbackRender(FetchFaviconError::HttpStatus(404))));
    let (_, step) = r.step(Event::Rendered(None));
    let favicon = match step {
        Step::Done(f) => f,
        _ => panic!("expected the end"),
    };
    match &favicon {
        Favicon::Fallback(img, FetchFaviconError::HttpStatus(404)) => {
            assert_eq!((img.data.width(), img.data.height()), (64, 64));
        }
        _ => panic!("expected a placeholder"),
    }
    let response = FaviconResponse::from_fetch_result(favicon, 64, ImageFormat::Png);
    assert!(response.headers.contains(&("x-fallback".to_string(), "true".to_string())));
    assert!(response.headers.contains(&("x-fallback-reason".to_string(), "HTTP status 404".to_string())));
    assert!(response.headers.contains(&("cache-control".to_string(), "max-age=604800".to_string())));
    assert_eq!(response.content_type(), "image/png");
}

#[test]
fn declared_icon_is_fetched_and_decoded() {
    let (r, _) = Resolver::start("https://example.com/about", 32);
    let html = r#"<link rel="icon" href="/i.png" sizes="16x16">"#;
    let (r, step) = r.step(Event::PageFetched(Ok(html.to_string())));
    match step {
        Step::FetchIcon(u) => assert_eq!(u, "https://example.com/i.png"),
        _ => panic!("expected an icon fetch"),
    }
    let body = png_bytes(16, 16);
    let resp = IconResponse { status: 200, content_type: Some("image/png".to_string()), body: body.clone() };
    let (r, step) = r.step(Event::IconFetched(Ok(resp)));
    let bytes = match step {
        Step::Decode(b) => b,
        _ => panic!("expected a decode"),
    };
    assert_eq!(bytes, body);
    let decoded = favicon_rover::resolve::decode_icon(&bytes);
    let (_, step) = r.step(Event::Decoded(decoded));
    let favicon = match step {
        Step::Done(f) => f,
        _ => panic!("expected the end"),
    };
    assert!(matches!(favicon, Favicon::Image(_)));
    let response = FaviconResponse::from_fetch_result(favicon, 32, ImageFormat::Jpeg);
    assert_eq!(response.headers.len(), 1);
    assert_eq!((response.image.data.width(), response.image.data.height()), (32, 32));
    assert_eq!(response.content_type(), "image/jpeg");
}

#[test]
fn svg_icon_is_rendered() {
    let (r, _) = Resolver::start("https://example.com", 20);
    let (r, _) = r.step(Event::PageFetched(Err("connection refused".to_string())));
    let resp = IconResponse { status: 200, content_type: Some("image/svg+xml".to_string()), body: b"<svg/>".to_vec() };
    let (r, step) = r.step(Event::IconFetched(Ok(resp)));
    assert!(matches!(step, Step::Render(_, 20)));
    let rendered = PixelBuffer::from_rgba(20, 20, vec![0; 1600]);
    let (_, step) = r.step(Event::Rendered(rendered));
    match step {
        Step::Done(Favicon::Image(img)) => assert_eq!(img.format, None),
        _ => panic!("expected the rendered icon"),
    }
}

#[test]
fn network_failure_is_the_reason() {
    let (r, _) = Resolver::start("https://example.com", 20);
    let (r, _) = r.step(Event::PageFetched(Ok(String::new())));
    let (r, _) = r.step(Event::IconFetched(Err("timed out".to_string())));
    let (_, step) = r.step(Event::Rendered(None));
    match step {
        Step::Done(Favicon::Fallback(_, e)) => assert_eq!(e.reason(), "timed out"),
        _ => panic!("expected a placeholder"),
    }
}

#[test]
fn invalid_input_uses_raw_name() {
    let (r, step) = Resolver::start("bad host name", 16);
    assert_eq!(r.name, "bad host name");
    assert!(matches!(r.stage, Stage::AwaitingFallbackRender(FetchFaviconError::InvalidUrl)));
    match step {
        Step::Render(doc, 16) => assert!(String::from_utf8(doc).unwrap().contains(">B</text>")),
        _ => panic!("expected the placeholder"),
    }
    assert!(target_url("bad host name").is_none());
    assert_eq!(display_name("x", &None), "x");
}

#[test]
fn undecodable_icon_degrades() {
    let (r, _) = Resolver::start("https://example.com", 20);
    let (r, _) = r.step(Event::PageFetched(Ok(String::new())));
    let resp = IconResponse { status: 200, content_type: None, body: b"garbage".to_vec() };
    let (r, step) = r.step(Event::IconFetched(Ok(resp)));
    let bytes = match step {
        Step::Decode(b) => b,
        _ => panic!("expected a decode"),
    };
    let (r, _) = r.step(Event::Decoded(favicon_rover::resolve::decode_icon(&bytes)));
    assert!(matches!(r.stage, Stage::AwaitingFallbackRender(FetchFaviconError::CannotDecode)));
    let (r2, _) = Resolver::start("https://example.com", 20);
    let (r2, _) = r2.step(Event::PageFetched(Ok(String::new())));
    let (r2, _) = r2.step(Event::IconFetched(Ok(IconResponse { status: 200, content_type: None, body: vec![] })));
    let (r2, _) = r2.step(Event::Decoded(Err(FetchFaviconError::TokioError("task panicked".to_string()))));
    assert!(matches!(r2.stage, Stage::AwaitingFallbackRender(FetchFaviconError::TokioError(_))));
    assert!(r.accepts(&Event::Rendered(None)));
    assert!(!r.accepts(&Event::PageFetched(Ok(String::new()))));
}

#[test]
fn failure_reasons() {
    assert_eq!(FetchFaviconError::InvalidUrl.reason(), "Provided URL is not a valid url");
    assert_eq!(FetchFaviconError::CannotDecode.reason(), "Cannot decode the image type");
    assert_eq!(FetchFaviconError::ImageError("bad".to_string()).reason(), "Failed to decode image: bad");
    assert_eq!(FetchFaviconError::HttpStatus(503).reason(), "HTTP status 503");
}

#[test]
fn favicon_format_and_resize_in_place() {
    let img = FaviconImage { data: PixelBuffer::filled(10, [0, 0, 0, 0]), format: None };
    let mut f = Favicon::Fallback(img, FetchFaviconError::CannotDecode);
    f.format(ImageFormat::Ico);
    f.resize(4);
    assert_eq!(f.image().format, Some(ImageFormat::Ico));
    assert_eq!((f.image().data.width(), f.image().data.height()), (4, 4));
    assert!(matches!(f.failure(), Some(FetchFaviconError::CannotDecode)));
}
