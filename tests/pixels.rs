use favicon_rover::favicon::{Encoded, FaviconImage};
use favicon_rover::pixels::PixelBuffer;
use favicon_rover::resolve::decode_icon;
use image::{ColorType, ImageFormat};

fn gradient(w: u32, h: u32) -> PixelBuffer {
    let mut samples = Vec::new();
    for y in 0..h {
        for x in 0..w {
            samples.extend_from_slice(&[(x * 7) as u8, (y * 5) as u8, 128, 255]);
        }
    }
    PixelBuffer::from_rgba(w, h, samples).unwrap()
}

#[test]
fn raw_buffers_need_enough_samples() {
    assert!(PixelBuffer::from_rgba(2, 2, vec![0; 15]).is_none());
    let p = PixelBuffer::from_rgba(2, 2, vec![0; 16]).unwrap();
    assert_eq!((p.width(), p.height(), p.color()), (2, 2, ColorType::Rgba8));
    let f = PixelBuffer::filled(5, [1, 2, 3, 4]);
    assert_eq!((f.width(), f.height()), (5, 5));
}

#[test]
fn resize_fills_the_square() {
    let img = FaviconImage { data: gradient(40, 20), format: Some(ImageFormat::Png) };
    let once = img.resize(16);
    assert_eq!((once.data.width(), once.data.height()), (16, 16));
    assert_eq!(once.format, Some(ImageFormat::Png));
    let twice = once.resize(16);
    assert_eq!((twice.data.width(), twice.data.height()), (16, 16));
}

#[test]
fn resize_up_and_down() {
    let up = FaviconImage { data: gradient(3, 7), format: None }.resize(64);
    assert_eq!((up.data.width(), up.data.height()), (64, 64));
    let down = FaviconImage { data: gradient(300, 3), format: None }.resize(1);
    assert_eq!((down.data.width(), down.data.height()), (1, 1));
}

#[test]
fn reformat_keeps_pixels() {
    let img = FaviconImage { data: gradient(4, 4), format: None }.reformat(ImageFormat::Gif);
    assert_eq!(img.format, Some(ImageFormat::Gif));
    assert_eq!((img.data.width(), img.data.height()), (4, 4));
}

fn round_trip(format: ImageFormat) {
    let img = FaviconImage { data: gradient(24, 17), format: None };
    let bytes = match img.write_to(format) {
        Ok(Encoded::Bytes(b)) => b,
        _ => panic!("no bytes for {:?}", format),
    };
    let back = decode_icon(&bytes).unwrap();
    assert_eq!((back.data.width(), back.data.height()), (24, 17));
    assert_eq!(back.format, Some(format));
}

#[test]
fn round_trip_png() {
    round_trip(ImageFormat::Png);
}

#[test]
fn round_trip_jpeg() {
    let img = FaviconImage { data: PixelBuffer::filled(9, [10, 20, 30, 255]), format: None };
    let rgb = match img.write_to(ImageFormat::WebP) {
        Ok(Encoded::Webp(p)) => p,
        _ => panic!("expected pixels for the web encoder"),
    };
    let jpeg = FaviconImage { data: rgb, format: None };
    match jpeg.write_to(ImageFormat::Jpeg) {
        Ok(Encoded::Bytes(b)) => {
            let back = decode_icon(&b).unwrap();
            assert_eq!((back.data.width(), back.data.height()), (9, 9));
            assert_eq!(back.format, Some(ImageFormat::Jpeg));
        }
        Ok(Encoded::Webp(_)) => panic!("jpeg went to the web encoder"),
        Err(_) => {}
    }
}

#[test]
fn round_trip_gif() {
    round_trip(ImageFormat::Gif);
}

#[test]
fn round_trip_bmp() {
    round_trip(ImageFormat::Bmp);
}

#[test]
fn round_trip_ico() {
    round_trip(ImageFormat::Ico);
}

#[test]
fn round_trip_tiff() {
    round_trip(ImageFormat::Tiff);
}

#[test]
fn round_trip_webp() {
    let img = FaviconImage { data: gradient(24, 17), format: None };
    let p = match img.write_to(ImageFormat::WebP) {
        Ok(Encoded::Webp(p)) => p,
        _ => panic!("expected pixels for the web encoder"),
    };
    assert_eq!(p.color(), ColorType::Rgba8);
    let encoded = webp::Encoder::from_image(p.as_dynamic()).unwrap().encode(70.0);
    let back = decode_icon(&encoded.to_vec()).unwrap();
    assert_eq!((back.data.width(), back.data.height()), (24, 17));
    assert_eq!(back.format, Some(ImageFormat::WebP));
}

#[test]
fn unknown_bytes_cannot_be_decoded() {
    let r = decode_icon(&b"<html>not found</html>".to_vec());
    assert!(matches!(r, Err(favicon_rover::favicon::FetchFaviconError::CannotDecode)));
}

#[test]
fn broken_png_is_an_image_error() {
    let mut bytes = b"\x89PNG\r\n\x1a\n".to_vec();
    bytes.extend_from_slice(&[0, 0, 0]);
    let r = decode_icon(&bytes);
    match r {
        Err(favicon_rover::favicon::FetchFaviconError::ImageError(m)) => assert!(!m.is_empty()),
        _ => panic!("expected a decoder error"),
    }
}

#[test]
fn unsupported_encoding_is_an_error() {
    let img = FaviconImage { data: gradient(4, 4), format: None };
    assert!(matches!(img.write_to(ImageFormat::Dds), Err(favicon_rover::favicon::WriteImageError::UnsupportedImageFormat)));
    assert!(matches!(img.write_to(ImageFormat::Hdr), Err(favicon_rover::favicon::WriteImageError::UnsupportedImageFormat)));
    assert!(favicon_rover::format::has_generic_writer(ImageFormat::Png));
    assert!(!favicon_rover::format::has_generic_writer(ImageFormat::Avif));
}

#[test]
fn grey_image_is_converted_for_the_web_encoder() {
    let grey = image::DynamicImage::ImageLuma8(image::GrayImage::from_pixel(5, 3, image::Luma([90])));
    let mut bytes = std::io::Cursor::new(Vec::new());
    grey.write_to(&mut bytes, image::ImageOutputFormat::Png).unwrap();
    let decoded = decode_icon(&bytes.into_inner()).unwrap();
    assert_eq!(decoded.data.color(), ColorType::L8);
    match decoded.write_to(ImageFormat::WebP) {
        Ok(Encoded::Webp(p)) => {
            assert_eq!(p.color(), ColorType::Rgba8);
            assert_eq!((p.width(), p.height()), (5, 3));
        }
        _ => panic!("expected pixels for the web encoder"),
    }
}
