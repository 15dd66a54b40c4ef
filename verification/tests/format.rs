use websnap::compression::EncodeType;
use websnap::error::SnapError;
use websnap::format_tran::{content_disposition, get_content_type, png_transformer, FileFormat};

fn sample_png() -> Vec<u8> {
    let img = image::RgbImage::from_fn(8, 8, |x, y| {
        image::Rgb([(x * 30) as u8, (y * 30) as u8, 128])
    });
    let dynimg = image::DynamicImage::ImageRgb8(img);
    let mut buf: Vec<u8> = Vec::new();
    let mut cur = std::io::Cursor::new(&mut buf);
    dynimg.write_to(&mut cur, image::ImageFormat::Png).unwrap();
    buf
}

#[test]
fn test_encode_type() {
    assert_eq!(EncodeType::Brotli, EncodeType::from_str("Br").unwrap());
}

#[test]
#[should_panic]
fn test_encode_type2() {
    assert_eq!(EncodeType::Brotli, EncodeType::from_str("Brotli").unwrap());
}

#[test]
fn encode_type_tokens() {
    assert_eq!(EncodeType::Deflate, EncodeType::from_str("DEFLATE").unwrap());
    assert_eq!(EncodeType::Gzip, EncodeType::from_str("gZip").unwrap());
    assert_eq!(EncodeType::Deflate.token(), "deflate");
    assert_eq!(EncodeType::Gzip.token(), "gzip");
    assert_eq!(EncodeType::Brotli.token(), "br");
    assert_eq!(EncodeType::from_str("zstd").unwrap_err(), SnapError::FormatError);
}

#[test]
fn file_format_parse_case_insensitive() {
    assert_eq!(FileFormat::Png, FileFormat::from_str("Png").unwrap());
    assert_eq!(FileFormat::Png, FileFormat::from_str("png").unwrap());
    assert_eq!(FileFormat::Png, FileFormat::from_str("PNG").unwrap());
    assert_eq!(FileFormat::Jpeg, FileFormat::from_str("JpEg").unwrap());
    assert_eq!(FileFormat::Tiff, FileFormat::from_str("tiff").unwrap());
    assert_eq!(FileFormat::Webp, FileFormat::from_str("WEBP").unwrap());
    assert_eq!(FileFormat::Tga, FileFormat::from_str("tga").unwrap());
    assert_eq!(FileFormat::Bmp, FileFormat::from_str("bmp").unwrap());
    assert_eq!(FileFormat::Qoi, FileFormat::from_str("Qoi").unwrap());
    assert_eq!(FileFormat::Gif, FileFormat::from_str("gif").unwrap());
    assert_eq!(FileFormat::Svg, FileFormat::from_str("svg").unwrap());
    assert_eq!(FileFormat::Pdf, FileFormat::from_str("PDF").unwrap());
}

#[test]
fn file_format_parse_rejects_unknown() {
    assert_eq!(FileFormat::from_str("exe").unwrap_err(), SnapError::FormatError);
    assert_eq!(FileFormat::from_str("").unwrap_err(), SnapError::FormatError);
    assert_eq!(FileFormat::from_str("jpg").unwrap_err(), SnapError::FormatError);
    assert_eq!(FileFormat::from_str("png ").unwrap_err(), SnapError::FormatError);
}

#[test]
fn content_types_exact() {
    assert_eq!(get_content_type(FileFormat::Png), "image/png");
    assert_eq!(get_content_type(FileFormat::Jpeg), "image/jpeg");
    assert_eq!(get_content_type(FileFormat::Tiff), "image/tiff");
    assert_eq!(get_content_type(FileFormat::Webp), "image/webp");
    assert_eq!(get_content_type(FileFormat::Tga), "image/tga");
    assert_eq!(get_content_type(FileFormat::Bmp), "image/bmp");
    assert_eq!(get_content_type(FileFormat::Qoi), "image/qoi");
    assert_eq!(get_content_type(FileFormat::Gif), "image/gif");
    assert_eq!(get_content_type(FileFormat::Svg), "image/svg+xml");
    assert_eq!(get_content_type(FileFormat::Pdf), "application/pdf");
}

#[test]
fn content_disposition_encodes_filename() {
    assert_eq!(
        content_disposition("shot", FileFormat::Png),
        "attachment; filename=\"shot.png\""
    );
    assert_eq!(
        content_disposition("my shot", FileFormat::Jpeg),
        "attachment; filename=\"my%20shot.jpeg\""
    );
}

#[test]
fn transcode_png_is_passthrough() {
    let png = sample_png();
    let out = png_transformer(&png, FileFormat::Png).unwrap();
    assert_eq!(out, png);
}

#[test]
fn transcode_jpeg_reencodes() {
    let png = sample_png();
    let out = png_transformer(&png, FileFormat::Jpeg).unwrap();
    assert_ne!(out, png);
    assert_eq!(image::guess_format(&out).unwrap(), image::ImageFormat::Jpeg);
}

#[test]
fn transcode_raster_targets_reencode() {
    let png = sample_png();
    for (fmt, expect) in [
        (FileFormat::Tiff, Some(image::ImageFormat::Tiff)),
        (FileFormat::Webp, Some(image::ImageFormat::WebP)),
        (FileFormat::Tga, None),
        (FileFormat::Bmp, Some(image::ImageFormat::Bmp)),
        (FileFormat::Qoi, Some(image::ImageFormat::Qoi)),
        (FileFormat::Gif, Some(image::ImageFormat::Gif)),
    ] {
        let out = png_transformer(&png, fmt).unwrap();
        assert_ne!(out, png);
        assert!(!out.is_empty());
        if let Some(e) = expect {
            assert_eq!(image::guess_format(&out).unwrap(), e);
        }
    }
}

#[test]
fn transcode_pdf_target_uses_gif_encoder() {
    let png = sample_png();
    let out = png_transformer(&png, FileFormat::Pdf).unwrap();
    assert_eq!(image::guess_format(&out).unwrap(), image::ImageFormat::Gif);
    assert_eq!(get_content_type(FileFormat::Pdf), "application/pdf");
}

#[test]
fn transcode_svg_is_framed_and_nonempty() {
    let png = sample_png();
    let out = png_transformer(&png, FileFormat::Svg).unwrap();
    assert!(!out.is_empty());
    assert!(out.starts_with(b"<?xml"));
    assert!(out.ends_with(b"</svg>\n"));
}

#[test]
fn transcode_rejects_corrupt_source() {
    let junk = b"this is not an image at all".to_vec();
    for fmt in [
        FileFormat::Png,
        FileFormat::Jpeg,
        FileFormat::Tiff,
        FileFormat::Webp,
        FileFormat::Tga,
        FileFormat::Bmp,
        FileFormat::Qoi,
        FileFormat::Gif,
        FileFormat::Svg,
        FileFormat::Pdf,
    ] {
        assert_eq!(png_transformer(&junk, fmt).unwrap_err(), SnapError::ImgError);
    }
}

#[test]
fn error_messages() {
    assert_eq!(SnapError::FormatError.message(), "file format error");
    assert!(SnapError::FormatError.is_caller_fault());
    assert!(SnapError::CookieParseError.is_caller_fault());
    assert!(!SnapError::DriverError.is_caller_fault());
    assert!(!SnapError::ImgError.is_caller_fault());
}
