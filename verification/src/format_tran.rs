//! The image transcoder: from the captured PNG bytes to the requested
//! output format, plus the derived response metadata.
//!
//! The capture always produces PNG. A PNG target is a passthrough; the
//! other bitmap targets are a full decode and re-encode; the one vector
//! target decodes into an RGBA buffer and runs a raster-to-vector tracer,
//! which is the slow, lossy path. An unknown target token is rejected
//! before any work.

use vstd::prelude::*;
use vstd::slice::slice_to_vec;
use vstd::string::StringExecFns;
use vstd::string::StrSliceExecFns;

use crate::error::{SnapError, SnapResult};

verus! {

/// The ASCII-lowercased code point of a character.
pub open spec fn spec_lower_u32(c: char) -> u32 {
    if 65 <= c as u32 && c as u32 <= 90 {
        (c as u32 + 32) as u32
    } else {
        c as u32
    }
}

/// Case-insensitive equality of two character sequences, folding ASCII
/// letters only.
pub open spec fn spec_eq_ignore_case(a: Seq<char>, b: Seq<char>) -> bool {
    a.len() == b.len() && (forall|i: int|
        0 <= i < a.len() ==> spec_lower_u32(a[i]) == spec_lower_u32(b[i]))
}

fn char_lower_u32(c: char) -> (r: u32)
    ensures
        r == spec_lower_u32(c),
{
    let u = c as u32;
    if 65 <= u && u <= 90 {
        u + 32
    } else {
        u
    }
}

/// Compares two strings for equality up to ASCII case.
pub fn eq_ignore_ascii_case(s: &str, t: &str) -> (b: bool)
    ensures
        b == spec_eq_ignore_case(s@, t@),
{
    let n = s.unicode_len();
    if n != t.unicode_len() {
        return false;
    }
    let mut i: usize = 0;
    while i < n
        invariant
            n == s@.len(),
            n == t@.len(),
            0 <= i <= n,
            forall|k: int| 0 <= k < i ==> spec_lower_u32(s@[k]) == spec_lower_u32(t@[k]),
        decreases n - i,
    {
        let a = s.get_char(i);
        let b = t.get_char(i);
        if char_lower_u32(a) != char_lower_u32(b) {
            return false;
        }
        i = i + 1;
    }
    true
}

/// The supported output formats. All but `Svg` (the vector target) and
/// `Pdf` (a document-like legacy target) are bitmap formats.
#[derive(Debug, Clone, Copy, PartialEq, Eq, Structural)]
pub enum FileFormat {
    Png,
    Jpeg,
    Tiff,
    Webp,
    Tga,
    Bmp,
    Qoi,
    Gif,
    Svg,
    Pdf,
}

/// The canonical lowercase token of each format.
pub open spec fn spec_token(f: FileFormat) -> Seq<char> {
    match f {
        FileFormat::Png => "png"@,
        FileFormat::Jpeg => "jpeg"@,
        FileFormat::Tiff => "tiff"@,
        FileFormat::Webp => "webp"@,
        FileFormat::Tga => "tga"@,
        FileFormat::Bmp => "bmp"@,
        FileFormat::Qoi => "qoi"@,
        FileFormat::Gif => "gif"@,
        FileFormat::Svg => "svg"@,
        FileFormat::Pdf => "pdf"@,
    }
}

/// Which format a token names, up to ASCII case; `None` for an
/// unrecognized token.
pub open spec fn spec_parse_format(s: Seq<char>) -> Option<FileFormat> {
    if spec_eq_ignore_case(s, "png"@) {
        Some(FileFormat::Png)
    } else if spec_eq_ignore_case(s, "jpeg"@) {
        Some(FileFormat::Jpeg)
    } else if spec_eq_ignore_case(s, "tiff"@) {
        Some(FileFormat::Tiff)
    } else if spec_eq_ignore_case(s, "webp"@) {
        Some(FileFormat::Webp)
    } else if spec_eq_ignore_case(s, "tga"@) {
        Some(FileFormat::Tga)
    } else if spec_eq_ignore_case(s, "bmp"@) {
        Some(FileFormat::Bmp)
    } else if spec_eq_ignore_case(s, "qoi"@) {
        Some(FileFormat::Qoi)
    } else if spec_eq_ignore_case(s, "gif"@) {
        Some(FileFormat::Gif)
    } else if spec_eq_ignore_case(s, "svg"@) {
        Some(FileFormat::Svg)
    } else if spec_eq_ignore_case(s, "pdf"@) {
        Some(FileFormat::Pdf)
    } else {
        None
    }
}

impl FileFormat {
    /// Parses a format token, case-insensitively; an unrecognized token is
    /// the caller error `FormatError`.
    pub fn from_str(s: &str) -> (r: SnapResult<FileFormat>)
        ensures
            match spec_parse_format(s@) {
                Some(f) => r == Ok::<FileFormat, SnapError>(f),
                None => r == Err::<FileFormat, SnapError>(SnapError::FormatError),
            },
    {
        if eq_ignore_ascii_case(s, "png") {
            Ok(FileFormat::Png)
        } else if eq_ignore_ascii_case(s, "jpeg") {
            Ok(FileFormat::Jpeg)
        } else if eq_ignore_ascii_case(s, "tiff") {
            Ok(FileFormat::Tiff)
        } else if eq_ignore_ascii_case(s, "webp") {
            Ok(FileFormat::Webp)
        } else if eq_ignore_ascii_case(s, "tga") {
            Ok(FileFormat::Tga)
        } else if eq_ignore_ascii_case(s, "bmp") {
            Ok(FileFormat::Bmp)
        } else if eq_ignore_ascii_case(s, "qoi") {
            Ok(FileFormat::Qoi)
        } else if eq_ignore_ascii_case(s, "gif") {
            Ok(FileFormat::Gif)
        } else if eq_ignore_ascii_case(s, "svg") {
            Ok(FileFormat::Svg)
        } else if eq_ignore_ascii_case(s, "pdf") {
            Ok(FileFormat::Pdf)
        } else {
            Err(SnapError::FormatError)
        }
    }

    /// The canonical lowercase token, used as the file extension.
    pub fn token(&self) -> (r: &'static str)
        ensures
            r@ == spec_token(*self),
    {
        match self {
            FileFormat::Png => "png",
            FileFormat::Jpeg => "jpeg",
            FileFormat::Tiff => "tiff",
            FileFormat::Webp => "webp",
            FileFormat::Tga => "tga",
            FileFormat::Bmp => "bmp",
            FileFormat::Qoi => "qoi",
            FileFormat::Gif => "gif",
            FileFormat::Svg => "svg",
            FileFormat::Pdf => "pdf",
        }
    }
}

/// A decoded bitmap: RGBA samples, row major, four bytes per pixel.
#[derive(Debug, PartialEq)]
pub struct RgbaImageData {
    pub pixels: Vec<u8>,
    pub width: u32,
    pub height: u32,
}

impl RgbaImageData {
    /// The pixel buffer holds exactly four bytes per pixel.
    pub open spec fn wf(&self) -> bool {
        self.pixels@.len() == 4 * (self.width as int) * (self.height as int)
    }
}

/// What decoding the given bytes yields: `None` if they are not a decodable
/// image, else the RGBA samples and the dimensions.
pub uninterp spec fn decoded_rgba(bytes: Seq<u8>) -> Option<(Seq<u8>, u32, u32)>;

/// What re-encoding the image decoded from the given bytes into the given
/// bitmap format yields: `None` if that encoder rejects the image.
pub uninterp spec fn raster_encoding(f: FileFormat, bytes: Seq<u8>) -> Option<Seq<u8>>;

/// Relies on image::load_from_memory and image::DynamicImage::to_rgba8:
/// the decode is a function of the bytes alone, and the RGBA buffer holds
/// four bytes per pixel of the decoded dimensions.
#[verifier::external_body]
fn decode_rgba(buf: &[u8]) -> (r: SnapResult<RgbaImageData>)
    ensures
        match decoded_rgba(buf@) {
            Some(t) => r is Ok && r->Ok_0.pixels@ == t.0 && r->Ok_0.width == t.1
                && r->Ok_0.height == t.2 && t.0.len() == 4 * (t.1 as int) * (t.2 as int),
            None => (r == Err::<RgbaImageData, SnapError>(SnapError::ImgError)),
        },
{
    match image::load_from_memory(buf) {
        Ok(img) => {
            let rgba = img.to_rgba8();
            let width = rgba.width();
            let height = rgba.height();
            Ok(RgbaImageData { pixels: rgba.into_raw(), width, height })
        },
        Err(_) => Err(SnapError::ImgError),
    }
}

/// Relies on image::load_from_memory and image::DynamicImage::write_to
/// with image::ImageFormat::Jpeg: both are functions of the bytes alone.
#[verifier::external_body]
fn reencode_jpeg(buf: &[u8]) -> (r: SnapResult<Vec<u8>>)
    ensures
        decoded_rgba(buf@) is None ==> (r == Err::<Vec<u8>, SnapError>(SnapError::ImgError)),
        decoded_rgba(buf@) is Some ==> (match raster_encoding(FileFormat::Jpeg, buf@) {
            Some(b) => r is Ok && r->Ok_0@ == b,
            None => (r == Err::<Vec<u8>, SnapError>(SnapError::ImgError)),
        }),
{
    let img = match image::load_from_memory(buf) {
        Ok(i) => i,
        Err(_) => return Err(SnapError::ImgError),
    };
    let mut out: Vec<u8> = Vec::new();
    let mut cursor = std::io::Cursor::new(&mut out);
    match img.write_to(&mut cursor, image::ImageFormat::Jpeg) {
        Ok(()) => Ok(out),
        Err(_) => Err(SnapError::ImgError),
    }
}

/// Relies on image::load_from_memory and image::DynamicImage::write_to
/// with image::ImageFormat::Tiff: both are functions of the bytes alone.
#[verifier::external_body]
fn reencode_tiff(buf: &[u8]) -> (r: SnapResult<Vec<u8>>)
    ensures
        decoded_rgba(buf@) is None ==> (r == Err::<Vec<u8>, SnapError>(SnapError::ImgError)),
        decoded_rgba(buf@) is Some ==> (match raster_encoding(FileFormat::Tiff, buf@) {
            Some(b) => r is Ok && r->Ok_0@ == b,
            None => (r == Err::<Vec<u8>, SnapError>(SnapError::ImgError)),
        }),
{
    let img = match image::load_from_memory(buf) {
        Ok(i) => i,
        Err(_) => return Err(SnapError::ImgError),
    };
    let mut out: Vec<u8> = Vec::new();
    let mut cursor = std::io::Cursor::new(&mut out);
    match img.write_to(&mut cursor, image::ImageFormat::Tiff) {
        Ok(()) => Ok(out),
        Err(_) => Err(SnapError::ImgError),
    }
}

/// Relies on image::load_from_memory and image::DynamicImage::write_to
/// with image::ImageFormat::WebP: both are functions of the bytes alone.
#[verifier::external_body]
fn reencode_webp(buf: &[u8]) -> (r: SnapResult<Vec<u8>>)
    ensures
        decoded_rgba(buf@) is None ==> (r == Err::<Vec<u8>, SnapError>(SnapError::ImgError)),
        decoded_rgba(buf@) is Some ==> (match raster_encoding(FileFormat::Webp, buf@) {
            Some(b) => r is Ok && r->Ok_0@ == b,
            None => (r == Err::<Vec<u8>, SnapError>(SnapError::ImgError)),
        }),
{
    let img = match image::load_from_memory(buf) {
        Ok(i) => i,
        Err(_) => return Err(SnapError::ImgError),
    };
    let mut out: Vec<u8> = Vec::new();
    let mut cursor = std::io::Cursor::new(&mut out);
    match img.write_to(&mut cursor, image::ImageFormat::WebP) {
        Ok(()) => Ok(out),
        Err(_) => Err(SnapError::ImgError),
    }
}

/// Relies on image::load_from_memory and image::DynamicImage::write_to
/// with image::ImageFormat::Tga: both are functions of the bytes alone.
#[verifier::external_body]
fn reencode_tga(buf: &[u8]) -> (r: SnapResult<Vec<u8>>)
    ensures
        decoded_rgba(buf@) is None ==> (r == Err::<Vec<u8>, SnapError>(SnapError::ImgError)),
        decoded_rgba(buf@) is Some ==> (match raster_encoding(FileFormat::Tga, buf@) {
            Some(b) => r is Ok && r->Ok_0@ == b,
            None => (r == Err::<Vec<u8>, SnapError>(SnapError::ImgError)),
        }),
{
    let img = match image::load_from_memory(buf) {
        Ok(i) => i,
        Err(_) => return Err(SnapError::ImgError),
    };
    let mut out: Vec<u8> = Vec::new();
    let mut cursor = std::io::Cursor::new(&mut out);
    match img.write_to(&mut cursor, image::ImageFormat::Tga) {
        Ok(()) => Ok(out),
        Err(_) => Err(SnapError::ImgError),
    }
}

/// Relies on image::load_from_memory and image::DynamicImage::write_to
/// with image::ImageFormat::Bmp: both are functions of the bytes alone.
#[verifier::external_body]
fn reencode_bmp(buf: &[u8]) -> (r: SnapResult<Vec<u8>>)
    ensures
        decoded_rgba(buf@) is None ==> (r == Err::<Vec<u8>, SnapError>(SnapError::ImgError)),
        decoded_rgba(buf@) is Some ==> (match raster_encoding(FileFormat::Bmp, buf@) {
            Some(b) => r is Ok && r->Ok_0@ == b,
            None => (r == Err::<Vec<u8>, SnapError>(SnapError::ImgError)),
        }),
{
    let img = match image::load_from_memory(buf) {
        Ok(i) => i,
        Err(_) => return Err(SnapError::ImgError),
    };
    let mut out: Vec<u8> = Vec::new();
    let mut cursor = std::io::Cursor::new(&mut out);
    match img.write_to(&mut cursor, image::ImageFormat::Bmp) {
        Ok(()) => Ok(out),
        Err(_) => Err(SnapError::ImgError),
    }
}

/// Relies on image::load_from_memory and image::DynamicImage::write_to
/// with image::ImageFormat::Qoi: both are functions of the bytes alone.
#[verifier::external_body]
fn reencode_qoi(buf: &[u8]) -> (r: SnapResult<Vec<u8>>)
    ensures
        decoded_rgba(buf@) is None ==> (r == Err::<Vec<u8>, SnapError>(SnapError::ImgError)),
        decoded_rgba(buf@) is Some ==> (match raster_encoding(FileFormat::Qoi, buf@) {
            Some(b) => r is Ok && r->Ok_0@ == b,
            None => (r == Err::<Vec<u8>, SnapError>(SnapError::ImgError)),
        }),
{
    let img = match image::load_from_memory(buf) {
        Ok(i) => i,
        Err(_) => return Err(SnapError::ImgError),
    };
    let mut out: Vec<u8> = Vec::new();
    let mut cursor = std::io::Cursor::new(&mut out);
    match img.write_to(&mut cursor, image::ImageFormat::Qoi) {
        Ok(()) => Ok(out),
        Err(_) => Err(SnapError::ImgError),
    }
}

/// Relies on image::load_from_memory and image::DynamicImage::write_to
/// with image::ImageFormat::Gif: both are functions of the bytes alone.
#[verifier::external_body]
fn reencode_gif(buf: &[u8]) -> (r: SnapResult<Vec<u8>>)
    ensures
        decoded_rgba(buf@) is None ==> (r == Err::<Vec<u8>, SnapError>(SnapError::ImgError)),
        decoded_rgba(buf@) is Some ==> (match raster_encoding(FileFormat::Gif, buf@) {
            Some(b) => r is Ok && r->Ok_0@ == b,
            None => (r == Err::<Vec<u8>, SnapError>(SnapError::ImgError)),
        }),
{
    let img = match image::load_from_memory(buf) {
        Ok(i) => i,
        Err(_) => return Err(SnapError::ImgError),
    };
    let mut out: Vec<u8> = Vec::new();
    let mut cursor = std::io::Cursor::new(&mut out);
    match img.write_to(&mut cursor, image::ImageFormat::Gif) {
        Ok(()) => Ok(out),
        Err(_) => Err(SnapError::ImgError),
    }
}

/// The fixed frame every traced vector document carries: it opens with the
/// XML declaration and closes with the svg end tag and a newline.
pub open spec fn svg_framed(bytes: Seq<u8>) -> bool {
    &&& bytes.len() >= 12
    &&& bytes[0] == 60u8
    &&& bytes[1] == 63u8
    &&& bytes[2] == 120u8
    &&& bytes[3] == 109u8
    &&& bytes[4] == 108u8
    &&& bytes[bytes.len() - 7] == 60u8
    &&& bytes[bytes.len() - 6] == 47u8
    &&& bytes[bytes.len() - 5] == 115u8
    &&& bytes[bytes.len() - 4] == 118u8
    &&& bytes[bytes.len() - 3] == 103u8
    &&& bytes[bytes.len() - 2] == 62u8
    &&& bytes[bytes.len() - 1] == 10u8
}

/// Relies on vtracer::convert and the serializer of its result: the
/// serialized document always opens with the XML declaration and closes
/// with the svg end tag, whatever paths the tracer found. The tracer picks
/// keying colors at random, so nothing more is stated of the output.
#[verifier::external_body]
fn trace_svg(img: &RgbaImageData) -> (r: SnapResult<Vec<u8>>)
    requires
        img.wf(),
    ensures
        r is Ok ==> svg_framed(r->Ok_0@),
        r is Err ==> (r == Err::<Vec<u8>, SnapError>(SnapError::ImgError)),
{
    let mut color_img = vtracer::ColorImage::new_w_h(img.width as usize, img.height as usize);
    color_img.pixels = img.pixels.clone();
    let cfg = vtracer::Config::default();
    match vtracer::convert(color_img, cfg) {
        Ok(svg) => Ok(svg.to_string().into_bytes()),
        Err(_) => Err(SnapError::ImgError),
    }
}

/// Which bitmap encoder a re-encoding target uses. The document-like
/// legacy target is encoded with the GIF encoder.
pub open spec fn raster_target(f: FileFormat) -> FileFormat {
    if f is Pdf {
        FileFormat::Gif
    } else {
        f
    }
}

/// True of the targets that take the decode-and-re-encode path.
pub open spec fn is_reencode_target(f: FileFormat) -> bool {
    !(f is Png) && !(f is Svg)
}

/// Transcodes the captured PNG bytes into the requested output format.
///
/// A PNG target is a passthrough of the validated input; every other
/// bitmap target (the document-like legacy target among them, through the
/// GIF encoder) is a full decode and re-encode; the vector target decodes
/// to RGBA and traces, which is the slow path. Undecodable input is
/// `ImgError` on every path.
pub fn png_transformer(buf: &[u8], inform: FileFormat) -> (r: SnapResult<Vec<u8>>)
    ensures
        decoded_rgba(buf@) is None ==> (r == Err::<Vec<u8>, SnapError>(SnapError::ImgError)),
        r is Ok ==> decoded_rgba(buf@) is Some,
        inform is Png && decoded_rgba(buf@) is Some ==> r is Ok && r->Ok_0@ == buf@,
        is_reencode_target(inform) && decoded_rgba(buf@) is Some ==> (match raster_encoding(
            raster_target(inform),
            buf@,
        ) {
            Some(b) => r is Ok && r->Ok_0@ == b,
            None => (r == Err::<Vec<u8>, SnapError>(SnapError::ImgError)),
        }),
        inform is Svg && r is Ok ==> svg_framed(r->Ok_0@),
        inform is Svg && decoded_rgba(buf@) is Some && r is Err ==> r == Err::<
            Vec<u8>,
            SnapError,
        >(SnapError::ImgError),
{
    match inform {
        FileFormat::Png => {
            match decode_rgba(buf) {
                Ok(_) => Ok(slice_to_vec(buf)),
                Err(e) => Err(e),
            }
        },
        FileFormat::Jpeg => reencode_jpeg(buf),
        FileFormat::Tiff => reencode_tiff(buf),
        FileFormat::Webp => reencode_webp(buf),
        FileFormat::Tga => reencode_tga(buf),
        FileFormat::Bmp => reencode_bmp(buf),
        FileFormat::Qoi => reencode_qoi(buf),
        FileFormat::Gif => reencode_gif(buf),
        FileFormat::Pdf => reencode_gif(buf),
        FileFormat::Svg => {
            match decode_rgba(buf) {
                Ok(img) => trace_svg(&img),
                Err(e) => Err(e),
            }
        },
    }
}

/// The MIME type of each output format.
pub open spec fn spec_content_type(f: FileFormat) -> Seq<char> {
    match f {
        FileFormat::Png => "image/png"@,
        FileFormat::Jpeg => "image/jpeg"@,
        FileFormat::Tiff => "image/tiff"@,
        FileFormat::Webp => "image/webp"@,
        FileFormat::Tga => "image/tga"@,
        FileFormat::Bmp => "image/bmp"@,
        FileFormat::Qoi => "image/qoi"@,
        FileFormat::Gif => "image/gif"@,
        FileFormat::Svg => "image/svg+xml"@,
        FileFormat::Pdf => "application/pdf"@,
    }
}

/// The MIME type of an output format: an image type for every bitmap
/// format, the vector type for the vector target, an application type for
/// the document-like legacy target.
pub fn get_content_type(inform: FileFormat) -> (r: String)
    ensures
        r@ == spec_content_type(inform),
{
    match inform {
        FileFormat::Png => "image/png".to_owned(),
        FileFormat::Jpeg => "image/jpeg".to_owned(),
        FileFormat::Tiff => "image/tiff".to_owned(),
        FileFormat::Webp => "image/webp".to_owned(),
        FileFormat::Tga => "image/tga".to_owned(),
        FileFormat::Bmp => "image/bmp".to_owned(),
        FileFormat::Qoi => "image/qoi".to_owned(),
        FileFormat::Gif => "image/gif".to_owned(),
        FileFormat::Svg => "image/svg+xml".to_owned(),
        FileFormat::Pdf => "application/pdf".to_owned(),
    }
}

/// True of characters that the filename encoding leaves as they are.
pub open spec fn spec_is_ascii_alphanumeric(c: char) -> bool {
    (48 <= c as u32 && c as u32 <= 57) || (65 <= c as u32 && c as u32 <= 90) || (97 <= c as u32
        && c as u32 <= 122)
}

/// All characters of the sequence are ASCII letters or digits.
pub open spec fn spec_all_alphanumeric(s: Seq<char>) -> bool {
    forall|i: int| 0 <= i < s.len() ==> spec_is_ascii_alphanumeric(s[i])
}

/// What percent-encoding every character outside ASCII letters and digits
/// yields for the given string.
pub uninterp spec fn percent_encoded_na(s: Seq<char>) -> Seq<char>;

/// Relies on percent_encoding::utf8_percent_encode with NON_ALPHANUMERIC:
/// the encoding is a function of the string alone, and characters not in
/// the set, the ASCII letters and digits, are passed through unchanged, so
/// a string of those alone comes back as it was.
#[verifier::external_body]
fn percent_encode_filename(s: &str) -> (r: String)
    ensures
        r@ == percent_encoded_na(s@),
        spec_all_alphanumeric(s@) ==> r@ == s@,
{
    percent_encoding::utf8_percent_encode(s, percent_encoding::NON_ALPHANUMERIC).to_string()
}

/// The Content-Disposition value of a response: an attachment named by the
/// percent-encoded request filename with the format token as extension.
pub fn content_disposition(filename: &str, inform: FileFormat) -> (r: String)
    ensures
        r@ == "attachment; filename=\""@ + percent_encoded_na(filename@) + "."@ + spec_token(
            inform,
        ) + "\""@,
{
    let encoded = percent_encode_filename(filename);
    let out = "attachment; filename=\"".to_owned();
    let out = out.concat(encoded.as_str());
    let out = out.concat(".");
    let out = out.concat(inform.token());
    let out = out.concat("\"");
    proof {
        assert(out@ =~= "attachment; filename=\""@ + percent_encoded_na(filename@) + "."@
            + spec_token(inform) + "\""@);
    }
    out
}

} // verus!
