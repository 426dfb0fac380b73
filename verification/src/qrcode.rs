//! QR code pictures: the PNG of a link, with an optional logo laid over its
//! middle, and the preparation of an uploaded logo.

use vstd::prelude::*;
use vstd::string::*;
use image::{DynamicImage, ImageOutputFormat};
use image::imageops::FilterType;
use qrcodegen::QrCodeEcc;
use std::io::Cursor;

verus! {

/// A decoded raster picture of the `image` crate, carried through as an opaque value.
#[verifier::external_type_specification]
#[verifier::external_body]
pub struct ExDynamicImage(DynamicImage);

/// Error correction level of a QR symbol.
#[derive(Clone, Copy, Debug, PartialEq, Eq, Structural)]
pub enum Ecc {
    Low,
    Medium,
    Quartile,
    High,
}

/// Resampling filter used when a picture is scaled.
#[derive(Clone, Copy, Debug, PartialEq, Eq, Structural)]
pub enum ResizeFilter {
    Nearest,
    Triangle,
    CatmullRom,
    Gaussian,
    Lanczos3,
}

/// Side, in pixels, of the QR picture of a link.
pub const QR_IMAGE_SIDE: usize = 1024;

/// Column and row, in pixels, of the QR picture where a logo's top-left corner goes.
pub const LOGO_OFFSET: i64 = 381;

/// Side, in pixels, of the box that an uploaded logo is scaled to fit.
pub const LOGO_SIDE: u32 = 295;

/// The PNG that `qrcode_generator::to_png_to_vec` makes of `data` at error
/// correction level `ecc` on a square of `side` pixels, or `None` where it fails.
pub uninterp spec fn qr_png_of(data: Seq<u8>, ecc: Ecc, side: usize) -> Option<Seq<u8>>;

/// The picture that `image::load_from_memory` decodes from `bytes` (its format
/// guessed from the content), or `None` where it fails.
pub uninterp spec fn decoded_image(bytes: Seq<u8>) -> Option<DynamicImage>;

/// The picture that `DynamicImage::into_rgba8` converts `img` to, as an RGBA picture.
pub uninterp spec fn rgba_of(img: DynamicImage) -> DynamicImage;

/// The picture that `image::imageops::overlay` leaves in `bottom` once `top` is
/// blended onto it with its top-left corner at `(x, y)`.
pub uninterp spec fn overlaid(bottom: DynamicImage, top: DynamicImage, x: i64, y: i64) -> DynamicImage;

/// The picture that `DynamicImage::resize` makes of `img` to fit a `width` by
/// `height` box with `filter`.
pub uninterp spec fn resized(img: DynamicImage, width: u32, height: u32, filter: ResizeFilter) -> DynamicImage;

/// The PNG bytes that `DynamicImage::write_to` writes for `img`, or `None` on an
/// encoding error.
pub uninterp spec fn png_encoding(img: DynamicImage) -> Option<Seq<u8>>;

/// `qrcode_generator::to_png_to_vec`: a grayscale PNG of the QR symbol of
/// `data`. Its result is a function of the arguments, named `qr_png_of`; the
/// error (data too long, size out of range) becomes `None`.
#[verifier::external_body]
fn qr_png(data: &[u8], ecc: Ecc, side: usize) -> (png: Option<Vec<u8>>)
    ensures
        match png {
            Some(p) => qr_png_of(data@, ecc, side) == Some(p@),
            None => qr_png_of(data@, ecc, side) is None,
        },
{
    let level = match ecc {
        Ecc::Low => QrCodeEcc::Low,
        Ecc::Medium => QrCodeEcc::Medium,
        Ecc::Quartile => QrCodeEcc::Quartile,
        Ecc::High => QrCodeEcc::High,
    };
    qrcode_generator::to_png_to_vec(data, level, side).ok()
}

/// `image::load_from_memory`: decodes a picture, guessing its format from the
/// bytes. The result is a function of the bytes, named `decoded_image`.
#[verifier::external_body]
fn decode_image(bytes: &[u8]) -> (img: Option<DynamicImage>)
    ensures
        img == decoded_image(bytes@),
{
    image::load_from_memory(bytes).ok()
}

/// `DynamicImage::into_rgba8`: the picture converted to 8-bit RGBA, named `rgba_of`.
#[verifier::external_body]
fn into_rgba(img: DynamicImage) -> (rgba: DynamicImage)
    ensures
        rgba == rgba_of(img),
{
    DynamicImage::ImageRgba8(img.into_rgba8())
}

/// `image::imageops::overlay`: blends `top` onto `bottom` with its top-left
/// corner at `(x, y)`, clipped to `bottom`; the result is named `overlaid`.
#[verifier::external_body]
fn overlay_at(bottom: &mut DynamicImage, top: &DynamicImage, x: i64, y: i64)
    ensures
        *final(bottom) == overlaid(*old(bottom), *top, x, y),
{
    image::imageops::overlay(bottom, top, x, y)
}

/// `DynamicImage::resize`: the picture scaled, keeping its aspect ratio, to fit
/// a `width` by `height` box; the result is named `resized`.
#[verifier::external_body]
fn resize_image(img: &DynamicImage, width: u32, height: u32, filter: ResizeFilter) -> (out: DynamicImage)
    ensures
        out == resized(*img, width, height, filter),
{
    let filter = match filter {
        ResizeFilter::Nearest => FilterType::Nearest,
        ResizeFilter::Triangle => FilterType::Triangle,
        ResizeFilter::CatmullRom => FilterType::CatmullRom,
        ResizeFilter::Gaussian => FilterType::Gaussian,
        ResizeFilter::Lanczos3 => FilterType::Lanczos3,
    };
    img.resize(width, height, filter)
}

/// `DynamicImage::write_to` with the PNG format: the encoded bytes, or `None` on
/// an encoding error; the result is named `png_encoding`.
#[verifier::external_body]
fn encode_png(img: &DynamicImage) -> (png: Option<Vec<u8>>)
    ensures
        match png {
            Some(p) => png_encoding(*img) == Some(p@),
            None => png_encoding(*img) is None,
        },
{
    let mut out: Vec<u8> = Vec::new();
    let written = img.write_to(&mut Cursor::new(&mut out), ImageOutputFormat::Png);
    match written {
        Ok(()) => Some(out),
        Err(_) => None,
    }
}

/// Why no QR picture could be made.
#[derive(Clone, Copy, Debug, PartialEq, Eq, Structural)]
pub enum QrCodeError {
    /// The link does not fit in a QR symbol at the high correction level.
    DataTooLong,
    /// The generated QR PNG could not be read back.
    QrUnreadable,
    /// The logo is not a picture that can be decoded.
    LogoUnreadable,
    /// The final picture could not be encoded as PNG.
    EncodingFailed,
}

/// Why an uploaded logo could not be prepared.
#[derive(Clone, Copy, Debug, PartialEq, Eq, Structural)]
pub enum LogoError {
    /// The upload is not a picture that can be decoded.
    Unreadable,
    /// The scaled picture could not be encoded as PNG.
    EncodingFailed,
}

/// The bytes held by an optional buffer.
pub open spec fn opt_bytes(o: Option<Vec<u8>>) -> Option<Seq<u8>> {
    match o {
        Some(v) => Some(v@),
        None => None,
    }
}

/// The bytes of a result, or its error.
pub open spec fn result_bytes<E>(r: Result<Vec<u8>, E>) -> Result<Seq<u8>, E> {
    match r {
        Ok(v) => Ok(v@),
        Err(e) => Err(e),
    }
}

/// A picture encoded as PNG, or the encoding failure.
pub open spec fn qr_encoded(img: DynamicImage) -> Result<Seq<u8>, QrCodeError> {
    match png_encoding(img) {
        Some(b) => Ok(b),
        None => Err(QrCodeError::EncodingFailed),
    }
}

/// The QR picture of `link` with `logo`, if any: the PNG of the link's QR
/// symbol (high correction, `QR_IMAGE_SIDE` pixels square) read back and
/// converted to RGBA, with the decoded logo blended over it at
/// `(LOGO_OFFSET, LOGO_OFFSET)`, encoded as PNG; or the first step that fails.
pub open spec fn qrcode_png(link: Seq<u8>, logo: Option<Seq<u8>>) -> Result<Seq<u8>, QrCodeError> {
    match qr_png_of(link, Ecc::High, QR_IMAGE_SIDE) {
        None => Err(QrCodeError::DataTooLong),
        Some(qr) => match decoded_image(qr) {
            None => Err(QrCodeError::QrUnreadable),
            Some(qr_image) => match logo {
                None => qr_encoded(rgba_of(qr_image)),
                Some(l) => match decoded_image(l) {
                    None => Err(QrCodeError::LogoUnreadable),
                    Some(logo_image) => qr_encoded(
                        overlaid(rgba_of(qr_image), logo_image, LOGO_OFFSET, LOGO_OFFSET),
                    ),
                },
            },
        },
    }
}

/// The QR picture of `link` with `logo` laid over its middle, as `qrcode_png`
/// says.
pub fn make_qrcode(link: &str, logo: Option<Vec<u8>>) -> (png: Result<Vec<u8>, QrCodeError>)
    ensures
        result_bytes(png) == qrcode_png(link.spec_bytes(), opt_bytes(logo)),
        match (qr_png_of(link.spec_bytes(), Ecc::High, 1024), logo) {
            (Some(q), Some(l)) => match (decoded_image(q), decoded_image(l@)) {
                (Some(qr_image), Some(logo_image)) => result_bytes(png) == match png_encoding(
                    overlaid(rgba_of(qr_image), logo_image, 381, 381),
                ) {
                    Some(b) => Ok::<Seq<u8>, QrCodeError>(b),
                    None => Err(QrCodeError::EncodingFailed),
                },
                _ => true,
            },
            _ => true,
        },
{
    proof {
        law_logo_laid_once_at_offset(
            link.spec_bytes(),
            match opt_bytes(logo) {
                Some(l) => l,
                None => Seq::<u8>::empty(),
            },
        );
    }
    let qr_bytes = match qr_png(link.as_bytes(), Ecc::High, QR_IMAGE_SIDE) {
        Some(b) => b,
        None => return Err(QrCodeError::DataTooLong),
    };
    let qr = match decode_image(qr_bytes.as_slice()) {
        Some(img) => img,
        None => return Err(QrCodeError::QrUnreadable),
    };
    let mut qr = into_rgba(qr);
    if let Some(logo) = logo {
        let logo_image = match decode_image(logo.as_slice()) {
            Some(img) => img,
            None => return Err(QrCodeError::LogoUnreadable),
        };
        overlay_at(&mut qr, &logo_image, LOGO_OFFSET, LOGO_OFFSET);
    }
    match encode_png(&qr) {
        Some(out) => Ok(out),
        None => Err(QrCodeError::EncodingFailed),
    }
}

/// An uploaded logo made ready to be stored: decoded, scaled with the Lanczos
/// filter to fit a `LOGO_SIDE` square, and encoded as PNG; or the step that fails.
pub open spec fn prepared_logo(upload: Seq<u8>) -> Result<Seq<u8>, LogoError> {
    match decoded_image(upload) {
        None => Err(LogoError::Unreadable),
        Some(img) => match png_encoding(resized(img, LOGO_SIDE, LOGO_SIDE, ResizeFilter::Lanczos3)) {
            Some(b) => Ok(b),
            None => Err(LogoError::EncodingFailed),
        },
    }
}

/// Prepares an uploaded logo as `prepared_logo` says.
pub fn prepare_logo(upload: &[u8]) -> (png: Result<Vec<u8>, LogoError>)
    ensures
        result_bytes(png) == prepared_logo(upload@),
        decoded_image(upload@) matches Some(img) ==> result_bytes(png) == match png_encoding(
            resized(img, 295, 295, ResizeFilter::Lanczos3),
        ) {
            Some(b) => Ok::<Seq<u8>, LogoError>(b),
            None => Err(LogoError::EncodingFailed),
        },
{
    proof {
        law_logo_fits_square_box(upload@);
    }
    let img = match decode_image(upload) {
        Some(img) => img,
        None => return Err(LogoError::Unreadable),
    };
    let scaled = resize_image(&img, LOGO_SIDE, LOGO_SIDE, ResizeFilter::Lanczos3);
    match encode_png(&scaled) {
        Some(out) => Ok(out),
        None => Err(LogoError::EncodingFailed),
    }
}

/// A logo adds only its own failure: without one, making the picture never
/// fails on a logo; with one, it fails on the link or on reading the QR PNG
/// back exactly when it does without; and without one, the picture is the QR
/// PNG read back and re-encoded in RGBA.
pub proof fn law_logo_adds_only_its_own_failure(link: Seq<u8>, logo: Seq<u8>)
    ensures
        qrcode_png(link, None) != Err::<Seq<u8>, QrCodeError>(QrCodeError::LogoUnreadable),
        qrcode_png(link, Some(logo)) == Err::<Seq<u8>, QrCodeError>(QrCodeError::DataTooLong)
            <==> qrcode_png(link, None) == Err::<Seq<u8>, QrCodeError>(QrCodeError::DataTooLong),
        qrcode_png(link, Some(logo)) == Err::<Seq<u8>, QrCodeError>(QrCodeError::QrUnreadable)
            <==> qrcode_png(link, None) == Err::<Seq<u8>, QrCodeError>(QrCodeError::QrUnreadable),
        match qr_png_of(link, Ecc::High, QR_IMAGE_SIDE) {
            Some(q) => match decoded_image(q) {
                Some(i) => qrcode_png(link, None) == qr_encoded(rgba_of(i)),
                None => true,
            },
            None => true,
        },
{
}

/// The logo is laid exactly once, with its top-left corner at pixel (381, 381)
/// of the QR picture: whenever the link's QR PNG (high correction, 1024 pixels)
/// reads back and the logo decodes, the picture without a logo is the PNG of
/// the RGBA QR picture, and the picture with the logo is the PNG of that same
/// RGBA picture with the decoded logo blended onto it once at (381, 381).
pub proof fn law_logo_laid_once_at_offset(link: Seq<u8>, logo: Seq<u8>)
    ensures
        match qr_png_of(link, Ecc::High, 1024) {
            Some(q) => match decoded_image(q) {
                Some(qr_image) => {
                    &&& qrcode_png(link, None) == match png_encoding(rgba_of(qr_image)) {
                        Some(b) => Ok::<Seq<u8>, QrCodeError>(b),
                        None => Err(QrCodeError::EncodingFailed),
                    }
                    &&& match decoded_image(logo) {
                        Some(logo_image) => qrcode_png(link, Some(logo)) == match png_encoding(
                            overlaid(rgba_of(qr_image), logo_image, 381, 381),
                        ) {
                            Some(b) => Ok::<Seq<u8>, QrCodeError>(b),
                            None => Err(QrCodeError::EncodingFailed),
                        },
                        None => qrcode_png(link, Some(logo)) == Err::<Seq<u8>, QrCodeError>(
                            QrCodeError::LogoUnreadable,
                        ),
                    }
                },
                None => true,
            },
            None => true,
        },
{
}

/// An uploaded logo is scaled with the Lanczos filter to fit a box of 295 by
/// 295 pixels, then encoded as PNG; an upload that does not decode is refused.
pub proof fn law_logo_fits_square_box(upload: Seq<u8>)
    ensures
        match decoded_image(upload) {
            Some(img) => prepared_logo(upload) == match png_encoding(
                resized(img, 295, 295, ResizeFilter::Lanczos3),
            ) {
                Some(b) => Ok::<Seq<u8>, LogoError>(b),
                None => Err(LogoError::EncodingFailed),
            },
            None => prepared_logo(upload) == Err::<Seq<u8>, LogoError>(LogoError::Unreadable),
        },
{
}

} // verus!
