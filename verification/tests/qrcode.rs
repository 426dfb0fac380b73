use image::io::Reader;
use image::ImageFormat;
use qrcode_generator::QrCodeEcc;
use image::{DynamicImage, GenericImageView, ImageOutputFormat, Rgba, RgbaImage};
use mili::qrcode::{make_qrcode, prepare_logo, LogoError, QrCodeError, LOGO_OFFSET, LOGO_SIDE, QR_IMAGE_SIDE};
use std::io::Cursor;

const PNG_SIGNATURE: [u8; 8] = [0x89, b'P', b'N', b'G', 0x0d, 0x0a, 0x1a, 0x0a];

fn png_of(width: u32, height: u32, colour: [u8; 4]) -> Vec<u8> {
    let img = RgbaImage::from_pixel(width, height, Rgba(colour));
    let mut out = Vec::new();
    DynamicImage::ImageRgba8(img)
        .write_to(&mut Cursor::new(&mut out), ImageOutputFormat::Png)
        .unwrap();
    out
}

#[test]
fn qr_picture_of_a_link_is_a_square_png() {
    let png = make_qrcode("https://google.com", None).unwrap();
    assert_eq!(&png[..8], &PNG_SIGNATURE);
    let img = image::load_from_memory(&png).unwrap();
    assert_eq!(img.dimensions(), (QR_IMAGE_SIDE as u32, QR_IMAGE_SIDE as u32));
    assert_eq!(image::guess_format(&png).unwrap(), image::ImageFormat::Png);
}

#[test]
fn logo_is_laid_over_the_middle() {
    let logo = png_of(10, 10, [255, 0, 0, 255]);
    let plain = image::load_from_memory(&make_qrcode("https://google.com", None).unwrap()).unwrap();
    let png = make_qrcode("https://google.com", Some(logo)).unwrap();
    let img = image::load_from_memory(&png).unwrap();
    let at = LOGO_OFFSET as u32;
    assert_eq!(img.get_pixel(at, at), Rgba([255, 0, 0, 255]));
    assert_eq!(img.get_pixel(at + 9, at + 9), Rgba([255, 0, 0, 255]));
    assert_eq!(img.get_pixel(at + 10, at + 10), plain.get_pixel(at + 10, at + 10));
    assert_eq!(img.get_pixel(0, 0), plain.get_pixel(0, 0));
}

#[test]
fn unreadable_logo_is_refused() {
    let res = make_qrcode("https://google.com", Some(vec![1, 2, 3, 4]));
    assert_eq!(res, Err(QrCodeError::LogoUnreadable));
}

#[test]
fn too_long_link_is_refused() {
    let link = "x".repeat(4000);
    assert_eq!(make_qrcode(&link, None), Err(QrCodeError::DataTooLong));
    assert_eq!(make_qrcode(&link, Some(vec![0])), Err(QrCodeError::DataTooLong));
}

#[test]
fn logo_is_scaled_to_fit_its_box() {
    let upload = png_of(600, 200, [0, 0, 255, 255]);
    let png = prepare_logo(&upload).unwrap();
    assert_eq!(&png[..8], &PNG_SIGNATURE);
    let img = image::load_from_memory(&png).unwrap();
    assert_eq!(img.dimensions(), (LOGO_SIDE, 98));
}

#[test]
fn unreadable_upload_is_refused() {
    assert_eq!(prepare_logo(b"not a picture"), Err(LogoError::Unreadable));
    assert_eq!(prepare_logo(&[]), Err(LogoError::Unreadable));
}

#[test]
fn test_qr_conversion() {
    let qr_bytes =
        qrcode_generator::to_png_to_vec("https://google.com".as_bytes(), QrCodeEcc::High, 1024)
            .unwrap();

    let png = Reader::new(Cursor::new(qr_bytes.clone()))
        .with_guessed_format()
        .unwrap();
    assert_eq!(png.format(), Some(ImageFormat::Png));

    let meme: Vec<u8> = make_qrcode("https://google.com", None).unwrap();

    let png = Reader::new(Cursor::new(meme))
        .with_guessed_format()
        .unwrap();

    assert_eq!(png.format(), Some(ImageFormat::Png));
}

#[test]
fn qr_picture_without_logo_is_the_generated_symbol() {
    let generated =
        qrcode_generator::to_png_to_vec("https://google.com".as_bytes(), QrCodeEcc::High, 1024)
            .unwrap();
    let expected = image::load_from_memory(&generated).unwrap().to_rgba8();
    let made = image::load_from_memory(&make_qrcode("https://google.com", None).unwrap())
        .unwrap()
        .to_rgba8();
    assert_eq!(made, expected);
}

#[test]
fn large_logo_is_clipped_to_the_picture() {
    let logo = png_of(2000, 2000, [0, 255, 0, 255]);
    let png = make_qrcode("https://google.com", Some(logo)).unwrap();
    let img = image::load_from_memory(&png).unwrap();
    assert_eq!(img.dimensions(), (1024, 1024));
    assert_eq!(img.get_pixel(1023, 1023), Rgba([0, 255, 0, 255]));
}
