use std::io::Cursor;

use image::ImageFormat;
use rviv::decode::{decode_image, DecodeError};
use rviv::path::{Component, FilePath};

const PIXELS: [u8; 16] = [255, 0, 0, 255, 0, 255, 0, 128, 0, 0, 255, 0, 10, 20, 30, 40];

fn named(name: &[u8]) -> FilePath {
    FilePath { components: vec![Component::RootDir, Component::Normal(name.to_vec())] }
}

fn encoded(format: ImageFormat) -> Vec<u8> {
    let picture = image::RgbaImage::from_raw(2, 2, PIXELS.to_vec()).unwrap();
    let mut content = Vec::new();
    picture.write_to(&mut Cursor::new(&mut content), format).unwrap();
    content
}

#[test]
fn lossless_formats_give_back_the_pixels() {
    let formats = [
        ("a.png", ImageFormat::Png),
        ("a.PNG", ImageFormat::Png),
        ("a.bmp", ImageFormat::Bmp),
        ("a.tiff", ImageFormat::Tiff),
        ("a.webp", ImageFormat::WebP),
        ("a.ico", ImageFormat::Ico),
    ];
    for (name, format) in formats {
        let decoded = decode_image(&named(name.as_bytes()), &encoded(format)).unwrap();
        assert_eq!((decoded.width, decoded.height), (2, 2), "{}", name);
        assert_eq!(decoded.pixels, PIXELS.to_vec(), "{}", name);
    }
}

#[test]
fn images_without_alpha_are_opaque() {
    let picture = image::RgbImage::from_raw(1, 2, vec![1, 2, 3, 4, 5, 6]).unwrap();
    let mut content = Vec::new();
    picture.write_to(&mut Cursor::new(&mut content), ImageFormat::Png).unwrap();
    let decoded = decode_image(&named(b"a.png"), &content).unwrap();
    assert_eq!((decoded.width, decoded.height), (1, 2));
    assert_eq!(decoded.pixels, vec![1, 2, 3, 255, 4, 5, 6, 255]);
}

#[test]
fn jpeg_and_gif_are_decoded() {
    let picture = image::RgbImage::from_raw(8, 4, vec![200; 96]).unwrap();
    let mut content = Vec::new();
    picture.write_to(&mut Cursor::new(&mut content), ImageFormat::Jpeg).unwrap();
    for name in ["a.jpg", "a.jpeg"] {
        let decoded = decode_image(&named(name.as_bytes()), &content).unwrap();
        assert_eq!((decoded.width, decoded.height), (8, 4));
        assert_eq!(decoded.pixels.len(), 128);
        assert_eq!(decoded.pixels[3], 255);
    }
    let mut animated = Vec::new();
    let frame = image::RgbaImage::from_raw(1, 1, vec![9, 8, 7, 255]).unwrap();
    frame.write_to(&mut Cursor::new(&mut animated), ImageFormat::Gif).unwrap();
    let decoded = decode_image(&named(b"a.gif"), &animated).unwrap();
    assert_eq!(decoded.pixels, vec![9, 8, 7, 255]);
}

#[test]
fn the_extension_decides_the_format() {
    let content = encoded(ImageFormat::Png);
    let error = decode_image(&named(b"a.bmp"), &content).unwrap_err();
    assert!(matches!(error, DecodeError::Undecodable(_)));
}

#[test]
fn a_content_that_is_no_image_is_refused() {
    let error = decode_image(&named(b"a.png"), &b"not an image".to_vec()).unwrap_err();
    assert!(matches!(error, DecodeError::Undecodable(_)));
    let empty = decode_image(&named(b"a.png"), &Vec::new()).unwrap_err();
    assert!(matches!(empty, DecodeError::Undecodable(_)));
}

#[test]
fn an_unknown_extension_is_refused_by_the_decoder() {
    let content = encoded(ImageFormat::Png);
    match decode_image(&named(b"a.txt"), &content).unwrap_err() {
        DecodeError::Undecodable(reason) => {
            assert!(matches!(reason, image::ImageError::Unsupported(_)));
        }
        other => panic!("{:?}", other),
    }
}

#[test]
fn without_an_extension_the_format_is_undetermined() {
    let content = encoded(ImageFormat::Png);
    for name in [&b"png"[..], &b".png"[..], &b"a."[..]] {
        let error = decode_image(&named(name), &content).unwrap_err();
        assert!(matches!(error, DecodeError::UndeterminedFormat));
    }
}

#[test]
fn an_extension_that_is_no_text_is_not_recognized() {
    let content = encoded(ImageFormat::Png);
    match decode_image(&named(b"a.\xff\xfe"), &content).unwrap_err() {
        DecodeError::UnrecognizedExtension(text) => assert_eq!(text, vec![0xff, 0xfe]),
        other => panic!("{:?}", other),
    }
}
