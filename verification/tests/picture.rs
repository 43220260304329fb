use image::{DynamicImage, ImageFormat, Rgb, RgbImage};
use stretch_please::factor::ScaleFactor;
use stretch_please::mode::StretchType;
use stretch_please::picture::{from_encoding, stretch_decoded, stretch_picture, Picture, PictureError};

fn factor(value: f32) -> ScaleFactor {
    ScaleFactor::from_bits(value.to_bits()).expect("a finite factor that is not negative")
}

fn patterned(width: u32, height: u32, format: ImageFormat) -> Vec<u8> {
    let mut picture = RgbImage::new(width, height);
    for y in 0..height {
        for x in 0..width {
            let shade: u8 = if (x + y) % 2 == 0 { 255 } else { 0 };
            picture.put_pixel(x, y, Rgb([shade, (x % 256) as u8, (y % 256) as u8]));
        }
    }
    let mut file = std::io::Cursor::new(Vec::new());
    DynamicImage::ImageRgb8(picture).write_to(&mut file, format).unwrap();
    file.into_inner()
}

#[test]
fn decoded_picture_has_its_size() {
    let picture = Picture::decode(&patterned(8, 6, ImageFormat::Png)).unwrap();
    assert_eq!((picture.width(), picture.height()), (8, 6));
    let other = Picture::decode(&patterned(3, 11, ImageFormat::Bmp)).unwrap();
    assert_eq!((other.width(), other.height()), (3, 11));
}

#[test]
fn bytes_that_are_no_picture() {
    assert!(matches!(Picture::decode(b"no picture at all"), Err(PictureError::Decode(_))));
    assert!(matches!(Picture::decode(&[]), Err(PictureError::Decode(_))));
    let mut cut = patterned(8, 6, ImageFormat::Png);
    cut.truncate(20);
    assert!(matches!(Picture::decode(&cut), Err(PictureError::Decode(_))));
}

#[test]
fn stretched_picture_has_the_target_size() {
    let picture = Picture::decode(&patterned(80, 60, ImageFormat::Png)).unwrap();
    let wide = picture.stretch(StretchType::Horizontal, factor(1.5), factor(1.0)).unwrap();
    assert_eq!((wide.width(), wide.height()), (120, 60));
    let flat = picture.stretch(StretchType::Vertical, factor(1.0), factor(0.5)).unwrap();
    assert_eq!((flat.width(), flat.height()), (80, 30));
    let both = picture.stretch(StretchType::Both, factor(2.0), factor(0.2)).unwrap();
    assert_eq!((both.width(), both.height()), (160, 12));
    assert_eq!((picture.width(), picture.height()), (80, 60));
}

#[test]
fn stretch_never_gives_an_empty_picture() {
    let picture = Picture::decode(&patterned(1, 1, ImageFormat::Png)).unwrap();
    let small = picture.stretch(StretchType::Both, factor(0.5), factor(0.2)).unwrap();
    assert_eq!((small.width(), small.height()), (1, 1));
    assert!(small.encode_png().is_ok());
}

#[test]
fn stretch_copies_the_nearest_pixel() {
    let source = patterned(2, 2, ImageFormat::Png);
    let picture = Picture::decode(&source).unwrap();
    let doubled = picture.stretch(StretchType::Both, factor(2.0), factor(2.0)).unwrap();
    let png = doubled.encode_png().unwrap();
    let back = image::load_from_memory(&png).unwrap().to_rgb8();
    let before = image::load_from_memory(&source).unwrap().to_rgb8();
    assert_eq!(back.dimensions(), (4, 4));
    for y in 0..4 {
        for x in 0..4 {
            assert_eq!(back.get_pixel(x, y), before.get_pixel(x / 2, y / 2));
        }
    }
}

#[test]
fn encoded_picture_is_a_png_file() {
    let picture = Picture::decode(&patterned(5, 7, ImageFormat::Bmp)).unwrap();
    let png = picture.encode_png().unwrap();
    assert_eq!(&png[..8], &[0x89, b'P', b'N', b'G', 0x0d, 0x0a, 0x1a, 0x0a]);
    assert_eq!(image::guess_format(&png).unwrap(), ImageFormat::Png);
    let back = Picture::decode(&png).unwrap();
    assert_eq!((back.width(), back.height()), (5, 7));
}

#[test]
fn whole_way_from_bytes_to_bytes() {
    let done = stretch_picture(
        &patterned(800, 600, ImageFormat::Png),
        StretchType::Horizontal,
        factor(1.5),
        factor(1.0),
    )
    .unwrap();
    assert_eq!(done.from, (800, 600));
    assert_eq!(done.to, (1200, 600));
    let back = Picture::decode(&done.png).unwrap();
    assert_eq!((back.width(), back.height()), (1200, 600));
}

#[test]
fn whole_way_with_both_axes() {
    let done =
        stretch_picture(&patterned(192, 108, ImageFormat::Png), StretchType::Both, factor(2.0), factor(0.2))
            .unwrap();
    assert_eq!(done.from, (192, 108));
    assert_eq!(done.to, (384, 22));
    let back = image::load_from_memory(&done.png).unwrap();
    assert_eq!((back.width(), back.height()), (384, 22));
}

#[test]
fn whole_way_refuses_what_is_no_picture() {
    let r = stretch_picture(b"GIF89a but not really", StretchType::Both, factor(1.0), factor(1.0));
    assert!(matches!(r, Err(PictureError::Decode(_))));
}

#[test]
fn too_large_a_target_is_refused() {
    let picture = Picture::decode(&patterned(4, 4, ImageFormat::Png)).unwrap();
    let r = picture.stretch(StretchType::Both, factor(3.0e9), factor(3.0e9));
    assert!(matches!(r, Err(PictureError::TooLarge { width: 4, height: 4 })));
    let s = stretch_picture(&patterned(4, 4, ImageFormat::Png), StretchType::Horizontal, factor(1.0e30), factor(1.0));
    assert!(matches!(s, Err(PictureError::TooLarge { width: 4, height: 4 })));
}

#[test]
fn a_decoding_that_failed_is_a_decode_error() {
    let failed = image::ImageError::IoError(std::io::Error::new(std::io::ErrorKind::Other, "cut short"));
    match Picture::from_decoding(Err(failed)) {
        Err(PictureError::Decode(image::ImageError::IoError(e))) => assert_eq!(e.to_string(), "cut short"),
        _ => panic!("not the error of the decoding"),
    }
}

#[test]
fn a_decoding_that_came_off_is_its_picture() {
    let made = DynamicImage::ImageRgb8(RgbImage::new(9, 4));
    let picture = Picture::from_decoding(Ok(made)).unwrap();
    assert_eq!((picture.width(), picture.height()), (9, 4));
}

#[test]
fn an_encoding_that_failed_is_an_encode_error() {
    let failed = image::ImageError::IoError(std::io::Error::new(std::io::ErrorKind::Other, "no room"));
    match from_encoding(Err(failed)) {
        Err(PictureError::Encode(image::ImageError::IoError(e))) => assert_eq!(e.to_string(), "no room"),
        _ => panic!("not the error of the encoding"),
    }
}

#[test]
fn an_encoding_that_came_off_is_its_file() {
    assert_eq!(from_encoding(Ok(vec![1, 2, 3])).unwrap(), vec![1, 2, 3]);
    assert_eq!(from_encoding(Ok(Vec::new())).unwrap(), Vec::<u8>::new());
}

#[test]
fn a_decoded_picture_is_stretched_and_encoded() {
    let picture = Picture::decode(&patterned(800, 600, ImageFormat::Png)).unwrap();
    let done = stretch_decoded(&picture, StretchType::Vertical, factor(1.0), factor(0.5)).unwrap();
    assert_eq!(done.from, (800, 600));
    assert_eq!(done.to, (800, 300));
    let back = Picture::decode(&done.png).unwrap();
    assert_eq!((back.width(), back.height()), (800, 300));
    assert_eq!((picture.width(), picture.height()), (800, 600));
}

#[test]
fn a_decoded_picture_without_a_target_is_too_large() {
    let picture = Picture::decode(&patterned(6, 5, ImageFormat::Png)).unwrap();
    let r = stretch_decoded(&picture, StretchType::Both, factor(1.0e30), factor(1.0));
    assert!(matches!(r, Err(PictureError::TooLarge { width: 6, height: 5 })));
}

#[test]
fn target_of_a_picture() {
    let picture = Picture::decode(&patterned(80, 60, ImageFormat::Png)).unwrap();
    assert_eq!(picture.target(StretchType::Horizontal, factor(1.5), factor(1.0)), Some((120, 60)));
    assert_eq!(picture.target(StretchType::Both, factor(2.0), factor(0.2)), Some((160, 12)));
    assert_eq!(picture.target(StretchType::Both, factor(0.001), factor(0.001)), Some((1, 1)));
    assert_eq!(picture.target(StretchType::Both, factor(3.0e9), factor(3.0e9)), None);
    assert_eq!(picture.target(StretchType::Vertical, factor(1.0), factor(1.0e30)), None);
}

#[test]
fn the_file_is_the_encoding_of_the_resampled_picture() {
    let source = patterned(31, 17, ImageFormat::Png);
    let picture = Picture::decode(&source).unwrap();
    let done = stretch_decoded(&picture, StretchType::Both, factor(1.7), factor(0.6)).unwrap();
    let again = picture.stretch(StretchType::Both, factor(1.7), factor(0.6)).unwrap().encode_png().unwrap();
    assert_eq!(done.png, again);
    let whole = stretch_picture(&source, StretchType::Both, factor(1.7), factor(0.6)).unwrap();
    assert_eq!(whole.png, again);
    assert_ne!(done.png, picture.encode_png().unwrap());
    let resized = image::load_from_memory(&source).unwrap().resize_exact(
        done.to.0,
        done.to.1,
        image::imageops::FilterType::Nearest,
    );
    let mut file = std::io::Cursor::new(Vec::new());
    resized.write_to(&mut file, ImageFormat::Png).unwrap();
    assert_eq!(done.png, file.into_inner());
}

#[test]
fn encoding_twice_gives_the_same_file() {
    let picture = Picture::decode(&patterned(40, 25, ImageFormat::Bmp)).unwrap();
    assert_eq!(picture.encode_png().unwrap(), picture.encode_png().unwrap());
}
