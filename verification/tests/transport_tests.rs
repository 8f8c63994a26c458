use image_gen::data_url::{can_encode, classify_source, decode_data_url, surface_to_data_url, SourceKind};
use image_gen::images::{accept_decoded, decode_image, DecodedImage};
use std::io::Cursor;

#[test]
fn png_bytes_become_a_data_url() {
    let url = surface_to_data_url(Some(b"hello"));
    assert_eq!(url, Ok("data:image/png;base64,aGVsbG8=".to_string()));
    let url = surface_to_data_url(Some(&[0xffu8, 0xfe, 0xfd]));
    assert_eq!(url, Ok("data:image/png;base64,//79".to_string()));
    let url = surface_to_data_url(Some(&[]));
    assert_eq!(url, Ok("data:image/png;base64,".to_string()));
}

#[test]
fn data_url_is_the_same_every_time() {
    let bytes: Vec<u8> = (0..=255u8).collect();
    let first = surface_to_data_url(Some(&bytes)).unwrap();
    let second = surface_to_data_url(Some(&bytes)).unwrap();
    assert_eq!(first, second);
    assert!(first.starts_with("data:image/png;base64,AAECAwQFBgc"));
    assert_eq!(first.len(), 22 + 344);
}

#[test]
fn refused_surface_is_an_error() {
    assert_eq!(surface_to_data_url(None), Err("Failed to encode image to PNG".to_string()));
}

#[test]
fn lengths_that_can_be_encoded() {
    assert!(can_encode(0));
    assert!(can_encode(1 << 20));
    assert!(!can_encode(usize::MAX));
    assert!(can_encode(usize::MAX / 4 * 3 - 3));
}

#[test]
fn data_url_round_trip() {
    let bytes: Vec<u8> = (0..=255u8).rev().collect();
    let url = surface_to_data_url(Some(&bytes)).unwrap();
    assert_eq!(decode_data_url(&url), Ok(bytes));
}

#[test]
fn data_url_payload_follows_the_first_comma() {
    assert_eq!(decode_data_url("data:text/plain;base64,aGVsbG8="), Ok(b"hello".to_vec()));
    assert_eq!(decode_data_url(",aGVsbG8="), Ok(b"hello".to_vec()));
    assert_eq!(decode_data_url("data:,"), Ok(Vec::new()));
    let err = decode_data_url("data:a,b,aGVsbG8=").unwrap_err();
    assert!(err.starts_with("Failed to decode base64: "));
}

#[test]
fn data_url_without_a_comma_is_refused() {
    assert_eq!(decode_data_url("data:image/png;base64"), Err("Invalid data URL format".to_string()));
    assert_eq!(decode_data_url(""), Err("Invalid data URL format".to_string()));
}

#[test]
fn data_url_with_a_bad_payload_is_refused() {
    for url in ["data:image/png;base64,@@@@", "data:;base64,aGVsbG8", "data:;base64,aGVsbG8=\n", "data:x,a-_b"] {
        let err = decode_data_url(url).unwrap_err();
        assert!(err.starts_with("Failed to decode base64: "), "{}", err);
        assert!(err.len() > "Failed to decode base64: ".len());
    }
}

#[test]
fn sources() {
    assert_eq!(classify_source("data:image/png;base64,AAAA"), SourceKind::DataUrl);
    assert_eq!(classify_source("data:"), SourceKind::DataUrl);
    assert_eq!(classify_source("http://example.org/a.png"), SourceKind::Remote);
    assert_eq!(classify_source("https://example.org/a.png"), SourceKind::Remote);
    assert_eq!(classify_source("http://"), SourceKind::Remote);
    assert_eq!(classify_source("https://"), SourceKind::Remote);
    assert_eq!(classify_source("http://\u{e9}"), SourceKind::Remote);
    assert_eq!(classify_source("/tmp/a.png"), SourceKind::LocalPath);
    assert_eq!(classify_source("C:\\covers\\a.png"), SourceKind::LocalPath);
    assert_eq!(classify_source("data"), SourceKind::LocalPath);
    assert_eq!(classify_source("Data:x"), SourceKind::LocalPath);
    assert_eq!(classify_source("HTTP://x"), SourceKind::LocalPath);
    assert_eq!(classify_source("htt"), SourceKind::LocalPath);
    assert_eq!(classify_source("http"), SourceKind::LocalPath);
    assert_eq!(classify_source("https"), SourceKind::LocalPath);
    assert_eq!(classify_source("httpfoo"), SourceKind::LocalPath);
    assert_eq!(classify_source("httpdocs/cover.png"), SourceKind::LocalPath);
    assert_eq!(classify_source("https/cover.png"), SourceKind::LocalPath);
    assert_eq!(classify_source("http:/cover.png"), SourceKind::LocalPath);
    assert_eq!(classify_source("https:/cover.png"), SourceKind::LocalPath);
    assert_eq!(classify_source("http:cover.png"), SourceKind::LocalPath);
    assert_eq!(classify_source("httpx://example.org"), SourceKind::LocalPath);
    assert_eq!(classify_source("ftp://example.org/a.png"), SourceKind::LocalPath);
    assert_eq!(classify_source(""), SourceKind::LocalPath);
    assert_eq!(classify_source("\u{e9}data:"), SourceKind::LocalPath);
}

fn png_of(width: u32, height: u32, pixels: Vec<u8>) -> Vec<u8> {
    let img = image::RgbaImage::from_raw(width, height, pixels).unwrap();
    let mut out = Cursor::new(Vec::new());
    img.write_to(&mut out, image::ImageFormat::Png).unwrap();
    out.into_inner()
}

#[test]
fn png_is_decoded_to_its_pixels() {
    let pixels = vec![255u8, 0, 0, 255, 0, 255, 0, 128, 0, 0, 255, 0, 9, 8, 7, 6, 1, 2, 3, 4, 5, 6, 7, 8];
    let png = png_of(3, 2, pixels.clone());
    assert_ne!(png, pixels);
    let image: DecodedImage = decode_image(&png).unwrap();
    assert_eq!(image.width, 3);
    assert_eq!(image.height, 2);
    assert_eq!(image.rgba, pixels);
    assert!(image.check_drawable());
}

#[test]
fn grey_image_is_widened_to_four_channels() {
    let img = image::GrayImage::from_raw(2, 1, vec![10u8, 200]).unwrap();
    let mut out = Cursor::new(Vec::new());
    img.write_to(&mut out, image::ImageFormat::Bmp).unwrap();
    let image = decode_image(&out.into_inner()).unwrap();
    assert_eq!((image.width, image.height), (2, 1));
    assert_eq!(image.rgba, vec![10, 10, 10, 255, 200, 200, 200, 255]);
}

#[test]
fn bytes_that_are_no_image_are_refused() {
    for bytes in [&b""[..], &b"not an image"[..], &[0x89, b'P', b'N', b'G'][..]] {
        let err = decode_image(bytes).unwrap_err();
        assert!(err.starts_with("Failed to decode image: "), "{}", err);
    }
}

#[test]
fn which_bitmaps_can_be_drawn_from() {
    let ok = DecodedImage { width: 2, height: 2, rgba: vec![0; 16] };
    assert!(ok.check_drawable());
    let roomy = DecodedImage { width: 2, height: 2, rgba: vec![0; 17] };
    assert!(roomy.check_drawable());
    let short = DecodedImage { width: 2, height: 2, rgba: vec![0; 15] };
    assert!(!short.check_drawable());
    let flat = DecodedImage { width: 0, height: 2, rgba: vec![0; 16] };
    assert!(!flat.check_drawable());
    let flat = DecodedImage { width: 2, height: 0, rgba: vec![0; 16] };
    assert!(!flat.check_drawable());
    let huge = DecodedImage { width: 0x8000_0000, height: 1, rgba: vec![] };
    assert!(!huge.check_drawable());
    let huge = DecodedImage { width: 0x7fff_ffff, height: 0x7fff_ffff, rgba: vec![0; 64] };
    assert!(!huge.check_drawable());
}

#[test]
fn what_the_decoder_gave_is_judged() {
    let good = DecodedImage { width: 1, height: 2, rgba: vec![1, 2, 3, 4, 5, 6, 7, 8] };
    let passed = accept_decoded(Ok(good.clone())).unwrap();
    assert_eq!((passed.width, passed.height, passed.rgba), (1, 2, vec![1, 2, 3, 4, 5, 6, 7, 8]));
    let short = DecodedImage { width: 1, height: 2, rgba: vec![1, 2, 3, 4] };
    assert_eq!(
        accept_decoded(Ok(short)).unwrap_err(),
        "Failed to create skia image from decoded data"
    );
    assert_eq!(
        accept_decoded(Err("unsupported format".to_string())).unwrap_err(),
        "Failed to decode image: unsupported format"
    );
    assert_eq!(accept_decoded(Err(String::new())).unwrap_err(), "Failed to decode image: ");
}
