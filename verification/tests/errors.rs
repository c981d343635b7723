//! Error propagation: decode failures, fail-fast batches, and the rendered
//! messages.

use std::io::Cursor;

use imagenie::error::ImageProcessingError;
use imagenie::processor::collect_batch;
use imagenie::raster::{decode_image, Image};

fn rgb_image(width: u32, height: u32, data: Vec<u8>) -> Image {
    Image { width, height, channels: 3, data }
}

#[test]
fn decode_of_garbage_is_an_image_error() {
    let r = decode_image(&[0u8, 1, 2, 3]);
    assert!(matches!(r, Err(ImageProcessingError::Image(_))));
}

#[test]
fn decode_of_empty_input_is_an_image_error() {
    let r = decode_image(&[]);
    assert!(matches!(r, Err(ImageProcessingError::Image(_))));
}

#[test]
fn decode_reads_back_an_encoded_png() {
    let data: Vec<u8> = vec![10, 20, 30, 40, 50, 60, 70, 80, 90, 100, 110, 120];
    let buf = image::RgbImage::from_raw(2, 2, data.clone()).unwrap();
    let mut bytes: Vec<u8> = Vec::new();
    image::DynamicImage::ImageRgb8(buf)
        .write_to(&mut Cursor::new(&mut bytes), image::ImageFormat::Png)
        .unwrap();
    let img = decode_image(&bytes).unwrap();
    assert_eq!(img.width, 2);
    assert_eq!(img.height, 2);
    assert_eq!(img.channels, 3);
    assert_eq!(img.data, data);
}

#[test]
fn batch_of_successes_preserves_order() {
    let a = rgb_image(1, 1, vec![1, 1, 1]);
    let b = rgb_image(1, 1, vec![2, 2, 2]);
    let out = collect_batch(vec![Ok(a), Ok(b)]).unwrap();
    assert_eq!(out.len(), 2);
    assert_eq!(out[0].data, vec![1, 1, 1]);
    assert_eq!(out[1].data, vec![2, 2, 2]);
}

#[test]
fn batch_fails_fast_with_the_first_error() {
    let good = rgb_image(1, 1, vec![3, 3, 3]);
    let later = rgb_image(1, 1, vec![4, 4, 4]);
    let r = collect_batch(vec![
        Ok(good),
        Err(ImageProcessingError::Image(String::from("first"))),
        Err(ImageProcessingError::Io(String::from("second"))),
        Ok(later),
    ]);
    match r {
        Err(ImageProcessingError::Image(m)) => assert_eq!(m, "first"),
        _ => panic!("expected the first error"),
    }
}

#[test]
fn empty_batch_succeeds_with_no_output() {
    let out = collect_batch(vec![]).unwrap();
    assert_eq!(out.len(), 0);
}

#[test]
fn messages_carry_kind_and_detail() {
    assert_eq!(
        ImageProcessingError::Io(String::from("x")).message(),
        "IO error: x"
    );
    assert_eq!(
        ImageProcessingError::Ort(String::from("y")).message(),
        "ORT error: y"
    );
    assert_eq!(
        ImageProcessingError::Processing(String::from("z")).message(),
        "Processing error: z"
    );
    assert_eq!(
        ImageProcessingError::Image(String::from("w")).message(),
        "Image error: w"
    );
}
