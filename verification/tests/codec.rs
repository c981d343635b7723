//! The image ↔ tensor codec: layout, clamping, the shape guard, and the
//! round trip.

use imagenie::raster::Image;
use imagenie::tensor::{image_to_tensor, split_output_shape, tensor_to_image, Tensor};
use imagenie::types::{Half, Normalization, NumericType, Single};

fn rgb_image(width: u32, height: u32, data: Vec<u8>) -> Image {
    assert_eq!(data.len(), 3 * width as usize * height as usize);
    Image { width, height, channels: 3, data }
}

#[test]
fn round_trip_reproduces_every_byte() {
    let data: Vec<u8> = (0u8..12u8).collect();
    let img = rgb_image(2, 2, data.clone());
    let t = image_to_tensor::<Single>(&img).unwrap();
    let back = tensor_to_image(&t).unwrap();
    assert_eq!(back.width, 2);
    assert_eq!(back.height, 2);
    assert_eq!(back.channels, 3);
    assert_eq!(back.data, data);
    for y in 0..2u32 {
        for x in 0..2u32 {
            for c in 0..3u32 {
                assert_eq!(back.channel(x, y, c), img.channel(x, y, c));
            }
        }
    }
}

#[test]
fn round_trip_half_precision() {
    let data: Vec<u8> = vec![0, 17, 255, 128, 3, 99];
    let img = rgb_image(2, 1, data.clone());
    let t = image_to_tensor::<Half>(&img).unwrap();
    let back = tensor_to_image(&t).unwrap();
    assert_eq!(back.data, data);
}

#[test]
fn encoding_is_channel_first() {
    // Two pixels: (10, 20, 30) and (40, 50, 60).
    let img = rgb_image(2, 1, vec![10, 20, 30, 40, 50, 60]);
    let t = image_to_tensor::<Single>(&img).unwrap();
    assert_eq!(t.channels, 3);
    assert_eq!(t.height, 1);
    assert_eq!(t.width, 2);
    assert_eq!(t.norm, Normalization::ZeroToOne);
    let levels: Vec<i32> = t.data.iter().map(|v| v.0).collect();
    assert_eq!(levels, vec![10, 40, 20, 50, 30, 60]);
}

#[test]
fn decoding_clamps_out_of_range_levels() {
    let t = Tensor::new(
        3,
        1,
        1,
        Normalization::ZeroToOne,
        vec![Single(-5), Single(300), Single(128)],
    )
    .unwrap();
    let img = tensor_to_image(&t).unwrap();
    assert_eq!(img.data, vec![0, 255, 128]);
}

#[test]
fn tensor_shape_guard_rejects_wrong_length() {
    let r = Tensor::new(3, 2, 2, Normalization::ZeroToOne, vec![Single(0); 11]);
    assert!(matches!(
        r,
        Err(imagenie::error::ImageProcessingError::Processing(_))
    ));
}

#[test]
fn tensor_shape_guard_rejects_bad_channel_count() {
    let r = Tensor::new(2, 1, 1, Normalization::ZeroToOne, vec![Single(0); 2]);
    assert!(matches!(
        r,
        Err(imagenie::error::ImageProcessingError::Processing(_))
    ));
}

#[test]
fn tensor_shape_guard_accepts_exact_length() {
    let t = Tensor::new(1, 2, 3, Normalization::MeanStd, vec![Single(7); 6]).unwrap();
    assert_eq!(t.channels, 1);
    assert_eq!(t.height, 2);
    assert_eq!(t.width, 3);
    assert_eq!(t.norm, Normalization::MeanStd);
}

#[test]
fn output_shape_splits_a_single_image_batch() {
    assert_eq!(split_output_shape(&vec![1, 3, 64, 32]).unwrap(), (3, 64, 32));
    assert!(matches!(
        split_output_shape(&vec![2, 3, 64, 32]),
        Err(imagenie::error::ImageProcessingError::Processing(_))
    ));
    assert!(matches!(
        split_output_shape(&vec![1, 3, 64]),
        Err(imagenie::error::ImageProcessingError::Processing(_))
    ));
}

#[test]
fn numeric_conversions_round_trip_and_clamp() {
    assert_eq!(Single::from_level(200).to_level(), 200);
    assert_eq!(Half::from_level(0).to_level(), 0);
    assert_eq!(Half::from_level(255).to_level(), 255);
    assert_eq!(Single::from_raw(-1).to_level(), 0);
    assert_eq!(Single::from_raw(256).to_level(), 255);
    assert_eq!(Half::from_raw(77).to_level(), 77);
}
