//! The three variants' geometry: even padding, the face-size round trip,
//! the scaling factor, mask construction, and compositing.

use imagenie::model::{
    compute_scale_factor, face_dims_within_limits, pad_even, BackgroundRemovalModel,
    FaceRestorationModel, UpscalingModel,
};
use imagenie::raster::{composite_mask, resize_image, Image, ResampleFilter};
use imagenie::tensor::Tensor;
use imagenie::types::{
    BackgroundRemovalParams, FaceRestorationParams, Half, Normalization, ScaleFactor, Single,
    UpscalingParams,
};

fn rgb_image(width: u32, height: u32, data: Vec<u8>) -> Image {
    assert_eq!(data.len(), 3 * width as usize * height as usize);
    Image { width, height, channels: 3, data }
}

fn flat_rgb(width: u32, height: u32) -> Image {
    rgb_image(width, height, vec![127; 3 * width as usize * height as usize])
}

#[test]
fn pad_even_rounds_odd_dimensions_up() {
    assert_eq!(pad_even(3), 4);
    assert_eq!(pad_even(4), 4);
    assert_eq!(pad_even(1), 2);
    assert_eq!(pad_even(0), 0);
}

#[test]
fn upscale_preprocess_keeps_even_dimensions() {
    let img = flat_rgb(4, 6);
    let mut params = UpscalingParams::default();
    let t = UpscalingModel::preprocess(&img, &mut params).unwrap();
    assert_eq!(t.width, 4);
    assert_eq!(t.height, 6);
    assert_eq!(t.norm, Normalization::ZeroToOne);
}

#[test]
fn upscale_preprocess_pads_odd_dimensions() {
    let img = flat_rgb(3, 5);
    let mut params = UpscalingParams::default();
    let t = UpscalingModel::preprocess(&img, &mut params).unwrap();
    assert_eq!(t.width, 4);
    assert_eq!(t.height, 6);
    assert!(t.data.iter().all(|v| 0 <= v.0 && v.0 <= 255));
}

#[test]
fn background_removal_preprocess_of_a_model_sized_image_is_exact() {
    let data: Vec<u8> = (0u8..48u8).collect();
    let img = rgb_image(4, 4, data.clone());
    let mut params = BackgroundRemovalParams {
        model_width: 4,
        model_height: 4,
        ..Default::default()
    };
    let t = BackgroundRemovalModel::preprocess(&img, &mut params).unwrap();
    for c in 0..3usize {
        for y in 0..4usize {
            for x in 0..4usize {
                assert_eq!(t.data[(c * 4 + y) * 4 + x].0, data[(y * 4 + x) * 3 + c] as i32);
            }
        }
    }
}

#[test]
fn face_postprocess_to_the_tensor_size_is_pixel_exact() {
    let params = FaceRestorationParams {
        face_size: 8,
        original_width: Some(8),
        original_height: Some(8),
    };
    let engine_out =
        Tensor::new(3, 8, 8, Normalization::SymmetricUnit, vec![Single(300); 3 * 64]).unwrap();
    let out = FaceRestorationModel::postprocess(&engine_out, &params).unwrap();
    assert_eq!(out.width, 8);
    assert_eq!(out.height, 8);
    assert!(out.data.iter().all(|&b| b == 255));
}

#[test]
fn upscale_preprocess_even_input_is_encoded_exactly() {
    let data: Vec<u8> = (0u8..24u8).collect();
    let img = rgb_image(4, 2, data.clone());
    let mut params = UpscalingParams::default();
    let t = UpscalingModel::preprocess(&img, &mut params).unwrap();
    for c in 0..3usize {
        for y in 0..2usize {
            for x in 0..4usize {
                let level = t.data[(c * 2 + y) * 4 + x].0;
                let byte = data[(y * 4 + x) * 3 + c];
                assert_eq!(level, byte as i32);
            }
        }
    }
}

#[test]
fn upscale_scenario_doubles_dimensions() {
    // A 100 by 150 input through a 2x graph comes out 200 by 300.
    let img = flat_rgb(100, 150);
    let mut params = UpscalingParams::default();
    let t = UpscalingModel::preprocess(&img, &mut params).unwrap();
    assert_eq!(t.width, 100);
    assert_eq!(t.height, 150);
    let engine_out = Tensor::new(
        3,
        300,
        200,
        Normalization::ZeroToOne,
        vec![Half(0); 3 * 300 * 200],
    )
    .unwrap();
    let out = UpscalingModel::postprocess(&engine_out, &params).unwrap();
    assert_eq!(out.width, 200);
    assert_eq!(out.height, 300);
}

#[test]
fn face_restoration_restores_original_dimensions() {
    // A 300 by 400 input with face size 512 comes out exactly 300 by 400.
    let img = flat_rgb(300, 400);
    let mut params = FaceRestorationParams::default();
    assert_eq!(params.face_size, 512);
    assert!(face_dims_within_limits(300, 400, 512));
    let t = FaceRestorationModel::preprocess(&img, &mut params).unwrap();
    assert_eq!(t.width, 512);
    assert_eq!(t.height, 512);
    assert_eq!(t.norm, Normalization::SymmetricUnit);
    assert_eq!(params.original_width, Some(300));
    assert_eq!(params.original_height, Some(400));
    let engine_out = Tensor::new(
        3,
        512,
        512,
        Normalization::SymmetricUnit,
        vec![Single(64); 3 * 512 * 512],
    )
    .unwrap();
    let out = FaceRestorationModel::postprocess(&engine_out, &params).unwrap();
    assert_eq!(out.width, 300);
    assert_eq!(out.height, 400);
    assert_eq!(out.channels, 3);
}

#[test]
fn face_preprocess_crops_the_centered_square() {
    // 2 wide, 4 high, face size 2: the aspect-preserving resize is the
    // identity, and the crop starts one row down.
    let data: Vec<u8> = (0u8..24u8).collect();
    let img = rgb_image(2, 4, data.clone());
    let mut params = FaceRestorationParams { face_size: 2, original_width: None, original_height: None };
    let t = FaceRestorationModel::preprocess(&img, &mut params).unwrap();
    assert_eq!(t.width, 2);
    assert_eq!(t.height, 2);
    for c in 0..3usize {
        for y in 0..2usize {
            for x in 0..2usize {
                let level = t.data[(c * 2 + y) * 2 + x].0;
                let byte = data[((y + 1) * 2 + x) * 3 + c];
                assert_eq!(level, byte as i32);
            }
        }
    }
}

#[test]
fn face_preprocess_of_a_face_sized_image_is_exact() {
    let data: Vec<u8> = (0u8..48u8).collect();
    let img = rgb_image(4, 4, data.clone());
    let mut params = FaceRestorationParams { face_size: 4, original_width: None, original_height: None };
    let t = FaceRestorationModel::preprocess(&img, &mut params).unwrap();
    assert_eq!(t.width, 4);
    assert_eq!(t.height, 4);
    for c in 0..3usize {
        for y in 0..4usize {
            for x in 0..4usize {
                assert_eq!(t.data[(c * 4 + y) * 4 + x].0, data[((y * 4 + x) * 3 + c)] as i32);
            }
        }
    }
}

#[test]
fn face_postprocess_without_recorded_dimensions_keeps_the_square() {
    let params = FaceRestorationParams { face_size: 8, original_width: None, original_height: None };
    let engine_out =
        Tensor::new(3, 8, 8, Normalization::SymmetricUnit, vec![Single(300); 3 * 64]).unwrap();
    let out = FaceRestorationModel::postprocess(&engine_out, &params).unwrap();
    assert_eq!(out.width, 8);
    assert_eq!(out.height, 8);
    assert!(out.data.iter().all(|&b| b == 255));
}

#[test]
fn scale_factor_is_capped_at_one() {
    // 640 by 480 into a 1024 square model: both ratios exceed one, so the
    // factor is exactly one.
    let sf = compute_scale_factor(1024, 1024, 640, 480);
    assert_eq!(sf, ScaleFactor { num: 1, den: 1 });
    assert_eq!(sf.apply(640), 640);
    assert_eq!(sf.apply(480), 480);
}

#[test]
fn scale_factor_takes_the_smaller_ratio() {
    let sf = compute_scale_factor(1024, 1024, 2048, 1024);
    assert_eq!(sf, ScaleFactor { num: 1024, den: 2048 });
    assert_eq!(sf.apply(2048), 1024);
    assert_eq!(sf.apply(1024), 512);
    let sf2 = compute_scale_factor(512, 1024, 1024, 4096);
    assert_eq!(sf2, ScaleFactor { num: 1024, den: 4096 });
}

#[test]
fn background_removal_scenario_masks_at_original_size() {
    // 640 by 480 input, 1024 square model: the mask comes back 640 by 480.
    let img = flat_rgb(640, 480);
    let mut params = BackgroundRemovalParams {
        model_width: 1024,
        model_height: 1024,
        ..Default::default()
    };
    let t = BackgroundRemovalModel::preprocess(&img, &mut params).unwrap();
    assert_eq!(t.width, 1024);
    assert_eq!(t.height, 1024);
    assert_eq!(t.norm, Normalization::MeanStd);
    assert_eq!(params.original_width, Some(640));
    assert_eq!(params.original_height, Some(480));
    assert_eq!(params.scaling_factor, Some(ScaleFactor { num: 1, den: 1 }));
    let engine_out = Tensor::new(
        1,
        1024,
        1024,
        Normalization::MeanStd,
        vec![Single(255); 1024 * 1024],
    )
    .unwrap();
    let out = BackgroundRemovalModel::postprocess(&engine_out, &params).unwrap();
    assert_eq!(out.width, 640);
    assert_eq!(out.height, 480);
    assert_eq!(out.channels, 4);
}

#[test]
fn background_removal_mask_is_black_with_clamped_alpha() {
    let params = BackgroundRemovalParams::default();
    let t = Tensor::new(
        1,
        2,
        2,
        Normalization::MeanStd,
        vec![Single(-10), Single(0), Single(128), Single(400)],
    )
    .unwrap();
    let out = BackgroundRemovalModel::postprocess(&t, &params).unwrap();
    assert_eq!(out.width, 2);
    assert_eq!(out.height, 2);
    assert_eq!(out.channels, 4);
    let expected_alpha = [0u8, 0, 128, 255];
    for (i, &a) in expected_alpha.iter().enumerate() {
        assert_eq!(out.data[i * 4 + 3], a);
        assert_eq!(out.data[i * 4], 0);
        assert_eq!(out.data[i * 4 + 1], 0);
        assert_eq!(out.data[i * 4 + 2], 0);
    }
}

#[test]
fn composite_keeps_color_and_takes_mask_alpha() {
    let original = rgb_image(2, 1, vec![1, 2, 3, 4, 5, 6]);
    let mask = Image { width: 2, height: 1, channels: 4, data: vec![0, 0, 0, 9, 0, 0, 0, 200] };
    let out = composite_mask(&original, &mask);
    assert_eq!(out.channels, 4);
    assert_eq!(out.data, vec![1, 2, 3, 9, 4, 5, 6, 200]);
}

#[test]
fn resize_to_same_dimensions_copies_pixels() {
    let data: Vec<u8> = (0u8..12u8).collect();
    let img = rgb_image(2, 2, data.clone());
    let out = resize_image(&img, 2, 2, ResampleFilter::Lanczos);
    assert_eq!(out.data, data);
}

#[test]
fn resize_changes_dimensions_exactly() {
    let img = flat_rgb(10, 7);
    let out = resize_image(&img, 5, 3, ResampleFilter::Triangle);
    assert_eq!(out.width, 5);
    assert_eq!(out.height, 3);
    assert_eq!(out.channels, 3);
    assert_eq!(out.data.len(), 3 * 5 * 3);
}
