//! The small backend entry points that are not part of the image pipeline.

use imagenie::backend_add;
use imagenie::types::ModelInfo;

#[test]
fn backend_add_answers_plus_two() {
    assert_eq!(backend_add(0), 2);
    assert_eq!(backend_add(40), 42);
    assert_eq!(backend_add(-7), -5);
}

#[test]
fn model_info_carries_its_fields() {
    let info = ModelInfo {
        name: String::from("image_upscaling.onnx"),
        url: String::from("https://example.invalid/models/image_upscaling.onnx"),
        version: String::from("1.0.0"),
    };
    assert_eq!(info.name, "image_upscaling.onnx");
    assert_eq!(info.version, "1.0.0");
    assert!(info.url.ends_with(".onnx"));
}
