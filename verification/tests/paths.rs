//! The application's directories all live under `~/.imagenie`.

use imagenie::paths::{cache_dir, config_dir, db_dir, log_dir, output_file_name};

#[test]
fn output_names_strip_known_extensions() {
    assert_eq!(output_file_name("photo.png", "upscaled"), "photo_upscaled.png");
    assert_eq!(output_file_name("photo.jpg", "restored"), "photo_restored.png");
    assert_eq!(output_file_name("photo.jpeg", "removed"), "photo_removed.png");
}

#[test]
fn output_names_keep_unknown_extensions_whole() {
    assert_eq!(output_file_name("photo.webp", "upscaled"), "photo.webp_upscaled.png");
    assert_eq!(output_file_name("photo", "upscaled"), "photo_upscaled.png");
    assert_eq!(output_file_name(".png", "upscaled"), "_upscaled.png");
}

#[test]
fn log_dir_is_under_the_application_directory() {
    if let Some(p) = log_dir() {
        assert!(p.ends_with("/.imagenie/logs"));
    }
}

#[test]
fn cache_dir_is_under_the_application_directory() {
    if let Some(p) = cache_dir() {
        assert!(p.ends_with("/.imagenie/cache"));
    }
}

#[test]
fn db_dir_is_under_the_application_directory() {
    if let Some(p) = db_dir() {
        assert!(p.ends_with("/.imagenie/db"));
    }
}

#[test]
fn config_dir_is_under_the_application_directory() {
    if let Some(p) = config_dir() {
        assert!(p.ends_with("/.imagenie/config"));
    }
}
