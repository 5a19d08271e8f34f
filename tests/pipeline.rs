use std::collections::HashSet;
use std::io::Cursor;

use image::{DynamicImage, ImageOutputFormat, Rgb, RgbImage, Rgba, RgbaImage};
use lcs_diff_server::artifact::{respond, result_url, Artifact, ServiceConfig};
use lcs_diff_server::error::AppError;
use lcs_diff_server::imaging::decode;
use lcs_diff_server::pipeline::{diff, render_diff};

fn png_of(img: DynamicImage) -> Vec<u8> {
    let mut out = Cursor::new(Vec::new());
    img.write_to(&mut out, ImageOutputFormat::Png).unwrap();
    out.into_inner()
}

fn solid_png(width: u32, height: u32, color: [u8; 4]) -> Vec<u8> {
    png_of(DynamicImage::ImageRgba8(RgbaImage::from_pixel(width, height, Rgba(color))))
}

fn is_token_char(c: char) -> bool {
    c.is_ascii_digit() || ('a'..='f').contains(&c) || c == '-'
}

#[test]
fn two_solid_pngs_of_different_colors_give_a_nonempty_png_artifact() {
    let before = solid_png(10, 10, [255, 0, 0, 255]);
    let after = solid_png(10, 10, [0, 0, 255, 255]);
    let artifact = match diff(Some(before), Some(after)) {
        Ok(a) => a,
        Err(e) => panic!("unexpected failure {:?}", e),
    };
    assert!(!artifact.png.is_empty());
    let decoded = decode(&artifact.png).unwrap();
    assert_eq!(decoded.width, 10);
    assert!(decoded.height > 0);
    assert!(artifact.relative_path.starts_with("assets/"));
    assert!(artifact.relative_path.ends_with(".png"));
    assert_eq!(artifact.relative_path.len(), "assets/".len() + 36 + ".png".len());
}

#[test]
fn identical_inputs_give_a_grid_as_large_as_the_inputs() {
    let png = solid_png(10, 10, [10, 20, 30, 255]);
    let out = render_diff(Some(png.clone()), Some(png)).unwrap();
    let decoded = decode(&out).unwrap();
    assert_eq!(decoded.width, 10);
    assert_eq!(decoded.height, 10);
}

#[test]
fn rgb_inputs_are_compared_too() {
    let before = png_of(DynamicImage::ImageRgb8(RgbImage::from_pixel(6, 4, Rgb([1, 2, 3]))));
    let after = png_of(DynamicImage::ImageRgb8(RgbImage::from_pixel(6, 4, Rgb([9, 9, 9]))));
    let out = render_diff(Some(before), Some(after)).unwrap();
    assert_eq!(decode(&out).unwrap().width, 6);
}

#[test]
fn inputs_of_different_sizes_are_not_an_input_or_format_failure() {
    let before = solid_png(10, 10, [255, 0, 0, 255]);
    let after = solid_png(20, 5, [0, 255, 0, 255]);
    match render_diff(Some(before), Some(after)) {
        Ok(png) => assert_eq!(decode(&png).unwrap().width, 20),
        Err(e) => assert_eq!(e, AppError::UnknownError),
    }
}

#[test]
fn missing_before_payload_is_input_not_found() {
    let after = solid_png(10, 10, [0, 0, 255, 255]);
    assert_eq!(diff(None, Some(after)).err(), Some(AppError::InputNotFound));
}

#[test]
fn missing_after_payload_is_input_not_found() {
    let before = solid_png(10, 10, [0, 0, 255, 255]);
    assert_eq!(diff(Some(before), None).err(), Some(AppError::InputNotFound));
}

#[test]
fn missing_payload_wins_over_undecodable_one() {
    assert_eq!(render_diff(Some(b"not an image".to_vec()), None), Err(AppError::InputNotFound));
}

#[test]
fn undecodable_before_payload_is_unsupported() {
    let after = solid_png(10, 10, [0, 0, 255, 255]);
    let r = diff(Some(b"<html>not found</html>".to_vec()), Some(after));
    assert_eq!(r.err(), Some(AppError::UnsupportedBitmapFormat));
}

#[test]
fn undecodable_after_payload_is_unsupported() {
    let before = solid_png(10, 10, [0, 0, 255, 255]);
    assert_eq!(render_diff(Some(before), Some(Vec::new())), Err(AppError::UnsupportedBitmapFormat));
}

#[test]
fn truncated_png_is_unsupported() {
    let mut before = solid_png(10, 10, [0, 0, 255, 255]);
    before.truncate(20);
    let after = solid_png(10, 10, [0, 0, 255, 255]);
    assert_eq!(render_diff(Some(before), Some(after)), Err(AppError::UnsupportedBitmapFormat));
}

#[test]
fn decoded_grids_hold_four_bytes_per_pixel() {
    let img = decode(&solid_png(3, 2, [9, 8, 7, 255])).unwrap();
    assert_eq!(img.rgba, [9u8, 8, 7, 255].repeat(6));
    let out = decode(&render_diff(Some(solid_png(3, 2, [9, 8, 7, 255])), Some(solid_png(5, 2, [9, 8, 7, 255]))).unwrap()).unwrap();
    assert_eq!(out.width, 5);
    assert_eq!(out.rgba.len(), (out.width * out.height * 4) as usize);
}

#[test]
fn rendered_bytes_start_with_the_png_signature() {
    let out = render_diff(Some(solid_png(2, 2, [0, 0, 0, 255])), Some(solid_png(2, 2, [255, 255, 255, 255]))).unwrap();
    assert_eq!(&out[..8], &[137u8, 80, 78, 71, 13, 10, 26, 10]);
}

#[test]
fn decode_reports_the_dimensions() {
    let img = decode(&solid_png(10, 7, [1, 1, 1, 255])).unwrap();
    assert_eq!(img.width, 10);
    assert_eq!(img.height, 7);
    assert_eq!(decode(&vec![0u8; 16]).err(), Some(AppError::UnsupportedBitmapFormat));
}

#[test]
fn codec_errors_convert_to_unsupported_format() {
    let inner = image::ImageError::IoError(std::io::Error::new(std::io::ErrorKind::Other, "io"));
    assert_eq!(AppError::from(inner), AppError::UnsupportedBitmapFormat);
}

#[test]
fn each_error_kind_has_its_status_and_message() {
    assert_eq!(AppError::InputNotFound.status_code(), 404);
    assert_eq!(AppError::InputNotFound.message(), "Input not found");
    assert_eq!(AppError::UnsupportedBitmapFormat.status_code(), 415);
    assert_eq!(AppError::UnsupportedBitmapFormat.message(), "Only supports image/png");
    assert_eq!(AppError::UnknownError.status_code(), 500);
    assert_eq!(AppError::UnknownError.message(), "Internal server error");
}

#[test]
fn fresh_tokens_are_hyphenated_lowercase_uuids() {
    let a = Artifact::fresh(vec![1, 2, 3]);
    assert_eq!(a.token.len(), 36);
    assert!(a.token.chars().all(is_token_char));
    for i in [8usize, 13, 18, 23] {
        assert_eq!(a.token.as_bytes()[i], b'-');
    }
    assert_eq!(a.file_name, format!("{}.png", a.token));
    assert_eq!(a.relative_path, format!("assets/{}.png", a.token));
    assert_eq!(a.png, vec![1, 2, 3]);
}

#[test]
fn ten_thousand_fresh_names_never_collide() {
    let mut seen = HashSet::new();
    for _ in 0..10_000 {
        assert!(seen.insert(Artifact::fresh(Vec::new()).relative_path));
    }
    assert_eq!(seen.len(), 10_000);
}

#[test]
fn the_same_request_twice_gives_two_artifacts() {
    let before = solid_png(4, 4, [255, 0, 0, 255]);
    let after = solid_png(4, 4, [0, 255, 0, 255]);
    let first = diff(Some(before.clone()), Some(after.clone())).unwrap();
    let second = diff(Some(before), Some(after)).unwrap();
    assert_ne!(first.relative_path, second.relative_path);
    assert_eq!(first.png, second.png);
}

#[test]
fn named_artifact_paths() {
    let a = Artifact::named("abc", vec![7]);
    assert_eq!(a.token, "abc");
    assert_eq!(a.file_name, "abc.png");
    assert_eq!(a.relative_path, "assets/abc.png");
    assert_eq!(a.stored_path("./assets"), "./assets/abc.png");
    assert_eq!(a.stored_path("/srv/static"), "/srv/static/abc.png");
}

#[test]
fn host_info_defaults_to_local_address() {
    assert_eq!(ServiceConfig::from_host_info(None).base_url, "http://localhost:8080/");
    let cfg = ServiceConfig::from_host_info(Some("https://diff.example.org/".to_string()));
    assert_eq!(cfg.base_url, "https://diff.example.org/");
}

#[test]
fn result_url_is_base_then_relative_path() {
    let cfg = ServiceConfig::from_host_info(Some("http://host:9000/".to_string()));
    let a = Artifact::named("0123", Vec::new());
    assert_eq!(result_url(&cfg, &a), "http://host:9000/assets/0123.png");
    let r = respond(&cfg, &a, true).ok().unwrap();
    assert_eq!(r.result_url, "http://host:9000/assets/0123.png");
}

#[test]
fn unstored_artifact_is_an_internal_failure() {
    let cfg = ServiceConfig::from_host_info(None);
    let a = Artifact::named("0123", Vec::new());
    assert_eq!(respond(&cfg, &a, false).err(), Some(AppError::UnknownError));
}
