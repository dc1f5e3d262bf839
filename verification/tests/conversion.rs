//! End-to-end tests of the conversion engine, run entirely in memory: the
//! orchestrator's load and write steps are backed by maps instead of a
//! filesystem.

use std::cell::RefCell;
use std::collections::HashMap;

use imgconv::batch::BatchReport;
use imgconv::codec::decode_image;
use imgconv::engine::{convert_task, encode_image, process_images, run_batch};
use imgconv::errors::{Stage, TaskError};
use imgconv::pixels::{ColorModel, NormalizedImage};
use imgconv::task::{get_format_extension, output_path, ConversionTask, ImageFormat};

fn task(format: ImageFormat, name: &str, quality: i8, src: &str) -> ConversionTask {
    ConversionTask { format, name: name.to_string(), quality, src: src.to_string() }
}

/// A small RGB image with a deterministic gradient, seeded so two calls can
/// produce different pictures.
fn rgb_image(width: u32, height: u32, seed: u8) -> NormalizedImage {
    let mut pixels = Vec::new();
    for y in 0..height {
        for x in 0..width {
            pixels.push((x as u8).wrapping_mul(7).wrapping_add(seed));
            pixels.push((y as u8).wrapping_mul(13).wrapping_add(seed));
            pixels.push(seed);
        }
    }
    NormalizedImage::new(width, height, ColorModel::Rgb8, pixels).unwrap()
}

fn l8_image(width: u32, height: u32) -> NormalizedImage {
    let mut pixels = Vec::new();
    for y in 0..height {
        for x in 0..width {
            pixels.push((x as u8).wrapping_add(y as u8));
        }
    }
    NormalizedImage::new(width, height, ColorModel::L8, pixels).unwrap()
}

fn encode_for(format: ImageFormat, img: &NormalizedImage, quality: i8) -> Vec<u8> {
    encode_image(&task(format, "t", quality, "mem"), img).unwrap()
}

/// Runs a batch against in-memory sources, returning the count and the final
/// contents of the destination folder (later writes overwrite earlier ones).
fn run_in_memory(
    files: &Vec<ConversionTask>,
    sources: &HashMap<String, Vec<u8>>,
) -> (i8, HashMap<String, Vec<u8>>) {
    let written: RefCell<HashMap<String, Vec<u8>>> = RefCell::new(HashMap::new());
    let load = |s: &str| -> Result<Vec<u8>, String> {
        sources.get(s).cloned().ok_or_else(|| format!("no such file: {}", s))
    };
    let write = |p: &str, d: &Vec<u8>| -> Result<(), String> {
        written.borrow_mut().insert(p.to_string(), d.clone());
        Ok(())
    };
    let count = process_images(files, "out", load, write);
    (count, written.into_inner())
}

#[test]
fn extension_mapping_is_fixed() {
    assert_eq!(get_format_extension(ImageFormat::Webp).as_str(), "webp");
    assert_eq!(get_format_extension(ImageFormat::Jpeg).as_str(), "jpg");
    assert_eq!(get_format_extension(ImageFormat::Png).as_str(), "png");
    assert_eq!(get_format_extension(ImageFormat::Tiff).as_str(), "tiff");
    assert_eq!(get_format_extension(ImageFormat::Bmp).as_str(), "bmp");
}

#[test]
fn output_path_is_folder_name_extension() {
    assert_eq!(output_path("out", "a", ImageFormat::Png).as_str(), "out/a.png");
    assert_eq!(output_path("some/dir", "photo", ImageFormat::Webp).as_str(), "some/dir/photo.webp");
}

#[test]
fn normalized_image_accepts_exact_buffer_only() {
    assert!(NormalizedImage::new(2, 2, ColorModel::Rgb8, vec![0u8; 12]).is_some());
    assert!(NormalizedImage::new(2, 2, ColorModel::Rgb8, vec![0u8; 11]).is_none());
    assert!(NormalizedImage::new(2, 2, ColorModel::Rgba8, vec![0u8; 12]).is_none());
}

#[test]
fn png_round_trip_preserves_pixels() {
    let img = rgb_image(10, 10, 3);
    let bytes = encode_for(ImageFormat::Png, &img, 0);
    assert_eq!(&bytes[..4], &[0x89, b'P', b'N', b'G']);
    assert_ne!(bytes, img.pixels);
    let back = decode_image(&bytes).unwrap();
    assert_eq!(back.width, 10);
    assert_eq!(back.height, 10);
    assert_eq!(back.color, ColorModel::Rgb8);
    assert_eq!(back.pixels, img.pixels);
}

#[test]
fn tiff_round_trip_preserves_pixels() {
    let img = rgb_image(7, 5, 20);
    let bytes = encode_for(ImageFormat::Tiff, &img, 0);
    assert_eq!(&bytes[..2], b"II");
    let back = decode_image(&bytes).unwrap();
    assert_eq!((back.width, back.height), (7, 5));
    assert_eq!(back.pixels, img.pixels);
}

#[test]
fn bmp_round_trip_preserves_pixels() {
    let img = rgb_image(6, 4, 90);
    let bytes = encode_for(ImageFormat::Bmp, &img, 0);
    assert_eq!(&bytes[..2], b"BM");
    let back = decode_image(&bytes).unwrap();
    assert_eq!((back.width, back.height), (6, 4));
    assert_eq!(back.pixels, img.pixels);
}

#[test]
fn jpeg_output_decodes_to_same_dimensions() {
    let img = rgb_image(9, 9, 64);
    let bytes = encode_for(ImageFormat::Jpeg, &img, 50);
    assert_eq!(&bytes[..2], &[0xFF, 0xD8]);
    let back = decode_image(&bytes).unwrap();
    assert_eq!((back.width, back.height), (9, 9));
}

#[test]
fn webp_rgb_output_is_webp_container() {
    let img = rgb_image(16, 16, 10);
    let bytes = encode_for(ImageFormat::Webp, &img, 80);
    assert_eq!(&bytes[..4], b"RIFF");
    assert_eq!(&bytes[8..12], b"WEBP");
    let back = decode_image(&bytes).unwrap();
    assert_eq!((back.width, back.height), (16, 16));
}

#[test]
fn webp_rgba_output_is_webp_container() {
    let mut pixels = Vec::new();
    for i in 0..(8 * 8) {
        pixels.extend_from_slice(&[i as u8, 0x40, 0x80, 0xC0]);
    }
    let img = NormalizedImage::new(8, 8, ColorModel::Rgba8, pixels).unwrap();
    let bytes = encode_for(ImageFormat::Webp, &img, 75);
    assert_eq!(&bytes[..4], b"RIFF");
    assert_eq!(&bytes[8..12], b"WEBP");
}

#[test]
fn webp_quality_out_of_range_is_rejected() {
    let img = rgb_image(4, 4, 0);
    assert!(encode_image(&task(ImageFormat::Webp, "t", 101, "mem"), &img).is_err());
    assert!(encode_image(&task(ImageFormat::Webp, "t", -1, "mem"), &img).is_err());
    assert!(encode_image(&task(ImageFormat::Webp, "t", 100, "mem"), &img).is_ok());
    assert!(encode_image(&task(ImageFormat::Webp, "t", 0, "mem"), &img).is_ok());
}

#[test]
fn webp_rejects_unsupported_layout() {
    let img = l8_image(5, 5);
    let r = encode_image(&task(ImageFormat::Webp, "t", 50, "mem"), &img);
    assert!(r.is_err());
}

#[test]
fn decode_rejects_corrupt_bytes() {
    let r = decode_image(&[0x00, 0x01, 0x02, 0x03, 0xFF, 0xFE]);
    assert!(r.is_err());
    let task_err = convert_task(&task(ImageFormat::Tiff, "c", 0, "corrupt"), &[0u8; 16]);
    assert!(matches!(task_err, Err(TaskError::Decode(_))));
}

#[test]
fn batch_report_counts_and_keeps_failures() {
    let mut report = BatchReport::new();
    assert_eq!(report.count(), 0);
    report.record_success();
    report.record_failure("bad".to_string(), Stage::Decode, "broken".to_string());
    report.record_success();
    assert_eq!(report.count(), 2);
    assert_eq!(report.failures().len(), 1);
    assert_eq!(report.failures()[0].name.as_str(), "bad");
    assert_eq!(report.failures()[0].stage, Stage::Decode);
}

#[test]
fn single_png_task_succeeds() {
    let src = rgb_image(10, 10, 1);
    let mut sources = HashMap::new();
    sources.insert("valid_10x10.png".to_string(), encode_for(ImageFormat::Png, &src, 0));
    let files = vec![task(ImageFormat::Png, "a", 0, "valid_10x10.png")];
    let (count, written) = run_in_memory(&files, &sources);
    assert_eq!(count, 1);
    assert_eq!(written.len(), 1);
    assert!(written.contains_key("out/a.png"));
}

#[test]
fn missing_source_does_not_stop_later_task() {
    let src = rgb_image(12, 8, 5);
    let mut sources = HashMap::new();
    sources.insert("valid.jpg".to_string(), encode_for(ImageFormat::Jpeg, &src, 0));
    let files = vec![
        task(ImageFormat::Png, "a", 0, "nonexistent.png"),
        task(ImageFormat::Webp, "b", 80, "valid.jpg"),
    ];
    let (count, written) = run_in_memory(&files, &sources);
    assert_eq!(count, 1);
    assert_eq!(written.len(), 1);
    assert!(written.contains_key("out/b.webp"));
}

#[test]
fn corrupt_source_yields_zero_and_no_writes() {
    let mut sources = HashMap::new();
    sources.insert("corrupt_bytes.dat".to_string(), vec![0xDEu8, 0xAD, 0xBE, 0xEF, 0x00]);
    let files = vec![task(ImageFormat::Tiff, "c", 0, "corrupt_bytes.dat")];
    let (count, written) = run_in_memory(&files, &sources);
    assert_eq!(count, 0);
    assert!(written.is_empty());
}

#[test]
fn empty_batch_returns_zero_and_writes_nothing() {
    let sources = HashMap::new();
    let files: Vec<ConversionTask> = vec![];
    let (count, written) = run_in_memory(&files, &sources);
    assert_eq!(count, 0);
    assert!(written.is_empty());
}

#[test]
fn unwritable_destination_yields_zero_and_no_file() {
    let src = rgb_image(10, 10, 2);
    let mut sources = HashMap::new();
    sources.insert("valid.png".to_string(), encode_for(ImageFormat::Png, &src, 0));
    let files = vec![task(ImageFormat::Jpeg, "d", 50, "valid.png")];
    let load = |s: &str| -> Result<Vec<u8>, String> {
        sources.get(s).cloned().ok_or_else(|| format!("no such file: {}", s))
    };
    let write = |_p: &str, _d: &Vec<u8>| -> Result<(), String> {
        Err("permission denied".to_string())
    };
    let report = run_batch(&files, "out", load, write);
    assert_eq!(report.count(), 0);
    assert_eq!(report.failures().len(), 1);
    assert_eq!(report.failures()[0].stage, Stage::Write);
    assert_eq!(report.failures()[0].name.as_str(), "d");
}

#[test]
fn all_valid_tasks_are_all_counted() {
    let src = rgb_image(10, 10, 7);
    let mut sources = HashMap::new();
    sources.insert("one.png".to_string(), encode_for(ImageFormat::Png, &src, 0));
    sources.insert("two.png".to_string(), encode_for(ImageFormat::Png, &src, 0));
    let files = vec![
        task(ImageFormat::Bmp, "first", 0, "one.png"),
        task(ImageFormat::Tiff, "second", 0, "two.png"),
    ];
    let (count, written) = run_in_memory(&files, &sources);
    assert_eq!(count, 2);
    assert_eq!(written.len(), 2);
    assert!(written.contains_key("out/first.bmp"));
    assert!(written.contains_key("out/second.tiff"));
}

#[test]
fn duplicate_name_and_format_keeps_later_output() {
    let first = rgb_image(10, 10, 11);
    let second = rgb_image(10, 10, 200);
    let mut sources = HashMap::new();
    sources.insert("one.png".to_string(), encode_for(ImageFormat::Png, &first, 0));
    sources.insert("two.png".to_string(), encode_for(ImageFormat::Png, &second, 0));
    let files = vec![
        task(ImageFormat::Png, "dup", 0, "one.png"),
        task(ImageFormat::Png, "dup", 0, "two.png"),
    ];
    let (count, written) = run_in_memory(&files, &sources);
    assert_eq!(count, 2);
    assert_eq!(written.len(), 1);
    let survivor = written.get("out/dup.png").unwrap();
    assert_eq!(survivor, &encode_for(ImageFormat::Png, &second, 0));
}

#[test]
fn encode_failure_produces_no_output_for_that_task() {
    let gray = l8_image(6, 6);
    let rgb = rgb_image(6, 6, 30);
    let mut sources = HashMap::new();
    sources.insert("gray.png".to_string(), encode_for(ImageFormat::Png, &gray, 0));
    sources.insert("color.png".to_string(), encode_for(ImageFormat::Png, &rgb, 0));
    let files = vec![
        task(ImageFormat::Webp, "gray", 50, "gray.png"),
        task(ImageFormat::Webp, "color", 50, "color.png"),
    ];
    let (count, written) = run_in_memory(&files, &sources);
    assert_eq!(count, 1);
    assert_eq!(written.len(), 1);
    assert!(!written.contains_key("out/gray.webp"));
    assert!(written.contains_key("out/color.webp"));
}

#[test]
fn out_of_range_webp_quality_never_counts() {
    let src = rgb_image(10, 10, 42);
    let mut sources = HashMap::new();
    sources.insert("ok.png".to_string(), encode_for(ImageFormat::Png, &src, 0));
    let files = vec![
        task(ImageFormat::Webp, "bad", 101, "ok.png"),
        task(ImageFormat::Webp, "good", 100, "ok.png"),
    ];
    let (count, written) = run_in_memory(&files, &sources);
    assert_eq!(count, 1);
    assert_eq!(written.len(), 1);
    assert!(!written.contains_key("out/bad.webp"));
    assert!(written.contains_key("out/good.webp"));
}

#[test]
fn webp_rejects_oversized_dimensions() {
    let wide = NormalizedImage::new(16384, 1, ColorModel::Rgb8, vec![0u8; 16384 * 3]).unwrap();
    let r = encode_image(&task(ImageFormat::Webp, "t", 50, "mem"), &wide);
    assert!(r.is_err());
    let tall = NormalizedImage::new(1, 16384, ColorModel::Rgb8, vec![0u8; 16384 * 3]).unwrap();
    assert!(encode_image(&task(ImageFormat::Webp, "t", 50, "mem"), &tall).is_err());
    let widest_allowed =
        NormalizedImage::new(16383, 1, ColorModel::Rgb8, vec![0u8; 16383 * 3]).unwrap();
    assert!(encode_image(&task(ImageFormat::Webp, "t", 50, "mem"), &widest_allowed).is_ok());
}
