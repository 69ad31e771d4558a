use spy_engine::WindowHandle;
use spy_engine::capture::{CaptureError, Rect, WindowCapture};

#[test]
fn test_sanitize_filename() {
    assert_eq!(WindowCapture::sanitize_filename("  a<b>:c  "), "a_b__c");
    assert_eq!(WindowCapture::sanitize_filename("doc/plan?v2*final|x"), "doc_plan_v2_final_x");
    assert_eq!(WindowCapture::sanitize_filename("plain"), "plain");
    assert_eq!(WindowCapture::sanitize_filename("\"quoted\\path\""), "_quoted_path_");
}

#[test]
fn test_sanitize_trims_unicode_whitespace() {
    assert_eq!(WindowCapture::sanitize_filename("\u{a0}x\u{2003}"), "x");
    assert_eq!(WindowCapture::sanitize_filename("\u{3000}a b\u{85}"), "a b");
}

#[test]
fn test_generate_filename() {
    assert_eq!(WindowCapture::generate_filename("Title", 1700000000), "Title_1700000000.bmp");
    assert_eq!(WindowCapture::generate_filename("", 0), "_0.bmp");
}

#[test]
fn test_filename_uniqueness_same_second() {
    let a = WindowCapture::generate_filename("WindowA", 12345);
    let b = WindowCapture::generate_filename("WindowB", 12345);
    assert_ne!(a, b);
    let a2 = WindowCapture::generate_filename("WindowA", 12345);
    assert_eq!(a, a2);
}

#[test]
fn test_capture_rejects_zero_area() {
    let handle = WindowHandle { raw: 1 };
    let zero_width = Rect { left: 10, top: 0, right: 10, bottom: 100 };
    let r = WindowCapture::capture_plan(handle, &zero_width, "t", 1);
    assert!(matches!(r, Err(CaptureError::InvalidGeometry)));

    let negative_height = Rect { left: 0, top: 50, right: 100, bottom: 10 };
    let handle = WindowHandle { raw: 1 };
    let r = WindowCapture::capture_plan(handle, &negative_height, "t", 1);
    assert!(matches!(r, Err(CaptureError::InvalidGeometry)));
}

#[test]
fn test_capture_rejects_null_handle() {
    let handle = WindowHandle { raw: 0 };
    let rect = Rect { left: 0, top: 0, right: 100, bottom: 100 };
    let r = WindowCapture::capture_plan(handle, &rect, "t", 1);
    assert!(matches!(r, Err(CaptureError::InvalidHandle)));
}

#[test]
fn test_capture_plan_names_file() {
    let handle = WindowHandle { raw: 7 };
    let rect = Rect { left: 10, top: 20, right: 110, bottom: 220 };
    let plan = WindowCapture::capture_plan(handle, &rect, "My Doc: draft", 99).unwrap();
    assert_eq!(plan.width, 100);
    assert_eq!(plan.height, 200);
    assert_eq!(plan.file_name, "My Doc_ draft_99.bmp");
}

#[test]
fn test_capture_plan_untitled_window() {
    let handle = WindowHandle { raw: 7 };
    let rect = Rect { left: 0, top: 0, right: 1, bottom: 1 };
    let plan = WindowCapture::capture_plan(handle, &rect, "", 3).unwrap();
    assert_eq!(plan.file_name, "Unknown_Window_3.bmp");
}

#[test]
fn test_bmp_file_bytes_one_pixel() {
    let pixels = vec![1u8, 2, 3, 4];
    let out = WindowCapture::bmp_file_bytes(1, 1, &pixels);
    let expected: Vec<u8> = vec![
        0x42, 0x4d, // "BM"
        58, 0, 0, 0, // file size
        0, 0, 0, 0, // reserved
        54, 0, 0, 0, // pixel data offset
        40, 0, 0, 0, // info header size
        1, 0, 0, 0, // width
        0xff, 0xff, 0xff, 0xff, // height -1: top-down
        1, 0, // planes
        32, 0, // bits per pixel
        0, 0, 0, 0, // no compression
        4, 0, 0, 0, // image size
        0, 0, 0, 0, 0, 0, 0, 0, // resolution
        0, 0, 0, 0, 0, 0, 0, 0, // palette
        1, 2, 3, 4, // the pixel
    ];
    assert_eq!(out, expected);
}

#[test]
fn test_bmp_file_bytes_dimensions() {
    let pixels = vec![9u8; 2 * 3 * 4];
    let out = WindowCapture::bmp_file_bytes(2, 3, &pixels);
    assert_eq!(out.len(), 54 + 24);
    assert_eq!(&out[0..2], b"BM");
    assert_eq!(out[18], 2); // width
    assert_eq!(out[22], 0xfd); // height -3, little endian
    assert_eq!(out[23], 0xff);
    assert_eq!(&out[54..], &pixels[..]);
}

#[test]
fn test_validate_geometry() {
    let ok = Rect { left: -5, top: -5, right: 5, bottom: 15 };
    assert_eq!(WindowCapture::validate_geometry(&ok), Ok((10, 20)));
    let flat = Rect { left: 0, top: 0, right: 100, bottom: 0 };
    assert_eq!(WindowCapture::validate_geometry(&flat), Err(CaptureError::InvalidGeometry));
}
