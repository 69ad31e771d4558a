use spy_engine::icon::bgra_to_rgba_bytes;
use spy_engine::model::Application;

#[test]
fn test_bgra_to_rgba_swaps_channels() {
    let bgra = vec![1u8, 2, 3, 4, 5, 6, 7, 8];
    let rgba = bgra_to_rgba_bytes(&bgra);
    assert_eq!(rgba, vec![3, 2, 1, 4, 7, 6, 5, 8]);
}

#[test]
fn test_bgra_to_rgba_empty() {
    let rgba = bgra_to_rgba_bytes(&Vec::new());
    assert_eq!(rgba, Vec::<u8>::new());
}

#[test]
fn test_base64_known_values() {
    let r = Application::image_bytes_to_base64(vec![0, 0, 0]).unwrap();
    assert_eq!(r, "AAAA");
    let r = Application::image_bytes_to_base64(b"Man".to_vec()).unwrap();
    assert_eq!(r, "TWFu");
    let r = Application::image_bytes_to_base64(b"M".to_vec()).unwrap();
    assert_eq!(r, "TQ==");
    let r = Application::image_bytes_to_base64(Vec::new()).unwrap();
    assert_eq!(r, "");
}

#[test]
fn test_bgra_to_png_short_buffer() {
    // 4-aligned but smaller than the dimensions ask for: refused, no panic
    let r = Application::bgra_to_png(vec![0u8; 8], 2, 2);
    assert!(r.is_none());
}

#[test]
fn test_bgra_to_png_oversized_buffer() {
    let r = Application::bgra_to_png(vec![0u8; 24], 2, 2);
    assert!(r.is_none());
}

#[test]
fn test_bgra_to_png_zero_dimensions() {
    assert!(Application::bgra_to_png(Vec::new(), 0, 0).is_none());
    assert!(Application::bgra_to_png(Vec::new(), 0, 5).is_none());
}

#[test]
fn test_icon_pipeline_succeeds_on_exact_buffer() {
    let bgra = vec![0x40u8; 4 * 3 * 2];
    assert!(Application::icon_base64_from_bgra(bgra, 3, 2).is_some());
}

#[test]
fn test_select_window_icon_preference() {
    assert_eq!(Application::select_window_icon(5, 7), Some(5));
    assert_eq!(Application::select_window_icon(0, 7), Some(7));
    assert_eq!(Application::select_window_icon(5, 0), Some(5));
    assert_eq!(Application::select_window_icon(0, 0), None);
}

#[test]
fn test_bgra_to_png_signature() {
    // a 2x2 opaque image; the encoder must produce a PNG, which always
    // begins with the fixed PNG signature
    let bgra = vec![10u8; 2 * 2 * 4];
    let png = Application::bgra_to_png(bgra, 2, 2).unwrap();
    assert_eq!(&png[0..8], &[0x89, 0x50, 0x4e, 0x47, 0x0d, 0x0a, 0x1a, 0x0a]);
}

#[test]
fn test_icon_pipeline_base64_of_png() {
    let bgra = vec![0xabu8; 2 * 2 * 4];
    let s = Application::icon_base64_from_bgra(bgra, 2, 2).unwrap();
    // base64 of any PNG starts with the encoding of the PNG signature
    assert!(s.starts_with("iVBORw0K"));
    assert!(s.len() % 4 == 0);
}
