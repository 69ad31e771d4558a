use spy_engine::store::{
    ScreenshotStore, get_save_path, init_save_path, init_screenshot_apps, insert_screenshot_app,
    is_screenshot_app, remove_screenshot_app,
};

#[test]
fn test_allow_list_round_trip() {
    let mut store = ScreenshotStore::new();
    insert_screenshot_app(&mut store, "X".to_string());
    assert!(is_screenshot_app(&store, "X".to_string()));
    remove_screenshot_app(&mut store, "X".to_string());
    assert!(!is_screenshot_app(&store, "X".to_string()));
}

#[test]
fn test_allow_list_exact_match() {
    let mut store = ScreenshotStore::new();
    insert_screenshot_app(&mut store, "Word".to_string());
    assert!(!is_screenshot_app(&store, "word".to_string()));
    assert!(!is_screenshot_app(&store, " Word".to_string()));
    assert!(is_screenshot_app(&store, "Word".to_string()));
}

#[test]
fn test_allow_list_duplicate_insert() {
    let mut store = ScreenshotStore::new();
    insert_screenshot_app(&mut store, "A".to_string());
    insert_screenshot_app(&mut store, "A".to_string());
    remove_screenshot_app(&mut store, "A".to_string());
    assert!(!is_screenshot_app(&store, "A".to_string()));
}

#[test]
fn test_init_screenshot_apps() {
    let mut store = ScreenshotStore::new();
    insert_screenshot_app(&mut store, "Old".to_string());
    init_screenshot_apps(&mut store, vec!["A".to_string(), "B".to_string()]);
    assert!(is_screenshot_app(&store, "A".to_string()));
    assert!(is_screenshot_app(&store, "B".to_string()));
    assert!(is_screenshot_app(&store, "Old".to_string()));
    assert!(!is_screenshot_app(&store, "C".to_string()));
}

#[test]
fn test_save_path() {
    let mut store = ScreenshotStore::new();
    assert_eq!(get_save_path(&store), "");
    init_save_path(&mut store, "/tmp/shots".to_string());
    assert_eq!(get_save_path(&store), "/tmp/shots");
    assert!(!is_screenshot_app(&store, "/tmp/shots".to_string()));
}

#[test]
fn test_remove_absent_name() {
    let mut store = ScreenshotStore::new();
    insert_screenshot_app(&mut store, "Keep".to_string());
    remove_screenshot_app(&mut store, "Gone".to_string());
    assert!(is_screenshot_app(&store, "Keep".to_string()));
}
