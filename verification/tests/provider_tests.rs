use spy_engine::WindowHandle;
use spy_engine::model::Application;

#[test]
fn test_application_provider() {
    // a synthetic foreground window, as the platform glue would hand it over
    let app = Application::from_parts(
        WindowHandle { raw: 0x1000 },
        "Documents - MyEditor".to_string(),
        "C:\\apps\\editor.exe".to_string(),
        None,
        None,
    )
    .unwrap();
    // the stable name comes from the path, the title stays dynamic
    assert_eq!(app.name, "editor");
    assert_eq!(app.title, "Documents - MyEditor");
    assert_eq!(app.path, "C:\\apps\\editor.exe");
    assert!(app.name != app.title);
    assert!(app.icon.is_none());
    assert!(app.screen_shot_path.is_none());
}

#[test]
fn test_provider_null_handle() {
    let r = Application::from_parts(
        WindowHandle { raw: 0 },
        "some title".to_string(),
        "/bin/tool".to_string(),
        None,
        None,
    );
    assert!(r.is_none());
}

#[test]
fn test_provider_nothing_extracted() {
    let r = Application::from_parts(
        WindowHandle { raw: 5 },
        String::new(),
        String::new(),
        None,
        None,
    );
    assert!(r.is_none());
}

#[test]
fn test_provider_title_fallback_label() {
    let app = Application::from_parts(
        WindowHandle { raw: 5 },
        String::new(),
        "/bin/tool".to_string(),
        None,
        None,
    )
    .unwrap();
    assert_eq!(app.title, "Unknown Window");
    assert_eq!(app.name, "tool");
}

#[test]
fn test_provider_name_never_empty() {
    let app = Application::from_parts(
        WindowHandle { raw: 5 },
        "anything at all".to_string(),
        String::new(),
        None,
        None,
    )
    .unwrap();
    assert!(!app.name.is_empty());
}

#[test]
fn test_provider_keeps_icon_and_screenshot() {
    let app = Application::from_parts(
        WindowHandle { raw: 5 },
        "t".to_string(),
        String::new(),
        Some("aWNvbg==".to_string()),
        Some("/shots/t_1.bmp".to_string()),
    )
    .unwrap();
    assert_eq!(app.icon.as_deref(), Some("aWNvbg=="));
    assert_eq!(app.screen_shot_path.as_deref(), Some("/shots/t_1.bmp"));
}

#[test]
fn test_bundle_provider() {
    let app = Application::from_bundle_parts(
        "Safari".to_string(),
        "com.apple.Safari".to_string(),
        "/Applications/Safari.app".to_string(),
        None,
    );
    assert_eq!(app.name, "Safari");
    assert_eq!(app.title, "Safari");
    assert_eq!(app.path, "/Applications/Safari.app");
    assert!(app.screen_shot_path.is_none());
}

#[test]
fn test_bundle_provider_empty_name() {
    let app = Application::from_bundle_parts(String::new(), String::new(), String::new(), None);
    assert_eq!(app.name, "Unknown Application");
    assert_eq!(app.title, "Unknown Application");
}
