use spy_engine::model::Application;
use spy_engine::naming::derive_name;

#[test]
fn test_title_em_dash_known_app() {
    let name = Application::extract_app_name_from_title("Untitled \u{2014} Notepad++");
    assert_eq!(name, "Notepad++");
}

#[test]
fn test_title_dash_known_app() {
    let name = Application::extract_app_name_from_title("report.docx - Microsoft Word");
    assert_eq!(name, "Microsoft Word");
}

#[test]
fn test_title_separator_fallback() {
    let name = Application::extract_app_name_from_title("notes.txt - SuperWriter");
    assert_eq!(name, "SuperWriter");
}

#[test]
fn test_title_bullet_separator() {
    let name = Application::extract_app_name_from_title("draft.txt \u{2022} SuperWriter");
    assert_eq!(name, "SuperWriter");
}

#[test]
fn test_title_rightmost_separator_wins() {
    let name = Application::extract_app_name_from_title("a - b - SuperWriter");
    assert_eq!(name, "SuperWriter");
}

#[test]
fn test_title_short_passthrough() {
    let name = Application::extract_app_name_from_title("my custom app zzz");
    assert_eq!(name, "my custom app zzz");
}

#[test]
fn test_title_truncation() {
    let long = "x".repeat(60);
    let name = Application::extract_app_name_from_title(&long);
    let expected = format!("{}...", "x".repeat(47));
    assert_eq!(name, expected);
    assert_eq!(name.chars().count(), 50);
}

#[test]
fn test_title_exactly_fifty_kept() {
    let t = "y".repeat(50);
    let name = Application::extract_app_name_from_title(&t);
    assert_eq!(name, t);
}

#[test]
fn test_title_empty() {
    let name = Application::extract_app_name_from_title("");
    assert_eq!(name, "Unknown Application");
}

#[test]
fn test_title_case_insensitive_marker() {
    let name = Application::extract_app_name_from_title("GOOGLE CHROME - tab");
    assert_eq!(name, "Google Chrome");
}

#[test]
fn test_title_notepad_plain_vs_plus() {
    assert_eq!(Application::extract_app_name_from_title("readme - notepad"), "Notepad");
    assert_eq!(Application::extract_app_name_from_title("readme \u{2022} Notepad++"), "Notepad++");
}

#[test]
fn test_title_more_known_apps() {
    assert_eq!(Application::extract_app_name_from_title("bug.rs - Visual Studio Code"), "Visual Studio Code");
    assert_eq!(Application::extract_app_name_from_title("Mozilla Firefox"), "Firefox");
    assert_eq!(Application::extract_app_name_from_title("Windows PowerShell"), "PowerShell");
    assert_eq!(Application::extract_app_name_from_title("C:\\ - File Explorer"), "File Explorer");
    assert_eq!(Application::extract_app_name_from_title("budget.xlsx - Excel"), "Microsoft Excel");
}

#[test]
fn test_title_separator_with_blank_tail_falls_through() {
    // the text after the rightmost separator trims to nothing, so the
    // (short) title is kept unmodified
    assert_eq!(Application::extract_app_name_from_title("abc - "), "abc - ");
}

#[test]
fn test_bundle_id_last_component() {
    let name = Application::extract_app_name_from_bundle_id("com.apple.Safari", "Safari App");
    assert_eq!(name, "Safari");
}

#[test]
fn test_bundle_id_empty_falls_back() {
    let name = Application::extract_app_name_from_bundle_id("", "Fallback");
    assert_eq!(name, "Fallback");
}

#[test]
fn test_bundle_id_trailing_dot_falls_back() {
    let name = Application::extract_app_name_from_bundle_id("com.apple.", "Fallback");
    assert_eq!(name, "Fallback");
}

#[test]
fn test_derive_name_from_path() {
    assert_eq!(derive_name("any title at all", "/apps/Foo.exe"), "Foo");
}

#[test]
fn test_derive_name_backslash_path() {
    assert_eq!(derive_name("t", "C:\\Program Files\\App\\tool.exe"), "tool");
}

#[test]
fn test_derive_name_path_without_extension() {
    assert_eq!(derive_name("t", "/usr/bin/editor"), "editor");
}

#[test]
fn test_derive_name_falls_back_to_title() {
    assert_eq!(derive_name("report.docx - Microsoft Word", ""), "Microsoft Word");
}

#[test]
fn test_derive_name_trailing_separator_falls_back() {
    assert_eq!(derive_name("doc - SuperWriter", "/apps/"), "SuperWriter");
}
