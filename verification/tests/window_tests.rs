use tauri_mcp::tools::window::{
    platform_text, window_report, Capture, Platform, WindowInfo, WindowManager,
};
use tauri_mcp::utils::platform::{
    activate_window, get_window_by_pid, is_searched_directory, is_tauri_app,
};
use tauri_mcp::utils::screenshot::{
    contains_area, find_screen, image_data_url, image_to_base64, DisplayArea,
};
use tauri_mcp::TauriMcpError;

#[test]
fn test_window_manager_creation() {
    let _manager = WindowManager::new(Platform::Linux);
}

#[test]
fn every_window_is_reported_alike() {
    for (platform, name) in
        [(Platform::MacOs, "macos"), (Platform::Windows, "windows"), (Platform::Linux, "linux")]
    {
        assert_eq!(platform_text(platform), name);
        let manager = WindowManager::new(platform);
        assert_eq!(
            manager.get_window_info("p").map(|j| j.to_text()),
            Ok(format!(
                "{{\"height\":600,\"is_focused\":false,\"is_visible\":true,\"platform\":\"{}\",\"title\":\"Tauri App\",\"width\":800,\"x\":100,\"y\":100}}",
                name
            ))
        );
    }
}

#[test]
fn a_window_report_holds_what_is_known_of_the_window() {
    let info = WindowInfo {
        title: "Main".to_string(),
        x: -5,
        y: 0,
        width: 4294967295,
        height: 1,
        is_visible: false,
        is_focused: true,
    };
    assert_eq!(
        window_report(&info, Platform::MacOs).to_text(),
        "{\"height\":1,\"is_focused\":true,\"is_visible\":false,\"platform\":\"macos\",\"title\":\"Main\",\"width\":4294967295,\"x\":-5,\"y\":0}"
    );
    assert_eq!(WindowManager::placeholder().title, "Tauri App");
}

#[test]
fn a_screenshot_is_answered_with_a_path_or_with_the_image() {
    let manager = WindowManager::new(Platform::Linux);
    assert_eq!(
        manager.take_screenshot("p", Capture::Saved("/tmp/shot.png".to_string())),
        Ok("/tmp/shot.png".to_string())
    );
    assert_eq!(
        manager.take_screenshot("p", Capture::Png(b"hello".to_vec())),
        Ok("data:image/png;base64,aGVsbG8=".to_string())
    );
    assert_eq!(
        manager.take_screenshot("p", Capture::NoScreens),
        Err(TauriMcpError::ScreenshotError("No screens found".to_string()))
    );
    assert_eq!(
        manager.take_screenshot("p", Capture::Failed("no display".to_string())),
        Err(TauriMcpError::ScreenshotError("no display".to_string()))
    );
}

#[test]
fn window_operations_succeed() {
    let manager = WindowManager::new(Platform::Windows);
    assert_eq!(manager.focus_window("p"), Ok(()));
    assert_eq!(manager.minimize_window("p"), Ok(()));
    assert_eq!(manager.maximize_window("p"), Ok(()));
    assert_eq!(manager.resize_window("p", 10, 20), Ok(()));
    assert_eq!(manager.move_window("p", -1, 2), Ok(()));
    assert_eq!(get_window_by_pid(1), Ok(None));
    assert_eq!(activate_window(1), Ok(()));
}

#[test]
fn what_looks_like_an_application() {
    assert!(is_tauri_app("/work/my-tauri-app/bin"));
    assert!(is_tauri_app("/Applications/Notes.app"));
    assert!(is_tauri_app("C:\\apps\\notes.exe"));
    assert!(is_tauri_app("notes.AppImage"));
    assert!(!is_tauri_app("/usr/bin/notes"));
    assert!(!is_tauri_app("notes.appimage"));
    assert!(!is_tauri_app("notes.app.zip"));
    assert!(!is_tauri_app(""));
    assert!(is_searched_directory("target"));
    assert!(is_searched_directory("src-tauri"));
    assert!(!is_searched_directory("src"));
    assert!(!is_searched_directory("Target"));
}

#[test]
fn base64_of_an_image() {
    assert_eq!(image_to_base64(b""), "");
    assert_eq!(image_to_base64(b"f"), "Zg==");
    assert_eq!(image_to_base64(b"fo"), "Zm8=");
    assert_eq!(image_to_base64(b"foo"), "Zm9v");
    assert_eq!(image_to_base64(&[0xfb, 0xff]), "+/8=");
    assert_eq!(image_data_url(b"foobar"), "data:image/png;base64,Zm9vYmFy");
}

#[test]
fn the_screen_that_holds_an_area() {
    let left = DisplayArea { x: 0, y: 0, width: 1920, height: 1080 };
    let right = DisplayArea { x: 1920, y: 0, width: 1280, height: 1024 };
    assert!(contains_area(&left, 0, 0, 1920, 1080));
    assert!(!contains_area(&left, 1, 0, 1920, 1080));
    assert!(!contains_area(&left, -1, 0, 10, 10));
    assert!(contains_area(&right, 1920, 24, 1280, 1000));
    assert!(!contains_area(&right, 2147483647, 0, 4294967295, 1));
    let displays = vec![left, right, left];
    assert_eq!(find_screen(&displays, 10, 10, 100, 100), Some(0));
    assert_eq!(find_screen(&displays, 2000, 10, 100, 100), Some(1));
    assert_eq!(find_screen(&displays, 1900, 10, 100, 100), None);
    assert_eq!(find_screen(&vec![], 0, 0, 0, 0), None);
}
