//! The window manager: what is reported of the window of an application,
//! and what a screenshot is answered with.

use crate::json::{Json, JsonV, MemberV};
use crate::utils::screenshot::{data_url, image_data_url};
use crate::{ErrorKind, ErrorV, TauriMcpError};
use vstd::prelude::*;

verus! {

/// The platform that the server runs on.
#[derive(Debug, PartialEq, Eq, Clone, Copy, Structural)]
pub enum Platform {
    MacOs,
    Windows,
    Linux,
}

/// The name of a platform in reports.
pub open spec fn platform_name(platform: Platform) -> Seq<char> {
    match platform {
        Platform::MacOs => "macos"@,
        Platform::Windows => "windows"@,
        Platform::Linux => "linux"@,
    }
}

/// What is known of a window.
#[derive(Debug, PartialEq)]
pub struct WindowInfo {
    pub title: String,
    pub x: i32,
    pub y: i32,
    pub width: u32,
    pub height: u32,
    pub is_visible: bool,
    pub is_focused: bool,
}

/// The report of a window on a platform.
pub open spec fn window_json(info: WindowInfo, platform: Platform) -> JsonV {
    JsonV::Object(
        seq![
            MemberV { key: "title"@, value: JsonV::Str(info.title@) },
            MemberV { key: "x"@, value: JsonV::Int(info.x as int) },
            MemberV { key: "y"@, value: JsonV::Int(info.y as int) },
            MemberV { key: "width"@, value: JsonV::Int(info.width as int) },
            MemberV { key: "height"@, value: JsonV::Int(info.height as int) },
            MemberV { key: "is_visible"@, value: JsonV::Bool(info.is_visible) },
            MemberV { key: "is_focused"@, value: JsonV::Bool(info.is_focused) },
            MemberV { key: "platform"@, value: JsonV::Str(platform_name(platform)) },
        ],
    )
}

/// Whether `info` is what is reported of every window: a visible window
/// without focus, 800 by 600 at `(100, 100)`, with the title `Tauri App`.
pub open spec fn is_placeholder(info: WindowInfo) -> bool {
    &&& info.title@ == "Tauri App"@
    &&& info.x == 100
    &&& info.y == 100
    &&& info.width == 800
    &&& info.height == 600
    &&& info.is_visible
    &&& !info.is_focused
}

/// What the caller found when it took the screenshot.
#[derive(Debug, PartialEq)]
pub enum Capture {
    /// The capture failed; the text says why.
    Failed(String),
    /// There is no screen.
    NoScreens,
    /// The image was written to the path that the client gave; this is the
    /// path.
    Saved(String),
    /// The image as the bytes of a PNG file.
    Png(Vec<u8>),
}

/// The error of kind `Screenshot` with the given detail.
pub open spec fn screenshot_error(detail: Seq<char>) -> ErrorV {
    ErrorV { kind: ErrorKind::Screenshot, detail }
}

/// What a screenshot is answered with: the path where the image was saved,
/// or the image itself as a `data:` address.
pub open spec fn screenshot_spec(capture: Capture) -> Result<Seq<char>, ErrorV> {
    match capture {
        Capture::Failed(reason) => Err(screenshot_error(reason@)),
        Capture::NoScreens => Err(screenshot_error("No screens found"@)),
        Capture::Saved(path) => Ok(path@),
        Capture::Png(bytes) => Ok(data_url(bytes@)),
    }
}

/// The text of a platform's name.
pub fn platform_text(platform: Platform) -> (r: &'static str)
    ensures
        r@ == platform_name(platform),
{
    match platform {
        Platform::MacOs => "macos",
        Platform::Windows => "windows",
        Platform::Linux => "linux",
    }
}

/// The report of a window on a platform.
pub fn window_report(info: &WindowInfo, platform: Platform) -> (r: Json)
    ensures
        r@ == window_json(*info, platform),
{
    let horizontal = if info.x >= 0 {
        Json::PosInt(info.x as u64)
    } else {
        Json::NegInt(info.x as i64)
    };
    let vertical = if info.y >= 0 {
        Json::PosInt(info.y as u64)
    } else {
        Json::NegInt(info.y as i64)
    };
    let r = Json::object().with("title", Json::Str(info.title.clone())).with("x", horizontal).with(
        "y",
        vertical,
    ).with("width", Json::PosInt(info.width as u64)).with(
        "height",
        Json::PosInt(info.height as u64),
    ).with("is_visible", Json::Bool(info.is_visible)).with(
        "is_focused",
        Json::Bool(info.is_focused),
    ).with("platform", Json::string(platform_text(platform)));
    proof {
        assert(r@->Object_0 =~= window_json(*info, platform)->Object_0);
    }
    r
}

/// The window manager of one platform.
pub struct WindowManager {
    platform: Platform,
}

impl WindowManager {
    /// The platform that this manager is for.
    pub closed spec fn platform(self) -> Platform {
        self.platform
    }

    /// The window manager of `platform`.
    pub fn new(platform: Platform) -> (m: WindowManager)
        ensures
            m.platform() == platform,
    {
        WindowManager { platform }
    }

    /// What is reported of every window.
    pub fn placeholder() -> (info: WindowInfo)
        ensures
            is_placeholder(info),
    {
        WindowInfo {
            title: "Tauri App".to_owned(),
            x: 100,
            y: 100,
            width: 800,
            height: 600,
            is_visible: true,
            is_focused: false,
        }
    }

    /// The report of the window of `process_id`: the same of every window,
    /// with the name of the platform.
    pub fn get_window_info(&self, process_id: &str) -> (r: Result<Json, TauriMcpError>)
        ensures
            r is Ok,
            exists|info: WindowInfo|
                is_placeholder(info) && r->Ok_0@ == #[trigger] window_json(info, self.platform()),
    {
        let info = WindowManager::placeholder();
        let r = window_report(&info, self.platform);
        proof {
            assert(r@ == window_json(info, self.platform()));
        }
        Ok(r)
    }

    /// What the screenshot of `process_id` is answered with, after the
    /// caller took it.
    pub fn take_screenshot(&self, process_id: &str, capture: Capture) -> (r: Result<
        String,
        TauriMcpError,
    >)
        ensures
            match r {
                Ok(text) => screenshot_spec(capture) == Ok::<Seq<char>, ErrorV>(text@),
                Err(e) => screenshot_spec(capture) == Err::<Seq<char>, ErrorV>(e@),
            },
    {
        match capture {
            Capture::Failed(reason) => Err(TauriMcpError::ScreenshotError(reason)),
            Capture::NoScreens => Err(
                TauriMcpError::ScreenshotError("No screens found".to_owned()),
            ),
            Capture::Saved(path) => Ok(path),
            Capture::Png(bytes) => Ok(image_data_url(bytes.as_slice())),
        }
    }

    /// Brings the window of `process_id` to the front.
    pub fn focus_window(&self, process_id: &str) -> (r: Result<(), TauriMcpError>)
        ensures
            r is Ok,
    {
        Ok(())
    }

    /// Minimizes the window of `process_id`.
    pub fn minimize_window(&self, process_id: &str) -> (r: Result<(), TauriMcpError>)
        ensures
            r is Ok,
    {
        Ok(())
    }

    /// Maximizes the window of `process_id`.
    pub fn maximize_window(&self, process_id: &str) -> (r: Result<(), TauriMcpError>)
        ensures
            r is Ok,
    {
        Ok(())
    }

    /// Gives the window of `process_id` a new size.
    pub fn resize_window(&self, process_id: &str, width: u32, height: u32) -> (r: Result<
        (),
        TauriMcpError,
    >)
        ensures
            r is Ok,
    {
        Ok(())
    }

    /// Moves the window of `process_id`.
    pub fn move_window(&self, process_id: &str, x: i32, y: i32) -> (r: Result<(), TauriMcpError>)
        ensures
            r is Ok,
    {
        Ok(())
    }
}

} // verus!
