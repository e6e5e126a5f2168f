//! What depends on the platform, and how an application is told from other
//! files.

use crate::text::{contains, contains_text, ends_with, ends_with_text, same_text};
use crate::TauriMcpError;
use vstd::prelude::*;

verus! {

/// Whether a path looks like that of an application: it holds `tauri`, or it
/// ends like an application bundle, a Windows program or an AppImage.
pub open spec fn is_tauri_app_spec(path: Seq<char>) -> bool {
    contains_text(path, "tauri"@) || ends_with_text(path, ".app"@) || ends_with_text(
        path,
        ".exe"@,
    ) || ends_with_text(path, ".AppImage"@)
}

/// Whether a directory of this name is searched for applications: the build
/// output and the application's own source directory are.
pub open spec fn is_searched_spec(name: Seq<char>) -> bool {
    name == "target"@ || name == "src-tauri"@
}

/// The window of the process `pid`.  None is known on this platform.
pub fn get_window_by_pid(pid: u32) -> (r: Result<Option<u64>, TauriMcpError>)
    ensures
        r == Ok::<Option<u64>, TauriMcpError>(None),
{
    Ok(None)
}

/// Whether a path looks like that of an application.
pub fn is_tauri_app(path: &str) -> (r: bool)
    ensures
        r == is_tauri_app_spec(path@),
{
    contains(path, "tauri") || ends_with(path, ".app") || ends_with(path, ".exe") || ends_with(
        path,
        ".AppImage",
    )
}

/// Whether a directory of this name is searched for applications.
pub fn is_searched_directory(name: &str) -> (r: bool)
    ensures
        r == is_searched_spec(name@),
{
    same_text(name, "target") || same_text(name, "src-tauri")
}

/// Brings a window to the front.  Nothing is to be done on this platform.
pub fn activate_window(window_id: u64) -> (r: Result<(), TauriMcpError>)
    ensures
        r is Ok,
{
    Ok(())
}

} // verus!
