//! Control of a locally running desktop application over a line-delimited
//! JSON-RPC protocol: the session and tool dispatch, and the registry of the
//! processes that the server launched or attached to.

use vstd::prelude::*;

pub mod catalog;
pub mod dispatch;
pub mod json;
pub mod outside;
pub mod protocol;
pub mod server;
pub mod session;
pub mod text;
pub mod tools;
pub mod utils;

verus! {

/// What went wrong, by the part of the server that failed.
#[derive(Debug, PartialEq, Eq, Clone, Copy, Structural)]
pub enum ErrorKind {
    Process,
    Window,
    Screenshot,
    Input,
    Ipc,
    WebDriver,
    Config,
    Io,
    Json,
    Other,
}

/// The mathematical value of an error: its kind and its detail text.
pub struct ErrorV {
    pub kind: ErrorKind,
    pub detail: Seq<char>,
}

/// An error of the server.  Each variant holds the detail text.
#[derive(Debug, PartialEq)]
pub enum TauriMcpError {
    ProcessError(String),
    WindowError(String),
    ScreenshotError(String),
    InputError(String),
    IpcError(String),
    WebDriverError(String),
    ConfigError(String),
    IoError(String),
    JsonError(String),
    Other(String),
}

/// The words that stand before the detail in the message of an error.
pub open spec fn kind_prefix(kind: ErrorKind) -> Seq<char> {
    match kind {
        ErrorKind::Process => "Process error: "@,
        ErrorKind::Window => "Window error: "@,
        ErrorKind::Screenshot => "Screenshot error: "@,
        ErrorKind::Input => "Input simulation error: "@,
        ErrorKind::Ipc => "IPC error: "@,
        ErrorKind::WebDriver => "WebDriver error: "@,
        ErrorKind::Config => "Configuration error: "@,
        ErrorKind::Io => "IO error: "@,
        ErrorKind::Json => "JSON error: "@,
        ErrorKind::Other => "Other error: "@,
    }
}

impl ErrorV {
    /// The message shown to a client: the kind's words, then the detail.
    pub open spec fn message(self) -> Seq<char> {
        kind_prefix(self.kind) + self.detail
    }
}

/// The error of kind `Process` with the given detail.
pub open spec fn process_error(detail: Seq<char>) -> ErrorV {
    ErrorV { kind: ErrorKind::Process, detail }
}

/// The error of kind `Other` with the given detail.
pub open spec fn other_error(detail: Seq<char>) -> ErrorV {
    ErrorV { kind: ErrorKind::Other, detail }
}

impl View for TauriMcpError {
    type V = ErrorV;

    open spec fn view(&self) -> ErrorV {
        match self {
            TauriMcpError::ProcessError(d) => ErrorV { kind: ErrorKind::Process, detail: d@ },
            TauriMcpError::WindowError(d) => ErrorV { kind: ErrorKind::Window, detail: d@ },
            TauriMcpError::ScreenshotError(d) => ErrorV { kind: ErrorKind::Screenshot, detail: d@ },
            TauriMcpError::InputError(d) => ErrorV { kind: ErrorKind::Input, detail: d@ },
            TauriMcpError::IpcError(d) => ErrorV { kind: ErrorKind::Ipc, detail: d@ },
            TauriMcpError::WebDriverError(d) => ErrorV { kind: ErrorKind::WebDriver, detail: d@ },
            TauriMcpError::ConfigError(d) => ErrorV { kind: ErrorKind::Config, detail: d@ },
            TauriMcpError::IoError(d) => ErrorV { kind: ErrorKind::Io, detail: d@ },
            TauriMcpError::JsonError(d) => ErrorV { kind: ErrorKind::Json, detail: d@ },
            TauriMcpError::Other(d) => ErrorV { kind: ErrorKind::Other, detail: d@ },
        }
    }
}

impl TauriMcpError {
    /// The kind of this error.
    pub fn kind(&self) -> (k: ErrorKind)
        ensures
            k == self@.kind,
    {
        match self {
            TauriMcpError::ProcessError(_) => ErrorKind::Process,
            TauriMcpError::WindowError(_) => ErrorKind::Window,
            TauriMcpError::ScreenshotError(_) => ErrorKind::Screenshot,
            TauriMcpError::InputError(_) => ErrorKind::Input,
            TauriMcpError::IpcError(_) => ErrorKind::Ipc,
            TauriMcpError::WebDriverError(_) => ErrorKind::WebDriver,
            TauriMcpError::ConfigError(_) => ErrorKind::Config,
            TauriMcpError::IoError(_) => ErrorKind::Io,
            TauriMcpError::JsonError(_) => ErrorKind::Json,
            TauriMcpError::Other(_) => ErrorKind::Other,
        }
    }

    /// The detail text of this error.
    pub fn detail(&self) -> (d: &str)
        ensures
            d@ == self@.detail,
    {
        match self {
            TauriMcpError::ProcessError(d) => d.as_str(),
            TauriMcpError::WindowError(d) => d.as_str(),
            TauriMcpError::ScreenshotError(d) => d.as_str(),
            TauriMcpError::InputError(d) => d.as_str(),
            TauriMcpError::IpcError(d) => d.as_str(),
            TauriMcpError::WebDriverError(d) => d.as_str(),
            TauriMcpError::ConfigError(d) => d.as_str(),
            TauriMcpError::IoError(d) => d.as_str(),
            TauriMcpError::JsonError(d) => d.as_str(),
            TauriMcpError::Other(d) => d.as_str(),
        }
    }

    /// The message shown to a client.
    pub fn to_string(&self) -> (r: String)
        ensures
            r@ == self@.message(),
    {
        let prefix = match self {
            TauriMcpError::ProcessError(_) => "Process error: ",
            TauriMcpError::WindowError(_) => "Window error: ",
            TauriMcpError::ScreenshotError(_) => "Screenshot error: ",
            TauriMcpError::InputError(_) => "Input simulation error: ",
            TauriMcpError::IpcError(_) => "IPC error: ",
            TauriMcpError::WebDriverError(_) => "WebDriver error: ",
            TauriMcpError::ConfigError(_) => "Configuration error: ",
            TauriMcpError::IoError(_) => "IO error: ",
            TauriMcpError::JsonError(_) => "JSON error: ",
            TauriMcpError::Other(_) => "Other error: ",
        };
        crate::text::join2(prefix, self.detail())
    }
}

} // verus!
