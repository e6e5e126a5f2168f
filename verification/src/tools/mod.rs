pub mod debug;
pub mod input;
pub mod ipc;
pub mod logs;
pub mod process;
pub mod window;
