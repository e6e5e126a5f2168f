pub mod platform;
pub mod screenshot;
