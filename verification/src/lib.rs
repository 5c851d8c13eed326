//! Screen capture: the decisions and pixel work of a cross-platform capture
//! library, proved correct, with the calls into the platform capture APIs
//! left to the surrounding application.

pub mod capturer;
pub mod frame;
pub mod targets;
mod text;
