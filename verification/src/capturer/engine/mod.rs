//! The platform capture engines.

pub mod linux;
pub mod mac;
