//! The Linux capture engine, which captures what the user picks in the
//! desktop's screencast portal.

pub mod capture_stream_builder;
