//! The configuration: which platforms are rewritten, and with which converter.

pub mod app_config;
pub mod frontend;
