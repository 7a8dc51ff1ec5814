//! The link converters and the clipboard baseline.

pub mod clipboard;
pub mod converters;
pub mod link_converter;
