//! Rewrites links to social-media posts so that they point at mirror
//! domains with rich previews, and keeps the configuration that says which
//! platforms are rewritten and how.

pub mod commands;
pub mod config;
pub mod platform_ops;
pub mod services;
pub mod state;
pub mod text;
pub mod tray_menu;
