//! Verified core of the bytewarden terminal client for Bitwarden.
pub mod text;
pub mod base64;
pub mod model;
pub mod client;
pub mod fields;
pub mod search;
pub mod app;
pub mod events;
pub mod config;
pub mod json;
pub mod view;
pub mod theme;
