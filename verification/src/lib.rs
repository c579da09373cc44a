//! JSON validation, pretty-printing and minification behind a uniform
//! response envelope, with the request counters and health payload of the
//! service built around them.

pub mod config;
pub mod envelope;
pub mod handler;
pub mod health;
pub mod json;
pub mod metrics;
pub mod text;
