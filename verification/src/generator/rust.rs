//! The Rust side of what is generated for an object.

pub mod fragment;
pub mod property;
