//! The core of a code generator that exposes Rust structs to Qt as objects
//! with properties, by way of a CXX bridge.
//!
//! For each property the generator derives the names it goes by on either
//! side of the bridge ([`generator::naming`]), and emits its setter
//! ([`generator::rust::property::setter`]) and its notify signal
//! ([`generator::rust::property::signal`]).  Types are rewritten for use
//! outside of the bridge and examined for the need of `unsafe` by
//! [`generator::utils::rust`].
//!
//! The generator works on plain values: type expressions are trees of the
//! types in [`syntax`], and what is generated comes as structured
//! fragments ([`generator::rust::fragment`]) for a front end to print.
//! What a generated setter does when it runs is laid down in
//! [`generator::rust::property::effect`] and shown on an object in
//! [`my_object`].

pub mod generator;
pub mod my_object;
pub mod parser;
pub mod syntax;
pub mod text;
