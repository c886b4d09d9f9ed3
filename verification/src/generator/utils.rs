//! Helpers shared by the fragment generators.

pub mod mappings;
pub mod rust;
