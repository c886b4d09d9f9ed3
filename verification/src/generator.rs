//! The generator proper: naming, type qualification and the fragments
//! emitted for each property.

pub mod naming;
pub mod rust;
pub mod utils;
