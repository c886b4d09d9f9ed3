//! What is generated for one property.

pub mod effect;
pub mod setter;
pub mod signal;
