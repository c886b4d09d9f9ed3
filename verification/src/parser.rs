//! The records that the generator shares with the front end that reads
//! the declarations.

pub mod signals;
