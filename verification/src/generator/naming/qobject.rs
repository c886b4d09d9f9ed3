//! The names that belong to one object.

use crate::generator::naming::{CombinedIdent, CombinedIdentView};
use vstd::prelude::*;

verus! {

/// Names for parts of an object: the class that C++ sees and the Rust
/// struct that holds its data.
#[derive(Debug, PartialEq, Eq)]
pub struct QObjectName {
    /// The C++ class.
    pub cpp_class: CombinedIdent,
    /// The Rust struct behind the class.
    pub rust_struct: CombinedIdent,
}

/// The mathematical value of a [`QObjectName`].
pub struct QObjectNameView {
    pub cpp_class: CombinedIdentView,
    pub rust_struct: CombinedIdentView,
}

impl View for QObjectName {
    type V = QObjectNameView;

    open spec fn view(&self) -> QObjectNameView {
        QObjectNameView { cpp_class: self.cpp_class@, rust_struct: self.rust_struct@ }
    }
}

} // verus!
