//! The names under which one declared item is known on either side of the
//! bridge.

use crate::text::{camel_case, pascal_case, to_camel_case, to_pascal_case};
use vstd::prelude::*;
use vstd::string::StringExecFns;

pub mod property;
pub mod qobject;

verus! {

/// An identifier with its C++ spelling and its Rust spelling.
#[derive(Debug, PartialEq, Eq)]
pub struct CombinedIdent {
    /// The name on the C++ side.
    pub cpp: String,
    /// The name on the Rust side.
    pub rust: String,
}

/// The mathematical value of a [`CombinedIdent`].
pub struct CombinedIdentView {
    pub cpp: Seq<char>,
    pub rust: Seq<char>,
}

impl View for CombinedIdent {
    type V = CombinedIdentView;

    open spec fn view(&self) -> CombinedIdentView {
        CombinedIdentView { cpp: self.cpp@, rust: self.rust@ }
    }
}

impl Clone for CombinedIdent {
    fn clone(&self) -> (res: Self)
        ensures
            res@ == self@,
    {
        CombinedIdent { cpp: self.cpp.clone(), rust: self.rust.clone() }
    }
}

impl CombinedIdentView {
    /// The names of the field of a property: the property's own name in
    /// Rust, the same in camel case in C++.
    pub open spec fn from_property(ident: Seq<char>) -> CombinedIdentView {
        CombinedIdentView { cpp: camel_case(ident), rust: ident }
    }

    /// The names of the getter of a property: the property's own name in
    /// Rust, `get` and the name in Pascal case in C++.
    pub open spec fn getter_from_property(ident: Seq<char>) -> CombinedIdentView {
        CombinedIdentView { cpp: "get"@ + pascal_case(ident), rust: ident }
    }

    /// The names of the setter of a property: `set_` and the property's
    /// name in Rust, `set` and the name in Pascal case in C++.
    pub open spec fn setter_from_property(ident: Seq<char>) -> CombinedIdentView {
        CombinedIdentView { cpp: "set"@ + pascal_case(ident), rust: "set_"@ + ident }
    }

    /// The names of the notify signal of a property: the property's name
    /// and `_changed` in Rust, the same in camel case in C++.
    pub open spec fn notify_from_property(ident: Seq<char>) -> CombinedIdentView {
        CombinedIdentView { cpp: camel_case(ident + "_changed"@), rust: ident + "_changed"@ }
    }
}

impl CombinedIdent {
    /// For a given ident generate the Rust and C++ names of the field
    pub fn from_property(ident: &str) -> (names: CombinedIdent)
        ensures
            names@ == CombinedIdentView::from_property(ident@),
    {
        CombinedIdent { cpp: to_camel_case(ident), rust: ident.to_owned() }
    }

    /// For a given ident generate the Rust and C++ getter names
    pub fn getter_from_property(ident: &str) -> (names: CombinedIdent)
        ensures
            names@ == CombinedIdentView::getter_from_property(ident@),
    {
        CombinedIdent {
            cpp: "get".to_owned().concat(to_pascal_case(ident).as_str()),
            rust: ident.to_owned(),
        }
    }

    /// For a given ident generate the Rust and C++ setter names
    pub fn setter_from_property(ident: &str) -> (names: CombinedIdent)
        ensures
            names@ == CombinedIdentView::setter_from_property(ident@),
    {
        CombinedIdent {
            cpp: "set".to_owned().concat(to_pascal_case(ident).as_str()),
            rust: "set_".to_owned().concat(ident),
        }
    }

    /// For a given ident generate the Rust and C++ notify names
    pub fn notify_from_property(ident: &str) -> (names: CombinedIdent)
        ensures
            names@ == CombinedIdentView::notify_from_property(ident@),
    {
        let rust = ident.to_owned().concat("_changed");
        CombinedIdent { cpp: to_camel_case(rust.as_str()), rust }
    }
}

} // verus!
