//! The names that belong to one property.

use crate::generator::naming::{CombinedIdent, CombinedIdentView};
use vstd::prelude::*;

verus! {

/// Names for parts of a property.
#[derive(Debug, PartialEq, Eq)]
pub struct QPropertyName {
    /// The field that holds the value.
    pub name: CombinedIdent,
    /// The method that reads the value.
    pub getter: CombinedIdent,
    /// The method that writes the value.
    pub setter: CombinedIdent,
    /// The signal that tells of a change of the value.
    pub notify: CombinedIdent,
}

/// The mathematical value of a [`QPropertyName`].
pub struct QPropertyNameView {
    pub name: CombinedIdentView,
    pub getter: CombinedIdentView,
    pub setter: CombinedIdentView,
    pub notify: CombinedIdentView,
}

impl View for QPropertyName {
    type V = QPropertyNameView;

    open spec fn view(&self) -> QPropertyNameView {
        QPropertyNameView {
            name: self.name@,
            getter: self.getter@,
            setter: self.setter@,
            notify: self.notify@,
        }
    }
}

impl QPropertyNameView {
    /// The names that belong to the property named `ident`.
    pub open spec fn from_ident(ident: Seq<char>) -> QPropertyNameView {
        QPropertyNameView {
            name: CombinedIdentView::from_property(ident),
            getter: CombinedIdentView::getter_from_property(ident),
            setter: CombinedIdentView::setter_from_property(ident),
            notify: CombinedIdentView::notify_from_property(ident),
        }
    }
}

/// If two properties differ in their names, then so do the Rust names of
/// their fields, of their getters, of their setters and of their notify
/// signals.
pub proof fn lemma_rust_names_differ(first: Seq<char>, second: Seq<char>)
    requires
        first != second,
    ensures
        QPropertyNameView::from_ident(first).name.rust != QPropertyNameView::from_ident(
            second,
        ).name.rust,
        QPropertyNameView::from_ident(first).getter.rust != QPropertyNameView::from_ident(
            second,
        ).getter.rust,
        QPropertyNameView::from_ident(first).setter.rust != QPropertyNameView::from_ident(
            second,
        ).setter.rust,
        QPropertyNameView::from_ident(first).notify.rust != QPropertyNameView::from_ident(
            second,
        ).notify.rust,
{
    let prefix = "set_"@;
    let suffix = "_changed"@;
    if prefix + first == prefix + second {
        assert((prefix + first).subrange(prefix.len() as int, (prefix + first).len() as int)
            =~= first);
        assert((prefix + second).subrange(prefix.len() as int, (prefix + second).len() as int)
            =~= second);
    }
    if first + suffix == second + suffix {
        assert((first + suffix).len() == first.len() + suffix.len());
        assert((second + suffix).len() == second.len() + suffix.len());
        assert((first + suffix).subrange(0, first.len() as int) =~= first);
        assert((second + suffix).subrange(0, second.len() as int) =~= second);
    }
}

impl QPropertyName {
    /// Derives the names that belong to the property declared as `ident`.
    pub fn from_ident(ident: &str) -> (names: QPropertyName)
        ensures
            names@ == QPropertyNameView::from_ident(ident@),
    {
        QPropertyName {
            name: CombinedIdent::from_property(ident),
            getter: CombinedIdent::getter_from_property(ident),
            setter: CombinedIdent::setter_from_property(ident),
            notify: CombinedIdent::notify_from_property(ident),
        }
    }
}

} // verus!
