//! The notify signal of a property.

use crate::generator::naming::property::{QPropertyName, QPropertyNameView};
use crate::generator::naming::qobject::{QObjectName, QObjectNameView};
use crate::parser::signals::{ParsedSignal, ParsedSignalView};
use crate::syntax::item::{Attribute, AttributeView, FnArg, FnArgView, ForeignItemFn, ForeignItemFnView};
use crate::syntax::{Type, TypeView};
use vstd::prelude::*;

verus! {

/// The declaration of the notify signal: a function named after the
/// property's notify identifier whose only parameter is its object, by
/// pinned mutable reference.
pub open spec fn notify_method(
    idents: QPropertyNameView,
    qobject_idents: QObjectNameView,
) -> ForeignItemFnView {
    ForeignItemFnView {
        attrs: seq![AttributeView::Doc("Notify for the Q_PROPERTY"@)],
        unsafety: false,
        ident: idents.notify.rust,
        inputs: seq![
            FnArgView { ident: "self"@, ty: TypeView::pin_mut(qobject_idents.cpp_class.rust) },
        ],
    }
}

/// The notify signal of a property: its declaration, under the notify
/// name of the property, for the C++ class of the object.
pub open spec fn notify_signal(
    idents: QPropertyNameView,
    qobject_idents: QObjectNameView,
) -> ParsedSignalView {
    ParsedSignalView::from_property_method(
        notify_method(idents, qobject_idents),
        idents.notify,
        qobject_idents.cpp_class.rust,
    )
}

/// Generates the notify signal of a property.
pub fn generate(idents: &QPropertyName, qobject_idents: &QObjectName) -> (signal: ParsedSignal)
    ensures
        signal@ == notify_signal(idents@, qobject_idents@),
{
    // We build our signal in the generation phase as we need to use the naming
    // structs to build the signal name
    let cpp_class_rust = &qobject_idents.cpp_class.rust;
    let notify_rust = &idents.notify.rust;
    let mut attrs: Vec<Attribute> = Vec::new();
    attrs.push(Attribute::Doc("Notify for the Q_PROPERTY".to_owned()));
    let mut inputs: Vec<FnArg> = Vec::new();
    inputs.push(FnArg { ident: "self".to_owned(), ty: Type::pin_mut(cpp_class_rust.as_str()) });
    let method = ForeignItemFn { attrs, unsafety: false, ident: notify_rust.clone(), inputs };
    let ghost expected = notify_method(idents@, qobject_idents@);
    assert(method@.attrs =~= expected.attrs);
    assert(method@.inputs =~= expected.inputs);
    ParsedSignal::from_property_method(
        method,
        idents.notify.clone(),
        qobject_idents.cpp_class.rust.clone(),
    )
}

} // verus!
