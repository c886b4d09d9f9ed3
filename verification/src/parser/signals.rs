//! Signals of an object.

use crate::generator::naming::{CombinedIdent, CombinedIdentView};
use crate::syntax::item::{FnArg, FnArgView, ForeignItemFn, ForeignItemFnView};
use vstd::prelude::*;

verus! {

/// Where a signal comes from.
#[derive(Debug, Clone, Copy, PartialEq, Eq, Structural)]
pub enum SignalOrigin {
    /// The signal was declared as such.
    Declared,
    /// The signal announces the change of a property.
    Property,
}

/// A signal of an object, as the generators of signal code need it.
#[derive(Debug, PartialEq, Eq)]
pub struct ParsedSignal {
    /// The declaration of the signal as a function of the bridge.
    pub method: ForeignItemFn,
    /// The object that the signal belongs to.
    pub qobject_ident: String,
    /// Whether the signal takes the object by pinned mutable reference.
    pub mutable: bool,
    /// Whether the signal can be declared without `unsafe`.
    pub safe: bool,
    /// The parameters of the signal, the receiver left out.
    pub parameters: Vec<FnArg>,
    /// The name of the signal.
    pub ident: CombinedIdent,
    /// Whether the signal is inherited from a base class.
    pub inherit: bool,
    /// Where the signal comes from.
    pub origin: SignalOrigin,
}

/// The mathematical value of a [`ParsedSignal`].
pub struct ParsedSignalView {
    pub method: ForeignItemFnView,
    pub qobject_ident: Seq<char>,
    pub mutable: bool,
    pub safe: bool,
    pub parameters: Seq<FnArgView>,
    pub ident: CombinedIdentView,
    pub inherit: bool,
    pub origin: SignalOrigin,
}

impl View for ParsedSignal {
    type V = ParsedSignalView;

    open spec fn view(&self) -> ParsedSignalView {
        ParsedSignalView {
            method: self.method@,
            qobject_ident: self.qobject_ident@,
            mutable: self.mutable,
            safe: self.safe,
            parameters: self.parameters@.map_values(|parameter: FnArg| parameter@),
            ident: self.ident@,
            inherit: self.inherit,
            origin: self.origin,
        }
    }
}

impl ParsedSignalView {
    /// The signal that announces the change of a property: it has no
    /// parameters, takes its object by pinned mutable reference, needs no
    /// `unsafe` and is not inherited.
    pub open spec fn from_property_method(
        method: ForeignItemFnView,
        ident: CombinedIdentView,
        qobject_ident: Seq<char>,
    ) -> ParsedSignalView {
        ParsedSignalView {
            method,
            qobject_ident,
            mutable: true,
            safe: true,
            parameters: Seq::empty(),
            ident,
            inherit: false,
            origin: SignalOrigin::Property,
        }
    }
}

impl ParsedSignal {
    /// Builds the signal for the notify method of a property.
    pub fn from_property_method(method: ForeignItemFn, ident: CombinedIdent, qobject_ident: String) -> (signal:
        ParsedSignal)
        ensures
            signal@ == ParsedSignalView::from_property_method(method@, ident@, qobject_ident@),
    {
        let signal = ParsedSignal {
            method,
            qobject_ident,
            mutable: true,
            safe: true,
            parameters: Vec::new(),
            ident,
            inherit: false,
            origin: SignalOrigin::Property,
        };
        assert(signal@.parameters =~= Seq::empty());
        signal
    }
}

} // verus!
