//! The unit in which generated Rust code is handed on: declarations for
//! the bridge together with the implementations that they need.

use crate::syntax::item::{
    Attribute, AttributeView, FnArg, FnArgView, ForeignItemFnView, ItemForeignMod,
    ItemForeignModView,
};
use crate::syntax::TypeView;
use vstd::prelude::*;

verus! {

/// How a generated method takes the object it is called on.
#[derive(Debug, Clone, Copy, PartialEq, Eq, Structural)]
pub enum Receiver {
    /// `&mut self`
    RefMut,
    /// `mut self: Pin<&mut Self>`
    PinMut,
}

/// A statement in the body of a generated setter.  The value to set is the
/// parameter `value`; in a method that takes `&mut self`, the C++ object is
/// the parameter `cpp`.
#[derive(Debug, PartialEq, Eq)]
pub enum Stmt {
    /// `cpp.<method>(value);`: hand the value on to the C++ object.
    ForwardToCpp { method: String },
    /// `if self.rust().<field> == value { return; }`: leave without any
    /// effect if the field holds the value already.
    ReturnIfEqual { field: String },
    /// `unsafe { self.as_mut().rust_mut().<field> = value; }`: write the
    /// field of the Rust struct behind the C++ object.
    UnsafeStore { field: String },
    /// `self.as_mut().<signal>();`: emit a signal.
    Notify { signal: String },
}

/// The mathematical value of a [`Stmt`].
pub enum StmtView {
    ForwardToCpp { method: Seq<char> },
    ReturnIfEqual { field: Seq<char> },
    UnsafeStore { field: Seq<char> },
    Notify { signal: Seq<char> },
}

impl View for Stmt {
    type V = StmtView;

    open spec fn view(&self) -> StmtView {
        match self {
            Stmt::ForwardToCpp { method } => StmtView::ForwardToCpp { method: method@ },
            Stmt::ReturnIfEqual { field } => StmtView::ReturnIfEqual { field: field@ },
            Stmt::UnsafeStore { field } => StmtView::UnsafeStore { field: field@ },
            Stmt::Notify { signal } => StmtView::Notify { signal: signal@ },
        }
    }
}

/// An `impl` block for the type named `self_ty` with one public method
/// that returns nothing.
#[derive(Debug, PartialEq, Eq)]
pub struct ItemImplFn {
    pub self_ty: String,
    pub attrs: Vec<Attribute>,
    pub ident: String,
    pub receiver: Receiver,
    pub inputs: Vec<FnArg>,
    pub block: Vec<Stmt>,
}

/// The mathematical value of an [`ItemImplFn`].
pub struct ItemImplFnView {
    pub self_ty: Seq<char>,
    pub attrs: Seq<AttributeView>,
    pub ident: Seq<char>,
    pub receiver: Receiver,
    pub inputs: Seq<FnArgView>,
    pub block: Seq<StmtView>,
}

impl View for ItemImplFn {
    type V = ItemImplFnView;

    open spec fn view(&self) -> ItemImplFnView {
        ItemImplFnView {
            self_ty: self.self_ty@,
            attrs: self.attrs@.map_values(|attr: Attribute| attr@),
            ident: self.ident@,
            receiver: self.receiver,
            inputs: self.inputs@.map_values(|input: FnArg| input@),
            block: self.block@.map_values(|stmt: Stmt| stmt@),
        }
    }
}

/// A pair of fragments that belong together: what goes into the bridge and
/// what implements it.  Neither builds without the other.
#[derive(Debug, PartialEq, Eq)]
pub struct RustFragmentPair {
    /// The declarations for the bridge.
    pub cxx_bridge: Vec<ItemForeignMod>,
    /// The implementations, for the module around the bridge.
    pub implementation: Vec<ItemImplFn>,
}

/// The mathematical value of a [`RustFragmentPair`].
pub struct RustFragmentPairView {
    pub cxx_bridge: Seq<ItemForeignModView>,
    pub implementation: Seq<ItemImplFnView>,
}

/// Whether `method` is what `declaration` declares: a method of the
/// struct that the declaration takes as `self`, by mutable reference,
/// under the name of the declaration and with its other parameters.
pub open spec fn implements(method: ItemImplFnView, declaration: ForeignItemFnView) -> bool {
    &&& method.ident == declaration.ident
    &&& method.receiver == Receiver::RefMut
    &&& declaration.inputs.len() > 0
    &&& declaration.inputs[0] == (FnArgView {
        ident: "self"@,
        ty: TypeView::reference(true, TypeView::from_ident(method.self_ty)),
    })
    &&& method.inputs == declaration.inputs.drop_first()
}

impl RustFragmentPairView {
    /// Whether every function that the bridge is to declare from Rust has
    /// its implementation in the same pair.
    pub open spec fn is_complete(self) -> bool {
        forall|i: int, j: int|
            0 <= i < self.cxx_bridge.len() && 0 <= j < self.cxx_bridge[i].items.len()
                ==> exists|k: int|
                0 <= k < self.implementation.len() && implements(
                    #[trigger] self.implementation[k],
                    #[trigger] self.cxx_bridge[i].items[j],
                )
    }
}

impl View for RustFragmentPair {
    type V = RustFragmentPairView;

    open spec fn view(&self) -> RustFragmentPairView {
        RustFragmentPairView {
            cxx_bridge: self.cxx_bridge@.map_values(|item: ItemForeignMod| item@),
            implementation: self.implementation@.map_values(|item: ItemImplFn| item@),
        }
    }
}

} // verus!
