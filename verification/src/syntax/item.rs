//! Function declarations as they are written inside a bridge.

use crate::syntax::{Type, TypeView};
use vstd::prelude::*;

verus! {

/// An attribute on a generated function.
#[derive(Debug, PartialEq, Eq)]
pub enum Attribute {
    /// `#[doc = "..."]`: one line of documentation.
    Doc(String),
    /// `#[doc(hidden)]`.
    DocHidden,
    /// `#[cxx_name = "..."]`: the name that the function has in C++.
    CxxName(String),
}

/// The mathematical value of an [`Attribute`].
pub enum AttributeView {
    Doc(Seq<char>),
    DocHidden,
    CxxName(Seq<char>),
}

impl View for Attribute {
    type V = AttributeView;

    open spec fn view(&self) -> AttributeView {
        match self {
            Attribute::Doc(text) => AttributeView::Doc(text@),
            Attribute::DocHidden => AttributeView::DocHidden,
            Attribute::CxxName(name) => AttributeView::CxxName(name@),
        }
    }
}

/// A parameter of a function: `ident: ty`.
#[derive(Debug, PartialEq, Eq)]
pub struct FnArg {
    pub ident: String,
    pub ty: Type,
}

/// The mathematical value of a [`FnArg`].
pub struct FnArgView {
    pub ident: Seq<char>,
    pub ty: TypeView,
}

impl View for FnArg {
    type V = FnArgView;

    open spec fn view(&self) -> FnArgView {
        FnArgView { ident: self.ident@, ty: self.ty@ }
    }
}

/// A function declared in an `extern` block of a bridge.  It returns
/// nothing; a receiver is written as a first parameter named `self`.
#[derive(Debug, PartialEq, Eq)]
pub struct ForeignItemFn {
    pub attrs: Vec<Attribute>,
    /// Whether the declaration is marked `unsafe`.
    pub unsafety: bool,
    pub ident: String,
    pub inputs: Vec<FnArg>,
}

/// The mathematical value of a [`ForeignItemFn`].
pub struct ForeignItemFnView {
    pub attrs: Seq<AttributeView>,
    pub unsafety: bool,
    pub ident: Seq<char>,
    pub inputs: Seq<FnArgView>,
}

impl View for ForeignItemFn {
    type V = ForeignItemFnView;

    open spec fn view(&self) -> ForeignItemFnView {
        ForeignItemFnView {
            attrs: self.attrs@.map_values(|attr: Attribute| attr@),
            unsafety: self.unsafety,
            ident: self.ident@,
            inputs: self.inputs@.map_values(|input: FnArg| input@),
        }
    }
}

/// An `extern` block of a bridge with the functions declared in it.
#[derive(Debug, PartialEq, Eq)]
pub struct ItemForeignMod {
    /// The language named by the block: `Rust` or `C++`.
    pub abi: String,
    pub items: Vec<ForeignItemFn>,
}

/// The mathematical value of an [`ItemForeignMod`].
pub struct ItemForeignModView {
    pub abi: Seq<char>,
    pub items: Seq<ForeignItemFnView>,
}

impl View for ItemForeignMod {
    type V = ItemForeignModView;

    open spec fn view(&self) -> ItemForeignModView {
        ItemForeignModView {
            abi: self.abi@,
            items: self.items@.map_values(|item: ForeignItemFn| item@),
        }
    }
}

} // verus!
