//! The setter of a property.

use crate::generator::naming::property::{QPropertyName, QPropertyNameView};
use crate::generator::naming::qobject::{QObjectName, QObjectNameView};
use crate::generator::rust::fragment::{
    implements, ItemImplFn, ItemImplFnView, Receiver, RustFragmentPair, RustFragmentPairView, Stmt,
    StmtView,
};
use crate::generator::utils::rust::{syn_type_is_cxx_bridge_unsafe, type_is_cxx_bridge_unsafe};
use crate::syntax::item::{
    Attribute, AttributeView, FnArg, FnArgView, ForeignItemFn, ForeignItemFnView, ItemForeignMod,
    ItemForeignModView,
};
use crate::syntax::{Type, TypeView};
use vstd::prelude::*;

verus! {

/// The declaration of the setter in the bridge: a function that C++ calls
/// under the setter's C++ name, with the Rust struct, the C++ object and
/// the value.  It is marked `unsafe` exactly if the type of the value
/// needs that.
pub open spec fn setter_declaration(
    idents: QPropertyNameView,
    qobject_idents: QObjectNameView,
    ty: TypeView,
) -> ItemForeignModView {
    ItemForeignModView {
        abi: "Rust"@,
        items: seq![
            ForeignItemFnView {
                attrs: seq![AttributeView::CxxName(idents.setter.cpp)],
                unsafety: type_is_cxx_bridge_unsafe(ty),
                ident: idents.setter.rust,
                inputs: seq![
                    FnArgView {
                        ident: "self"@,
                        ty: TypeView::reference(
                            true,
                            TypeView::from_ident(qobject_idents.rust_struct.rust),
                        ),
                    },
                    FnArgView {
                        ident: "cpp"@,
                        ty: TypeView::pin_mut(qobject_idents.cpp_class.rust),
                    },
                    FnArgView { ident: "value"@, ty },
                ],
            },
        ],
    }
}

/// The method of the Rust struct that the bridge declares: it hands the
/// value on to the setter of the C++ object.
pub open spec fn setter_wrapper(
    idents: QPropertyNameView,
    qobject_idents: QObjectNameView,
    ty: TypeView,
) -> ItemImplFnView {
    ItemImplFnView {
        self_ty: qobject_idents.rust_struct.rust,
        attrs: seq![AttributeView::DocHidden],
        ident: idents.setter.rust,
        receiver: Receiver::RefMut,
        inputs: seq![
            FnArgView { ident: "cpp"@, ty: TypeView::pin_mut(qobject_idents.cpp_class.rust) },
            FnArgView { ident: "value"@, ty },
        ],
        block: seq![StmtView::ForwardToCpp { method: idents.setter.rust }],
    }
}

/// The setter of the C++ object as Rust sees it.  If the field holds the
/// value already it does nothing, so that a value set again is not
/// announced again; otherwise it writes the field and emits the notify
/// signal once.
pub open spec fn setter_mutator(
    idents: QPropertyNameView,
    qobject_idents: QObjectNameView,
    ty: TypeView,
) -> ItemImplFnView {
    ItemImplFnView {
        self_ty: qobject_idents.cpp_class.rust,
        attrs: seq![
            AttributeView::Doc("Setter for the Q_PROPERTY "@),
            AttributeView::Doc(idents.name.rust),
        ],
        ident: idents.setter.rust,
        receiver: Receiver::PinMut,
        inputs: seq![FnArgView { ident: "value"@, ty }],
        block: seq![
            StmtView::ReturnIfEqual { field: idents.name.rust },
            StmtView::UnsafeStore { field: idents.name.rust },
            StmtView::Notify { signal: idents.notify.rust },
        ],
    }
}

/// What is generated for the setter of a property: one declaration for the
/// bridge and the two methods that implement it.
pub open spec fn setter_fragments(
    idents: QPropertyNameView,
    qobject_idents: QObjectNameView,
    ty: TypeView,
) -> RustFragmentPairView {
    RustFragmentPairView {
        cxx_bridge: seq![setter_declaration(idents, qobject_idents, ty)],
        implementation: seq![
            setter_wrapper(idents, qobject_idents, ty),
            setter_mutator(idents, qobject_idents, ty),
        ],
    }
}

/// The setter that the bridge is to declare is implemented in the same
/// pair, by the method of the Rust struct.
pub proof fn lemma_setter_fragments_complete(
    idents: QPropertyNameView,
    qobject_idents: QObjectNameView,
    ty: TypeView,
)
    ensures
        setter_fragments(idents, qobject_idents, ty).is_complete(),
{
    let fragments = setter_fragments(idents, qobject_idents, ty);
    let declaration = fragments.cxx_bridge[0].items[0];
    let wrapper = fragments.implementation[0];
    assert(wrapper.inputs =~= declaration.inputs.drop_first());
    assert(implements(wrapper, declaration));
}

/// The declaration of the setter in the bridge.
fn generate_declaration(idents: &QPropertyName, qobject_idents: &QObjectName, ty: &Type) -> (item:
    ItemForeignMod)
    ensures
        item@ == setter_declaration(idents@, qobject_idents@, ty@),
{
    // Determine if unsafe is required due to an unsafe type
    let has_unsafe = syn_type_is_cxx_bridge_unsafe(ty);

    let mut attrs: Vec<Attribute> = Vec::new();
    attrs.push(Attribute::CxxName(idents.setter.cpp.clone()));
    let mut inputs: Vec<FnArg> = Vec::new();
    inputs.push(
        FnArg {
            ident: "self".to_owned(),
            ty: Type::reference(true, Type::from_ident(qobject_idents.rust_struct.rust.as_str())),
        },
    );
    inputs.push(
        FnArg {
            ident: "cpp".to_owned(),
            ty: Type::pin_mut(qobject_idents.cpp_class.rust.as_str()),
        },
    );
    inputs.push(FnArg { ident: "value".to_owned(), ty: ty.clone() });
    let function = ForeignItemFn {
        attrs,
        unsafety: has_unsafe,
        ident: idents.setter.rust.clone(),
        inputs,
    };
    let ghost expected = setter_declaration(idents@, qobject_idents@, ty@);
    assert(function@ == expected.items[0]) by {
        assert(function@.attrs =~= expected.items[0].attrs);
        assert(function@.inputs =~= expected.items[0].inputs);
    }
    let mut items: Vec<ForeignItemFn> = Vec::new();
    items.push(function);
    let item = ItemForeignMod { abi: "Rust".to_owned(), items };
    assert(item@.items =~= expected.items);
    item
}

/// The method of the Rust struct that hands the value on to the C++
/// object.
fn generate_wrapper(idents: &QPropertyName, qobject_idents: &QObjectName, ty: &Type) -> (item:
    ItemImplFn)
    ensures
        item@ == setter_wrapper(idents@, qobject_idents@, ty@),
{
    let mut attrs: Vec<Attribute> = Vec::new();
    attrs.push(Attribute::DocHidden);
    let mut inputs: Vec<FnArg> = Vec::new();
    inputs.push(
        FnArg {
            ident: "cpp".to_owned(),
            ty: Type::pin_mut(qobject_idents.cpp_class.rust.as_str()),
        },
    );
    inputs.push(FnArg { ident: "value".to_owned(), ty: ty.clone() });
    let mut block: Vec<Stmt> = Vec::new();
    block.push(Stmt::ForwardToCpp { method: idents.setter.rust.clone() });
    let item = ItemImplFn {
        self_ty: qobject_idents.rust_struct.rust.clone(),
        attrs,
        ident: idents.setter.rust.clone(),
        receiver: Receiver::RefMut,
        inputs,
        block,
    };
    let ghost expected = setter_wrapper(idents@, qobject_idents@, ty@);
    assert(item@.attrs =~= expected.attrs);
    assert(item@.inputs =~= expected.inputs);
    assert(item@.block =~= expected.block);
    item
}

/// The setter of the C++ object as Rust sees it.
fn generate_mutator(idents: &QPropertyName, qobject_idents: &QObjectName, ty: &Type) -> (item:
    ItemImplFn)
    ensures
        item@ == setter_mutator(idents@, qobject_idents@, ty@),
{
    let mut attrs: Vec<Attribute> = Vec::new();
    attrs.push(Attribute::Doc("Setter for the Q_PROPERTY ".to_owned()));
    attrs.push(Attribute::Doc(idents.name.rust.clone()));
    let mut inputs: Vec<FnArg> = Vec::new();
    inputs.push(FnArg { ident: "value".to_owned(), ty: ty.clone() });
    let mut block: Vec<Stmt> = Vec::new();
    // don't want to set the value again and reemit the signal,
    // as this can cause binding loops
    block.push(Stmt::ReturnIfEqual { field: idents.name.rust.clone() });
    block.push(Stmt::UnsafeStore { field: idents.name.rust.clone() });
    block.push(Stmt::Notify { signal: idents.notify.rust.clone() });
    let item = ItemImplFn {
        self_ty: qobject_idents.cpp_class.rust.clone(),
        attrs,
        ident: idents.setter.rust.clone(),
        receiver: Receiver::PinMut,
        inputs,
        block,
    };
    let ghost expected = setter_mutator(idents@, qobject_idents@, ty@);
    assert(item@.attrs =~= expected.attrs);
    assert(item@.inputs =~= expected.inputs);
    assert(item@.block =~= expected.block);
    item
}

/// Generates the setter of a property of type `ty`: its declaration for
/// the bridge and the two methods that implement it.
pub fn generate(idents: &QPropertyName, qobject_idents: &QObjectName, ty: &Type) -> (fragments:
    RustFragmentPair)
    ensures
        fragments@ == setter_fragments(idents@, qobject_idents@, ty@),
        fragments.cxx_bridge.len() == 1,
        fragments.implementation.len() == 2,
        fragments@.is_complete(),
{
    let mut cxx_bridge: Vec<ItemForeignMod> = Vec::new();
    cxx_bridge.push(generate_declaration(idents, qobject_idents, ty));
    let mut implementation: Vec<ItemImplFn> = Vec::new();
    implementation.push(generate_wrapper(idents, qobject_idents, ty));
    implementation.push(generate_mutator(idents, qobject_idents, ty));
    let fragments = RustFragmentPair { cxx_bridge, implementation };
    let ghost expected = setter_fragments(idents@, qobject_idents@, ty@);
    assert(fragments@.cxx_bridge =~= expected.cxx_bridge);
    assert(fragments@.implementation =~= expected.implementation);
    proof {
        lemma_setter_fragments_complete(idents@, qobject_idents@, ty@);
    }
    fragments
}

} // verus!
