use cxx_qt_gen::generator::naming::property::QPropertyName;
use cxx_qt_gen::generator::naming::qobject::QObjectName;
use cxx_qt_gen::generator::naming::CombinedIdent;
use cxx_qt_gen::generator::rust::fragment::{ItemImplFn, Receiver, Stmt};
use cxx_qt_gen::generator::rust::property::{setter, signal};
use cxx_qt_gen::parser::signals::{ParsedSignal, SignalOrigin};
use cxx_qt_gen::syntax::item::{Attribute, FnArg, ForeignItemFn, ItemForeignMod};
use cxx_qt_gen::syntax::Type;

fn combined(cpp: &str, rust: &str) -> CombinedIdent {
    CombinedIdent {
        cpp: cpp.to_owned(),
        rust: rust.to_owned(),
    }
}

fn my_object() -> QObjectName {
    QObjectName {
        cpp_class: combined("MyObject", "MyObjectQt"),
        rust_struct: combined("MyObject", "MyObject"),
    }
}

fn arg(ident: &str, ty: Type) -> FnArg {
    FnArg {
        ident: ident.to_owned(),
        ty,
    }
}

fn i32_type() -> Type {
    Type::from_ident("i32")
}

#[test]
fn setter_of_number() {
    let fragments = setter::generate(
        &QPropertyName::from_ident("number"),
        &my_object(),
        &i32_type(),
    );

    assert_eq!(fragments.cxx_bridge.len(), 1);
    assert_eq!(
        fragments.cxx_bridge[0],
        ItemForeignMod {
            abi: "Rust".to_owned(),
            items: vec![ForeignItemFn {
                attrs: vec![Attribute::CxxName("setNumber".to_owned())],
                unsafety: false,
                ident: "set_number".to_owned(),
                inputs: vec![
                    arg(
                        "self",
                        Type::reference(true, Type::from_ident("MyObject"))
                    ),
                    arg(
                        "cpp",
                        Type::generic(
                            "Pin",
                            vec![Type::reference(true, Type::from_ident("MyObjectQt"))]
                        )
                    ),
                    arg("value", i32_type()),
                ],
            }],
        }
    );

    assert_eq!(fragments.implementation.len(), 2);
    assert_eq!(
        fragments.implementation[0],
        ItemImplFn {
            self_ty: "MyObject".to_owned(),
            attrs: vec![Attribute::DocHidden],
            ident: "set_number".to_owned(),
            receiver: Receiver::RefMut,
            inputs: vec![
                arg(
                    "cpp",
                    Type::generic(
                        "Pin",
                        vec![Type::reference(true, Type::from_ident("MyObjectQt"))]
                    )
                ),
                arg("value", i32_type()),
            ],
            block: vec![Stmt::ForwardToCpp {
                method: "set_number".to_owned()
            }],
        }
    );
    assert_eq!(
        fragments.implementation[1],
        ItemImplFn {
            self_ty: "MyObjectQt".to_owned(),
            attrs: vec![
                Attribute::Doc("Setter for the Q_PROPERTY ".to_owned()),
                Attribute::Doc("number".to_owned()),
            ],
            ident: "set_number".to_owned(),
            receiver: Receiver::PinMut,
            inputs: vec![arg("value", i32_type())],
            block: vec![
                Stmt::ReturnIfEqual {
                    field: "number".to_owned()
                },
                Stmt::UnsafeStore {
                    field: "number".to_owned()
                },
                Stmt::Notify {
                    signal: "number_changed".to_owned()
                },
            ],
        }
    );
}

#[test]
fn setter_takes_each_name_from_its_own_place() {
    let idents = QPropertyName {
        name: combined("nameCpp", "name_rust"),
        getter: combined("getterCpp", "getter_rust"),
        setter: combined("setterCpp", "setter_rust"),
        notify: combined("notifyCpp", "notify_rust"),
    };
    let qobject_idents = QObjectName {
        cpp_class: combined("ClassCpp", "ClassRust"),
        rust_struct: combined("StructCpp", "StructRust"),
    };
    let fragments = setter::generate(&idents, &qobject_idents, &Type::from_ident("T"));

    let declaration = &fragments.cxx_bridge[0].items[0];
    assert_eq!(
        declaration.attrs,
        vec![Attribute::CxxName("setterCpp".to_owned())]
    );
    assert_eq!(declaration.ident, "setter_rust");
    assert_eq!(
        declaration.inputs[0].ty,
        Type::reference(true, Type::from_ident("StructRust"))
    );
    assert_eq!(
        declaration.inputs[1].ty,
        Type::generic(
            "Pin",
            vec![Type::reference(true, Type::from_ident("ClassRust"))]
        )
    );

    let wrapper = &fragments.implementation[0];
    assert_eq!(wrapper.self_ty, "StructRust");
    assert_eq!(wrapper.ident, "setter_rust");
    assert_eq!(
        wrapper.block,
        vec![Stmt::ForwardToCpp {
            method: "setter_rust".to_owned()
        }]
    );

    let mutator = &fragments.implementation[1];
    assert_eq!(mutator.self_ty, "ClassRust");
    assert_eq!(mutator.ident, "setter_rust");
    assert_eq!(
        mutator.attrs,
        vec![
            Attribute::Doc("Setter for the Q_PROPERTY ".to_owned()),
            Attribute::Doc("name_rust".to_owned()),
        ]
    );
    assert_eq!(
        mutator.block,
        vec![
            Stmt::ReturnIfEqual {
                field: "name_rust".to_owned()
            },
            Stmt::UnsafeStore {
                field: "name_rust".to_owned()
            },
            Stmt::Notify {
                signal: "notify_rust".to_owned()
            },
        ]
    );
}

#[test]
fn setter_is_unsafe_for_an_unsafe_type() {
    let unsafe_types = vec![
        Type::ptr(true, Type::from_ident("T")),
        Type::reference(false, Type::ptr(false, Type::from_ident("T"))),
        Type::generic("Vector", vec![Type::ptr(true, Type::from_ident("T"))]),
    ];
    for ty in unsafe_types {
        let fragments = setter::generate(&QPropertyName::from_ident("number"), &my_object(), &ty);
        assert_eq!(fragments.cxx_bridge.len(), 1);
        assert_eq!(fragments.implementation.len(), 2);
        assert!(fragments.cxx_bridge[0].items[0].unsafety);
        assert_eq!(fragments.cxx_bridge[0].items[0].inputs[2].ty, ty);
        assert_eq!(fragments.implementation[0].inputs[1].ty, ty);
        assert_eq!(fragments.implementation[1].inputs[0].ty, ty);
        // the write to the field is marked whatever the type is
        assert!(matches!(
            fragments.implementation[1].block[1],
            Stmt::UnsafeStore { .. }
        ));
    }
    let safe_types = vec![
        Type::from_ident("i32"),
        Type::reference(false, Type::from_ident("QString")),
        Type::array(Type::ptr(true, Type::from_ident("T")), "2"),
    ];
    for ty in safe_types {
        let fragments = setter::generate(&QPropertyName::from_ident("number"), &my_object(), &ty);
        assert_eq!(fragments.cxx_bridge.len(), 1);
        assert_eq!(fragments.implementation.len(), 2);
        assert!(!fragments.cxx_bridge[0].items[0].unsafety);
        assert!(matches!(
            fragments.implementation[1].block[1],
            Stmt::UnsafeStore { .. }
        ));
    }
}

#[test]
fn notify_signal_of_number() {
    let signal = signal::generate(&QPropertyName::from_ident("number"), &my_object());
    assert_eq!(
        signal,
        ParsedSignal {
            method: ForeignItemFn {
                attrs: vec![Attribute::Doc("Notify for the Q_PROPERTY".to_owned())],
                unsafety: false,
                ident: "number_changed".to_owned(),
                inputs: vec![arg(
                    "self",
                    Type::generic(
                        "Pin",
                        vec![Type::reference(true, Type::from_ident("MyObjectQt"))]
                    )
                )],
            },
            qobject_ident: "MyObjectQt".to_owned(),
            mutable: true,
            safe: true,
            parameters: vec![],
            ident: combined("numberChanged", "number_changed"),
            inherit: false,
            origin: SignalOrigin::Property,
        }
    );
}

#[test]
fn signal_from_property_method() {
    let method = || ForeignItemFn {
        attrs: vec![],
        unsafety: false,
        ident: "ready".to_owned(),
        inputs: vec![],
    };
    let signal = ParsedSignal::from_property_method(
        method(),
        combined("readyCpp", "ready"),
        "Owner".to_owned(),
    );
    assert_eq!(signal.method, method());
    assert_eq!(signal.ident, combined("readyCpp", "ready"));
    assert_eq!(signal.qobject_ident, "Owner");
    assert!(signal.mutable);
    assert!(signal.safe);
    assert!(signal.parameters.is_empty());
    assert!(!signal.inherit);
    assert_eq!(signal.origin, SignalOrigin::Property);
    assert_ne!(signal.origin, SignalOrigin::Declared);
}
