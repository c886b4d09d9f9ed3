use cxx_qt_gen::generator::utils::mappings::QualifiedMappings;
use cxx_qt_gen::generator::utils::rust::{
    syn_ident_cxx_bridge_to_qualified_impl, syn_ident_qualified_prefix,
    syn_type_cxx_bridge_to_qualified, syn_type_is_cxx_bridge_unsafe,
};
use cxx_qt_gen::syntax::{BareFnArg, GenericArgument, Path, PathArguments, PathSegment, QSelf, Type};

fn segment(ident: &str) -> PathSegment {
    PathSegment::from_ident(ident)
}

fn segment_with(ident: &str, args: Vec<GenericArgument>) -> PathSegment {
    PathSegment {
        ident: ident.to_owned(),
        arguments: PathArguments::AngleBracketed(args),
    }
}

fn path(leading_colon: bool, segments: Vec<PathSegment>) -> Path {
    Path {
        leading_colon,
        segments,
    }
}

fn path_type(path: Path) -> Type {
    Type::Path { qself: None, path }
}

fn unique_ptr_t() -> Type {
    Type::generic("UniquePtr", vec![Type::from_ident("T")])
}

fn cxx_unique_ptr_t() -> Type {
    path_type(path(
        false,
        vec![
            segment("cxx"),
            segment_with(
                "UniquePtr",
                vec![GenericArgument::Type(Type::from_ident("T"))],
            ),
        ],
    ))
}

fn mappings_a_to_ffi_b() -> QualifiedMappings {
    let mut mappings = QualifiedMappings::new();
    mappings.insert(
        "A".to_owned(),
        path(false, vec![segment("ffi"), segment("B")]),
    );
    mappings
}

#[test]
fn qualified_prefix_table() {
    for ident in ["CxxString", "CxxVector", "SharedPtr", "UniquePtr", "WeakPtr"] {
        assert_eq!(
            syn_ident_qualified_prefix(ident),
            Some(vec![segment("cxx")]),
            "{}",
            ident
        );
    }
    assert_eq!(
        syn_ident_qualified_prefix("Pin"),
        Some(vec![segment("core"), segment("pin")])
    );
    for ident in [
        "", "pin", "PIN", "Pin2", "Pi", "cxx", "core", "String", "Vec", "Box", "i32", "QString",
        "CxxStrin", "CxxStringg", "uniquePtr", "Weakptr", "MyObject",
    ] {
        assert_eq!(syn_ident_qualified_prefix(ident), None, "{}", ident);
    }
}

#[test]
fn qualified_puts_the_prefix_of_the_table_in_front() {
    for ident in ["CxxString", "CxxVector", "SharedPtr", "UniquePtr", "WeakPtr", "Pin"] {
        let mut segments = syn_ident_qualified_prefix(ident).unwrap();
        segments.push(segment(ident));
        assert_eq!(
            syn_type_cxx_bridge_to_qualified(&Type::from_ident(ident), &QualifiedMappings::new()),
            path_type(path(false, segments)),
            "{}",
            ident
        );
    }
}

#[test]
fn qualified_prefix_of_two_segments_is_inserted_as_two_segments() {
    let qualified =
        syn_type_cxx_bridge_to_qualified(&Type::from_ident("Pin"), &QualifiedMappings::new());
    match qualified {
        Type::Path { qself, path } => {
            assert_eq!(qself, None);
            assert!(!path.leading_colon);
            assert_eq!(path.segments.len(), 3);
            assert_eq!(path.segments[0], segment("core"));
            assert_eq!(path.segments[1], segment("pin"));
            assert_eq!(path.segments[2], segment("Pin"));
        }
        other => panic!("not a path: {:?}", other),
    }
}

#[test]
fn qualified_keeps_a_leading_colon() {
    assert_eq!(
        syn_type_cxx_bridge_to_qualified(
            &path_type(path(true, vec![segment("CxxString")])),
            &QualifiedMappings::new()
        ),
        path_type(path(true, vec![segment("cxx"), segment("CxxString")]))
    );
}

#[test]
fn qualified_looks_only_at_the_first_segment() {
    let input = path_type(path(false, vec![segment("other"), segment("UniquePtr")]));
    let expected = path_type(path(false, vec![segment("other"), segment("UniquePtr")]));
    assert_eq!(
        syn_type_cxx_bridge_to_qualified(&input, &QualifiedMappings::new()),
        expected
    );
    assert_eq!(
        syn_type_cxx_bridge_to_qualified(
            &path_type(path(false, vec![segment("Pin"), segment("Inner")])),
            &QualifiedMappings::new()
        ),
        path_type(path(
            false,
            vec![
                segment("core"),
                segment("pin"),
                segment("Pin"),
                segment("Inner")
            ]
        ))
    );
}

#[test]
fn qualified_converts_the_arguments_of_every_segment() {
    let input = path_type(path(
        false,
        vec![
            segment_with("outer", vec![GenericArgument::Type(unique_ptr_t())]),
            segment_with(
                "Inner",
                vec![
                    GenericArgument::Other("'a".to_owned()),
                    GenericArgument::Type(Type::from_ident("CxxString")),
                ],
            ),
        ],
    ));
    let expected = path_type(path(
        false,
        vec![
            segment_with("outer", vec![GenericArgument::Type(cxx_unique_ptr_t())]),
            segment_with(
                "Inner",
                vec![
                    GenericArgument::Other("'a".to_owned()),
                    GenericArgument::Type(path_type(path(
                        false,
                        vec![segment("cxx"), segment("CxxString")],
                    ))),
                ],
            ),
        ],
    ));
    assert_eq!(
        syn_type_cxx_bridge_to_qualified(&input, &QualifiedMappings::new()),
        expected
    );
}

#[test]
fn qualified_leaves_parenthesized_arguments_alone() {
    let input = path_type(path(
        false,
        vec![PathSegment {
            ident: "Fn".to_owned(),
            arguments: PathArguments::Parenthesized("(UniquePtr<T>) -> CxxString".to_owned()),
        }],
    ));
    let expected = path_type(path(
        false,
        vec![PathSegment {
            ident: "Fn".to_owned(),
            arguments: PathArguments::Parenthesized("(UniquePtr<T>) -> CxxString".to_owned()),
        }],
    ));
    assert_eq!(
        syn_type_cxx_bridge_to_qualified(&input, &QualifiedMappings::new()),
        expected
    );
}

#[test]
fn qualified_prefers_the_prefix_to_a_mapping() {
    let mut mappings = QualifiedMappings::new();
    mappings.insert(
        "UniquePtr".to_owned(),
        path(false, vec![segment("ffi"), segment("Mine")]),
    );
    assert_eq!(
        syn_type_cxx_bridge_to_qualified(&Type::from_ident("UniquePtr"), &mappings),
        path_type(path(false, vec![segment("cxx"), segment("UniquePtr")]))
    );
}

#[test]
fn qualified_maps_only_a_single_identifier() {
    let mappings = mappings_a_to_ffi_b();
    // two segments
    assert_eq!(
        syn_type_cxx_bridge_to_qualified(
            &path_type(path(false, vec![segment("A"), segment("C")])),
            &mappings
        ),
        path_type(path(false, vec![segment("A"), segment("C")]))
    );
    // a leading colon
    assert_eq!(
        syn_type_cxx_bridge_to_qualified(&path_type(path(true, vec![segment("A")])), &mappings),
        path_type(path(true, vec![segment("A")]))
    );
    // arguments
    assert_eq!(
        syn_type_cxx_bridge_to_qualified(
            &Type::generic("A", vec![Type::from_ident("T")]),
            &mappings
        ),
        Type::generic("A", vec![Type::from_ident("T")])
    );
    // empty angle brackets are arguments too
    assert_eq!(
        syn_type_cxx_bridge_to_qualified(&Type::generic("A", vec![]), &mappings),
        Type::generic("A", vec![])
    );
    // another identifier
    assert_eq!(
        syn_type_cxx_bridge_to_qualified(&Type::from_ident("B"), &mappings),
        Type::from_ident("B")
    );
}

#[test]
fn qualified_maps_an_identifier_inside_other_types() {
    let mappings = mappings_a_to_ffi_b();
    let mapped = || path_type(path(false, vec![segment("ffi"), segment("B")]));
    assert_eq!(
        syn_type_cxx_bridge_to_qualified(
            &Type::generic("Vec", vec![Type::reference(false, Type::from_ident("A"))]),
            &mappings
        ),
        Type::generic("Vec", vec![Type::reference(false, mapped())])
    );
    assert_eq!(
        syn_type_cxx_bridge_to_qualified(
            &Type::tuple(vec![Type::from_ident("A"), Type::from_ident("i32")]),
            &mappings
        ),
        Type::tuple(vec![mapped(), Type::from_ident("i32")])
    );
}

#[test]
fn qualified_of_an_empty_path_is_the_empty_path() {
    assert_eq!(
        syn_type_cxx_bridge_to_qualified(
            &path_type(path(false, vec![])),
            &mappings_a_to_ffi_b()
        ),
        path_type(path(false, vec![]))
    );
}

#[test]
fn qualified_leaves_other_types_unchanged() {
    assert_eq!(
        syn_type_cxx_bridge_to_qualified(
            &Type::Other("impl Into<UniquePtr<T>>".to_owned()),
            &QualifiedMappings::new()
        ),
        Type::Other("impl Into<UniquePtr<T>>".to_owned())
    );
}

#[test]
fn qualified_carries_along_what_it_does_not_read() {
    let input = Type::BareFn {
        lifetimes: Some("for<'a>".to_owned()),
        unsafety: true,
        abi: Some("extern \"C\"".to_owned()),
        inputs: vec![
            BareFnArg {
                name: Some("first".to_owned()),
                ty: Type::Reference {
                    lifetime: Some("'a".to_owned()),
                    mutable: false,
                    elem: Box::new(unique_ptr_t()),
                },
            },
            BareFnArg {
                name: None,
                ty: Type::ptr(false, Type::from_ident("CxxString")),
            },
        ],
        variadic: true,
        output: None,
    };
    let expected = Type::BareFn {
        lifetimes: Some("for<'a>".to_owned()),
        unsafety: true,
        abi: Some("extern \"C\"".to_owned()),
        inputs: vec![
            BareFnArg {
                name: Some("first".to_owned()),
                ty: Type::Reference {
                    lifetime: Some("'a".to_owned()),
                    mutable: false,
                    elem: Box::new(cxx_unique_ptr_t()),
                },
            },
            BareFnArg {
                name: None,
                ty: Type::ptr(
                    false,
                    path_type(path(false, vec![segment("cxx"), segment("CxxString")])),
                ),
            },
        ],
        variadic: true,
        output: None,
    };
    assert_eq!(
        syn_type_cxx_bridge_to_qualified(&input, &QualifiedMappings::new()),
        expected
    );

    let with_qself = Type::Path {
        qself: Some(QSelf {
            ty: "UniquePtr<T>".to_owned(),
            position: 1,
        }),
        path: path(
            false,
            vec![segment("Deref"), segment_with("Target", vec![GenericArgument::Type(unique_ptr_t())])],
        ),
    };
    let expected = Type::Path {
        qself: Some(QSelf {
            ty: "UniquePtr<T>".to_owned(),
            position: 1,
        }),
        path: path(
            false,
            vec![
                segment("Deref"),
                segment_with("Target", vec![GenericArgument::Type(cxx_unique_ptr_t())]),
            ],
        ),
    };
    assert_eq!(
        syn_type_cxx_bridge_to_qualified(&with_qself, &QualifiedMappings::new()),
        expected
    );
}

#[test]
fn qualified_does_not_change_its_input() {
    let input = Type::array(unique_ptr_t(), "4");
    let _ = syn_type_cxx_bridge_to_qualified(&input, &QualifiedMappings::new());
    assert_eq!(input, Type::array(unique_ptr_t(), "4"));
}

#[test]
fn qualified_twice_is_qualified_once() {
    let mappings = mappings_a_to_ffi_b();
    let inputs = vec![
        Type::from_ident("CxxString"),
        Type::from_ident("A"),
        Type::generic("Pin", vec![Type::reference(true, unique_ptr_t())]),
        Type::tuple(vec![Type::from_ident("A"), unique_ptr_t()]),
        Type::bare_fn(vec![unique_ptr_t()], Some(Type::from_ident("A"))),
        Type::array(Type::slice(Type::ptr(true, Type::from_ident("WeakPtr"))), "2"),
        Type::Other("!".to_owned()),
    ];
    for input in inputs {
        let once = syn_type_cxx_bridge_to_qualified(&input, &mappings);
        let twice = syn_type_cxx_bridge_to_qualified(&once, &mappings);
        assert_eq!(twice, once);
    }
}

#[test]
fn qualified_twice_differs_where_a_mapped_path_is_itself_mapped() {
    let mut mappings = QualifiedMappings::new();
    mappings.insert("A".to_owned(), Path::from_ident("B"));
    mappings.insert("B".to_owned(), Path::from_ident("C"));
    let once = syn_type_cxx_bridge_to_qualified(&Type::from_ident("A"), &mappings);
    assert_eq!(once, Type::from_ident("B"));
    let twice = syn_type_cxx_bridge_to_qualified(&once, &mappings);
    assert_eq!(twice, Type::from_ident("C"));
}

#[test]
fn qualified_keeps_the_shape() {
    let mappings = mappings_a_to_ffi_b();
    let qualified = syn_type_cxx_bridge_to_qualified(
        &Type::bare_fn(
            vec![
                Type::tuple(vec![Type::from_ident("A"), unique_ptr_t(), Type::from_ident("u8")]),
                Type::array(Type::from_ident("A"), "3"),
            ],
            None,
        ),
        &mappings,
    );
    match qualified {
        Type::BareFn { inputs, output, .. } => {
            assert_eq!(inputs.len(), 2);
            assert_eq!(output, None);
            match &inputs[0].ty {
                Type::Tuple { elems } => assert_eq!(elems.len(), 3),
                other => panic!("not a tuple: {:?}", other),
            }
            assert!(matches!(&inputs[1].ty, Type::Array { .. }));
        }
        other => panic!("not a function pointer: {:?}", other),
    }
    let with_output = syn_type_cxx_bridge_to_qualified(
        &Type::bare_fn(vec![], Some(Type::from_ident("A"))),
        &mappings,
    );
    match with_output {
        Type::BareFn { inputs, output, .. } => {
            assert_eq!(inputs.len(), 0);
            assert!(output.is_some());
        }
        other => panic!("not a function pointer: {:?}", other),
    }
}

#[test]
fn qualified_ident_without_a_mapping_is_the_ident() {
    assert_eq!(
        syn_ident_cxx_bridge_to_qualified_impl("MyObject", &mappings_a_to_ffi_b()),
        Path::from_ident("MyObject")
    );
    // the names that a bridge brings into scope are not resolved here
    assert_eq!(
        syn_ident_cxx_bridge_to_qualified_impl("UniquePtr", &QualifiedMappings::new()),
        Path::from_ident("UniquePtr")
    );
}

#[test]
fn unsafe_is_not_looked_for_in_other_shapes() {
    let ptr = || Type::ptr(true, Type::from_ident("T"));
    assert!(!syn_type_is_cxx_bridge_unsafe(&Type::array(ptr(), "1")));
    assert!(!syn_type_is_cxx_bridge_unsafe(&Type::slice(ptr())));
    assert!(!syn_type_is_cxx_bridge_unsafe(&Type::tuple(vec![ptr()])));
    assert!(!syn_type_is_cxx_bridge_unsafe(&Type::bare_fn(
        vec![ptr()],
        Some(ptr())
    )));
    assert!(!syn_type_is_cxx_bridge_unsafe(&Type::Other(
        "*mut T".to_owned()
    )));
    assert!(!syn_type_is_cxx_bridge_unsafe(&Type::reference(
        true,
        Type::slice(ptr())
    )));
    assert!(!syn_type_is_cxx_bridge_unsafe(&Type::generic(
        "Vector",
        vec![Type::tuple(vec![ptr()])]
    )));
}

#[test]
fn unsafe_is_any_pointer_whatever_it_points_to() {
    assert!(syn_type_is_cxx_bridge_unsafe(&Type::ptr(
        false,
        Type::from_ident("i32")
    )));
    assert!(syn_type_is_cxx_bridge_unsafe(&Type::ptr(
        true,
        Type::Other("!".to_owned())
    )));
}

#[test]
fn unsafe_is_found_in_any_argument_of_any_segment() {
    let ptr = || Type::ptr(true, Type::from_ident("T"));
    let nested = path_type(path(
        false,
        vec![
            segment("first"),
            segment_with(
                "Second",
                vec![
                    GenericArgument::Other("'a".to_owned()),
                    GenericArgument::Type(Type::from_ident("i32")),
                    GenericArgument::Type(Type::generic(
                        "Third",
                        vec![Type::reference(false, ptr())],
                    )),
                ],
            ),
        ],
    ));
    assert!(syn_type_is_cxx_bridge_unsafe(&nested));
    let first = path_type(path(
        false,
        vec![
            segment_with("First", vec![GenericArgument::Type(ptr())]),
            segment("Second"),
        ],
    ));
    assert!(syn_type_is_cxx_bridge_unsafe(&first));
}

#[test]
fn unsafe_is_not_found_among_arguments_that_are_no_types() {
    assert!(!syn_type_is_cxx_bridge_unsafe(&path_type(path(
        false,
        vec![segment_with(
            "Holder",
            vec![
                GenericArgument::Other("'a".to_owned()),
                GenericArgument::Other("{ 1 + 2 }".to_owned()),
            ]
        )]
    ))));
    assert!(!syn_type_is_cxx_bridge_unsafe(&path_type(path(
        false,
        vec![PathSegment {
            ident: "Fn".to_owned(),
            arguments: PathArguments::Parenthesized("(*mut T)".to_owned()),
        }]
    ))));
    assert!(!syn_type_is_cxx_bridge_unsafe(&path_type(path(false, vec![]))));
}

#[test]
fn path_get_ident() {
    assert_eq!(
        Path::from_ident("A").get_ident(),
        Some(&"A".to_owned())
    );
    assert_eq!(path(true, vec![segment("A")]).get_ident(), None);
    assert_eq!(path(false, vec![segment("A"), segment("B")]).get_ident(), None);
    assert_eq!(path(false, vec![]).get_ident(), None);
    assert_eq!(
        path(false, vec![segment_with("A", vec![])]).get_ident(),
        None
    );
    assert_eq!(
        path(
            false,
            vec![PathSegment {
                ident: "A".to_owned(),
                arguments: PathArguments::Parenthesized("()".to_owned())
            }]
        )
        .get_ident(),
        None
    );
}

#[test]
fn clone_is_equal() {
    let ty = Type::BareFn {
        lifetimes: Some("for<'a>".to_owned()),
        unsafety: true,
        abi: None,
        inputs: vec![BareFnArg {
            name: Some("x".to_owned()),
            ty: Type::Path {
                qself: Some(QSelf {
                    ty: "T".to_owned(),
                    position: 0,
                }),
                path: path(
                    true,
                    vec![segment_with(
                        "A",
                        vec![
                            GenericArgument::Other("'a".to_owned()),
                            GenericArgument::Type(Type::tuple(vec![
                                Type::array(Type::slice(Type::from_ident("u8")), "N"),
                                Type::Other("_".to_owned()),
                            ])),
                        ],
                    )],
                ),
            },
        }],
        variadic: false,
        output: Some(Box::new(Type::Reference {
            lifetime: Some("'a".to_owned()),
            mutable: true,
            elem: Box::new(Type::ptr(false, Type::from_ident("T"))),
        })),
    };
    assert_eq!(ty.clone(), ty);
}
