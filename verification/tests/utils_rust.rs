use cxx_qt_gen::generator::utils::mappings::QualifiedMappings;
use cxx_qt_gen::generator::utils::rust::{
    syn_ident_cxx_bridge_to_qualified_impl, syn_type_cxx_bridge_to_qualified,
    syn_type_is_cxx_bridge_unsafe,
};
use cxx_qt_gen::syntax::{GenericArgument, Path, PathArguments, PathSegment, Type};

/// `T`
fn t() -> Type {
    Type::from_ident("T")
}

/// `*mut T`
fn mut_ptr_t() -> Type {
    Type::ptr(true, t())
}

/// `prefix::...::ident<types...>`, or without the angle brackets if there are no types.
fn qualified(prefix: &[&str], ident: &str, types: Vec<Type>) -> Type {
    let mut segments: Vec<PathSegment> =
        prefix.iter().map(|part| PathSegment::from_ident(part)).collect();
    let arguments = if types.is_empty() {
        PathArguments::Absent
    } else {
        PathArguments::AngleBracketed(types.into_iter().map(GenericArgument::Type).collect())
    };
    segments.push(PathSegment {
        ident: ident.to_owned(),
        arguments,
    });
    Type::Path {
        qself: None,
        path: Path {
            leading_colon: false,
            segments,
        },
    }
}

/// `ffi::B`
fn ffi_b() -> Path {
    Path {
        leading_colon: false,
        segments: vec![PathSegment::from_ident("ffi"), PathSegment::from_ident("B")],
    }
}

#[test]
fn test_syn_type_cxx_bridge_to_qualified_cxx() {
    let mappings = QualifiedMappings::default();
    assert_eq!(
        syn_type_cxx_bridge_to_qualified(&Type::from_ident("CxxString"), &mappings),
        qualified(&["cxx"], "CxxString", vec![])
    );
    assert_eq!(
        syn_type_cxx_bridge_to_qualified(&Type::generic("CxxVector", vec![t()]), &mappings),
        qualified(&["cxx"], "CxxVector", vec![t()])
    );
    assert_eq!(
        syn_type_cxx_bridge_to_qualified(&Type::generic("SharedPtr", vec![t()]), &mappings),
        qualified(&["cxx"], "SharedPtr", vec![t()])
    );
    assert_eq!(
        syn_type_cxx_bridge_to_qualified(&Type::generic("UniquePtr", vec![t()]), &mappings),
        qualified(&["cxx"], "UniquePtr", vec![t()])
    );
    assert_eq!(
        syn_type_cxx_bridge_to_qualified(&Type::generic("WeakPtr", vec![t()]), &mappings),
        qualified(&["cxx"], "WeakPtr", vec![t()])
    );
}

#[test]
fn test_syn_type_cxx_bridge_to_qualified_core() {
    assert_eq!(
        syn_type_cxx_bridge_to_qualified(
            &Type::generic("Pin", vec![Type::reference(true, t())]),
            &QualifiedMappings::default()
        ),
        qualified(&["core", "pin"], "Pin", vec![Type::reference(true, t())])
    );
}

#[test]
fn test_syn_type_cxx_bridge_to_qualified_array() {
    assert_eq!(
        syn_type_cxx_bridge_to_qualified(
            &Type::array(Type::generic("UniquePtr", vec![t()]), "1"),
            &QualifiedMappings::default()
        ),
        Type::array(qualified(&["cxx"], "UniquePtr", vec![t()]), "1")
    );
}

#[test]
fn test_syn_type_cxx_bridge_to_qualified_fn() {
    assert_eq!(
        syn_type_cxx_bridge_to_qualified(
            &Type::bare_fn(
                vec![Type::generic("UniquePtr", vec![t()])],
                Some(Type::generic("SharedPtr", vec![t()]))
            ),
            &QualifiedMappings::default()
        ),
        Type::bare_fn(
            vec![qualified(&["cxx"], "UniquePtr", vec![t()])],
            Some(qualified(&["cxx"], "SharedPtr", vec![t()]))
        )
    );
}

#[test]
fn test_syn_type_cxx_bridge_to_qualified_nested() {
    assert_eq!(
        syn_type_cxx_bridge_to_qualified(
            &Type::generic("Pin", vec![Type::generic("UniquePtr", vec![t()])]),
            &QualifiedMappings::default()
        ),
        qualified(
            &["core", "pin"],
            "Pin",
            vec![qualified(&["cxx"], "UniquePtr", vec![t()])]
        )
    );
}

#[test]
fn test_syn_type_cxx_bridge_to_qualified_ptr() {
    assert_eq!(
        syn_type_cxx_bridge_to_qualified(
            &Type::ptr(true, Type::generic("UniquePtr", vec![t()])),
            &QualifiedMappings::default()
        ),
        Type::ptr(true, qualified(&["cxx"], "UniquePtr", vec![t()]))
    );
}

#[test]
fn test_syn_type_cxx_bridge_to_qualified_reference() {
    let mappings = QualifiedMappings::default();
    assert_eq!(
        syn_type_cxx_bridge_to_qualified(
            &Type::reference(false, Type::generic("UniquePtr", vec![mut_ptr_t()])),
            &mappings
        ),
        Type::reference(false, qualified(&["cxx"], "UniquePtr", vec![mut_ptr_t()]))
    );
    assert_eq!(
        syn_type_cxx_bridge_to_qualified(
            &Type::reference(true, Type::generic("UniquePtr", vec![mut_ptr_t()])),
            &mappings
        ),
        Type::reference(true, qualified(&["cxx"], "UniquePtr", vec![mut_ptr_t()]))
    );
}

#[test]
fn test_syn_type_cxx_bridge_to_qualified_slice() {
    let mappings = QualifiedMappings::default();
    assert_eq!(
        syn_type_cxx_bridge_to_qualified(
            &Type::reference(false, Type::slice(Type::generic("UniquePtr", vec![t()]))),
            &mappings
        ),
        Type::reference(
            false,
            Type::slice(qualified(&["cxx"], "UniquePtr", vec![t()]))
        )
    );
    assert_eq!(
        syn_type_cxx_bridge_to_qualified(
            &Type::reference(true, Type::slice(Type::generic("UniquePtr", vec![t()]))),
            &mappings
        ),
        Type::reference(
            true,
            Type::slice(qualified(&["cxx"], "UniquePtr", vec![t()]))
        )
    );
}

#[test]
fn test_syn_type_cxx_bridge_to_qualified_tuple() {
    assert_eq!(
        syn_type_cxx_bridge_to_qualified(
            &Type::tuple(vec![Type::generic("UniquePtr", vec![t()])]),
            &QualifiedMappings::default()
        ),
        Type::tuple(vec![qualified(&["cxx"], "UniquePtr", vec![t()])])
    );
}

#[test]
fn test_syn_type_cxx_bridge_to_qualified_mapped() {
    let mut mappings = QualifiedMappings::default();
    mappings.insert("A".to_owned(), ffi_b());
    assert_eq!(
        syn_type_cxx_bridge_to_qualified(&Type::from_ident("A"), &mappings),
        Type::Path {
            qself: None,
            path: ffi_b()
        }
    );
}

#[test]
fn test_syn_ident_cxx_bridge_to_qualified_impl_mapped() {
    let mut mappings = QualifiedMappings::default();
    mappings.insert("A".to_owned(), ffi_b());
    assert_eq!(
        syn_ident_cxx_bridge_to_qualified_impl("A", &mappings),
        ffi_b()
    );
}

#[test]
fn test_syn_type_is_cxx_bridge_unsafe_path() {
    assert!(!syn_type_is_cxx_bridge_unsafe(&Type::from_ident("i32")));
}

#[test]
fn test_syn_type_is_cxx_bridge_unsafe_path_template() {
    assert!(!syn_type_is_cxx_bridge_unsafe(&Type::generic(
        "Vector",
        vec![Type::from_ident("i32")]
    )));
    assert!(syn_type_is_cxx_bridge_unsafe(&Type::generic(
        "Vector",
        vec![mut_ptr_t()]
    )));
}

#[test]
fn test_syn_type_is_cxx_bridge_unsafe_ptr() {
    assert!(syn_type_is_cxx_bridge_unsafe(&mut_ptr_t()));
}

#[test]
fn test_syn_type_is_cxx_bridge_unsafe_reference() {
    assert!(!syn_type_is_cxx_bridge_unsafe(&Type::reference(
        false,
        Type::from_ident("i32")
    )));
    assert!(syn_type_is_cxx_bridge_unsafe(&Type::reference(
        false,
        mut_ptr_t()
    )));
    assert!(!syn_type_is_cxx_bridge_unsafe(&Type::reference(
        false,
        Type::generic("Vector", vec![Type::from_ident("i32")])
    )));
    assert!(syn_type_is_cxx_bridge_unsafe(&Type::reference(
        false,
        Type::generic("Vector", vec![mut_ptr_t()])
    )));
}
