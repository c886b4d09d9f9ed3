//! Qualification of the types of a bridge declaration for use outside of
//! it, and the test whether a type needs an `unsafe` declaration.

use crate::generator::utils::mappings::QualifiedMappings;
use crate::syntax::{
    clone_text, segment_views, BareFnArg, BareFnArgView, GenericArgument, GenericArgumentView,
    Path, PathArguments, PathArgumentsView, PathSegment, PathSegmentView, PathView, Type,
    TypeView,
};
use crate::text::str_eq;
use vstd::prelude::*;

verus! {

/// The module path under which the type named `ident` is found outside of a
/// bridge, for the names that a bridge brings into scope by itself.
///
/// Primitive types and the types of the standard prelude need no prefix.
pub open spec fn qualified_prefix(ident: Seq<char>) -> Option<Seq<Seq<char>>> {
    if ident == "CxxString"@ || ident == "CxxVector"@ || ident == "SharedPtr"@ || ident
        == "UniquePtr"@ || ident == "WeakPtr"@ {
        Some(seq!["cxx"@])
    } else if ident == "Pin"@ {
        Some(seq!["core"@, "pin"@])
    } else {
        None
    }
}

/// The segments that spell out a module path.
pub open spec fn prefix_segments(prefix: Seq<Seq<char>>) -> Seq<PathSegmentView> {
    Seq::new(prefix.len(), |i: int| PathSegmentView::from_ident(prefix[i]))
}

/// The path that `ident` stands for: the one it is mapped to, or else the
/// identifier itself.
pub open spec fn qualified_ident(ident: Seq<char>, mappings: Map<Seq<char>, PathView>) -> PathView {
    if mappings.contains_key(ident) {
        mappings[ident]
    } else {
        PathView::from_ident(ident)
    }
}

/// A generic argument with its type, if it is one, qualified.
pub open spec fn qualified_argument(
    argument: GenericArgumentView,
    mappings: Map<Seq<char>, PathView>,
) -> GenericArgumentView
    decreases argument,
{
    match argument {
        GenericArgumentView::Type(ty) => GenericArgumentView::Type(qualified_type(ty, mappings)),
        GenericArgumentView::Other(_) => argument,
    }
}

/// The arguments of a segment with each type between angle brackets
/// qualified.
pub open spec fn qualified_arguments(
    arguments: PathArgumentsView,
    mappings: Map<Seq<char>, PathView>,
) -> PathArgumentsView
    decreases arguments,
{
    match arguments {
        PathArgumentsView::AngleBracketed(args) => PathArgumentsView::AngleBracketed(
            Seq::new(
                args.len(),
                |i: int|
                    if 0 <= i < args.len() {
                        qualified_argument(args[i], mappings)
                    } else {
                        arbitrary()
                    },
            ),
        ),
        _ => arguments,
    }
}

/// A segment with the types among its arguments qualified.
pub open spec fn qualified_segment(
    segment: PathSegmentView,
    mappings: Map<Seq<char>, PathView>,
) -> PathSegmentView
    decreases segment,
{
    PathSegmentView {
        ident: segment.ident,
        arguments: qualified_arguments(segment.arguments, mappings),
    }
}

/// A path with the types among the generic arguments of every segment
/// qualified.
pub open spec fn qualified_segments(path: PathView, mappings: Map<Seq<char>, PathView>) -> PathView
    decreases path, 0nat,
{
    PathView {
        leading_colon: path.leading_colon,
        segments: Seq::new(
            path.segments.len(),
            |i: int|
                if 0 <= i < path.segments.len() {
                    qualified_segment(path.segments[i], mappings)
                } else {
                    arbitrary()
                },
        ),
    }
}

/// The qualified form of a path.
///
/// The types among the generic arguments of every segment are qualified.
/// Then, if the first segment names a type that a bridge brings into scope,
/// its module path is put in front of the segments.  Otherwise, if the path
/// is a single identifier, it is replaced by what the identifier is mapped
/// to.
pub open spec fn qualified_path(path: PathView, mappings: Map<Seq<char>, PathView>) -> PathView
    decreases path, 1nat,
{
    let converted = qualified_segments(path, mappings);
    if converted.segments.len() == 0 {
        converted
    } else {
        match qualified_prefix(converted.segments[0].ident) {
            Some(prefix) => PathView {
                leading_colon: converted.leading_colon,
                segments: prefix_segments(prefix) + converted.segments,
            },
            None => match converted.get_ident() {
                Some(ident) => qualified_ident(ident, mappings),
                None => converted,
            },
        }
    }
}

/// The qualified form of a type: the same tree with every path in an
/// array, function pointer, path, pointer, reference, slice or tuple
/// qualified.  A type of any other shape is left as it is.
pub open spec fn qualified_type(ty: TypeView, mappings: Map<Seq<char>, PathView>) -> TypeView
    decreases ty,
{
    match ty {
        TypeView::Array { elem, len } => TypeView::Array {
            elem: Box::new(qualified_type(*elem, mappings)),
            len,
        },
        TypeView::BareFn { lifetimes, unsafety, abi, inputs, variadic, output } => TypeView::BareFn {
            lifetimes,
            unsafety,
            abi,
            inputs: Seq::new(
                inputs.len(),
                |i: int|
                    if 0 <= i < inputs.len() {
                        BareFnArgView {
                            name: inputs[i].name,
                            ty: qualified_type(inputs[i].ty, mappings),
                        }
                    } else {
                        arbitrary()
                    },
            ),
            variadic,
            output: match output {
                Some(ty) => Some(Box::new(qualified_type(*ty, mappings))),
                None => None,
            },
        },
        TypeView::Path { qself, path } => TypeView::Path {
            qself,
            path: qualified_path(path, mappings),
        },
        TypeView::Ptr { mutable, elem } => TypeView::Ptr {
            mutable,
            elem: Box::new(qualified_type(*elem, mappings)),
        },
        TypeView::Reference { lifetime, mutable, elem } => TypeView::Reference {
            lifetime,
            mutable,
            elem: Box::new(qualified_type(*elem, mappings)),
        },
        TypeView::Slice { elem } => TypeView::Slice {
            elem: Box::new(qualified_type(*elem, mappings)),
        },
        TypeView::Tuple { elems } => TypeView::Tuple {
            elems: Seq::new(
                elems.len(),
                |i: int|
                    if 0 <= i < elems.len() {
                        qualified_type(elems[i], mappings)
                    } else {
                        arbitrary()
                    },
            ),
        },
        TypeView::Other(_) => ty,
    }
}

/// Whether two types have the same shape: the same kind of type at every
/// place, as many elements in every tuple, and as many parameters and a
/// return type or none in every function pointer.  Of two paths nothing
/// more is asked.
pub open spec fn same_shape(a: TypeView, b: TypeView) -> bool
    decreases a,
{
    match a {
        TypeView::Array { elem, .. } => b is Array && same_shape(*elem, *b->Array_elem),
        TypeView::BareFn { inputs, output, .. } => {
            &&& b is BareFn
            &&& b->BareFn_inputs.len() == inputs.len()
            &&& forall|i: int|
                0 <= i < inputs.len() ==> same_shape(
                    (#[trigger] inputs[i]).ty,
                    b->BareFn_inputs[i].ty,
                )
            &&& match output {
                Some(ty) => b->BareFn_output is Some && same_shape(
                    *ty,
                    *b->BareFn_output.unwrap(),
                ),
                None => b->BareFn_output is None,
            }
        },
        TypeView::Path { .. } => b is Path,
        TypeView::Ptr { elem, .. } => b is Ptr && same_shape(*elem, *b->Ptr_elem),
        TypeView::Reference { elem, .. } => b is Reference && same_shape(
            *elem,
            *b->Reference_elem,
        ),
        TypeView::Slice { elem } => b is Slice && same_shape(*elem, *b->Slice_elem),
        TypeView::Tuple { elems } => {
            &&& b is Tuple
            &&& b->Tuple_elems.len() == elems.len()
            &&& forall|i: int|
                0 <= i < elems.len() ==> same_shape(#[trigger] elems[i], b->Tuple_elems[i])
        },
        TypeView::Other(_) => b is Other,
    }
}

/// Qualification keeps the shape of a type.
pub proof fn lemma_qualified_type_same_shape(ty: TypeView, mappings: Map<Seq<char>, PathView>)
    ensures
        same_shape(ty, qualified_type(ty, mappings)),
    decreases ty,
{
    let qualified = qualified_type(ty, mappings);
    match ty {
        TypeView::Array { elem, .. } => {
            lemma_qualified_type_same_shape(*elem, mappings);
        },
        TypeView::BareFn { inputs, output, .. } => {
            assert forall|i: int| 0 <= i < inputs.len() implies same_shape(
                (#[trigger] inputs[i]).ty,
                qualified->BareFn_inputs[i].ty,
            ) by {
                lemma_qualified_type_same_shape(inputs[i].ty, mappings);
            }
            match output {
                Some(ty) => {
                    lemma_qualified_type_same_shape(*ty, mappings);
                },
                None => {},
            }
        },
        TypeView::Path { .. } => {},
        TypeView::Ptr { elem, .. } => {
            lemma_qualified_type_same_shape(*elem, mappings);
        },
        TypeView::Reference { elem, .. } => {
            lemma_qualified_type_same_shape(*elem, mappings);
        },
        TypeView::Slice { elem } => {
            lemma_qualified_type_same_shape(*elem, mappings);
        },
        TypeView::Tuple { elems } => {
            assert forall|i: int| 0 <= i < elems.len() implies same_shape(
                #[trigger] elems[i],
                qualified->Tuple_elems[i],
            ) by {
                lemma_qualified_type_same_shape(elems[i], mappings);
            }
        },
        TypeView::Other(_) => {},
    }
}

/// Whether every path that an identifier is mapped to is in qualified form
/// already, so that qualifying it changes nothing.  Identifiers that a
/// bridge brings into scope are left out: they are never looked up.
pub open spec fn mappings_are_qualified(mappings: Map<Seq<char>, PathView>) -> bool {
    forall|ident: Seq<char>|
        #![trigger mappings[ident]]
        mappings.contains_key(ident) && qualified_prefix(ident) is None ==> qualified_path(
            mappings[ident],
            mappings,
        ) == mappings[ident]
}

/// No module path of the table starts with a name that is itself in the
/// table.
proof fn lemma_prefix_is_qualified(ident: Seq<char>)
    ensures
        match qualified_prefix(ident) {
            Some(prefix) => prefix.len() > 0 && qualified_prefix(prefix[0]) is None,
            None => true,
        },
{
    reveal_strlit("CxxString");
    reveal_strlit("CxxVector");
    reveal_strlit("SharedPtr");
    reveal_strlit("UniquePtr");
    reveal_strlit("WeakPtr");
    reveal_strlit("Pin");
    reveal_strlit("cxx");
    reveal_strlit("core");
    assert("cxx"@.len() == 3 && "core"@.len() == 4);
    assert("CxxString"@.len() == 9 && "CxxVector"@.len() == 9 && "SharedPtr"@.len() == 9);
    assert("UniquePtr"@.len() == 9 && "WeakPtr"@.len() == 7 && "Pin"@.len() == 3);
    assert("cxx"@[0] == 'c' && "Pin"@[0] == 'P');
}

/// A generic argument that was qualified is left as it is when qualified
/// again.
proof fn lemma_qualified_argument_idempotent(
    argument: GenericArgumentView,
    mappings: Map<Seq<char>, PathView>,
)
    requires
        mappings_are_qualified(mappings),
    ensures
        qualified_argument(qualified_argument(argument, mappings), mappings) == qualified_argument(
            argument,
            mappings,
        ),
    decreases argument,
{
    match argument {
        GenericArgumentView::Type(ty) => {
            lemma_qualified_type_idempotent(ty, mappings);
        },
        GenericArgumentView::Other(_) => {},
    }
}

/// The arguments of a segment that were qualified are left as they are
/// when qualified again.
proof fn lemma_qualified_arguments_idempotent(
    arguments: PathArgumentsView,
    mappings: Map<Seq<char>, PathView>,
)
    requires
        mappings_are_qualified(mappings),
    ensures
        qualified_arguments(qualified_arguments(arguments, mappings), mappings)
            == qualified_arguments(arguments, mappings),
    decreases arguments,
{
    match arguments {
        PathArgumentsView::AngleBracketed(args) => {
            let once = qualified_arguments(arguments, mappings)->AngleBracketed_0;
            let twice = qualified_arguments(
                qualified_arguments(arguments, mappings),
                mappings,
            )->AngleBracketed_0;
            assert forall|i: int| 0 <= i < args.len() implies twice[i] == once[i] by {
                lemma_qualified_argument_idempotent(args[i], mappings);
            }
            assert(twice =~= once);
        },
        _ => {},
    }
}

/// The segments of a path, once their arguments were qualified, are left
/// as they are when qualified again.
proof fn lemma_qualified_segments_idempotent(path: PathView, mappings: Map<Seq<char>, PathView>)
    requires
        mappings_are_qualified(mappings),
    ensures
        qualified_segments(qualified_segments(path, mappings), mappings) == qualified_segments(
            path,
            mappings,
        ),
    decreases path, 0nat,
{
    let once = qualified_segments(path, mappings);
    let twice = qualified_segments(once, mappings);
    assert forall|i: int| 0 <= i < path.segments.len() implies twice.segments[i]
        == once.segments[i] by {
        lemma_qualified_arguments_idempotent(path.segments[i].arguments, mappings);
    }
    assert(twice.segments =~= once.segments);
}

/// A path that was qualified is left as it is when qualified again,
/// provided that the paths mapped to are.
proof fn lemma_qualified_path_idempotent(path: PathView, mappings: Map<Seq<char>, PathView>)
    requires
        mappings_are_qualified(mappings),
    ensures
        qualified_path(qualified_path(path, mappings), mappings) == qualified_path(path, mappings),
    decreases path, 1nat,
{
    let converted = qualified_segments(path, mappings);
    lemma_qualified_segments_idempotent(path, mappings);
    let once = qualified_path(path, mappings);
    if converted.segments.len() == 0 {
    } else {
        let first = converted.segments[0].ident;
        match qualified_prefix(first) {
            Some(prefix) => {
                lemma_prefix_is_qualified(first);
                let again = qualified_segments(once, mappings);
                assert forall|i: int| 0 <= i < once.segments.len() implies again.segments[i]
                    == once.segments[i] by {
                    if i >= prefix.len() {
                        assert(once.segments[i] == converted.segments[i - prefix.len()]);
                        assert(qualified_segments(converted, mappings).segments[i - prefix.len()]
                            == qualified_segment(converted.segments[i - prefix.len()], mappings));
                    }
                }
                assert(again.segments =~= once.segments);
                assert(once.segments[0].ident == prefix[0]);
                assert(once.segments.len() >= 2);
            },
            None => {
                match converted.get_ident() {
                    Some(ident) => {
                        if mappings.contains_key(ident) {
                            assert(once == mappings[ident]);
                        } else {
                            let again = qualified_segments(once, mappings);
                            assert(again.segments =~= once.segments);
                        }
                    },
                    None => {},
                }
            },
        }
    }
}

/// Qualifying a type that was qualified already changes nothing, provided
/// that the paths that identifiers are mapped to are themselves in
/// qualified form.
pub proof fn lemma_qualified_type_idempotent(ty: TypeView, mappings: Map<Seq<char>, PathView>)
    requires
        mappings_are_qualified(mappings),
    ensures
        qualified_type(qualified_type(ty, mappings), mappings) == qualified_type(ty, mappings),
    decreases ty,
{
    let once = qualified_type(ty, mappings);
    let twice = qualified_type(once, mappings);
    match ty {
        TypeView::Array { elem, .. } => {
            lemma_qualified_type_idempotent(*elem, mappings);
        },
        TypeView::BareFn { inputs, output, .. } => {
            assert forall|i: int| 0 <= i < inputs.len() implies twice->BareFn_inputs[i]
                == once->BareFn_inputs[i] by {
                lemma_qualified_type_idempotent(inputs[i].ty, mappings);
            }
            assert(twice->BareFn_inputs =~= once->BareFn_inputs);
            match output {
                Some(ty) => {
                    lemma_qualified_type_idempotent(*ty, mappings);
                },
                None => {},
            }
        },
        TypeView::Path { path, .. } => {
            lemma_qualified_path_idempotent(path, mappings);
        },
        TypeView::Ptr { elem, .. } => {
            lemma_qualified_type_idempotent(*elem, mappings);
        },
        TypeView::Reference { elem, .. } => {
            lemma_qualified_type_idempotent(*elem, mappings);
        },
        TypeView::Slice { elem } => {
            lemma_qualified_type_idempotent(*elem, mappings);
        },
        TypeView::Tuple { elems } => {
            assert forall|i: int| 0 <= i < elems.len() implies twice->Tuple_elems[i]
                == once->Tuple_elems[i] by {
                lemma_qualified_type_idempotent(elems[i], mappings);
            }
            assert(twice->Tuple_elems =~= once->Tuple_elems);
        },
        TypeView::Other(_) => {},
    }
}

/// Return a qualified version of the ident that can be used for `impl T`
/// outside of a bridge.
///
/// Eg `MyObject` -> `ffi::MyObject`
///
/// Note that this does not handle the types that a bridge brings into scope,
/// such as `UniquePtr` -> `cxx::UniquePtr`.  This is just for resolving
/// `impl T {}` -> `impl module::T {}`.
pub fn syn_ident_cxx_bridge_to_qualified_impl(
    ident: &str,
    qualified_mappings: &QualifiedMappings,
) -> (qualified: Path)
    ensures
        qualified@ == qualified_ident(ident@, qualified_mappings@),
{
    match qualified_mappings.get(ident) {
        Some(qualified_path) => qualified_path.clone(),
        None => Path::from_ident(ident),
    }
}

/// The segments of the module path under which the type named `ident` is
/// found outside of a bridge, if a bridge brings that name into scope.
///
/// Note we need to fully qualify any types that a bridge supports that
/// aren't primitive types or types of the standard prelude.
pub fn syn_ident_qualified_prefix(ident: &str) -> (prefix: Option<Vec<PathSegment>>)
    ensures
        match prefix {
            Some(segments) => qualified_prefix(ident@) is Some && segment_views(segments@)
                == prefix_segments(qualified_prefix(ident@).unwrap()),
            None => qualified_prefix(ident@) is None,
        },
{
    if str_eq(ident, "CxxString") || str_eq(ident, "CxxVector") || str_eq(ident, "SharedPtr")
        || str_eq(ident, "UniquePtr") || str_eq(ident, "WeakPtr") {
        let mut segments: Vec<PathSegment> = Vec::new();
        segments.push(PathSegment::from_ident("cxx"));
        assert(segment_views(segments@) =~= prefix_segments(seq!["cxx"@]));
        Some(segments)
    } else if str_eq(ident, "Pin") {
        let mut segments: Vec<PathSegment> = Vec::new();
        segments.push(PathSegment::from_ident("core"));
        segments.push(PathSegment::from_ident("pin"));
        assert(segment_views(segments@) =~= prefix_segments(seq!["core"@, "pin"@]));
        Some(segments)
    } else {
        None
    }
}

/// The arguments of a segment with each type between angle brackets
/// qualified.
fn syn_path_arguments_cxx_bridge_to_qualified(
    arguments: &PathArguments,
    qualified_mappings: &QualifiedMappings,
) -> (qualified: PathArguments)
    ensures
        qualified@ == qualified_arguments(arguments@, qualified_mappings@),
    decreases arguments,
{
    match arguments {
        PathArguments::AngleBracketed(args) => {
            let mut converted: Vec<GenericArgument> = Vec::new();
            let mut i: usize = 0;
            while i < args.len()
                invariant
                    arguments is AngleBracketed && arguments->AngleBracketed_0 == *args,
                    i <= args.len(),
                    converted.len() == i,
                    forall|j: int|
                        0 <= j < i ==> converted[j]@ == qualified_argument(
                            args[j]@,
                            qualified_mappings@,
                        ),
                decreases args.len() - i,
            {
                let argument = match &args[i] {
                    GenericArgument::Type(ty) => GenericArgument::Type(
                        syn_type_cxx_bridge_to_qualified(ty, qualified_mappings),
                    ),
                    GenericArgument::Other(text) => GenericArgument::Other(text.clone()),
                };
                converted.push(argument);
                i += 1;
            }
            let qualified = PathArguments::AngleBracketed(converted);
            assert(qualified@->AngleBracketed_0 =~= qualified_arguments(
                arguments@,
                qualified_mappings@,
            )->AngleBracketed_0);
            qualified
        },
        _ => arguments.clone(),
    }
}

/// The qualified form of a path.
fn syn_path_cxx_bridge_to_qualified(path: &Path, qualified_mappings: &QualifiedMappings) -> (qualified:
    Path)
    ensures
        qualified@ == qualified_path(path@, qualified_mappings@),
    decreases path,
{
    // Convert any generic arguments
    let mut segments: Vec<PathSegment> = Vec::new();
    let mut i: usize = 0;
    while i < path.segments.len()
        invariant
            i <= path.segments.len(),
            segments.len() == i,
            forall|j: int|
                0 <= j < i ==> segments[j]@ == qualified_segment(
                    path.segments[j]@,
                    qualified_mappings@,
                ),
        decreases path.segments.len() - i,
    {
        let segment = &path.segments[i];
        segments.push(
            PathSegment {
                ident: segment.ident.clone(),
                arguments: syn_path_arguments_cxx_bridge_to_qualified(
                    &segment.arguments,
                    qualified_mappings,
                ),
            },
        );
        i += 1;
    }
    let ghost converted = qualified_segments(path@, qualified_mappings@);
    assert(segment_views(segments@) =~= converted.segments);

    // Inject the qualified prefix into the path if the first element has one
    if segments.len() > 0 {
        if let Some(prefix) = syn_ident_qualified_prefix(segments[0].ident.as_str()) {
            let mut prefixed = prefix;
            prefixed.append(&mut segments);
            let qualified = Path { leading_colon: path.leading_colon, segments: prefixed };
            assert(qualified@.segments =~= prefix_segments(
                qualified_prefix(converted.segments[0].ident).unwrap(),
            ) + converted.segments);
            return qualified;
        }
    }
    // If the path matches a known ident then use the qualified mapping

    let unprefixed = Path { leading_colon: path.leading_colon, segments };
    assert(unprefixed@.segments =~= converted.segments);
    match unprefixed.get_ident() {
        Some(ident) => syn_ident_cxx_bridge_to_qualified_impl(ident.as_str(), qualified_mappings),
        None => unprefixed,
    }
}

/// Return a qualified version of the type that can be used outside of a
/// bridge.
///
/// Eg `Pin` -> `core::pin::Pin` or `UniquePtr` -> `cxx::UniquePtr`
///
/// And also resolves any qualified mappings
///
/// Eg `MyObject` -> `ffi::MyObject`
pub fn syn_type_cxx_bridge_to_qualified(ty: &Type, qualified_mappings: &QualifiedMappings) -> (qualified:
    Type)
    ensures
        qualified@ == qualified_type(ty@, qualified_mappings@),
        same_shape(ty@, qualified@),
    decreases ty,
{
    proof {
        lemma_qualified_type_same_shape(ty@, qualified_mappings@);
    }
    match ty {
        Type::Array { elem, len } => Type::Array {
            elem: Box::new(syn_type_cxx_bridge_to_qualified(&**elem, qualified_mappings)),
            len: len.clone(),
        },
        Type::BareFn { lifetimes, unsafety, abi, inputs, variadic, output } => {
            let mut converted: Vec<BareFnArg> = Vec::new();
            let mut i: usize = 0;
            while i < inputs.len()
                invariant
                    ty is BareFn && ty->BareFn_inputs == *inputs,
                    i <= inputs.len(),
                    converted.len() == i,
                    forall|j: int|
                        0 <= j < i ==> converted[j]@ == (BareFnArgView {
                            name: inputs[j]@.name,
                            ty: qualified_type(inputs[j]@.ty, qualified_mappings@),
                        }),
                decreases inputs.len() - i,
            {
                converted.push(
                    BareFnArg {
                        name: clone_text(&inputs[i].name),
                        ty: syn_type_cxx_bridge_to_qualified(&inputs[i].ty, qualified_mappings),
                    },
                );
                i += 1;
            }
            let qualified = Type::BareFn {
                lifetimes: clone_text(lifetimes),
                unsafety: *unsafety,
                abi: clone_text(abi),
                inputs: converted,
                variadic: *variadic,
                output: match output {
                    Some(ty) => Some(
                        Box::new(syn_type_cxx_bridge_to_qualified(&**ty, qualified_mappings)),
                    ),
                    None => None,
                },
            };
            assert(qualified@->BareFn_inputs =~= qualified_type(
                ty@,
                qualified_mappings@,
            )->BareFn_inputs);
            qualified
        },
        Type::Path { qself, path } => Type::Path {
            qself: match qself {
                Some(qself) => Some(qself.clone()),
                None => None,
            },
            path: syn_path_cxx_bridge_to_qualified(path, qualified_mappings),
        },
        Type::Ptr { mutable, elem } => Type::Ptr {
            mutable: *mutable,
            elem: Box::new(syn_type_cxx_bridge_to_qualified(&**elem, qualified_mappings)),
        },
        Type::Reference { lifetime, mutable, elem } => Type::Reference {
            lifetime: clone_text(lifetime),
            mutable: *mutable,
            elem: Box::new(syn_type_cxx_bridge_to_qualified(&**elem, qualified_mappings)),
        },
        Type::Slice { elem } => Type::Slice {
            elem: Box::new(syn_type_cxx_bridge_to_qualified(&**elem, qualified_mappings)),
        },
        Type::Tuple { elems } => {
            let mut converted: Vec<Type> = Vec::new();
            let mut i: usize = 0;
            while i < elems.len()
                invariant
                    ty is Tuple && ty->Tuple_elems == *elems,
                    i <= elems.len(),
                    converted.len() == i,
                    forall|j: int|
                        0 <= j < i ==> converted[j]@ == qualified_type(
                            elems[j]@,
                            qualified_mappings@,
                        ),
                decreases elems.len() - i,
            {
                converted.push(syn_type_cxx_bridge_to_qualified(&elems[i], qualified_mappings));
                i += 1;
            }
            let qualified = Type::Tuple { elems: converted };
            assert(qualified@->Tuple_elems =~= qualified_type(
                ty@,
                qualified_mappings@,
            )->Tuple_elems);
            qualified
        },
        Type::Other(_) => ty.clone(),
    }
}

/// Whether a generic argument is a type that needs an `unsafe` declaration.
pub open spec fn argument_is_cxx_bridge_unsafe(argument: GenericArgumentView) -> bool
    decreases argument,
{
    match argument {
        GenericArgumentView::Type(ty) => type_is_cxx_bridge_unsafe(ty),
        GenericArgumentView::Other(_) => false,
    }
}

/// Whether any type between the angle brackets of a segment needs an
/// `unsafe` declaration.
pub open spec fn arguments_are_cxx_bridge_unsafe(arguments: PathArgumentsView) -> bool
    decreases arguments,
{
    match arguments {
        PathArgumentsView::AngleBracketed(args) => exists|i: int|
            0 <= i < args.len() && argument_is_cxx_bridge_unsafe(#[trigger] args[i]),
        _ => false,
    }
}

/// Whether a type needs an `unsafe` declaration to cross a bridge.
///
/// A raw pointer does, whatever it points to.  A reference does if what it
/// refers to does.  A path does if a type among the generic arguments of
/// one of its segments does.  No type of any other shape does, whatever
/// it contains.
pub open spec fn type_is_cxx_bridge_unsafe(ty: TypeView) -> bool
    decreases ty,
{
    match ty {
        TypeView::Path { path, .. } => exists|i: int|
            0 <= i < path.segments.len() && arguments_are_cxx_bridge_unsafe(
                (#[trigger] path.segments[i]).arguments,
            ),
        TypeView::Ptr { .. } => true,
        TypeView::Reference { elem, .. } => type_is_cxx_bridge_unsafe(*elem),
        _ => false,
    }
}

/// Whether a generic argument is a type that is unsafe for bridges.
fn syn_generic_argument_is_cxx_bridge_unsafe(argument: &GenericArgument) -> (is_unsafe: bool)
    ensures
        is_unsafe == argument_is_cxx_bridge_unsafe(argument@),
    decreases argument,
{
    match argument {
        GenericArgument::Type(ty) => syn_type_is_cxx_bridge_unsafe(ty),
        GenericArgument::Other(_) => false,
    }
}

/// Whether any type between the angle brackets of a segment is unsafe for
/// bridges.
fn syn_path_arguments_are_cxx_bridge_unsafe(arguments: &PathArguments) -> (is_unsafe: bool)
    ensures
        is_unsafe == arguments_are_cxx_bridge_unsafe(arguments@),
    decreases arguments,
{
    match arguments {
        PathArguments::AngleBracketed(args) => {
            let ghost views = arguments@->AngleBracketed_0;
            let mut i: usize = 0;
            while i < args.len()
                invariant
                    arguments is AngleBracketed && arguments->AngleBracketed_0 == *args,
                    views == arguments@->AngleBracketed_0,
                    i <= args.len(),
                    forall|j: int| 0 <= j < i ==> !argument_is_cxx_bridge_unsafe(#[trigger] views[j]),
                decreases args.len() - i,
            {
                if syn_generic_argument_is_cxx_bridge_unsafe(&args[i]) {
                    assert(argument_is_cxx_bridge_unsafe(views[i as int]));
                    return true;
                }
                i += 1;
            }
            false
        },
        _ => false,
    }
}

/// Return if the type is unsafe for bridges
pub fn syn_type_is_cxx_bridge_unsafe(ty: &Type) -> (is_unsafe: bool)
    ensures
        is_unsafe == type_is_cxx_bridge_unsafe(ty@),
    decreases ty,
{
    match ty {
        Type::Path { path, .. } => {
            let ghost views = path@.segments;
            let mut i: usize = 0;
            while i < path.segments.len()
                invariant
                    ty is Path && ty->Path_path == *path,
                    views == path@.segments,
                    i <= path.segments.len(),
                    forall|j: int|
                        0 <= j < i ==> !arguments_are_cxx_bridge_unsafe(
                            (#[trigger] views[j]).arguments,
                        ),
                decreases path.segments.len() - i,
            {
                if syn_path_arguments_are_cxx_bridge_unsafe(&path.segments[i].arguments) {
                    assert(arguments_are_cxx_bridge_unsafe(views[i as int].arguments));
                    return true;
                }
                i += 1;
            }
            false
        },
        Type::Ptr { .. } => true,
        Type::Reference { elem, .. } => syn_type_is_cxx_bridge_unsafe(&**elem),
        _ => false,
    }
}

} // verus!
