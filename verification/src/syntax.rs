//! Type expressions as they are written inside a bridge declaration.
//!
//! Only the parts that the generator inspects are structured.  Everything it
//! merely carries along (array lengths, lifetimes, ABI strings, types of a
//! shape it never looks into) is kept as source text.

use vstd::prelude::*;

pub mod item;

verus! {

/// The explicit self type of a qualified path such as `<T as Trait>::Name`.
#[derive(Debug, PartialEq, Eq)]
pub struct QSelf {
    /// The self type, as source text.
    pub ty: String,
    /// How many leading segments of the path name the trait.
    pub position: usize,
}

/// One argument between the angle brackets of a path segment.
#[derive(Debug, PartialEq, Eq)]
pub enum GenericArgument {
    /// A type argument, as in `Vec<T>`.
    Type(Type),
    /// Any other argument (a lifetime, a constant, a binding), as source text.
    Other(String),
}

/// The arguments that follow the identifier of a path segment.
#[derive(Debug, PartialEq, Eq)]
pub enum PathArguments {
    /// No arguments, as in `String`.
    Absent,
    /// Arguments between angle brackets, as in `Vec<T>`.
    AngleBracketed(Vec<GenericArgument>),
    /// Arguments between parentheses, as in `Fn(A) -> B`, as source text.
    Parenthesized(String),
}

/// One segment of a path: an identifier and its arguments.
#[derive(Debug, PartialEq, Eq)]
pub struct PathSegment {
    pub ident: String,
    pub arguments: PathArguments,
}

/// A path such as `core::pin::Pin<T>`.
#[derive(Debug, PartialEq, Eq)]
pub struct Path {
    /// Whether the path starts with `::`.
    pub leading_colon: bool,
    pub segments: Vec<PathSegment>,
}

/// One parameter of a function pointer type.
#[derive(Debug, PartialEq, Eq)]
pub struct BareFnArg {
    /// The name of the parameter, where one is written.
    pub name: Option<String>,
    pub ty: Type,
}

/// A type expression.
#[derive(Debug, PartialEq, Eq)]
pub enum Type {
    /// `[T; n]`; the length is kept as source text.
    Array { elem: Box<Type>, len: String },
    /// `fn(A, B) -> C`; the binder of lifetimes and the ABI are kept as source text.
    BareFn {
        lifetimes: Option<String>,
        unsafety: bool,
        abi: Option<String>,
        inputs: Vec<BareFnArg>,
        variadic: bool,
        output: Option<Box<Type>>,
    },
    /// A path, with an explicit self type where one is written.
    Path { qself: Option<QSelf>, path: Path },
    /// `*const T` or `*mut T`.
    Ptr { mutable: bool, elem: Box<Type> },
    /// `&T` or `&mut T`, with its lifetime where one is written.
    Reference { lifetime: Option<String>, mutable: bool, elem: Box<Type> },
    /// `[T]`.
    Slice { elem: Box<Type> },
    /// `(A, B)`.
    Tuple { elems: Vec<Type> },
    /// A type of any other shape, as source text.
    Other(String),
}

/// The mathematical value of a [`QSelf`].
pub struct QSelfView {
    pub ty: Seq<char>,
    pub position: nat,
}

/// The mathematical value of a [`GenericArgument`].
pub enum GenericArgumentView {
    Type(TypeView),
    Other(Seq<char>),
}

/// The mathematical value of a [`PathArguments`].
pub enum PathArgumentsView {
    Absent,
    AngleBracketed(Seq<GenericArgumentView>),
    Parenthesized(Seq<char>),
}

/// The mathematical value of a [`PathSegment`].
pub struct PathSegmentView {
    pub ident: Seq<char>,
    pub arguments: PathArgumentsView,
}

/// The mathematical value of a [`Path`].
pub struct PathView {
    pub leading_colon: bool,
    pub segments: Seq<PathSegmentView>,
}

/// The mathematical value of a [`BareFnArg`].
pub struct BareFnArgView {
    pub name: Option<Seq<char>>,
    pub ty: TypeView,
}

/// The mathematical value of a [`Type`].
pub enum TypeView {
    Array { elem: Box<TypeView>, len: Seq<char> },
    BareFn {
        lifetimes: Option<Seq<char>>,
        unsafety: bool,
        abi: Option<Seq<char>>,
        inputs: Seq<BareFnArgView>,
        variadic: bool,
        output: Option<Box<TypeView>>,
    },
    Path { qself: Option<QSelfView>, path: PathView },
    Ptr { mutable: bool, elem: Box<TypeView> },
    Reference { lifetime: Option<Seq<char>>, mutable: bool, elem: Box<TypeView> },
    Slice { elem: Box<TypeView> },
    Tuple { elems: Seq<TypeView> },
    Other(Seq<char>),
}

impl PathSegmentView {
    /// The segment that consists of `ident` alone.
    pub open spec fn from_ident(ident: Seq<char>) -> PathSegmentView {
        PathSegmentView { ident, arguments: PathArgumentsView::Absent }
    }
}

impl PathView {
    /// The path that consists of `ident` alone.
    pub open spec fn from_ident(ident: Seq<char>) -> PathView {
        PathView { leading_colon: false, segments: seq![PathSegmentView::from_ident(ident)] }
    }

    /// The identifier that the path consists of: it has no leading colon and
    /// a single segment, which has no arguments.
    pub open spec fn get_ident(self) -> Option<Seq<char>> {
        if !self.leading_colon && self.segments.len() == 1 && self.segments[0].arguments
            is Absent {
            Some(self.segments[0].ident)
        } else {
            None
        }
    }
}

impl TypeView {
    /// The type named by `ident` alone.
    pub open spec fn from_ident(ident: Seq<char>) -> TypeView {
        TypeView::Path { qself: None, path: PathView::from_ident(ident) }
    }

    /// The type `ident<types...>`.
    pub open spec fn generic(ident: Seq<char>, types: Seq<TypeView>) -> TypeView {
        TypeView::Path {
            qself: None,
            path: PathView {
                leading_colon: false,
                segments: seq![
                    PathSegmentView {
                        ident,
                        arguments: PathArgumentsView::AngleBracketed(
                            Seq::new(types.len(), |i: int| GenericArgumentView::Type(types[i])),
                        ),
                    },
                ],
            },
        }
    }

    /// The type `&elem` or `&mut elem`.
    pub open spec fn reference(mutable: bool, elem: TypeView) -> TypeView {
        TypeView::Reference { lifetime: None, mutable, elem: Box::new(elem) }
    }

    /// The type `*const elem` or `*mut elem`.
    pub open spec fn ptr(mutable: bool, elem: TypeView) -> TypeView {
        TypeView::Ptr { mutable, elem: Box::new(elem) }
    }

    /// The type `[elem]`.
    pub open spec fn slice(elem: TypeView) -> TypeView {
        TypeView::Slice { elem: Box::new(elem) }
    }

    /// The type `[elem; len]`.
    pub open spec fn array(elem: TypeView, len: Seq<char>) -> TypeView {
        TypeView::Array { elem: Box::new(elem), len }
    }

    /// The type `(elems...)`.
    pub open spec fn tuple(elems: Seq<TypeView>) -> TypeView {
        TypeView::Tuple { elems }
    }

    /// The type `fn(inputs...) -> output`, or `fn(inputs...)` if there is
    /// no output.
    pub open spec fn bare_fn(inputs: Seq<TypeView>, output: Option<TypeView>) -> TypeView {
        TypeView::BareFn {
            lifetimes: None,
            unsafety: false,
            abi: None,
            inputs: Seq::new(inputs.len(), |i: int| BareFnArgView { name: None, ty: inputs[i] }),
            variadic: false,
            output: match output {
                Some(ty) => Some(Box::new(ty)),
                None => None,
            },
        }
    }

    /// The type `Pin<&mut ident>`.
    pub open spec fn pin_mut(ident: Seq<char>) -> TypeView {
        TypeView::generic("Pin"@, seq![TypeView::reference(true, TypeView::from_ident(ident))])
    }
}

/// The values of a sequence of types.
pub open spec fn type_views(types: Seq<Type>) -> Seq<TypeView> {
    Seq::new(types.len(), |i: int| type_view(types[i]))
}

/// The values of a sequence of path segments.
pub open spec fn segment_views(segments: Seq<PathSegment>) -> Seq<PathSegmentView> {
    Seq::new(segments.len(), |i: int| path_segment_view(segments[i]))
}

/// The value of an optional piece of source text.
pub open spec fn text_view(text: Option<String>) -> Option<Seq<char>> {
    match text {
        Some(s) => Some(s@),
        None => None,
    }
}

/// The value of an explicit self type.
pub open spec fn qself_view(q: QSelf) -> QSelfView {
    QSelfView { ty: q.ty@, position: q.position as nat }
}

/// The value of a generic argument.
pub open spec fn generic_argument_view(a: GenericArgument) -> GenericArgumentView
    decreases a,
{
    match a {
        GenericArgument::Type(ty) => GenericArgumentView::Type(type_view(ty)),
        GenericArgument::Other(text) => GenericArgumentView::Other(text@),
    }
}

/// The value of the arguments of a path segment.
pub open spec fn path_arguments_view(a: PathArguments) -> PathArgumentsView
    decreases a,
{
    match a {
        PathArguments::Absent => PathArgumentsView::Absent,
        PathArguments::AngleBracketed(args) => PathArgumentsView::AngleBracketed(
            Seq::new(
                args.len() as nat,
                |i: int|
                    if 0 <= i < args.len() {
                        generic_argument_view(args[i])
                    } else {
                        arbitrary()
                    },
            ),
        ),
        PathArguments::Parenthesized(text) => PathArgumentsView::Parenthesized(text@),
    }
}

/// The value of a path segment.
pub open spec fn path_segment_view(s: PathSegment) -> PathSegmentView
    decreases s,
{
    PathSegmentView { ident: s.ident@, arguments: path_arguments_view(s.arguments) }
}

/// The value of a path.
pub open spec fn path_view(p: Path) -> PathView
    decreases p,
{
    PathView {
        leading_colon: p.leading_colon,
        segments: Seq::new(
            p.segments.len() as nat,
            |i: int|
                if 0 <= i < p.segments.len() {
                    path_segment_view(p.segments[i])
                } else {
                    arbitrary()
                },
        ),
    }
}

/// The value of a parameter of a function pointer type.
pub open spec fn bare_fn_arg_view(a: BareFnArg) -> BareFnArgView
    decreases a,
{
    BareFnArgView { name: text_view(a.name), ty: type_view(a.ty) }
}

/// The value of a type.
pub open spec fn type_view(t: Type) -> TypeView
    decreases t,
{
    match t {
        Type::Array { elem, len } => TypeView::Array { elem: Box::new(type_view(*elem)), len: len@ },
        Type::BareFn { lifetimes, unsafety, abi, inputs, variadic, output } => TypeView::BareFn {
            lifetimes: text_view(lifetimes),
            unsafety,
            abi: text_view(abi),
            inputs: Seq::new(
                inputs.len() as nat,
                |i: int|
                    if 0 <= i < inputs.len() {
                        bare_fn_arg_view(inputs[i])
                    } else {
                        arbitrary()
                    },
            ),
            variadic,
            output: match output {
                Some(ty) => Some(Box::new(type_view(*ty))),
                None => None,
            },
        },
        Type::Path { qself, path } => TypeView::Path {
            qself: match qself {
                Some(q) => Some(qself_view(q)),
                None => None,
            },
            path: path_view(path),
        },
        Type::Ptr { mutable, elem } => TypeView::Ptr { mutable, elem: Box::new(type_view(*elem)) },
        Type::Reference { lifetime, mutable, elem } => TypeView::Reference {
            lifetime: text_view(lifetime),
            mutable,
            elem: Box::new(type_view(*elem)),
        },
        Type::Slice { elem } => TypeView::Slice { elem: Box::new(type_view(*elem)) },
        Type::Tuple { elems } => TypeView::Tuple {
            elems: Seq::new(
                elems.len() as nat,
                |i: int|
                    if 0 <= i < elems.len() {
                        type_view(elems[i])
                    } else {
                        arbitrary()
                    },
            ),
        },
        Type::Other(text) => TypeView::Other(text@),
    }
}

impl View for QSelf {
    type V = QSelfView;

    open spec fn view(&self) -> QSelfView {
        qself_view(*self)
    }
}

impl View for GenericArgument {
    type V = GenericArgumentView;

    open spec fn view(&self) -> GenericArgumentView {
        generic_argument_view(*self)
    }
}

impl View for PathArguments {
    type V = PathArgumentsView;

    open spec fn view(&self) -> PathArgumentsView {
        path_arguments_view(*self)
    }
}

impl View for PathSegment {
    type V = PathSegmentView;

    open spec fn view(&self) -> PathSegmentView {
        path_segment_view(*self)
    }
}

impl View for Path {
    type V = PathView;

    open spec fn view(&self) -> PathView {
        path_view(*self)
    }
}

impl View for BareFnArg {
    type V = BareFnArgView;

    open spec fn view(&self) -> BareFnArgView {
        bare_fn_arg_view(*self)
    }
}

impl View for Type {
    type V = TypeView;

    open spec fn view(&self) -> TypeView {
        type_view(*self)
    }
}

/// A copy of an optional piece of source text.
pub(crate) fn clone_text(text: &Option<String>) -> (res: Option<String>)
    ensures
        text_view(res) == text_view(*text),
{
    match text {
        Some(s) => Some(s.clone()),
        None => None,
    }
}

impl Clone for QSelf {
    fn clone(&self) -> (res: Self)
        ensures
            res@ == self@,
    {
        QSelf { ty: self.ty.clone(), position: self.position }
    }
}

impl Clone for GenericArgument {
    fn clone(&self) -> (res: Self)
        ensures
            res@ == self@,
        decreases self,
    {
        match self {
            GenericArgument::Type(ty) => GenericArgument::Type(ty.clone()),
            GenericArgument::Other(text) => GenericArgument::Other(text.clone()),
        }
    }
}

impl Clone for PathArguments {
    fn clone(&self) -> (res: Self)
        ensures
            res@ == self@,
        decreases self,
    {
        match self {
            PathArguments::Absent => PathArguments::Absent,
            PathArguments::AngleBracketed(args) => {
                let mut copies: Vec<GenericArgument> = Vec::new();
                let mut i: usize = 0;
                while i < args.len()
                    invariant
                        self is AngleBracketed && self->AngleBracketed_0 == *args,
                        i <= args.len(),
                        copies.len() == i,
                        forall|j: int| 0 <= j < i ==> copies[j]@ == args[j]@,
                    decreases args.len() - i,
                {
                    copies.push(args[i].clone());
                    i += 1;
                }
                let res = PathArguments::AngleBracketed(copies);
                assert(res@ == self@) by {
                    assert(res@->AngleBracketed_0 =~= self@->AngleBracketed_0);
                }
                res
            },
            PathArguments::Parenthesized(text) => PathArguments::Parenthesized(text.clone()),
        }
    }
}

impl Clone for PathSegment {
    fn clone(&self) -> (res: Self)
        ensures
            res@ == self@,
        decreases self,
    {
        PathSegment { ident: self.ident.clone(), arguments: self.arguments.clone() }
    }
}

impl Clone for Path {
    fn clone(&self) -> (res: Self)
        ensures
            res@ == self@,
        decreases self,
    {
        let mut segments: Vec<PathSegment> = Vec::new();
        let mut i: usize = 0;
        while i < self.segments.len()
            invariant
                i <= self.segments.len(),
                segments.len() == i,
                forall|j: int| 0 <= j < i ==> segments[j]@ == self.segments[j]@,
            decreases self.segments.len() - i,
        {
            segments.push(self.segments[i].clone());
            i += 1;
        }
        let res = Path { leading_colon: self.leading_colon, segments };
        assert(res@.segments =~= self@.segments);
        res
    }
}

impl Clone for BareFnArg {
    fn clone(&self) -> (res: Self)
        ensures
            res@ == self@,
        decreases self,
    {
        BareFnArg { name: clone_text(&self.name), ty: self.ty.clone() }
    }
}

impl Clone for Type {
    fn clone(&self) -> (res: Self)
        ensures
            res@ == self@,
        decreases self,
    {
        match self {
            Type::Array { elem, len } => Type::Array {
                elem: Box::new((&**elem).clone()),
                len: len.clone(),
            },
            Type::BareFn { lifetimes, unsafety, abi, inputs, variadic, output } => {
                let mut copies: Vec<BareFnArg> = Vec::new();
                let mut i: usize = 0;
                while i < inputs.len()
                    invariant
                        self is BareFn && self->BareFn_inputs == *inputs,
                        i <= inputs.len(),
                        copies.len() == i,
                        forall|j: int| 0 <= j < i ==> copies[j]@ == inputs[j]@,
                    decreases inputs.len() - i,
                {
                    copies.push(inputs[i].clone());
                    i += 1;
                }
                let res = Type::BareFn {
                    lifetimes: clone_text(lifetimes),
                    unsafety: *unsafety,
                    abi: clone_text(abi),
                    inputs: copies,
                    variadic: *variadic,
                    output: match output {
                        Some(ty) => Some(Box::new((&**ty).clone())),
                        None => None,
                    },
                };
                assert(res@->BareFn_inputs =~= self@->BareFn_inputs);
                res
            },
            Type::Path { qself, path } => Type::Path {
                qself: match qself {
                    Some(q) => Some(q.clone()),
                    None => None,
                },
                path: path.clone(),
            },
            Type::Ptr { mutable, elem } => Type::Ptr {
                mutable: *mutable,
                elem: Box::new((&**elem).clone()),
            },
            Type::Reference { lifetime, mutable, elem } => Type::Reference {
                lifetime: clone_text(lifetime),
                mutable: *mutable,
                elem: Box::new((&**elem).clone()),
            },
            Type::Slice { elem } => Type::Slice { elem: Box::new((&**elem).clone()) },
            Type::Tuple { elems } => {
                let mut copies: Vec<Type> = Vec::new();
                let mut i: usize = 0;
                while i < elems.len()
                    invariant
                        self is Tuple && self->Tuple_elems == *elems,
                        i <= elems.len(),
                        copies.len() == i,
                        forall|j: int| 0 <= j < i ==> copies[j]@ == elems[j]@,
                    decreases elems.len() - i,
                {
                    copies.push(elems[i].clone());
                    i += 1;
                }
                let res = Type::Tuple { elems: copies };
                assert(res@->Tuple_elems =~= self@->Tuple_elems);
                res
            },
            Type::Other(text) => Type::Other(text.clone()),
        }
    }
}

impl PathSegment {
    /// The segment that consists of `ident` alone.
    pub fn from_ident(ident: &str) -> (segment: PathSegment)
        ensures
            segment@ == PathSegmentView::from_ident(ident@),
    {
        PathSegment { ident: ident.to_owned(), arguments: PathArguments::Absent }
    }
}

impl Path {
    /// The path that consists of `ident` alone.
    pub fn from_ident(ident: &str) -> (path: Path)
        ensures
            path@ == PathView::from_ident(ident@),
    {
        let mut segments: Vec<PathSegment> = Vec::new();
        segments.push(PathSegment::from_ident(ident));
        let path = Path { leading_colon: false, segments };
        assert(path@.segments =~= PathView::from_ident(ident@).segments);
        path
    }

    /// The identifier that the path consists of, if it is a single
    /// identifier: no leading colon and one segment without arguments.
    pub fn get_ident(&self) -> (ident: Option<&String>)
        ensures
            match ident {
                Some(name) => self@.get_ident() == Some(name@),
                None => self@.get_ident() is None,
            },
    {
        if !self.leading_colon && self.segments.len() == 1 {
            match &self.segments[0].arguments {
                PathArguments::Absent => Some(&self.segments[0].ident),
                _ => None,
            }
        } else {
            None
        }
    }
}

impl Type {
    /// The type named by `ident` alone.
    pub fn from_ident(ident: &str) -> (ty: Type)
        ensures
            ty@ == TypeView::from_ident(ident@),
    {
        Type::Path { qself: None, path: Path::from_ident(ident) }
    }

    /// The type `ident<types...>`.
    pub fn generic(ident: &str, types: Vec<Type>) -> (ty: Type)
        ensures
            ty@ == TypeView::generic(ident@, type_views(types@)),
    {
        let ghost views = type_views(types@);
        let mut types = types;
        let mut reversed: Vec<Type> = Vec::new();
        while types.len() > 0
            invariant
                reversed.len() + types.len() == views.len(),
                forall|j: int| 0 <= j < types.len() ==> types[j]@ == views[j],
                forall|j: int|
                    0 <= j < reversed.len() ==> reversed[j]@ == views[views.len() - 1 - j],
            decreases types.len(),
        {
            let last = types.pop().unwrap();
            reversed.push(last);
        }
        let mut args: Vec<GenericArgument> = Vec::new();
        while reversed.len() > 0
            invariant
                args.len() + reversed.len() == views.len(),
                forall|j: int|
                    0 <= j < reversed.len() ==> reversed[j]@ == views[views.len() - 1 - j],
                forall|j: int| 0 <= j < args.len() ==> args[j]@ == GenericArgumentView::Type(views[j]),
            decreases reversed.len(),
        {
            let next = reversed.pop().unwrap();
            args.push(GenericArgument::Type(next));
        }
        let arguments = PathArguments::AngleBracketed(args);
        assert(arguments@ == PathArgumentsView::AngleBracketed(
            Seq::new(views.len(), |i: int| GenericArgumentView::Type(views[i])),
        )) by {
            assert(arguments@->AngleBracketed_0 =~= Seq::new(
                views.len(),
                |i: int| GenericArgumentView::Type(views[i]),
            ));
        }
        let segment = PathSegment { ident: ident.to_owned(), arguments };
        let ghost segment_view = segment@;
        let mut segments: Vec<PathSegment> = Vec::new();
        segments.push(segment);
        let path = Path { leading_colon: false, segments };
        assert(path@.segments =~= seq![segment_view]);
        Type::Path { qself: None, path }
    }

    /// The type `&elem` or `&mut elem`.
    pub fn reference(mutable: bool, elem: Type) -> (ty: Type)
        ensures
            ty@ == TypeView::reference(mutable, elem@),
    {
        Type::Reference { lifetime: None, mutable, elem: Box::new(elem) }
    }

    /// The type `*const elem` or `*mut elem`.
    pub fn ptr(mutable: bool, elem: Type) -> (ty: Type)
        ensures
            ty@ == TypeView::ptr(mutable, elem@),
    {
        Type::Ptr { mutable, elem: Box::new(elem) }
    }

    /// The type `[elem]`.
    pub fn slice(elem: Type) -> (ty: Type)
        ensures
            ty@ == TypeView::slice(elem@),
    {
        Type::Slice { elem: Box::new(elem) }
    }

    /// The type `[elem; len]`.
    pub fn array(elem: Type, len: &str) -> (ty: Type)
        ensures
            ty@ == TypeView::array(elem@, len@),
    {
        Type::Array { elem: Box::new(elem), len: len.to_owned() }
    }

    /// The type `(elems...)`.
    pub fn tuple(elems: Vec<Type>) -> (ty: Type)
        ensures
            ty@ == TypeView::tuple(type_views(elems@)),
    {
        let ty = Type::Tuple { elems };
        assert(ty@->Tuple_elems =~= type_views(elems@));
        ty
    }

    /// The type `fn(inputs...) -> output`, or `fn(inputs...)` if there is
    /// no output.
    pub fn bare_fn(inputs: Vec<Type>, output: Option<Type>) -> (ty: Type)
        ensures
            ty@ == TypeView::bare_fn(
                type_views(inputs@),
                match output {
                    Some(ty) => Some(ty@),
                    None => None,
                },
            ),
    {
        let ghost views = type_views(inputs@);
        let mut inputs = inputs;
        let mut reversed: Vec<Type> = Vec::new();
        while inputs.len() > 0
            invariant
                reversed.len() + inputs.len() == views.len(),
                forall|j: int| 0 <= j < inputs.len() ==> inputs[j]@ == views[j],
                forall|j: int|
                    0 <= j < reversed.len() ==> reversed[j]@ == views[views.len() - 1 - j],
            decreases inputs.len(),
        {
            let last = inputs.pop().unwrap();
            reversed.push(last);
        }
        let mut args: Vec<BareFnArg> = Vec::new();
        while reversed.len() > 0
            invariant
                args.len() + reversed.len() == views.len(),
                forall|j: int|
                    0 <= j < reversed.len() ==> reversed[j]@ == views[views.len() - 1 - j],
                forall|j: int|
                    0 <= j < args.len() ==> args[j]@ == (BareFnArgView {
                        name: None,
                        ty: views[j],
                    }),
            decreases reversed.len(),
        {
            let next = reversed.pop().unwrap();
            args.push(BareFnArg { name: None, ty: next });
        }
        let ty = Type::BareFn {
            lifetimes: None,
            unsafety: false,
            abi: None,
            inputs: args,
            variadic: false,
            output: match output {
                Some(ty) => Some(Box::new(ty)),
                None => None,
            },
        };
        assert(ty@->BareFn_inputs =~= Seq::new(
            views.len(),
            |i: int| BareFnArgView { name: None, ty: views[i] },
        ));
        ty
    }

    /// The type `Pin<&mut ident>`.
    pub fn pin_mut(ident: &str) -> (ty: Type)
        ensures
            ty@ == TypeView::pin_mut(ident@),
    {
        let mut types: Vec<Type> = Vec::new();
        types.push(Type::reference(true, Type::from_ident(ident)));
        assert(type_views(types@) =~= seq![
            TypeView::reference(true, TypeView::from_ident(ident@)),
        ]);
        Type::generic("Pin", types)
    }
}

} // verus!
