//! The parsed syntax that the library reads: generic parameter lists, path
//! expressions and type expressions, as plain values.
//!
//! A parser hands these over; the library never looks at source text itself.
//! Each type has a view in which text is a sequence of characters and a list is
//! a sequence, and the contracts of the library speak of those views.

use vstd::prelude::*;

verus! {

/// One parameter of a generic declaration.
#[derive(Debug, Clone, PartialEq, Eq)]
pub enum GenericParam {
    /// A type parameter, with its name: the `T` in `<T: Clone>`.
    Type(String),
    /// A lifetime parameter: the `'a` in `<'a, T>`.
    Lifetime,
    /// A const parameter: the `const N: usize` in `<const N: usize>`.
    Const,
}

/// A generic parameter as plain values.
pub enum GenericParamView {
    Type(Seq<char>),
    Lifetime,
    Const,
}

impl View for GenericParam {
    type V = GenericParamView;

    open spec fn view(&self) -> GenericParamView {
        match self {
            GenericParam::Type(name) => GenericParamView::Type(name@),
            GenericParam::Lifetime => GenericParamView::Lifetime,
            GenericParam::Const => GenericParamView::Const,
        }
    }
}

/// The parameters that a generic declaration lists between `<` and `>`.
#[derive(Debug, Clone, PartialEq, Eq)]
pub struct Generics {
    pub params: Vec<GenericParam>,
}

impl View for Generics {
    type V = Seq<GenericParamView>;

    open spec fn view(&self) -> Seq<GenericParamView> {
        Seq::new(self.params@.len(), |i: int| self.params@[i]@)
    }
}

/// A path expression: `a::b::Name<Args>`.
#[derive(Debug, PartialEq, Eq)]
pub struct PathExpr {
    pub segments: Vec<PathSegment>,
}

/// One segment of a path expression, with the arguments written on it.
#[derive(Debug, PartialEq, Eq)]
pub struct PathSegment {
    pub ident: String,
    pub arguments: PathArguments,
}

/// The arguments written on a path segment.
#[derive(Debug, PartialEq, Eq)]
pub enum PathArguments {
    /// No arguments: `Name`.
    Absent,
    /// Arguments between angle brackets: the `<'a, T>` in `Name<'a, T>`.
    AngleBracketed(Vec<GenericArgument>),
    /// Arguments between parentheses: the `(A, B) -> C` in `Fn(A, B) -> C`.
    Parenthesized,
}

/// One argument between angle brackets.
#[derive(Debug, PartialEq, Eq)]
pub enum GenericArgument {
    /// A lifetime: `'a`.
    Lifetime,
    /// A type: `T`.
    Type(TypeExpr),
    /// A binding of an associated type, with its text: `Item = u8`.
    Binding(String),
    /// A const expression, with its text: `{ N + 1 }`.
    Const(String),
}

/// A type expression.
#[derive(Debug, PartialEq, Eq)]
pub enum TypeExpr {
    /// A named type: `a::Name<Args>`.
    Path(PathExpr),
    /// A reference: `&T` or `&mut T`.
    Reference { mutable: bool, elem: Box<TypeExpr> },
    /// A raw pointer: `*const T` or `*mut T`.
    Ptr { mutable: bool, elem: Box<TypeExpr> },
    /// An array: `[T; N]`. The length is there as text where it is a name or
    /// an integer literal, and is `None` where it is any other expression.
    Array { elem: Box<TypeExpr>, len: Option<String> },
    /// A function pointer: `fn(A, B) -> C`; without `-> C` the output is `None`.
    BareFn { inputs: Vec<TypeExpr>, output: Option<Box<TypeExpr>> },
    /// A tuple: `(A, B)`; the unit type is the empty tuple.
    Tuple(Vec<TypeExpr>),
    /// Any other type expression: a slice, a trait object, `impl Trait`, `!`, `_`.
    Other,
}

/// A path expression as plain values.
pub struct PathExprView {
    pub segments: Seq<PathSegmentView>,
}

/// A path segment as plain values.
pub struct PathSegmentView {
    pub ident: Seq<char>,
    pub arguments: PathArgumentsView,
}

/// The arguments of a path segment as plain values.
pub enum PathArgumentsView {
    Absent,
    AngleBracketed(Seq<GenericArgumentView>),
    Parenthesized,
}

/// A generic argument as plain values.
pub enum GenericArgumentView {
    Lifetime,
    Type(TypeExprView),
    Binding(Seq<char>),
    Const(Seq<char>),
}

/// A type expression as plain values.
pub enum TypeExprView {
    Path(PathExprView),
    Reference { mutable: bool, elem: Box<TypeExprView> },
    Ptr { mutable: bool, elem: Box<TypeExprView> },
    Array { elem: Box<TypeExprView>, len: Option<Seq<char>> },
    BareFn { inputs: Seq<TypeExprView>, output: Option<Box<TypeExprView>> },
    Tuple(Seq<TypeExprView>),
    Other,
}

/// The view of a path expression.
pub open spec fn path_expr_view(path: PathExpr) -> PathExprView
    decreases path,
{
    PathExprView {
        segments: Seq::new(
            path.segments@.len(),
            |i: int|
                if 0 <= i < path.segments@.len() {
                    path_segment_view(path.segments@[i])
                } else {
                    arbitrary()
                },
        ),
    }
}

/// The view of a path segment.
pub open spec fn path_segment_view(segment: PathSegment) -> PathSegmentView
    decreases segment,
{
    PathSegmentView {
        ident: segment.ident@,
        arguments: match segment.arguments {
            PathArguments::Absent => PathArgumentsView::Absent,
            PathArguments::AngleBracketed(args) => PathArgumentsView::AngleBracketed(
                generic_arguments_view(args@),
            ),
            PathArguments::Parenthesized => PathArgumentsView::Parenthesized,
        },
    }
}

/// The views of a list of generic arguments, in order.
pub open spec fn generic_arguments_view(args: Seq<GenericArgument>) -> Seq<GenericArgumentView>
    decreases args,
{
    Seq::new(
        args.len(),
        |i: int|
            if 0 <= i < args.len() {
                generic_argument_view(args[i])
            } else {
                arbitrary()
            },
    )
}

/// The view of a generic argument.
pub open spec fn generic_argument_view(arg: GenericArgument) -> GenericArgumentView
    decreases arg,
{
    match arg {
        GenericArgument::Lifetime => GenericArgumentView::Lifetime,
        GenericArgument::Type(ty) => GenericArgumentView::Type(type_expr_view(ty)),
        GenericArgument::Binding(text) => GenericArgumentView::Binding(text@),
        GenericArgument::Const(text) => GenericArgumentView::Const(text@),
    }
}

/// The views of a list of type expressions, in order.
pub open spec fn type_exprs_view(types: Seq<TypeExpr>) -> Seq<TypeExprView>
    decreases types,
{
    Seq::new(
        types.len(),
        |i: int|
            if 0 <= i < types.len() {
                type_expr_view(types[i])
            } else {
                arbitrary()
            },
    )
}

/// The view of a type expression.
pub open spec fn type_expr_view(ty: TypeExpr) -> TypeExprView
    decreases ty,
{
    match ty {
        TypeExpr::Path(path) => TypeExprView::Path(path_expr_view(path)),
        TypeExpr::Reference { mutable, elem } => TypeExprView::Reference {
            mutable,
            elem: Box::new(type_expr_view(*elem)),
        },
        TypeExpr::Ptr { mutable, elem } => TypeExprView::Ptr {
            mutable,
            elem: Box::new(type_expr_view(*elem)),
        },
        TypeExpr::Array { elem, len } => TypeExprView::Array {
            elem: Box::new(type_expr_view(*elem)),
            len: match len {
                Some(text) => Some(text@),
                None => None,
            },
        },
        TypeExpr::BareFn { inputs, output } => TypeExprView::BareFn {
            inputs: type_exprs_view(inputs@),
            output: match output {
                Some(ty) => Some(Box::new(type_expr_view(*ty))),
                None => None,
            },
        },
        TypeExpr::Tuple(elems) => TypeExprView::Tuple(type_exprs_view(elems@)),
        TypeExpr::Other => TypeExprView::Other,
    }
}

impl View for PathExpr {
    type V = PathExprView;

    open spec fn view(&self) -> PathExprView {
        path_expr_view(*self)
    }
}

impl View for PathSegment {
    type V = PathSegmentView;

    open spec fn view(&self) -> PathSegmentView {
        path_segment_view(*self)
    }
}

impl View for GenericArgument {
    type V = GenericArgumentView;

    open spec fn view(&self) -> GenericArgumentView {
        generic_argument_view(*self)
    }
}

impl View for TypeExpr {
    type V = TypeExprView;

    open spec fn view(&self) -> TypeExprView {
        type_expr_view(*self)
    }
}

impl PathExprView {
    /// Whether this path expression, and every path expression in its
    /// arguments, has at least one segment. What a parser hands over is well
    /// formed.
    pub open spec fn well_formed(self) -> bool
        decreases self,
    {
        &&& self.segments.len() > 0
        &&& forall|i: int|
            0 <= i < self.segments.len() ==> (#[trigger] self.segments[i]).arguments.well_formed()
    }
}

impl PathArgumentsView {
    /// Whether every path expression in the arguments is well formed.
    pub open spec fn well_formed(self) -> bool
        decreases self,
    {
        match self {
            PathArgumentsView::AngleBracketed(args) => generic_arguments_well_formed(args),
            _ => true,
        }
    }
}

/// Whether every path expression in a list of generic arguments is well
/// formed.
pub open spec fn generic_arguments_well_formed(args: Seq<GenericArgumentView>) -> bool
    decreases args,
{
    forall|i: int| 0 <= i < args.len() ==> (#[trigger] args[i]).well_formed()
}

impl GenericArgumentView {
    /// Whether every path expression in the argument is well formed.
    pub open spec fn well_formed(self) -> bool
        decreases self,
    {
        match self {
            GenericArgumentView::Type(ty) => ty.well_formed(),
            _ => true,
        }
    }
}

/// Whether every path expression in a list of type expressions is well formed.
pub open spec fn type_exprs_well_formed(types: Seq<TypeExprView>) -> bool
    decreases types,
{
    forall|i: int| 0 <= i < types.len() ==> (#[trigger] types[i]).well_formed()
}

impl TypeExprView {
    /// Whether every path expression in the type expression is well formed.
    pub open spec fn well_formed(self) -> bool
        decreases self,
    {
        match self {
            TypeExprView::Path(path) => path.well_formed(),
            TypeExprView::Reference { elem, .. } => (*elem).well_formed(),
            TypeExprView::Ptr { elem, .. } => (*elem).well_formed(),
            TypeExprView::Array { elem, .. } => (*elem).well_formed(),
            TypeExprView::BareFn { inputs, output } => type_exprs_well_formed(inputs) && match output {
                Some(ty) => (*ty).well_formed(),
                None => true,
            },
            TypeExprView::Tuple(elems) => type_exprs_well_formed(elems),
            TypeExprView::Other => true,
        }
    }
}

impl PathExpr {
    /// Whether this path expression, and every path expression in its
    /// arguments, has at least one segment.
    pub fn is_well_formed(&self) -> (ok: bool)
        ensures
            ok == self@.well_formed(),
        decreases self,
    {
        let n = self.segments.len();
        if n == 0 {
            return false;
        }
        let mut i: usize = 0;
        while i < n
            invariant
                i <= n,
                n == self.segments@.len(),
                forall|j: int| 0 <= j < i ==> (#[trigger] self@.segments[j]).arguments.well_formed(),
            decreases n - i,
        {
            assert(self@.segments[i as int] == self.segments@[i as int]@);
            let ok = match &self.segments[i].arguments {
                PathArguments::AngleBracketed(args) => generic_arguments_are_well_formed(args),
                _ => true,
            };
            if !ok {
                assert(!self@.segments[i as int].arguments.well_formed());
                return false;
            }
            i += 1;
        }
        true
    }
}

/// Whether every path expression in a list of generic arguments is well
/// formed.
fn generic_arguments_are_well_formed(args: &Vec<GenericArgument>) -> (ok: bool)
    ensures
        ok == generic_arguments_well_formed(generic_arguments_view(args@)),
    decreases args,
{
    let ghost views = generic_arguments_view(args@);
    let n = args.len();
    let mut i: usize = 0;
    while i < n
        invariant
            i <= n,
            n == args@.len(),
            views == generic_arguments_view(args@),
            forall|j: int| 0 <= j < i ==> (#[trigger] views[j]).well_formed(),
        decreases n - i,
    {
        let ok = match &args[i] {
            GenericArgument::Type(ty) => ty.is_well_formed(),
            _ => true,
        };
        if !ok {
            assert(!views[i as int].well_formed());
            return false;
        }
        i += 1;
    }
    true
}

/// Whether every path expression in a list of type expressions is well formed.
fn type_exprs_are_well_formed(types: &Vec<TypeExpr>) -> (ok: bool)
    ensures
        ok == type_exprs_well_formed(type_exprs_view(types@)),
    decreases types,
{
    let ghost views = type_exprs_view(types@);
    let n = types.len();
    let mut i: usize = 0;
    while i < n
        invariant
            i <= n,
            n == types@.len(),
            views == type_exprs_view(types@),
            forall|j: int| 0 <= j < i ==> (#[trigger] views[j]).well_formed(),
        decreases n - i,
    {
        if !types[i].is_well_formed() {
            assert(!views[i as int].well_formed());
            return false;
        }
        i += 1;
    }
    true
}

impl TypeExpr {
    /// Whether every path expression in the type expression has at least one
    /// segment.
    pub fn is_well_formed(&self) -> (ok: bool)
        ensures
            ok == self@.well_formed(),
        decreases self,
    {
        match self {
            TypeExpr::Path(path) => path.is_well_formed(),
            TypeExpr::Reference { elem, .. } => elem.is_well_formed(),
            TypeExpr::Ptr { elem, .. } => elem.is_well_formed(),
            TypeExpr::Array { elem, .. } => elem.is_well_formed(),
            TypeExpr::BareFn { inputs, output } => {
                if !type_exprs_are_well_formed(inputs) {
                    return false;
                }
                match output {
                    Some(ty) => ty.is_well_formed(),
                    None => true,
                }
            },
            TypeExpr::Tuple(elems) => type_exprs_are_well_formed(elems),
            TypeExpr::Other => true,
        }
    }
}

} // verus!
