//! Types as they are written out: pointers, arrays, function pointers,
//! primitives and named types with their generic arguments.

use vstd::prelude::*;
use crate::config::{Config, ExportView};
use crate::generic_params::GenericParams;
use crate::generic_path::{generic_path_view, loaded_path, GenericPath, GenericPathView};
use crate::path::Path;
use crate::syntax::{type_exprs_view, type_exprs_well_formed, TypeExpr, TypeExprView};
use crate::text::same;

verus! {

/// A type that needs no declaration.
#[derive(Debug, Clone, Copy, PartialEq, Eq, Hash, PartialOrd, Ord)]
pub enum PrimitiveType {
    Void,
    Bool,
    Char,
    Int8,
    Int16,
    Int32,
    Int64,
    ISize,
    UInt8,
    UInt16,
    UInt32,
    UInt64,
    USize,
    Float,
    Double,
}

/// The primitive type that `name` stands for, if it stands for one.
pub open spec fn primitive_named(name: Seq<char>) -> Option<PrimitiveType> {
    if name == "c_void"@ {
        Some(PrimitiveType::Void)
    } else if name == "bool"@ {
        Some(PrimitiveType::Bool)
    } else if name == "char"@ {
        Some(PrimitiveType::Char)
    } else if name == "i8"@ {
        Some(PrimitiveType::Int8)
    } else if name == "i16"@ {
        Some(PrimitiveType::Int16)
    } else if name == "i32"@ {
        Some(PrimitiveType::Int32)
    } else if name == "i64"@ {
        Some(PrimitiveType::Int64)
    } else if name == "isize"@ {
        Some(PrimitiveType::ISize)
    } else if name == "u8"@ {
        Some(PrimitiveType::UInt8)
    } else if name == "u16"@ {
        Some(PrimitiveType::UInt16)
    } else if name == "u32"@ {
        Some(PrimitiveType::UInt32)
    } else if name == "u64"@ {
        Some(PrimitiveType::UInt64)
    } else if name == "usize"@ {
        Some(PrimitiveType::USize)
    } else if name == "f32"@ {
        Some(PrimitiveType::Float)
    } else if name == "f64"@ {
        Some(PrimitiveType::Double)
    } else {
        None
    }
}

impl PrimitiveType {
    /// The primitive type that `name` stands for, if it stands for one.
    pub fn maybe(name: &str) -> (primitive: Option<PrimitiveType>)
        ensures
            primitive == primitive_named(name@),
    {
        if same(name, "c_void") {
            Some(PrimitiveType::Void)
        } else if same(name, "bool") {
            Some(PrimitiveType::Bool)
        } else if same(name, "char") {
            Some(PrimitiveType::Char)
        } else if same(name, "i8") {
            Some(PrimitiveType::Int8)
        } else if same(name, "i16") {
            Some(PrimitiveType::Int16)
        } else if same(name, "i32") {
            Some(PrimitiveType::Int32)
        } else if same(name, "i64") {
            Some(PrimitiveType::Int64)
        } else if same(name, "isize") {
            Some(PrimitiveType::ISize)
        } else if same(name, "u8") {
            Some(PrimitiveType::UInt8)
        } else if same(name, "u16") {
            Some(PrimitiveType::UInt16)
        } else if same(name, "u32") {
            Some(PrimitiveType::UInt32)
        } else if same(name, "u64") {
            Some(PrimitiveType::UInt64)
        } else if same(name, "usize") {
            Some(PrimitiveType::USize)
        } else if same(name, "f32") {
            Some(PrimitiveType::Float)
        } else if same(name, "f64") {
            Some(PrimitiveType::Double)
        } else {
            None
        }
    }
}

/// A type.
#[derive(Debug, PartialEq, Eq, Hash, PartialOrd, Ord)]
pub enum Type {
    /// A pointer to a value that is not written through.
    ConstPtr(Box<Type>),
    /// A pointer to a value that may be written through.
    Ptr(Box<Type>),
    /// A named type with its generic arguments.
    Path(GenericPath),
    /// A primitive type.
    Primitive(PrimitiveType),
    /// An array, with the text of its length.
    Array(Box<Type>, String),
    /// A function pointer: the type that is returned, then the parameters.
    FuncPtr(Box<Type>, Vec<Type>),
}

/// A type as a plain tree.
pub enum TypeView {
    ConstPtr(Box<TypeView>),
    Ptr(Box<TypeView>),
    Path(GenericPathView),
    Primitive(PrimitiveType),
    Array(Box<TypeView>, Seq<char>),
    FuncPtr(Box<TypeView>, Seq<TypeView>),
}

/// The view of a type.
pub open spec fn type_view(ty: Type) -> TypeView
    decreases ty,
{
    match ty {
        Type::ConstPtr(inner) => TypeView::ConstPtr(Box::new(type_view(*inner))),
        Type::Ptr(inner) => TypeView::Ptr(Box::new(type_view(*inner))),
        Type::Path(path) => TypeView::Path(generic_path_view(path)),
        Type::Primitive(primitive) => TypeView::Primitive(primitive),
        Type::Array(inner, len) => TypeView::Array(Box::new(type_view(*inner)), len@),
        Type::FuncPtr(ret, args) => TypeView::FuncPtr(
            Box::new(type_view(*ret)),
            types_view(args@),
        ),
    }
}

/// The views of a list of types, in order.
pub open spec fn types_view(types: Seq<Type>) -> Seq<TypeView>
    decreases types,
{
    Seq::new(
        types.len(),
        |i: int|
            if 0 <= i < types.len() {
                type_view(types[i])
            } else {
                arbitrary()
            },
    )
}

impl View for Type {
    type V = TypeView;

    open spec fn view(&self) -> TypeView {
        type_view(*self)
    }
}

/// Each type of a list after `Self` was replaced in it.
pub open spec fn types_replace_self(types: Seq<TypeView>, with: Seq<char>) -> Seq<TypeView>
    decreases types,
{
    Seq::new(
        types.len(),
        |i: int|
            if 0 <= i < types.len() {
                types[i].replace_self_with(with)
            } else {
                arbitrary()
            },
    )
}

/// Whether a type of a list names `Self`.
pub open spec fn types_mention_self(types: Seq<TypeView>) -> bool
    decreases types,
{
    exists|i: int| 0 <= i < types.len() && (#[trigger] types[i]).mentions_self()
}

/// Each type of a list after it was renamed.
pub open spec fn types_rename_for_config(
    types: Seq<TypeView>,
    export: ExportView,
    params: Seq<Seq<char>>,
) -> Seq<TypeView>
    decreases types,
{
    Seq::new(
        types.len(),
        |i: int|
            if 0 <= i < types.len() {
                types[i].rename_for_config(export, params)
            } else {
                arbitrary()
            },
    )
}

impl TypeView {
    /// The type with every named type `Self` in it replaced by `with`.
    pub open spec fn replace_self_with(self, with: Seq<char>) -> TypeView
        decreases self,
    {
        match self {
            TypeView::ConstPtr(inner) => TypeView::ConstPtr(
                Box::new((*inner).replace_self_with(with)),
            ),
            TypeView::Ptr(inner) => TypeView::Ptr(Box::new((*inner).replace_self_with(with))),
            TypeView::Path(path) => TypeView::Path(path.replace_self_with(with)),
            TypeView::Primitive(primitive) => TypeView::Primitive(primitive),
            TypeView::Array(inner, len) => TypeView::Array(
                Box::new((*inner).replace_self_with(with)),
                len,
            ),
            TypeView::FuncPtr(ret, args) => TypeView::FuncPtr(
                Box::new((*ret).replace_self_with(with)),
                types_replace_self(args, with),
            ),
        }
    }

    /// Whether a named type anywhere in the type is `Self`.
    pub open spec fn mentions_self(self) -> bool
        decreases self,
    {
        match self {
            TypeView::ConstPtr(inner) => (*inner).mentions_self(),
            TypeView::Ptr(inner) => (*inner).mentions_self(),
            TypeView::Path(path) => path.mentions_self(),
            TypeView::Primitive(_) => false,
            TypeView::Array(inner, _) => (*inner).mentions_self(),
            TypeView::FuncPtr(ret, args) => (*ret).mentions_self() || types_mention_self(args),
        }
    }

    /// The type with every named type in it renamed for export.
    pub open spec fn rename_for_config(self, export: ExportView, params: Seq<Seq<char>>) -> TypeView
        decreases self,
    {
        match self {
            TypeView::ConstPtr(inner) => TypeView::ConstPtr(
                Box::new((*inner).rename_for_config(export, params)),
            ),
            TypeView::Ptr(inner) => TypeView::Ptr(
                Box::new((*inner).rename_for_config(export, params)),
            ),
            TypeView::Path(path) => TypeView::Path(path.rename_for_config(export, params)),
            TypeView::Primitive(primitive) => TypeView::Primitive(primitive),
            TypeView::Array(inner, len) => TypeView::Array(
                Box::new((*inner).rename_for_config(export, params)),
                len,
            ),
            TypeView::FuncPtr(ret, args) => TypeView::FuncPtr(
                Box::new((*ret).rename_for_config(export, params)),
                types_rename_for_config(args, export, params),
            ),
        }
    }
}

/// A result of loading a type, as plain values.
pub open spec fn type_outcome(result: Result<Type, String>) -> Result<TypeView, Seq<char>> {
    match result {
        Ok(loaded) => Ok(loaded@),
        Err(error) => Err(error@),
    }
}

/// A result of loading a list of types, as plain values.
pub open spec fn types_outcome(result: Result<Vec<Type>, String>) -> Result<
    Seq<TypeView>,
    Seq<char>,
> {
    match result {
        Ok(types) => Ok(types_view(types@)),
        Err(error) => Err(error@),
    }
}

/// The error for a primitive type with generic arguments.
pub open spec fn primitive_generics_error() -> Seq<char> {
    "Primitive has generics."@
}

/// The error for a tuple with elements.
pub open spec fn tuple_error() -> Seq<char> {
    "Tuples are not supported types."@
}

/// The error for a type expression that stands for no type that can be
/// written out.
pub open spec fn unsupported_type_error() -> Seq<char> {
    "Unsupported type."@
}

/// What loading a type expression gives. A reference or a raw pointer is a
/// pointer, const unless it is mutable. A path is a primitive where its name
/// says so, and a named type otherwise. An array keeps the text of its length.
/// The unit type, and a function pointer without an output, give `void`.
/// Where a part cannot be loaded, its error is the error of the whole.
pub open spec fn loaded_type(ty: TypeExprView) -> Result<TypeView, Seq<char>>
    decreases ty,
{
    match ty {
        TypeExprView::Path(path) => match loaded_path(path) {
            Err(error) => Err(error),
            Ok(generic_path) => match primitive_named(generic_path.base) {
                Some(primitive) => if generic_path.arguments.len() > 0 {
                    Err(primitive_generics_error())
                } else {
                    Ok(TypeView::Primitive(primitive))
                },
                None => Ok(TypeView::Path(generic_path)),
            },
        },
        TypeExprView::Reference { mutable, elem } => match loaded_type(*elem) {
            Err(error) => Err(error),
            Ok(inner) => Ok(pointer_to(inner, mutable)),
        },
        TypeExprView::Ptr { mutable, elem } => match loaded_type(*elem) {
            Err(error) => Err(error),
            Ok(inner) => Ok(pointer_to(inner, mutable)),
        },
        TypeExprView::Array { elem, len } => match loaded_type(*elem) {
            Err(error) => Err(error),
            Ok(inner) => match len {
                Some(text) => Ok(TypeView::Array(Box::new(inner), text)),
                None => Err(unsupported_type_error()),
            },
        },
        TypeExprView::BareFn { inputs, output } => match loaded_types(inputs) {
            Err(error) => Err(error),
            Ok(args) => match output {
                None => Ok(
                    TypeView::FuncPtr(Box::new(TypeView::Primitive(PrimitiveType::Void)), args),
                ),
                Some(ty) => match loaded_type(*ty) {
                    Err(error) => Err(error),
                    Ok(ret) => Ok(TypeView::FuncPtr(Box::new(ret), args)),
                },
            },
        },
        TypeExprView::Tuple(elems) => if elems.len() == 0 {
            Ok(TypeView::Primitive(PrimitiveType::Void))
        } else {
            Err(tuple_error())
        },
        TypeExprView::Other => Err(unsupported_type_error()),
    }
}

/// A pointer to `inner`.
pub open spec fn pointer_to(inner: TypeView, mutable: bool) -> TypeView {
    if mutable {
        TypeView::Ptr(Box::new(inner))
    } else {
        TypeView::ConstPtr(Box::new(inner))
    }
}

/// What loading a list of type expressions gives: every type, in order, or
/// the error of the first that cannot be loaded.
pub open spec fn loaded_types(types: Seq<TypeExprView>) -> Result<Seq<TypeView>, Seq<char>>
    decreases types,
{
    if types.len() == 0 {
        Ok(Seq::empty())
    } else {
        match loaded_types(types.drop_last()) {
            Err(error) => Err(error),
            Ok(before) => match loaded_type(types.last()) {
                Ok(loaded) => Ok(before.push(loaded)),
                Err(error) => Err(error),
            },
        }
    }
}

/// An error among the first types is the error of the whole list.
pub proof fn lemma_loaded_types_fail_fast(types: Seq<TypeExprView>, k: int)
    requires
        0 <= k <= types.len(),
        loaded_types(types.take(k)) is Err,
    ensures
        loaded_types(types) == loaded_types(types.take(k)),
    decreases types.len(),
{
    if k == types.len() {
        assert(types.take(k) =~= types);
    } else {
        assert(types.drop_last().take(k) =~= types.take(k));
        lemma_loaded_types_fail_fast(types.drop_last(), k);
    }
}

impl Type {
    /// Loads a type expression. A reference or a raw pointer becomes a
    /// pointer, a path a primitive or a named type, an array an array with the
    /// text of its length, a function pointer a function pointer, and the unit
    /// type `void`. Any other tuple and any other expression are errors, and
    /// so is an array whose length is neither a name nor a literal. The error
    /// of a part is handed on as it is.
    pub fn load(ty: &TypeExpr) -> (result: Result<Type, String>)
        requires
            ty@.well_formed(),
        ensures
            type_outcome(result) == loaded_type(ty@),
        decreases ty,
    {
        match ty {
            TypeExpr::Path(path) => {
                let generic_path = match GenericPath::load(path) {
                    Ok(generic_path) => generic_path,
                    Err(error) => {
                        return Err(error);
                    },
                };
                match PrimitiveType::maybe(generic_path.name()) {
                    Some(primitive) => {
                        if generic_path.generics().len() > 0 {
                            Err("Primitive has generics.".to_owned())
                        } else {
                            Ok(Type::Primitive(primitive))
                        }
                    },
                    None => Ok(Type::Path(generic_path)),
                }
            },
            TypeExpr::Reference { mutable, elem } => {
                match Type::load(elem) {
                    Ok(inner) => Ok(Type::pointer_to(inner, *mutable)),
                    Err(error) => Err(error),
                }
            },
            TypeExpr::Ptr { mutable, elem } => {
                match Type::load(elem) {
                    Ok(inner) => Ok(Type::pointer_to(inner, *mutable)),
                    Err(error) => Err(error),
                }
            },
            TypeExpr::Array { elem, len } => {
                match Type::load(elem) {
                    Ok(inner) => match len {
                        Some(text) => Ok(Type::Array(Box::new(inner), text.clone())),
                        None => Err("Unsupported type.".to_owned()),
                    },
                    Err(error) => Err(error),
                }
            },
            TypeExpr::BareFn { inputs, output } => {
                let args = match load_types(inputs) {
                    Ok(args) => args,
                    Err(error) => {
                        return Err(error);
                    },
                };
                match output {
                    None => {
                        let ret = Type::Primitive(PrimitiveType::Void);
                        assert(ret@ == TypeView::Primitive(PrimitiveType::Void));
                        Ok(Type::FuncPtr(Box::new(ret), args))
                    },
                    Some(ty) => match Type::load(ty) {
                        Ok(ret) => Ok(Type::FuncPtr(Box::new(ret), args)),
                        Err(error) => Err(error),
                    },
                }
            },
            TypeExpr::Tuple(elems) => {
                assert(type_exprs_view(elems@).len() == elems@.len());
                if elems.len() == 0 {
                    Ok(Type::Primitive(PrimitiveType::Void))
                } else {
                    Err("Tuples are not supported types.".to_owned())
                }
            },
            TypeExpr::Other => Err("Unsupported type.".to_owned()),
        }
    }

    /// A pointer to `inner`: one that may be written through if `mutable`.
    pub fn pointer_to(inner: Type, mutable: bool) -> (pointer: Type)
        ensures
            pointer@ == pointer_to(inner@, mutable),
    {
        if mutable {
            Type::Ptr(Box::new(inner))
        } else {
            Type::ConstPtr(Box::new(inner))
        }
    }

    /// Replaces every named type `Self` in the type by `self_ty`.
    pub fn replace_self_with(&mut self, self_ty: &Path)
        ensures
            final(self)@ == old(self)@.replace_self_with(self_ty@),
        decreases *old(self),
    {
        match self {
            Type::ConstPtr(inner) => inner.replace_self_with(self_ty),
            Type::Ptr(inner) => inner.replace_self_with(self_ty),
            Type::Path(path) => path.replace_self_with(self_ty),
            Type::Primitive(_) => {},
            Type::Array(inner, _) => inner.replace_self_with(self_ty),
            Type::FuncPtr(ret, args) => {
                ret.replace_self_with(self_ty);
                replace_self_in_types(args, self_ty);
            },
        }
    }

    /// Renames every named type in the type for export, but for the type
    /// parameters in `generic_params`.
    pub fn rename_for_config(&mut self, config: &Config, generic_params: &GenericParams)
        ensures
            final(self)@ == old(self)@.rename_for_config(config.export@, generic_params@),
        decreases *old(self),
    {
        match self {
            Type::ConstPtr(inner) => inner.rename_for_config(config, generic_params),
            Type::Ptr(inner) => inner.rename_for_config(config, generic_params),
            Type::Path(path) => path.rename_for_config(config, generic_params),
            Type::Primitive(_) => {},
            Type::Array(inner, _) => inner.rename_for_config(config, generic_params),
            Type::FuncPtr(ret, args) => {
                ret.rename_for_config(config, generic_params);
                rename_types_for_config(args, config, generic_params);
            },
        }
    }
}

/// Loads each type expression of a list.
fn load_types(exprs: &Vec<TypeExpr>) -> (result: Result<Vec<Type>, String>)
    requires
        type_exprs_well_formed(type_exprs_view(exprs@)),
    ensures
        types_outcome(result) == loaded_types(type_exprs_view(exprs@)),
    decreases exprs,
{
    let ghost views = type_exprs_view(exprs@);
    let mut types: Vec<Type> = Vec::new();
    let n = exprs.len();
    let mut i: usize = 0;
    assert(views.take(0) =~= Seq::empty());
    assert(types_view(types@) =~= Seq::empty());
    while i < n
        invariant
            i <= n,
            n == exprs@.len(),
            views == type_exprs_view(exprs@),
            type_exprs_well_formed(views),
            loaded_types(views.take(i as int)) == Ok::<Seq<TypeView>, Seq<char>>(
                types_view(types@),
            ),
        decreases n - i,
    {
        let ghost before = types_view(types@);
        proof {
            assert(views.take(i + 1).drop_last() =~= views.take(i as int));
            assert(views.take(i + 1).last() == views[i as int]);
            assert(views[i as int].well_formed());
        }
        match Type::load(&exprs[i]) {
            Ok(loaded) => {
                types.push(loaded);
                assert(types_view(types@) =~= before.push(loaded@));
            },
            Err(error) => {
                proof {
                    lemma_loaded_types_fail_fast(views, i + 1);
                }
                return Err(error);
            },
        }
        i += 1;
    }
    assert(views.take(n as int) =~= views);
    Ok(types)
}

/// Replaces `Self` by `self_ty` in each type of a list.
pub(crate) fn replace_self_in_types(types: &mut Vec<Type>, self_ty: &Path)
    ensures
        types_view(final(types)@) == types_replace_self(types_view(old(types)@), self_ty@),
    decreases *old(types),
{
    let n = types.len();
    let mut i: usize = 0;
    while i < n
        invariant
            i <= n,
            n == types@.len(),
            n == old(types)@.len(),
            forall|j: int|
                0 <= j < i ==> (#[trigger] types@[j])@ == old(types)@[j]@.replace_self_with(
                    self_ty@,
                ),
            forall|j: int| i <= j < n ==> #[trigger] types@[j] == old(types)@[j],
        decreases n - i,
    {
        types[i].replace_self_with(self_ty);
        i += 1;
    }
    assert(types_view(types@) =~= types_replace_self(types_view(old(types)@), self_ty@));
}

/// Renames each type of a list for export.
pub(crate) fn rename_types_for_config(
    types: &mut Vec<Type>,
    config: &Config,
    generic_params: &GenericParams,
)
    ensures
        types_view(final(types)@) == types_rename_for_config(
            types_view(old(types)@),
            config.export@,
            generic_params@,
        ),
    decreases *old(types),
{
    let n = types.len();
    let mut i: usize = 0;
    while i < n
        invariant
            i <= n,
            n == types@.len(),
            n == old(types)@.len(),
            forall|j: int|
                0 <= j < i ==> (#[trigger] types@[j])@ == old(types)@[j]@.rename_for_config(
                    config.export@,
                    generic_params@,
                ),
            forall|j: int| i <= j < n ==> #[trigger] types@[j] == old(types)@[j],
        decreases n - i,
    {
        types[i].rename_for_config(config, generic_params);
        i += 1;
    }
    assert(types_view(types@) =~= types_rename_for_config(
        types_view(old(types)@),
        config.export@,
        generic_params@,
    ));
}

impl Clone for Type {
    fn clone(&self) -> (copy: Type)
        ensures
            copy@ == self@,
        decreases self,
    {
        match self {
            Type::ConstPtr(inner) => Type::ConstPtr(Box::new((&**inner).clone())),
            Type::Ptr(inner) => Type::Ptr(Box::new((&**inner).clone())),
            Type::Path(path) => Type::Path(path.clone()),
            Type::Primitive(primitive) => Type::Primitive(*primitive),
            Type::Array(inner, len) => Type::Array(Box::new((&**inner).clone()), len.clone()),
            Type::FuncPtr(ret, args) => Type::FuncPtr(
                Box::new((&**ret).clone()),
                clone_types(args),
            ),
        }
    }
}

/// A copy of each type of a list.
pub(crate) fn clone_types(types: &Vec<Type>) -> (copies: Vec<Type>)
    ensures
        types_view(copies@) == types_view(types@),
    decreases types,
{
    let mut copies: Vec<Type> = Vec::new();
    let n = types.len();
    let mut i: usize = 0;
    while i < n
        invariant
            i <= n,
            n == types@.len(),
            copies@.len() == i,
            forall|j: int| 0 <= j < i ==> (#[trigger] copies@[j])@ == types@[j]@,
        decreases n - i,
    {
        copies.push(types[i].clone());
        i += 1;
    }
    assert(types_view(copies@) =~= types_view(types@));
    copies
}

} // verus!
