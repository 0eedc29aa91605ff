//! What holds of loading and of the three passes, for every path.

use vstd::prelude::*;
use crate::config::ExportView;
use crate::declaration::{kind_of, DeclarationType};
use crate::generic_path::{
    loaded_path, parentheses_error, phantom_data_name, GenericPathView,
};
use crate::path::self_name;
use crate::syntax::{PathArgumentsView, PathExprView};
use crate::ty::{
    types_mention_self, types_rename_for_config, types_replace_self, TypeView,
};

verus! {

/// Whether a segment carries no generic argument: nothing is written on it, or
/// an empty pair of angle brackets.
pub open spec fn without_arguments(arguments: PathArgumentsView) -> bool {
    match arguments {
        PathArgumentsView::Absent => true,
        PathArgumentsView::AngleBracketed(args) => args.len() == 0,
        PathArgumentsView::Parenthesized => false,
    }
}

/// A path expression without generic arguments loads as a path without
/// arguments, exported under the name of its base.
pub proof fn lemma_load_without_arguments(path: PathExprView)
    requires
        path.segments.len() > 0,
        without_arguments(path.segments.last().arguments),
    ensures
        loaded_path(path) == Ok::<GenericPathView, Seq<char>>(
            GenericPathView::bare(path.segments.last().ident, Seq::empty()),
        ),
        loaded_path(path)->Ok_0.arguments.len() == 0,
        loaded_path(path)->Ok_0.export_name == loaded_path(path)->Ok_0.base,
{
}

/// The marker type loads without arguments, whatever is written on it: also
/// arguments that would be an error on any other type.
pub proof fn lemma_load_marker_type(path: PathExprView)
    requires
        path.segments.len() > 0,
        path.segments.last().ident == phantom_data_name(),
    ensures
        loaded_path(path) == Ok::<GenericPathView, Seq<char>>(
            GenericPathView::bare(phantom_data_name(), Seq::empty()),
        ),
        loaded_path(path)->Ok_0.arguments.len() == 0,
{
}

/// Arguments between parentheses are an error on every type but the marker
/// type.
pub proof fn lemma_load_parenthesized(path: PathExprView)
    requires
        path.segments.len() > 0,
        path.segments.last().arguments is Parenthesized,
        path.segments.last().ident != phantom_data_name(),
    ensures
        loaded_path(path) == Err::<GenericPathView, Seq<char>>(parentheses_error()),
{
}

/// A path that loads is exported under the name of its base, and its kind is
/// not looked up yet.
pub proof fn lemma_loaded_path_is_bare(path: PathExprView)
    requires
        path.segments.len() > 0,
        loaded_path(path) is Ok,
    ensures
        loaded_path(path)->Ok_0.base == path.segments.last().ident,
        loaded_path(path)->Ok_0.export_name == path.segments.last().ident,
        loaded_path(path)->Ok_0.kind is None,
{
}

/// Replacing `Self` changes nothing in a type that does not name it.
pub proof fn lemma_type_replace_self_without_self(ty: TypeView, with: Seq<char>)
    requires
        !ty.mentions_self(),
    ensures
        ty.replace_self_with(with) == ty,
    decreases ty,
{
    match ty {
        TypeView::ConstPtr(inner) => lemma_type_replace_self_without_self(*inner, with),
        TypeView::Ptr(inner) => lemma_type_replace_self_without_self(*inner, with),
        TypeView::Path(path) => lemma_replace_self_without_self(path, with),
        TypeView::Primitive(_) => {},
        TypeView::Array(inner, _) => lemma_type_replace_self_without_self(*inner, with),
        TypeView::FuncPtr(ret, args) => {
            lemma_type_replace_self_without_self(*ret, with);
            lemma_types_replace_self_without_self(args, with);
        },
    }
}

/// Replacing `Self` changes nothing in a list of types that do not name it.
pub proof fn lemma_types_replace_self_without_self(types: Seq<TypeView>, with: Seq<char>)
    requires
        !types_mention_self(types),
    ensures
        types_replace_self(types, with) == types,
    decreases types,
{
    assert forall|i: int| 0 <= i < types.len() implies types_replace_self(types, with)[i]
        == types[i] by {
        assert(!types[i].mentions_self());
        lemma_type_replace_self_without_self(types[i], with);
    }
    assert(types_replace_self(types, with) =~= types);
}

/// Replacing `Self` changes nothing in a path that does not name it, neither at
/// its base nor in an argument at any depth: base, export name, arguments
/// and kind stay as they are.
pub proof fn lemma_replace_self_without_self(path: GenericPathView, with: Seq<char>)
    requires
        !path.mentions_self(),
    ensures
        path.replace_self_with(with) == path,
    decreases path,
{
    lemma_types_replace_self_without_self(path.arguments, with);
}

/// After `Self` was replaced by another name, a type does not name it.
pub proof fn lemma_type_replace_self_removes_self(ty: TypeView, with: Seq<char>)
    requires
        with != self_name(),
    ensures
        !ty.replace_self_with(with).mentions_self(),
    decreases ty,
{
    match ty {
        TypeView::ConstPtr(inner) => lemma_type_replace_self_removes_self(*inner, with),
        TypeView::Ptr(inner) => lemma_type_replace_self_removes_self(*inner, with),
        TypeView::Path(path) => lemma_replace_self_removes_self(path, with),
        TypeView::Primitive(_) => {},
        TypeView::Array(inner, _) => lemma_type_replace_self_removes_self(*inner, with),
        TypeView::FuncPtr(ret, args) => {
            lemma_type_replace_self_removes_self(*ret, with);
            lemma_types_replace_self_removes_self(args, with);
        },
    }
}

/// After `Self` was replaced by another name, no type of a list names it.
pub proof fn lemma_types_replace_self_removes_self(types: Seq<TypeView>, with: Seq<char>)
    requires
        with != self_name(),
    ensures
        !types_mention_self(types_replace_self(types, with)),
    decreases types,
{
    let replaced = types_replace_self(types, with);
    assert forall|i: int| 0 <= i < replaced.len() implies !(#[trigger] replaced[i]).mentions_self() by {
        lemma_type_replace_self_removes_self(types[i], with);
    }
}

/// After `Self` was replaced by another name, a path does not name it.
pub proof fn lemma_replace_self_removes_self(path: GenericPathView, with: Seq<char>)
    requires
        with != self_name(),
    ensures
        !path.replace_self_with(with).mentions_self(),
    decreases path,
{
    lemma_types_replace_self_removes_self(path.arguments, with);
}

/// Replacing `Self` in a type a second time changes nothing.
pub proof fn lemma_type_replace_self_idempotent(ty: TypeView, with: Seq<char>)
    ensures
        ty.replace_self_with(with).replace_self_with(with) == ty.replace_self_with(with),
    decreases ty,
{
    match ty {
        TypeView::ConstPtr(inner) => lemma_type_replace_self_idempotent(*inner, with),
        TypeView::Ptr(inner) => lemma_type_replace_self_idempotent(*inner, with),
        TypeView::Path(path) => lemma_replace_self_idempotent(path, with),
        TypeView::Primitive(_) => {},
        TypeView::Array(inner, _) => lemma_type_replace_self_idempotent(*inner, with),
        TypeView::FuncPtr(ret, args) => {
            lemma_type_replace_self_idempotent(*ret, with);
            lemma_types_replace_self_idempotent(args, with);
        },
    }
}

/// Replacing `Self` in a list of types a second time changes nothing.
pub proof fn lemma_types_replace_self_idempotent(types: Seq<TypeView>, with: Seq<char>)
    ensures
        types_replace_self(types_replace_self(types, with), with) == types_replace_self(
            types,
            with,
        ),
    decreases types,
{
    let once = types_replace_self(types, with);
    assert forall|i: int| 0 <= i < once.len() implies types_replace_self(once, with)[i]
        == once[i] by {
        lemma_type_replace_self_idempotent(types[i], with);
    }
    assert(types_replace_self(once, with) =~= once);
}

/// Replacing `Self` by the same name a second time changes nothing.
pub proof fn lemma_replace_self_idempotent(path: GenericPathView, with: Seq<char>)
    ensures
        path.replace_self_with(with).replace_self_with(with) == path.replace_self_with(with),
    decreases path,
{
    lemma_types_replace_self_idempotent(path.arguments, with);
}

/// Replacing `Self` reaches the arguments even where the base is another
/// type: an argument that is the type `Self` becomes the type `with`, exported
/// as `with`.
pub proof fn lemma_replace_self_reaches_arguments(
    path: GenericPathView,
    with: Seq<char>,
    i: int,
    inner: GenericPathView,
)
    requires
        0 <= i < path.arguments.len(),
        path.arguments[i] == TypeView::Path(inner),
    ensures
        path.replace_self_with(with).arguments[i] == TypeView::Path(inner.replace_self_with(with)),
        inner.base == self_name() ==> {
            &&& inner.replace_self_with(with).base == with
            &&& inner.replace_self_with(with).export_name == with
        },
        path.base != self_name() ==> {
            &&& path.replace_self_with(with).base == path.base
            &&& path.replace_self_with(with).export_name == path.export_name
        },
{
}

/// A path whose base is a type parameter keeps its export name, whatever the
/// export rules do to names.
pub proof fn lemma_rename_keeps_type_parameter(
    path: GenericPathView,
    export: ExportView,
    params: Seq<Seq<char>>,
)
    requires
        params.contains(path.base),
    ensures
        path.rename_for_config(export, params).export_name == path.export_name,
{
}

/// Renaming reaches the arguments: an argument that is a named type is
/// renamed as a path of its own, and both it and the path around it are
/// exported under what the rules make of their export names, unless they are
/// type parameters.
pub proof fn lemma_rename_reaches_arguments(
    path: GenericPathView,
    export: ExportView,
    params: Seq<Seq<char>>,
    i: int,
    inner: GenericPathView,
)
    requires
        0 <= i < path.arguments.len(),
        path.arguments[i] == TypeView::Path(inner),
    ensures
        path.rename_for_config(export, params).arguments[i] == TypeView::Path(
            inner.rename_for_config(export, params),
        ),
        !params.contains(inner.base) ==> inner.rename_for_config(export, params).export_name
            == export.rename(inner.export_name),
        !params.contains(path.base) ==> path.rename_for_config(export, params).export_name
            == export.rename(path.export_name),
{
}

/// Looking the kind up sets it to what the index says of the base, also where
/// that is nothing, and leaves base, export name and arguments as they are.
/// Looking it up again in the same index changes nothing.
pub proof fn lemma_resolve_sets_the_kind_only(
    path: GenericPathView,
    kinds: Map<Seq<char>, DeclarationType>,
)
    ensures
        path.resolve_declaration_types(kinds).kind == kind_of(kinds, path.base),
        !kinds.contains_key(path.base) ==> path.resolve_declaration_types(kinds).kind is None,
        path.resolve_declaration_types(kinds).base == path.base,
        path.resolve_declaration_types(kinds).export_name == path.export_name,
        path.resolve_declaration_types(kinds).arguments == path.arguments,
        path.resolve_declaration_types(kinds).resolve_declaration_types(kinds)
            == path.resolve_declaration_types(kinds),
{
}

/// No pass adds, drops or reorders arguments, and only replacing `Self`
/// changes the base.
pub proof fn lemma_passes_keep_the_shape(
    path: GenericPathView,
    with: Seq<char>,
    export: ExportView,
    params: Seq<Seq<char>>,
    kinds: Map<Seq<char>, DeclarationType>,
)
    ensures
        path.replace_self_with(with).arguments.len() == path.arguments.len(),
        path.replace_self_with(with).kind == path.kind,
        path.rename_for_config(export, params).arguments.len() == path.arguments.len(),
        path.rename_for_config(export, params).base == path.base,
        path.rename_for_config(export, params).kind == path.kind,
        path.resolve_declaration_types(kinds).arguments.len() == path.arguments.len(),
{
}

} // verus!
