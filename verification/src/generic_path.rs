//! A named type together with its generic arguments.

use vstd::prelude::*;
use vstd::string::StringExecFns;
use crate::config::{Config, ExportView};
use crate::declaration::{kind_of, DeclarationType, DeclarationTypeResolver};
use crate::generic_params::GenericParams;
use crate::path::{self_name, Path};
use crate::syntax::{
    generic_arguments_view, generic_arguments_well_formed, GenericArgument, GenericArgumentView,
    PathArguments, PathArgumentsView, PathExpr, PathExprView,
};
use crate::text::same;
use crate::ty::{
    clone_types, loaded_type, rename_types_for_config, replace_self_in_types, types_mention_self,
    types_outcome, types_rename_for_config, types_replace_self, types_view, Type, TypeView,
};

verus! {

/// One use of a named type: `Result<MyError, i32>`.
#[derive(Debug, PartialEq, Eq, Hash, PartialOrd, Ord)]
pub struct GenericPath {
    path: Path,
    export_name: String,
    generics: Vec<Type>,
    ctype: Option<DeclarationType>,
}

/// A generic path as a plain tree.
pub struct GenericPathView {
    /// The name of the type that is referred to.
    pub base: Seq<char>,
    /// The name that is written out for it.
    pub export_name: Seq<char>,
    /// The generic arguments, in the order in which they are written.
    pub arguments: Seq<TypeView>,
    /// How the type is declared, once that was looked up and is known.
    pub kind: Option<DeclarationType>,
}

/// The view of a generic path.
pub closed spec fn generic_path_view(path: GenericPath) -> GenericPathView
    decreases path,
{
    GenericPathView {
        base: path.path@,
        export_name: path.export_name@,
        arguments: types_view(path.generics@),
        kind: path.ctype,
    }
}

impl View for GenericPath {
    type V = GenericPathView;

    open spec fn view(&self) -> GenericPathView {
        generic_path_view(*self)
    }
}

impl GenericPathView {
    /// The path as it is first built: the type `base` with `arguments`,
    /// exported under its own name, its kind not looked up.
    pub open spec fn bare(base: Seq<char>, arguments: Seq<TypeView>) -> GenericPathView {
        GenericPathView { base, export_name: base, arguments, kind: None }
    }

    /// The path with `Self` replaced by `with`, at its base and in its
    /// arguments.
    pub open spec fn replace_self_with(self, with: Seq<char>) -> GenericPathView
        decreases self,
    {
        GenericPathView {
            base: if self.base == self_name() { with } else { self.base },
            export_name: if self.base == self_name() { with } else { self.export_name },
            arguments: types_replace_self(self.arguments, with),
            kind: self.kind,
        }
    }

    /// Whether the base, or a named type in an argument, is `Self`.
    pub open spec fn mentions_self(self) -> bool
        decreases self,
    {
        self.base == self_name() || types_mention_self(self.arguments)
    }

    /// The path renamed for export: its arguments renamed, and its export name
    /// too unless its base is one of the type parameters.
    pub open spec fn rename_for_config(
        self,
        export: ExportView,
        params: Seq<Seq<char>>,
    ) -> GenericPathView
        decreases self,
    {
        GenericPathView {
            base: self.base,
            export_name: if params.contains(self.base) {
                self.export_name
            } else {
                export.rename(self.export_name)
            },
            arguments: types_rename_for_config(self.arguments, export, params),
            kind: self.kind,
        }
    }

    /// The path with its kind looked up in `kinds`.
    pub open spec fn resolve_declaration_types(
        self,
        kinds: Map<Seq<char>, DeclarationType>,
    ) -> GenericPathView {
        GenericPathView {
            base: self.base,
            export_name: self.export_name,
            arguments: self.arguments,
            kind: kind_of(kinds, self.base),
        }
    }
}

/// A result of loading a path, as plain values.
pub open spec fn path_outcome(result: Result<GenericPath, String>) -> Result<
    GenericPathView,
    Seq<char>,
> {
    match result {
        Ok(generic_path) => Ok(generic_path@),
        Err(error) => Err(error@),
    }
}

/// The name of the marker type that takes no room, and so has no arguments
/// that could be written out.
pub open spec fn phantom_data_name() -> Seq<char> {
    "PhantomData"@
}

/// The error for a path whose arguments stand between parentheses.
pub open spec fn parentheses_error() -> Seq<char> {
    "Path contains parentheses."@
}

/// The error for a binding of an associated type among the arguments.
pub open spec fn binding_error(text: Seq<char>) -> Seq<char> {
    "can't handle generic argument Binding("@ + text + ")"@
}

/// The error for a const expression among the arguments.
pub open spec fn const_error(text: Seq<char>) -> Seq<char> {
    "can't handle generic argument Const("@ + text + ")"@
}

/// What loading the arguments between angle brackets gives: the types among
/// them, in order and without the lifetimes, or the error of the first
/// argument that cannot be loaded.
pub open spec fn loaded_arguments(args: Seq<GenericArgumentView>) -> Result<
    Seq<TypeView>,
    Seq<char>,
>
    decreases args,
{
    if args.len() == 0 {
        Ok(Seq::empty())
    } else {
        match loaded_arguments(args.drop_last()) {
            Err(error) => Err(error),
            Ok(before) => match args.last() {
                GenericArgumentView::Lifetime => Ok(before),
                GenericArgumentView::Type(ty) => match loaded_type(ty) {
                    Ok(loaded) => Ok(before.push(loaded)),
                    Err(error) => Err(error),
                },
                GenericArgumentView::Binding(text) => Err(binding_error(text)),
                GenericArgumentView::Const(text) => Err(const_error(text)),
            },
        }
    }
}

/// What loading a path expression gives. Only the last segment counts. Its
/// name is the base and the export name; its arguments are loaded, unless the
/// base is the marker type, which never has any.
pub open spec fn loaded_path(path: PathExprView) -> Result<GenericPathView, Seq<char>>
    recommends
        path.segments.len() > 0,
    decreases path,
{
    if path.segments.len() == 0 {
        Err(Seq::empty())
    } else {
        let last = path.segments.last();
        if last.ident == phantom_data_name() {
            Ok(GenericPathView::bare(last.ident, Seq::empty()))
        } else {
            match last.arguments {
                PathArgumentsView::Absent => Ok(GenericPathView::bare(last.ident, Seq::empty())),
                PathArgumentsView::AngleBracketed(args) => match loaded_arguments(args) {
                    Ok(arguments) => Ok(GenericPathView::bare(last.ident, arguments)),
                    Err(error) => Err(error),
                },
                PathArgumentsView::Parenthesized => Err(parentheses_error()),
            }
        }
    }
}

/// An error among the first arguments is the error of the whole list.
pub proof fn lemma_loaded_arguments_fail_fast(args: Seq<GenericArgumentView>, k: int)
    requires
        0 <= k <= args.len(),
        loaded_arguments(args.take(k)) is Err,
    ensures
        loaded_arguments(args) == loaded_arguments(args.take(k)),
    decreases args.len(),
{
    if k == args.len() {
        assert(args.take(k) =~= args);
    } else {
        assert(args.drop_last().take(k) =~= args.take(k));
        lemma_loaded_arguments_fail_fast(args.drop_last(), k);
    }
}

/// Loads the arguments between angle brackets.
fn load_arguments(args: &Vec<GenericArgument>) -> (result: Result<Vec<Type>, String>)
    requires
        generic_arguments_well_formed(generic_arguments_view(args@)),
    ensures
        types_outcome(result) == loaded_arguments(generic_arguments_view(args@)),
    decreases args,
{
    let ghost views = generic_arguments_view(args@);
    let mut types: Vec<Type> = Vec::new();
    let n = args.len();
    let mut i: usize = 0;
    assert(views.take(0) =~= Seq::empty());
    assert(types_view(types@) =~= Seq::empty());
    while i < n
        invariant
            i <= n,
            n == args@.len(),
            views == generic_arguments_view(args@),
            generic_arguments_well_formed(views),
            loaded_arguments(views.take(i as int)) == Ok::<Seq<TypeView>, Seq<char>>(
                types_view(types@),
            ),
        decreases n - i,
    {
        let ghost before = types_view(types@);
        proof {
            assert(views.take(i + 1).drop_last() =~= views.take(i as int));
            assert(views.take(i + 1).last() == views[i as int]);
            assert(views[i as int].well_formed());
        }
        match &args[i] {
            GenericArgument::Lifetime => {},
            GenericArgument::Type(ty) => {
                match Type::load(ty) {
                    Ok(loaded) => {
                        types.push(loaded);
                        assert(types_view(types@) =~= before.push(loaded@));
                    },
                    Err(error) => {
                        proof {
                            lemma_loaded_arguments_fail_fast(views, i + 1);
                        }
                        return Err(error);
                    },
                }
            },
            GenericArgument::Binding(text) => {
                let mut error = "can't handle generic argument Binding(".to_owned();
                error.append(text.as_str());
                error.append(")");
                proof {
                    lemma_loaded_arguments_fail_fast(views, i + 1);
                }
                return Err(error);
            },
            GenericArgument::Const(text) => {
                let mut error = "can't handle generic argument Const(".to_owned();
                error.append(text.as_str());
                error.append(")");
                proof {
                    lemma_loaded_arguments_fail_fast(views, i + 1);
                }
                return Err(error);
            },
        }
        i += 1;
    }
    assert(views.take(n as int) =~= views);
    Ok(types)
}

impl GenericPath {
    /// The path of the type `path` with the arguments `generics`, exported
    /// under its own name, its kind not looked up.
    pub fn new(path: Path, generics: Vec<Type>) -> (generic_path: GenericPath)
        ensures
            generic_path@ == GenericPathView::bare(path@, types_view(generics@)),
    {
        let export_name = path.name().to_owned();
        GenericPath { path, export_name, generics, ctype: None }
    }

    /// Replaces `Self` by `self_ty`: at the base, where the export name
    /// follows, and in every argument, however deep.
    pub fn replace_self_with(&mut self, self_ty: &Path)
        ensures
            final(self)@ == old(self)@.replace_self_with(self_ty@),
        decreases *old(self),
    {
        if self.path.replace_self_with(self_ty) {
            self.export_name = self_ty.name().to_owned();
        }
        replace_self_in_types(&mut self.generics, self_ty);
    }

    /// The type that is referred to.
    pub fn path(&self) -> (path: &Path)
        ensures
            path@ == self@.base,
    {
        &self.path
    }

    /// The generic arguments, in the order in which they are written.
    pub fn generics(&self) -> (generics: &[Type])
        ensures
            types_view(generics@) == self@.arguments,
    {
        self.generics.as_slice()
    }

    /// How the type is declared, if that was looked up and is known.
    pub fn ctype(&self) -> (kind: Option<&DeclarationType>)
        ensures
            kind == match self@.kind {
                Some(k) => Some(&k),
                None => None,
            },
    {
        self.ctype.as_ref()
    }

    /// The name of the type that is referred to.
    pub fn name(&self) -> (name: &str)
        ensures
            name@ == self@.base,
    {
        self.path.name()
    }

    /// The name that is written out.
    pub fn export_name(&self) -> (name: &str)
        ensures
            name@ == self@.export_name,
    {
        self.export_name.as_str()
    }

    /// Renames the path for export: first every argument, then the path
    /// itself, unless its base is one of `generic_params`.
    pub fn rename_for_config(&mut self, config: &Config, generic_params: &GenericParams)
        ensures
            final(self)@ == old(self)@.rename_for_config(config.export@, generic_params@),
        decreases *old(self),
    {
        rename_types_for_config(&mut self.generics, config, generic_params);
        if !generic_params.contains(&self.path) {
            config.export.rename(&mut self.export_name);
        }
    }

    /// Looks the kind of the base up in `resolver`. A base that the index does
    /// not know has no kind afterwards.
    pub fn resolve_declaration_types(&mut self, resolver: &DeclarationTypeResolver)
        ensures
            final(self)@ == old(self)@.resolve_declaration_types(resolver@),
    {
        self.ctype = resolver.type_for(&self.path);
    }

    /// Loads a path expression. Only the last segment counts: its name becomes
    /// the base and the export name, and its arguments are loaded. A lifetime
    /// among them is left out; any other argument that is no type, and
    /// arguments between parentheses, are errors. The marker type
    /// `PhantomData` has no arguments, whatever is written on it.
    pub fn load(path: &PathExpr) -> (result: Result<GenericPath, String>)
        requires
            path@.well_formed(),
        ensures
            path_outcome(result) == loaded_path(path@),
        decreases path,
    {
        let n = path.segments.len();
        let last_segment = &path.segments[n - 1];
        assert(path@.segments.last() == last_segment@);
        let name = last_segment.ident.clone();
        if same(name.as_str(), "PhantomData") {
            let generics: Vec<Type> = Vec::new();
            assert(types_view(generics@) =~= Seq::empty());
            return Ok(GenericPath::new(Path::new(name), generics));
        }
        let generics = match &last_segment.arguments {
            PathArguments::AngleBracketed(args) => {
                match load_arguments(args) {
                    Ok(generics) => generics,
                    Err(error) => {
                        return Err(error);
                    },
                }
            },
            PathArguments::Parenthesized => {
                return Err("Path contains parentheses.".to_owned());
            },
            PathArguments::Absent => {
                let generics: Vec<Type> = Vec::new();
                assert(types_view(generics@) =~= Seq::empty());
                generics
            },
        };
        Ok(GenericPath::new(Path::new(name), generics))
    }
}

impl Clone for GenericPath {
    fn clone(&self) -> (copy: GenericPath)
        ensures
            copy@ == self@,
        decreases self,
    {
        GenericPath {
            path: self.path.clone(),
            export_name: self.export_name.clone(),
            generics: clone_types(&self.generics),
            ctype: self.ctype,
        }
    }
}

} // verus!
