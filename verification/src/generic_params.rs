//! The type parameters that a generic declaration lists.

use std::ops::Deref;
use vstd::prelude::*;
use vstd::string::StringExecFns;
use crate::config::{Config, Language};
use crate::path::Path;
use crate::syntax::{GenericParam, GenericParamView, Generics};
use crate::text::same;

verus! {

/// The names of the type parameters of a declaration, in the order in which
/// they are declared.
#[derive(Default, Debug, Clone)]
pub struct GenericParams(pub Vec<Path>);

/// The names of the type parameters among `params`, in order. Lifetime and
/// const parameters are left out.
pub open spec fn type_parameter_names(params: Seq<GenericParamView>) -> Seq<Seq<char>>
    decreases params.len(),
{
    if params.len() == 0 {
        Seq::empty()
    } else {
        let before = type_parameter_names(params.drop_last());
        match params.last() {
            GenericParamView::Type(name) => before.push(name),
            _ => before,
        }
    }
}

/// The parameters of a template header: `typename A, typename B`.
pub open spec fn typename_list(names: Seq<Seq<char>>) -> Seq<char>
    decreases names.len(),
{
    if names.len() == 0 {
        Seq::empty()
    } else if names.len() == 1 {
        "typename "@ + names[0]
    } else {
        typename_list(names.drop_last()) + ", "@ + "typename "@ + names.last()
    }
}

/// The template header that is written in front of a declaration with the
/// type parameters `names`: one line for C++ where there are parameters, and
/// nothing otherwise.
pub open spec fn template_header(names: Seq<Seq<char>>, language: Language) -> Seq<char> {
    if names.len() > 0 && language is Cxx {
        "template<"@ + typename_list(names) + ">"@ + "\n"@
    } else {
        Seq::empty()
    }
}

impl View for GenericParams {
    type V = Seq<Seq<char>>;

    open spec fn view(&self) -> Seq<Seq<char>> {
        Seq::new(self.0@.len(), |i: int| self.0@[i]@)
    }
}

impl Deref for GenericParams {
    type Target = [Path];

    fn deref(&self) -> (paths: &[Path])
        ensures
            paths@ == self.0@,
    {
        self.0.as_slice()
    }
}

impl GenericParams {
    /// The type parameters of a generic declaration.
    pub fn new(generics: &Generics) -> (params: GenericParams)
        ensures
            params@ == type_parameter_names(generics@),
    {
        let mut paths: Vec<Path> = Vec::new();
        let n = generics.params.len();
        let mut i: usize = 0;
        assert(generics@.take(0) =~= Seq::empty());
        while i < n
            invariant
                i <= n,
                n == generics.params@.len(),
                GenericParams(paths)@ == type_parameter_names(generics@.take(i as int)),
            decreases n - i,
        {
            let ghost before = GenericParams(paths)@;
            assert(generics@.take(i + 1).drop_last() =~= generics@.take(i as int));
            assert(generics@.take(i + 1).last() == generics.params@[i as int]@);
            match &generics.params[i] {
                GenericParam::Type(name) => {
                    paths.push(Path::new(name.clone()));
                    assert(GenericParams(paths)@ =~= before.push(name@));
                },
                _ => {},
            }
            i += 1;
        }
        assert(generics@.take(n as int) =~= generics@);
        GenericParams(paths)
    }

    /// Whether `path` is one of the parameters.
    pub fn contains(&self, path: &Path) -> (found: bool)
        ensures
            found == self@.contains(path@),
    {
        let n = self.0.len();
        let mut i: usize = 0;
        while i < n
            invariant
                i <= n,
                n == self.0@.len(),
                forall|j: int| 0 <= j < i ==> self@[j] != path@,
            decreases n - i,
        {
            if same(self.0[i].name(), path.name()) {
                assert(self@[i as int] == path@);
                return true;
            }
            i += 1;
        }
        false
    }

    /// Appends to `out` the template header of a declaration with these
    /// parameters.
    pub fn write(&self, config: &Config, out: &mut String)
        ensures
            final(out)@ == old(out)@ + template_header(self@, config.language),
    {
        let n = self.0.len();
        let is_cxx = match config.language {
            Language::Cxx => true,
            Language::C => false,
        };
        if n == 0 || !is_cxx {
            assert(out@ =~= old(out)@ + template_header(self@, config.language));
            return ;
        }
        out.append("template<");
        let mut i: usize = 0;
        assert(self@.take(0) =~= Seq::empty());
        assert(out@ =~= old(out)@ + "template<"@ + typename_list(self@.take(0)));
        while i < n
            invariant
                i <= n,
                n == self.0@.len(),
                out@ == old(out)@ + "template<"@ + typename_list(self@.take(i as int)),
            decreases n - i,
        {
            let ghost before = out@;
            let ghost names = self@.take(i + 1);
            assert(names.drop_last() =~= self@.take(i as int));
            assert(names.last() == self@[i as int]);
            if i != 0 {
                out.append(", ");
            }
            out.append("typename ");
            out.append(self.0[i].name());
            assert(out@ =~= old(out)@ + "template<"@ + typename_list(names));
            i += 1;
        }
        assert(self@.take(n as int) =~= self@);
        out.append(">");
        out.append("\n");
        assert(out@ =~= old(out)@ + template_header(self@, config.language));
    }
}

} // verus!
