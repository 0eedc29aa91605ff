//! Identifier paths: the unqualified name of a type.

use vstd::prelude::*;
use crate::text::same;

verus! {

/// The name under which an impl or trait body refers to its own type.
pub open spec fn self_name() -> Seq<char> {
    "Self"@
}

/// The unqualified name of a type.
#[derive(Debug, PartialEq, Eq, Hash, PartialOrd, Ord)]
pub struct Path {
    name: String,
}

impl View for Path {
    type V = Seq<char>;

    closed spec fn view(&self) -> Seq<char> {
        self.name@
    }
}

impl Path {
    /// The path of the type called `name`.
    pub fn new(name: String) -> (path: Path)
        ensures
            path@ == name@,
    {
        Path { name }
    }

    /// The name of the type.
    pub fn name(&self) -> (name: &str)
        ensures
            name@ == self@,
    {
        self.name.as_str()
    }

    /// Replaces this path by `path` where it is the `Self` placeholder, and
    /// reports whether it did.
    pub fn replace_self_with(&mut self, path: &Path) -> (replaced: bool)
        ensures
            replaced == (old(self)@ == self_name()),
            final(self)@ == if replaced { path@ } else { old(self)@ },
    {
        if same(self.name.as_str(), "Self") {
            *self = path.clone();
            true
        } else {
            false
        }
    }
}

impl Clone for Path {
    fn clone(&self) -> (copy: Path)
        ensures
            copy@ == self@,
    {
        Path { name: self.name.clone() }
    }
}

} // verus!
