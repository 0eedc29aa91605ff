//! The kinds of declaration, and the index that says which kind a name has.

use vstd::prelude::*;
use crate::path::Path;
use crate::text::same;

verus! {

/// How a named type is declared, which decides how it is referred to.
#[derive(Debug, Clone, Copy, PartialEq, Eq, Hash, PartialOrd, Ord)]
pub enum DeclarationType {
    Struct,
    Enum,
    Union,
    Typedef,
    Opaque,
}

/// The declaration kinds of the types that were found in the whole program.
///
/// Its view is a map from names to kinds. A name that is not in the map has no
/// known kind: a primitive, or a type that is left opaque on purpose.
#[derive(Debug, Clone)]
pub struct DeclarationTypeResolver {
    entries: Vec<(Path, DeclarationType)>,
}

/// The map that a list of entries stands for: of two entries for one name the
/// later counts.
pub closed spec fn entries_map(entries: Seq<(Path, DeclarationType)>) -> Map<
    Seq<char>,
    DeclarationType,
>
    decreases entries.len(),
{
    if entries.len() == 0 {
        Map::empty()
    } else {
        entries_map(entries.drop_last()).insert(entries.last().0@, entries.last().1)
    }
}

/// The kind that a map gives a name, if it gives one.
pub open spec fn kind_of(kinds: Map<Seq<char>, DeclarationType>, name: Seq<char>) -> Option<
    DeclarationType,
> {
    if kinds.contains_key(name) {
        Some(kinds[name])
    } else {
        None
    }
}

impl View for DeclarationTypeResolver {
    type V = Map<Seq<char>, DeclarationType>;

    closed spec fn view(&self) -> Map<Seq<char>, DeclarationType> {
        entries_map(self.entries@)
    }
}

impl DeclarationTypeResolver {
    /// An index that knows no name.
    pub fn new() -> (resolver: DeclarationTypeResolver)
        ensures
            resolver@ == Map::<Seq<char>, DeclarationType>::empty(),
    {
        DeclarationTypeResolver { entries: Vec::new() }
    }

    /// Records that `path` is declared as `kind`, in place of what was known
    /// of it.
    pub fn insert(&mut self, path: Path, kind: DeclarationType)
        ensures
            final(self)@ == old(self)@.insert(path@, kind),
    {
        let ghost before = self.entries@;
        self.entries.push((path, kind));
        assert(self.entries@.drop_last() =~= before);
    }

    /// The kind that `path` is declared as, if the index knows it.
    pub fn type_for(&self, path: &Path) -> (kind: Option<DeclarationType>)
        ensures
            kind == kind_of(self@, path@),
    {
        let mut i: usize = self.entries.len();
        assert(self.entries@.take(i as int) =~= self.entries@);
        while i > 0
            invariant
                i <= self.entries@.len(),
                kind_of(self@, path@) == kind_of(entries_map(self.entries@.take(i as int)), path@),
            decreases i,
        {
            let ghost prefix = self.entries@.take(i as int);
            assert(prefix.last() == self.entries@[i - 1]);
            assert(prefix.drop_last() =~= self.entries@.take(i - 1));
            i -= 1;
            if same(self.entries[i].0.name(), path.name()) {
                return Some(self.entries[i].1);
            }
        }
        None
    }
}

} // verus!
