//! What the user configures: the language that is written, and how exported
//! names are renamed.

use vstd::prelude::*;
use vstd::string::StringExecFns;

verus! {

/// The language that declarations are written in.
#[derive(Debug, Clone, Copy, PartialEq, Eq)]
pub enum Language {
    /// C++, which has templates: generic declarations keep their parameters.
    Cxx,
    /// C, which has none: every declaration arrives without parameters.
    C,
}

/// The rules by which a name is renamed on export.
#[derive(Debug, Clone, PartialEq, Eq)]
pub struct ExportConfig {
    /// Pairs of a name and the name that replaces it. Of two pairs for one
    /// name the first counts.
    pub rename: Vec<(String, String)>,
    /// Text put in front of every exported name.
    pub prefix: Option<String>,
}

/// The settings of one run.
#[derive(Debug, Clone, PartialEq, Eq)]
pub struct Config {
    pub language: Language,
    pub export: ExportConfig,
}

/// The export rules as plain values.
pub struct ExportView {
    pub rules: Seq<(Seq<char>, Seq<char>)>,
    pub prefix: Option<Seq<char>>,
}

/// The replacement that the first rule for `name` gives, if there is one.
pub open spec fn first_replacement(rules: Seq<(Seq<char>, Seq<char>)>, name: Seq<char>) -> Option<
    Seq<char>,
>
    decreases rules.len(),
{
    if rules.len() == 0 {
        None
    } else if rules[0].0 == name {
        Some(rules[0].1)
    } else {
        first_replacement(rules.drop_first(), name)
    }
}

impl ExportView {
    /// The name that `name` is exported under: its replacement if a rule names
    /// it, else itself, with the prefix in front.
    pub open spec fn rename(self, name: Seq<char>) -> Seq<char> {
        let replaced = match first_replacement(self.rules, name) {
            Some(to) => to,
            None => name,
        };
        match self.prefix {
            Some(prefix) => prefix + replaced,
            None => replaced,
        }
    }
}

impl View for ExportConfig {
    type V = ExportView;

    open spec fn view(&self) -> ExportView {
        ExportView {
            rules: Seq::new(
                self.rename@.len(),
                |i: int| (self.rename@[i].0@, self.rename@[i].1@),
            ),
            prefix: match self.prefix {
                Some(prefix) => Some(prefix@),
                None => None,
            },
        }
    }
}

impl ExportConfig {
    /// Rules that leave every name as it is.
    pub fn new() -> (config: ExportConfig)
        ensures
            config@.rules.len() == 0,
            config@.prefix is None,
    {
        ExportConfig { rename: Vec::new(), prefix: None }
    }

    /// Renames `item_name` in place.
    pub fn rename(&self, item_name: &mut String)
        ensures
            final(item_name)@ == self@.rename(old(item_name)@),
    {
        let ghost rules = self@.rules;
        let ghost name = item_name@;
        let n = self.rename.len();
        let mut i: usize = 0;
        let mut found = false;
        assert(rules.skip(0) =~= rules);
        while i < n && !found
            invariant
                i <= n,
                n == self.rename@.len(),
                rules == self@.rules,
                name == old(item_name)@,
                !found ==> item_name@ == name,
                !found ==> first_replacement(rules, name) == first_replacement(
                    rules.skip(i as int),
                    name,
                ),
                found ==> first_replacement(rules, name) == Some(item_name@),
            decreases n - i + (if found { 0int } else { 1int }),
        {
            let ghost rest = rules.skip(i as int);
            assert(rest[0] == rules[i as int]);
            assert(rest.drop_first() =~= rules.skip(i + 1));
            if self.rename[i].0 == *item_name {
                *item_name = self.rename[i].1.clone();
                found = true;
            } else {
                i += 1;
            }
        }
        assert(!found ==> first_replacement(rules, name) is None) by {
            if !found {
                assert(rules.skip(n as int).len() == 0);
            }
        }
        match &self.prefix {
            Some(prefix) => {
                let mut prefixed = prefix.clone();
                prefixed.append(item_name.as_str());
                *item_name = prefixed;
            },
            None => {},
        }
    }
}

} // verus!
