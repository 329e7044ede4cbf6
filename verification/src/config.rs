//! The Luau configuration file: aliases for `require`, and whatever else
//! the file holds.

use crate::json::{json_doc, JsonDoc};
use crate::strmap::{sorted_keys, StrMap};
use serde_json::Value;
use vstd::prelude::*;

verus! {

/// The Luau configuration. An alias name has at most one path, and the
/// aliases stand in the rising order of their names.
#[derive(Clone, Debug)]
pub struct Luaurc {
    /// The path that each alias stands for.
    pub aliases: StrMap<String>,
    /// The other members of the file, kept as they are.
    pub other: StrMap<Value>,
}

/// The Luau configuration as contracts see it.
pub struct LuaurcView {
    /// The path that each alias stands for.
    pub aliases: Map<Seq<char>, Seq<char>>,
    /// What each of the other members holds.
    pub other: Map<Seq<char>, JsonDoc>,
}

/// The texts that the aliases stand for.
pub open spec fn alias_paths(aliases: Map<Seq<char>, String>) -> Map<Seq<char>, Seq<char>> {
    Map::new(|k: Seq<char>| aliases.contains_key(k), |k: Seq<char>| aliases[k]@)
}

/// What each of the other members holds.
pub open spec fn member_docs(other: Map<Seq<char>, Value>) -> Map<Seq<char>, JsonDoc> {
    Map::new(|k: Seq<char>| other.contains_key(k), |k: Seq<char>| json_doc(other[k]))
}

impl Luaurc {
    /// The aliases and the other members.
    pub open spec fn view(self) -> LuaurcView {
        LuaurcView { aliases: alias_paths(self.aliases@), other: member_docs(self.other@) }
    }

    /// A configuration without aliases and without other members.
    pub fn new() -> (r: Self)
        ensures
            r@.aliases == Map::<Seq<char>, Seq<char>>::empty(),
            r@.other == Map::<Seq<char>, JsonDoc>::empty(),
    {
        let r = Luaurc { aliases: StrMap::new(), other: StrMap::new() };
        assert(r@.aliases =~= Map::<Seq<char>, Seq<char>>::empty());
        assert(r@.other =~= Map::<Seq<char>, JsonDoc>::empty());
        r
    }

    /// Lets the alias `name` stand for `path`, in the place of any earlier
    /// path. The other members stay.
    pub fn add_alias(&mut self, name: &str, path: &str)
        ensures
            final(self)@ == (LuaurcView {
                aliases: old(self)@.aliases.insert(name@, path@),
                ..old(self)@
            }),
            sorted_keys(final(self).aliases.entries()),
            final(self).other == old(self).other,
    {
        self.aliases.insert(name.to_owned(), path.to_owned());
        assert(self@.aliases =~= old(self)@.aliases.insert(name@, path@));
    }

    /// Drops the alias `name`, if there is one. The other members stay.
    pub fn remove_alias(&mut self, name: &str)
        ensures
            final(self)@ == (LuaurcView {
                aliases: old(self)@.aliases.remove(name@),
                ..old(self)@
            }),
            sorted_keys(final(self).aliases.entries()),
            final(self).other == old(self).other,
    {
        self.aliases.remove(name);
        assert(self@.aliases =~= old(self)@.aliases.remove(name@));
    }

    /// The path that the alias `name` stands for.
    pub fn alias(&self, name: &str) -> (r: Option<&String>)
        ensures
            r.is_some() == self@.aliases.contains_key(name@),
            r matches Some(p) ==> p@ == self@.aliases[name@],
    {
        self.aliases.get(name)
    }
}

} // verus!
