//! The lock file: what is installed, by dependency name.

use crate::strmap::{sorted_keys, StrMap};
use vstd::prelude::*;

verus! {

/// One installed dependency.
#[derive(Clone, Debug)]
pub struct LockEntry {
    pub url: Option<String>,
    pub version: Option<String>,
    pub path: Option<String>,
    pub checksum: String,
    pub installed_at: u64,
}

/// The installed dependencies by name. A name has at most one entry, and
/// the entries stand in the rising order of their names.
#[derive(Clone, Debug)]
pub struct LockFile {
    pub dependencies: StrMap<LockEntry>,
}

impl LockFile {
    /// The entries by name.
    pub open spec fn view(self) -> Map<Seq<char>, LockEntry> {
        self.dependencies@
    }

    /// A lock file without entries.
    pub fn new() -> (r: Self)
        ensures
            r@ == Map::<Seq<char>, LockEntry>::empty(),
    {
        LockFile { dependencies: StrMap::new() }
    }

    /// Records `entry` under `name`, in the place of any earlier entry of
    /// that name. Every other name keeps its entry, and the names stay in
    /// rising order.
    pub fn set(&mut self, name: &str, entry: LockEntry)
        ensures
            final(self)@ == old(self)@.insert(name@, entry),
            sorted_keys(final(self).dependencies.entries()),
            final(self).dependencies.entries().len() == old(self).dependencies.entries().len() + (
            if old(self)@.contains_key(name@) {
                0int
            } else {
                1int
            }),
    {
        self.dependencies.insert(name.to_owned(), entry);
    }

    /// Drops the entry of `name`, if there is one. The other names stay in
    /// rising order.
    pub fn remove(&mut self, name: &str)
        ensures
            final(self)@ == old(self)@.remove(name@),
            sorted_keys(final(self).dependencies.entries()),
    {
        self.dependencies.remove(name);
    }

    /// The entry of `name`.
    pub fn get(&self, name: &str) -> (r: Option<&LockEntry>)
        ensures
            r.is_some() == self@.contains_key(name@),
            r matches Some(e) ==> *e == self@[name@],
    {
        self.dependencies.get(name)
    }
}

impl Default for LockFile {
    fn default() -> (r: Self)
        ensures
            r@ == Map::<Seq<char>, LockEntry>::empty(),
    {
        LockFile::new()
    }
}

} // verus!
