//! The table of short aliases for plugin sources.

use vstd::prelude::*;
use crate::text::{find_char, same_text, tail_after};

verus! {

/// One alias and the source it stands for, written `"<kind>:<owner>/<repo>"`.
#[derive(Debug, Clone, PartialEq, Eq)]
pub struct RegistryEntry {
    pub alias: String,
    pub target: String,
}

/// The part of a target after its first `:`; the whole target if it has none.
pub open spec fn payload_of(target: Seq<char>) -> Seq<char> {
    if exists|i: int| crate::text::is_first_index_of(target, ':', i) {
        target.skip((choose|i: int| crate::text::is_first_index_of(target, ':', i)) + 1)
    } else {
        target
    }
}

/// The target of the last entry for `key`, if any entry has that alias.
pub open spec fn lookup_in(entries: Seq<RegistryEntry>, key: Seq<char>) -> Option<Seq<char>>
    decreases entries.len(),
{
    if entries.len() == 0 {
        None
    } else if entries.last().alias@ == key {
        Some(entries.last().target@)
    } else {
        lookup_in(entries.drop_last(), key)
    }
}

/// A read-mostly table from alias to target. A table built with [`Registry::new`]
/// and [`Registry::insert`] holds only targets with a `:`.
#[derive(Debug, Clone)]
pub struct Registry {
    entries: Vec<RegistryEntry>,
}

impl Registry {
    /// The target registered for `key`.
    pub closed spec fn lookup(self, key: Seq<char>) -> Option<Seq<char>> {
        lookup_in(self.entries@, key)
    }

    /// Whether every registered target holds a `:`.
    pub closed spec fn targets_have_kind(self) -> bool {
        forall|i: int|
            0 <= i < self.entries@.len() ==> (#[trigger] self.entries@[i]).target@.contains(':')
    }

    /// A table without entries.
    pub fn new() -> (registry: Registry)
        ensures
            forall|key: Seq<char>| registry.lookup(key) is None,
            registry.targets_have_kind(),
    {
        Registry { entries: Vec::new() }
    }

    /// Registers `target` for `alias`, replacing what the alias stood for.
    /// A target without a `:` is refused and the table stays as it was.
    pub fn insert(&mut self, alias: String, target: String) -> (accepted: bool)
        ensures
            accepted == target@.contains(':'),
            old(self).targets_have_kind() ==> final(self).targets_have_kind(),
            forall|key: Seq<char>| #[trigger]
                final(self).lookup(key) == if accepted && key == alias@ {
                    Some(target@)
                } else {
                    old(self).lookup(key)
                },
    {
        if find_char(target.as_str(), ':').is_none() {
            return false;
        }
        let ghost before = self.entries@;
        self.entries.push(RegistryEntry { alias, target });
        proof {
            assert(self.entries@.drop_last() =~= before);
        }
        true
    }

    /// The target registered for `key`, if any.
    pub fn get(&self, key: &str) -> (found: Option<String>)
        ensures
            match found {
                Some(target) => self.lookup(key@) == Some(target@),
                None => self.lookup(key@) is None,
            },
    {
        let mut i: usize = self.entries.len();
        assert(self.entries@.take(i as int) =~= self.entries@);
        while i > 0
            invariant
                i <= self.entries.len(),
                lookup_in(self.entries@, key@) == lookup_in(self.entries@.take(i as int), key@),
            decreases i,
        {
            i -= 1;
            proof {
                let upto = self.entries@.take(i as int + 1);
                assert(upto.last() == self.entries@[i as int]);
                assert(upto.drop_last() =~= self.entries@.take(i as int));
            }
            if same_text(self.entries[i].alias.as_str(), key) {
                return Some(self.entries[i].target.clone());
            }
        }
        None
    }

    /// The part after the first `:` of the target registered for `key`.
    pub fn payload(&self, key: &str) -> (found: Option<String>)
        ensures
            match found {
                Some(p) => self.lookup(key@) matches Some(target) && p@ == payload_of(target),
                None => self.lookup(key@) is None,
            },
    {
        match self.get(key) {
            Some(target) => {
                match find_char(target.as_str(), ':') {
                    Some(at) => Some(tail_after(target.as_str(), at)),
                    None => Some(target),
                }
            },
            None => None,
        }
    }
}

} // verus!
