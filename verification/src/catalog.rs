//! The names of the plugins of this kind that are known to be installed,
//! computed once.

use vstd::prelude::*;
use crate::error::PluginError;
use crate::names::NameSet;
use crate::plugin::{plugin_names, VfoxPlugin};
use crate::text::join2;

verus! {

/// The names that a listing stands for: those of its plugins, and none
/// where the listing failed.
pub open spec fn catalog_of(listing: Result<Vec<VfoxPlugin>, PluginError>) -> Set<Seq<char>> {
    match listing {
        Ok(plugins) => plugin_names(plugins@).to_set(),
        Err(_) => Set::empty(),
    }
}

/// A set of plugin names that is computed at most once and then stays as it
/// is. A listing that failed leaves it empty: an empty catalog may mean that
/// nothing could be listed, not that nothing is installed.
#[derive(Debug)]
pub struct PluginCatalog {
    names: Option<NameSet>,
}

impl PluginCatalog {
    /// The names of the catalog, once it is computed.
    pub closed spec fn computed(self) -> Option<Set<Seq<char>>> {
        match self.names {
            Some(set) => Some(set@),
            None => None,
        }
    }

    /// A catalog that is not computed yet.
    pub fn new() -> (catalog: PluginCatalog)
        ensures
            catalog.computed() is None,
    {
        PluginCatalog { names: None }
    }

    /// Tells whether the catalog is computed.
    pub fn is_computed(&self) -> (yes: bool)
        ensures
            yes == self.computed() is Some,
    {
        self.names.is_some()
    }

    /// Computes the catalog from `listing`, unless it is computed already.
    /// Hands back the warning to log where the listing failed.
    pub fn init(&mut self, listing: Result<Vec<VfoxPlugin>, PluginError>) -> (warning: Option<String>)
        ensures
            match old(self).computed() {
                Some(names) => final(self).computed() == Some(names) && warning is None,
                None => final(self).computed() == Some(catalog_of(listing)) && match listing {
                    Ok(_) => warning is None,
                    Err(e) => warning matches Some(text) && text@ == "Failed to list vfox plugins: "@
                        + e@.message(),
                },
            },
    {
        if self.names.is_some() {
            return None;
        }
        match listing {
            Ok(plugins) => {
                let mut set = NameSet::new();
                let mut i: usize = 0;
                while i < plugins.len()
                    invariant
                        i <= plugins@.len(),
                        set@ == plugin_names(plugins@).take(i as int).to_set(),
                    decreases plugins@.len() - i,
                {
                    proof {
                        let names = plugin_names(plugins@);
                        assert(names.take(i as int + 1) =~= names.take(i as int).push(names[i as int]));
                        assert(names.take(i as int).push(names[i as int]).to_set() =~= names.take(
                            i as int,
                        ).to_set().insert(names[i as int])) by {
                            let a = names.take(i as int);
                            let b = a.push(names[i as int]);
                            assert forall|n: Seq<char>| b.to_set().contains(n) <==> a.to_set().insert(
                                names[i as int],
                            ).contains(n) by {
                                if b.contains(n) {
                                    let k = choose|k: int| 0 <= k < b.len() && b[k] == n;
                                    if k < a.len() {
                                        assert(a[k] == n);
                                    }
                                }
                                if a.contains(n) {
                                    let k = choose|k: int| 0 <= k < a.len() && a[k] == n;
                                    assert(b[k] == n);
                                }
                                if n == names[i as int] {
                                    assert(b[a.len() as int] == n);
                                }
                            }
                        }
                    }
                    set = set.insert(plugins[i].name().to_owned());
                    i += 1;
                }
                proof {
                    let names = plugin_names(plugins@);
                    assert(names.take(i as int) =~= names);
                }
                self.names = Some(set);
                None
            },
            Err(e) => {
                let text = join2("Failed to list vfox plugins: ", e.message().as_str());
                self.names = Some(NameSet::new());
                Some(text)
            },
        }
    }

    /// Tells whether `name` is in the catalog. Nothing is in a catalog that
    /// is not computed.
    pub fn contains(&self, name: &str) -> (yes: bool)
        ensures
            yes == (self.computed() matches Some(names) && names.contains(name@)),
    {
        match &self.names {
            Some(set) => set.contains(name),
            None => false,
        }
    }

    /// The names of the catalog in their order; none for a catalog that is
    /// not computed.
    pub fn names(&self) -> (out: Vec<String>)
        ensures
            crate::names::strictly_increasing(out@),
            match self.computed() {
                Some(names) => crate::names::names_of(out@) == names,
                None => out@.len() == 0,
            },
    {
        match &self.names {
            Some(set) => set.to_vec(),
            None => Vec::new(),
        }
    }
}

} // verus!
