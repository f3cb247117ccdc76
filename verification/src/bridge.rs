//! What is handed to the embedded scripting runtime, and what is made of its
//! answers.
//!
//! The host runs the runtime; this module fixes the directories that the
//! runtime is configured with and shapes its results.

use vstd::prelude::*;
use indexmap::IndexMap;
use crate::error::{ErrorModel, PluginError};
use crate::plugin::VfoxPlugin;
use crate::text::join2;

verus! {

/// The directories that the runtime works in.
#[derive(Debug, Clone, PartialEq, Eq)]
pub struct RuntimeConfig {
    pub plugin_dir: String,
    pub cache_dir: String,
    pub download_dir: String,
    pub install_dir: String,
    pub temp_dir: String,
}

/// One variable that a plugin asks to be set.
#[derive(Debug, Clone, PartialEq, Eq)]
pub struct EnvKey {
    pub key: String,
    pub value: String,
}

/// The keys and values of a map, in the order in which the map is walked.
pub type Entries = Seq<(Seq<char>, Seq<char>)>;

/// `i` is the first position of `entries` that holds `key`.
pub open spec fn is_first_key_index(entries: Entries, key: Seq<char>, i: int) -> bool {
    &&& 0 <= i < entries.len()
    &&& entries[i].0 == key
    &&& forall|j: int| 0 <= j < i ==> entries[j].0 != key
}

/// `entries` holds `key`.
pub open spec fn has_key(entries: Entries, key: Seq<char>) -> bool {
    exists|i: int| 0 <= i < entries.len() && (#[trigger] entries[i]).0 == key
}

/// `entries` after `key` is set to `value`: a key that is there keeps its
/// place and gets the value, a new key goes to the end.
pub open spec fn put_entry(entries: Entries, key: Seq<char>, value: Seq<char>) -> Entries {
    if has_key(entries, key) {
        entries.update(choose|i: int| is_first_key_index(entries, key, i), (key, value))
    } else {
        entries.push((key, value))
    }
}

/// The entries that come of setting each variable of `results` in turn.
pub open spec fn collect_env(results: Seq<EnvKey>) -> Entries
    decreases results.len(),
{
    if results.len() == 0 {
        Seq::empty()
    } else {
        put_entry(collect_env(results.drop_last()), results.last().key@, results.last().value@)
    }
}

/// After its last setting, a key stands for the value of that setting.
pub proof fn lemma_put_entry_holds_value(entries: Entries, key: Seq<char>, value: Seq<char>)
    ensures
        has_key(put_entry(entries, key, value), key),
        forall|i: int|
            0 <= i < put_entry(entries, key, value).len() && (#[trigger] put_entry(
                entries,
                key,
                value,
            )[i]).0 == key && is_first_key_index(put_entry(entries, key, value), key, i)
                ==> put_entry(entries, key, value)[i].1 == value,
        forall|other: Seq<char>|
            other != key ==> (has_key(put_entry(entries, key, value), other) <==> has_key(
                entries,
                other,
            )),
{
    let after = put_entry(entries, key, value);
    if has_key(entries, key) {
        let k = choose|k: int| 0 <= k < entries.len() && (#[trigger] entries[k]).0 == key;
        lemma_first_key_index_exists(entries, key, k);
    }
    assert forall|other: Seq<char>| other != key implies (has_key(after, other) <==> has_key(
        entries,
        other,
    )) by {
        if has_key(after, other) {
            let j = choose|j: int| 0 <= j < after.len() && (#[trigger] after[j]).0 == other;
            assert(entries[j].0 == other);
        }
        if has_key(entries, other) {
            let j = choose|j: int| 0 <= j < entries.len() && (#[trigger] entries[j]).0 == other;
            assert(after[j].0 == other);
        }
    }
    let at = if has_key(entries, key) {
        choose|i: int| is_first_key_index(entries, key, i)
    } else {
        entries.len() as int
    };
    assert(after[at].0 == key);
    assert forall|i: int|
        0 <= i < after.len() && (#[trigger] after[i]).0 == key && is_first_key_index(
            after,
            key,
            i,
        ) implies after[i].1 == value by {
        if i < at {
            assert(entries[i].0 == key);
        }
    }
}

/// A key that stands somewhere has a first place.
proof fn lemma_first_key_index_exists(entries: Entries, key: Seq<char>, k: int)
    requires
        0 <= k < entries.len(),
        entries[k].0 == key,
    ensures
        exists|i: int| is_first_key_index(entries, key, i),
    decreases k,
{
    if forall|j: int| 0 <= j < k ==> entries[j].0 != key {
        assert(is_first_key_index(entries, key, k));
    } else {
        let j = choose|j: int| 0 <= j < k && entries[j].0 == key;
        lemma_first_key_index_exists(entries, key, j);
    }
}

/// The ordered map of the `indexmap` crate, declared so that it can be
/// handed through verified code; nothing of its inside is known here.
#[verifier::external_type_specification]
#[verifier::external_body]
#[verifier::reject_recursive_types(K)]
#[verifier::reject_recursive_types(V)]
#[verifier::reject_recursive_types(S)]
pub struct ExIndexMap<K, V, S>(IndexMap<K, V, S>);

/// The keys and values that `map` holds, in the order in which it is walked.
pub uninterp spec fn env_entries(map: IndexMap<String, String>) -> Entries;

/// Calls `IndexMap::new`.
///
/// Trusted: a new map holds nothing.
#[verifier::external_body]
fn env_map_new() -> (map: IndexMap<String, String>)
    ensures
        env_entries(map) == Seq::<(Seq<char>, Seq<char>)>::empty(),
{
    IndexMap::new()
}

/// Calls `IndexMap::insert`.
///
/// Trusted: as the crate documents, a key that the map holds keeps its place
/// in the order and gets the new value; a key that it does not hold is put
/// last.
#[verifier::external_body]
fn env_map_insert(map: &mut IndexMap<String, String>, key: String, value: String)
    ensures
        env_entries(*final(map)) == put_entry(env_entries(*old(map)), key@, value@),
{
    map.insert(key, value);
}

/// Puts the variables of `results` into a map, in their order; of two
/// values for one key the later one stays, at the place of the first.
pub fn env_map(results: Vec<EnvKey>) -> (map: IndexMap<String, String>)
    ensures
        env_entries(map) == collect_env(results@),
{
    let mut map = env_map_new();
    let mut i: usize = 0;
    while i < results.len()
        invariant
            i <= results@.len(),
            env_entries(map) == collect_env(results@.take(i as int)),
        decreases results@.len() - i,
    {
        proof {
            let next = results@.take(i as int + 1);
            assert(next.drop_last() =~= results@.take(i as int));
            assert(next.last() == results@[i as int]);
        }
        env_map_insert(&mut map, results[i].key.clone(), results[i].value.clone());
        i += 1;
    }
    assert(results@.take(i as int) =~= results@);
    map
}

impl VfoxPlugin {
    /// The directories that the runtime is configured with for this plugin:
    /// the plugins root that the plugin lives under, the three roots given,
    /// and a directory of its own under `temp_root`.
    pub fn vfox(&self, cache_root: &str, download_root: &str, install_root: &str, temp_root: &str) -> (config:
        RuntimeConfig)
        ensures
            config.plugin_dir@ == self@.root,
            config.cache_dir@ == cache_root@,
            config.download_dir@ == download_root@,
            config.install_dir@ == install_root@,
            config.temp_dir@ == temp_root@ + "/mise-vfox"@,
    {
        RuntimeConfig {
            plugin_dir: self.plugins_root(),
            cache_dir: cache_root.to_owned(),
            download_dir: download_root.to_owned(),
            install_dir: install_root.to_owned(),
            temp_dir: join2(temp_root, "/mise-vfox"),
        }
    }

    /// The error for a failure of the runtime with `message`.
    pub fn runtime_error(&self, message: String) -> (error: PluginError)
        ensures
            error@ == (ErrorModel::RuntimeExecution { plugin: self@.name, message: message@ }),
    {
        PluginError::RuntimeExecution { plugin: self.name().to_owned(), message }
    }

    /// The environment that the plugin asks for, from what the runtime
    /// answered: the variables as a map, or the runtime's failure.
    pub fn mise_env(&self, answer: Result<Vec<EnvKey>, String>) -> (out: Result<
        Option<IndexMap<String, String>>,
        PluginError,
    >)
        ensures
            match answer {
                Ok(results) => out matches Ok(Some(map)) && env_entries(map) == collect_env(
                    results@,
                ),
                Err(message) => out matches Err(e) && e@ == (ErrorModel::RuntimeExecution {
                    plugin: self@.name,
                    message: message@,
                }),
            },
    {
        match answer {
            Ok(results) => Ok(Some(env_map(results))),
            Err(message) => Err(self.runtime_error(message)),
        }
    }

    /// The entries that the plugin adds to the search path, from what the
    /// runtime answered: the entries in their order, or the runtime's failure.
    pub fn mise_path(&self, answer: Result<Vec<String>, String>) -> (out: Result<
        Option<Vec<String>>,
        PluginError,
    >)
        ensures
            match answer {
                Ok(results) => out matches Ok(Some(entries)) && entries@ == results@,
                Err(message) => out matches Err(e) && e@ == (ErrorModel::RuntimeExecution {
                    plugin: self@.name,
                    message: message@,
                }),
            },
    {
        match answer {
            Ok(results) => Ok(Some(results)),
            Err(message) => Err(self.runtime_error(message)),
        }
    }
}

} // verus!
