//! A plugin of this kind, and the listing of those that are installed.

use vstd::prelude::*;
use crate::error::{ErrorModel, PluginError};
use crate::names::{names_of, strictly_increasing, NameSet};
use crate::registry::Registry;
use crate::resolver::{
    github_base, is_shorthand_spec, lemma_shorthand_resolves_to_github, parse_outcome, parse_source,
    resolve_spec, strip_kind_prefix_spec, text_result, vfox_to_url,
};
use crate::text::{copy_opt, join2, opt_text, same_text};

verus! {

/// The kinds of plugin that the installed-plugins index tells apart.
#[derive(Debug, Clone, Copy, PartialEq, Eq, Structural)]
pub enum PluginType {
    Asdf,
    Vfox,
}

/// One directory of the installed-plugins index: its name and its kind.
#[derive(Debug, Clone, PartialEq, Eq)]
pub struct IndexEntry {
    pub name: String,
    pub kind: PluginType,
}

/// The mathematical content of a [`VfoxPlugin`].
pub struct PluginModel {
    pub name: Seq<char>,
    pub root: Seq<char>,
    pub repo_url: Option<Seq<char>>,
}

impl PluginModel {
    /// Where the plugin is installed: `<root>/<name>`.
    pub open spec fn path(self) -> Seq<char> {
        self.root + "/"@ + self.name
    }

    /// The remote that is reported for the plugin: the one configured in the
    /// working copy, else the one the plugin was registered with.
    pub open spec fn remote(self, configured: Option<Seq<char>>) -> Option<Seq<char>> {
        match configured {
            Some(url) => Some(url),
            None => self.repo_url,
        }
    }

    /// The address the plugin is cloned from: the configured remote, parsed,
    /// else what the name resolves to.
    pub open spec fn repo_url_spec(self, registry: Registry, configured: Option<Seq<char>>) -> Result<
        Seq<char>,
        ErrorModel,
    > {
        match configured {
            Some(url) => parse_outcome(self.name, url, url),
            None => resolve_spec(registry, self.name),
        }
    }
}

/// A plugin whose name has the form `owner/repo`, which the registry does
/// not know and whose working copy has no remote, is cloned from what the
/// parser makes of the GitHub address of that repository.
pub proof fn lemma_shorthand_plugin_clones_from_github(plugin: PluginModel, registry: Registry)
    requires
        is_shorthand_spec(plugin.name),
        registry.lookup(strip_kind_prefix_spec(plugin.name)) is None,
    ensures
        plugin.repo_url_spec(registry, None) == parse_outcome(
            plugin.name,
            plugin.name,
            github_base() + plugin.name,
        ),
{
    lemma_shorthand_resolves_to_github(registry, plugin.name);
}

/// `name` is listed: the index has it with this kind and it is not disabled.
pub open spec fn is_listed(index: Seq<IndexEntry>, disabled: Seq<String>, name: Seq<char>) -> bool {
    &&& exists|i: int|
        0 <= i < index.len() && (#[trigger] index[i]).kind == PluginType::Vfox && index[i].name@
            == name
    &&& !names_of(disabled).contains(name)
}

/// The names of `plugins`, in their order.
pub open spec fn plugin_names(plugins: Seq<VfoxPlugin>) -> Seq<Seq<char>> {
    Seq::new(plugins.len(), |i: int| plugins[i]@.name)
}

/// A runtime plugin, known by its name and found under the plugins root.
#[derive(Debug, PartialEq, Eq)]
pub struct VfoxPlugin {
    name: String,
    plugins_root: String,
    repo_url: Option<String>,
}

impl View for VfoxPlugin {
    type V = PluginModel;

    closed spec fn view(&self) -> PluginModel {
        PluginModel { name: self.name@, root: self.plugins_root@, repo_url: opt_text(self.repo_url) }
    }
}

impl VfoxPlugin {
    #[verifier::type_invariant]
    spec fn named(self) -> bool {
        self.name@.len() > 0
    }

    /// A plugin called `name` under `plugins_root`, registered with no remote.
    pub fn new(name: String, plugins_root: &str) -> (plugin: VfoxPlugin)
        requires
            name@.len() > 0,
        ensures
            plugin@ == (PluginModel { name: name@, root: plugins_root@, repo_url: None }),
    {
        VfoxPlugin { name, plugins_root: plugins_root.to_owned(), repo_url: None }
    }

    /// The same plugin, registered with `url` as its known remote.
    pub fn with_repo_url(self, url: Option<String>) -> (plugin: VfoxPlugin)
        ensures
            plugin@ == (PluginModel { repo_url: opt_text(url), ..self@ }),
    {
        proof {
            use_type_invariant(&self);
        }
        VfoxPlugin { name: self.name, plugins_root: self.plugins_root, repo_url: url }
    }

    /// A copy of the plugin.
    pub fn duplicate(&self) -> (copy: VfoxPlugin)
        ensures
            copy@ == self@,
    {
        proof {
            use_type_invariant(self);
        }
        VfoxPlugin {
            name: self.name.clone(),
            plugins_root: self.plugins_root.clone(),
            repo_url: copy_opt(&self.repo_url),
        }
    }

    /// The plugin's name, which is never empty.
    pub fn name(&self) -> (name: &str)
        ensures
            name@ == self@.name,
            name@.len() > 0,
    {
        proof {
            use_type_invariant(self);
        }
        self.name.as_str()
    }

    /// The directory under which plugins of this kind are installed.
    pub fn plugins_root(&self) -> (root: String)
        ensures
            root@ == self@.root,
    {
        self.plugins_root.clone()
    }

    /// Where the plugin is installed.
    pub fn path(&self) -> (path: String)
        ensures
            path@ == self@.path(),
    {
        let mut path = join2(self.plugins_root.as_str(), "/");
        path.append(self.name.as_str());
        path
    }

    /// The remote that the plugin was registered with.
    pub fn repo_url(&self) -> (url: Option<String>)
        ensures
            opt_text(url) == self@.repo_url,
    {
        copy_opt(&self.repo_url)
    }

    /// The kind of this plugin.
    pub fn get_plugin_type(&self) -> (kind: PluginType)
        ensures
            kind == PluginType::Vfox,
    {
        PluginType::Vfox
    }

    /// The remote to report, given the one `configured` in the working copy.
    pub fn get_remote_url(&self, configured: Option<String>) -> (url: Option<String>)
        ensures
            opt_text(url) == self@.remote(opt_text(configured)),
    {
        match configured {
            Some(url) => Some(url),
            None => copy_opt(&self.repo_url),
        }
    }

    /// The address to clone from, given the remote `configured` in the
    /// working copy. A configured remote that is no URL is an error; the
    /// name is not tried in its place.
    pub fn get_repo_url(&self, registry: &Registry, configured: Option<&str>) -> (out: Result<
        String,
        PluginError,
    >)
        ensures
            text_result(out) == self@.repo_url_spec(
                *registry,
                match configured {
                    Some(url) => Some(url@),
                    None => None,
                },
            ),
    {
        match configured {
            Some(url) => parse_source(self.name.as_str(), url, url),
            None => vfox_to_url(registry, self.name.as_str()),
        }
    }

    /// Succeeds if the plugin is `installed`, and else says how to get it.
    pub fn is_installed_err(&self, installed: bool) -> (out: Result<(), PluginError>)
        ensures
            match out {
                Ok(_) => installed,
                Err(e) => !installed && e@ == (ErrorModel::NotInstalled { plugin: self@.name }),
            },
    {
        if installed {
            Ok(())
        } else {
            Err(PluginError::NotInstalled { plugin: self.name.clone() })
        }
    }

    /// The installed plugins of this kind that are not disabled, in the order
    /// of their names and each once.
    pub fn list(index: &Vec<IndexEntry>, disabled: &Vec<String>, plugins_root: &str) -> (out: Result<
        Vec<VfoxPlugin>,
        PluginError,
    >)
        requires
            forall|i: int| 0 <= i < index@.len() ==> (#[trigger] index@[i]).name@.len() > 0,
        ensures
            out matches Ok(plugins) && {
                &&& forall|i: int|
                    0 <= i < plugins@.len() ==> (#[trigger] plugins@[i])@ == (PluginModel {
                        name: plugin_names(plugins@)[i],
                        root: plugins_root@,
                        repo_url: None,
                    })
                &&& forall|i: int, j: int|
                    0 <= i < j < plugins@.len() ==> crate::text::lex_lt(
                        #[trigger] plugin_names(plugins@)[i],
                        #[trigger] plugin_names(plugins@)[j],
                    )
                &&& forall|name: Seq<char>|
                    plugin_names(plugins@).contains(name) <==> is_listed(index@, disabled@, name)
            },
    {
        let mut kept = NameSet::new();
        let mut i: usize = 0;
        while i < index.len()
            invariant
                i <= index@.len(),
                forall|k: int| 0 <= k < index@.len() ==> (#[trigger] index@[k]).name@.len() > 0,
                forall|name: Seq<char>|
                    kept@.contains(name) <==> is_listed(index@.take(i as int), disabled@, name),
            decreases index@.len() - i,
        {
            let entry = &index[i];
            let ghost before = kept@;
            let wanted = match entry.kind {
                PluginType::Vfox => !is_disabled(disabled, entry.name.as_str()),
                PluginType::Asdf => false,
            };
            if wanted {
                kept = kept.insert(entry.name.clone());
            }
            proof {
                let upto = index@.take(i as int);
                let next = index@.take(i as int + 1);
                assert(next[i as int] == index@[i as int]);
                assert forall|name: Seq<char>| kept@.contains(name) <==> is_listed(
                    next,
                    disabled@,
                    name,
                ) by {
                    if is_listed(upto, disabled@, name) {
                        let k = choose|k: int|
                            0 <= k < upto.len() && (#[trigger] upto[k]).kind == PluginType::Vfox
                                && upto[k].name@ == name;
                        assert(next[k] == upto[k]);
                    }
                    if is_listed(next, disabled@, name) {
                        let k = choose|k: int|
                            0 <= k < next.len() && (#[trigger] next[k]).kind == PluginType::Vfox
                                && next[k].name@ == name;
                        if k < i {
                            assert(upto[k] == next[k]);
                        }
                    }
                }
            }
            i += 1;
        }
        assert(index@.take(i as int) =~= index@);
        let names = kept.to_vec();
        let mut plugins: Vec<VfoxPlugin> = Vec::new();
        let mut j: usize = 0;
        while j < names.len()
            invariant
                j <= names@.len(),
                plugins@.len() == j,
                names@ == kept.in_order(),
                kept.well_formed(),
                forall|k: int| 0 <= k < index@.len() ==> (#[trigger] index@[k]).name@.len() > 0,
                forall|name: Seq<char>|
                    names_of(names@).contains(name) ==> is_listed(index@, disabled@, name),
                forall|k: int|
                    0 <= k < j ==> (#[trigger] plugins@[k])@ == (PluginModel {
                        name: names@[k]@,
                        root: plugins_root@,
                        repo_url: None,
                    }),
            decreases names@.len() - j,
        {
            proof {
                assert(names_of(names@).contains(names@[j as int]@));
                let k = choose|k: int|
                    0 <= k < index@.len() && (#[trigger] index@[k]).kind == PluginType::Vfox
                        && index@[k].name@ == names@[j as int]@;
            }
            plugins.push(VfoxPlugin::new(names[j].clone(), plugins_root));
            j += 1;
        }
        proof {
            let listed = plugin_names(plugins@);
            assert(plugins@.len() == names@.len());
            assert(kept@ == names_of(names@));
            assert forall|name: Seq<char>| listed.contains(name) <==> is_listed(
                index@,
                disabled@,
                name,
            ) by {
                if listed.contains(name) {
                    let k = choose|k: int| 0 <= k < listed.len() && listed[k] == name;
                    assert(plugins@[k]@.name == name);
                    assert(names@[k]@ == name);
                    assert(names_of(names@).contains(name));
                }
                if is_listed(index@, disabled@, name) {
                    assert(kept@.contains(name));
                    let k = choose|k: int| 0 <= k < names@.len() && (#[trigger] names@[k])@ == name;
                    assert(listed[k] == name);
                }
            }
        }
        Ok(plugins)
    }
}

/// Tells whether `name` is among the disabled tools.
pub fn is_disabled(disabled: &Vec<String>, name: &str) -> (yes: bool)
    ensures
        yes == names_of(disabled@).contains(name@),
{
    let mut i: usize = 0;
    while i < disabled.len()
        invariant
            i <= disabled@.len(),
            forall|k: int| 0 <= k < i ==> (#[trigger] disabled@[k])@ != name@,
        decreases disabled@.len() - i,
    {
        if same_text(disabled[i].as_str(), name) {
            return true;
        }
        i += 1;
    }
    false
}

} // verus!
