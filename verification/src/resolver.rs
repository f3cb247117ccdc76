//! From a plugin name to the address its repository is cloned from.
//!
//! A name is resolved in stages: registry aliases are followed, an
//! `owner/repo` shorthand is expanded to a GitHub address, and the text that
//! results is parsed as a URL.

use vstd::prelude::*;
use crate::error::{ErrorModel, PluginError};
use crate::registry::{payload_of, Registry};
use crate::text::{find_char, has_prefix, head_to, is_first_index_of, join2, tail_after, tail_from};

verus! {

/// How many aliases in a row a name may go through.
pub const MAX_ALIAS_DEPTH: usize = 2;

/// The prefix that names of this kind of plugin may carry.
pub open spec fn kind_prefix() -> Seq<char> {
    "vfox-"@
}

/// The address that a shorthand is appended to.
pub open spec fn github_base() -> Seq<char> {
    "https://github.com/"@
}

/// `name` without any leading repetitions of the kind prefix.
pub open spec fn strip_kind_prefix_spec(name: Seq<char>) -> Seq<char>
    decreases name.len(),
{
    if kind_prefix().len() > 0 && kind_prefix().is_prefix_of(name) {
        strip_kind_prefix_spec(name.skip(kind_prefix().len() as int))
    } else {
        name
    }
}

/// `name` is `owner/repo`: exactly one `/`, with text on both sides of it.
pub open spec fn is_shorthand_spec(name: Seq<char>) -> bool {
    exists|i: int|
        0 < i < name.len() - 1 && #[trigger] name[i] == '/' && forall|j: int|
            0 <= j < name.len() && j != i ==> name[j] != '/'
}

/// `target` begins with `/` or `~`, as a path on this machine would.
pub open spec fn is_local_path_spec(target: Seq<char>) -> bool {
    target.len() > 0 && (target[0] == '/' || target[0] == '~')
}

/// The address before the first `#` and the ref after it, if there is a `#`.
pub open spec fn split_url_and_ref_spec(url: Seq<char>) -> (Seq<char>, Option<Seq<char>>) {
    if url.contains('#') {
        let at = choose|i: int| is_first_index_of(url, '#', i);
        (url.take(at), Some(url.skip(at + 1)))
    } else {
        (url, None)
    }
}

/// The name reached from `name` by following at most `fuel` aliases.
pub open spec fn follow_aliases(registry: Registry, name: Seq<char>, fuel: nat) -> Seq<char>
    decreases fuel,
{
    match registry.lookup(strip_kind_prefix_spec(name)) {
        Some(target) => if fuel > 0 {
            follow_aliases(registry, payload_of(target), (fuel - 1) as nat)
        } else {
            name
        },
        None => name,
    }
}

/// The text that stands for `name` once it is no alias: a shorthand is put
/// behind the GitHub base, anything else is taken as it is.
pub open spec fn expand_shorthand(name: Seq<char>) -> Seq<char> {
    if is_shorthand_spec(name) {
        github_base() + name
    } else {
        name
    }
}

/// The text that is handed to the URL parser for `name`, or the error for an
/// alias chain that is longer than [`MAX_ALIAS_DEPTH`].
pub open spec fn source_candidate_spec(registry: Registry, name: Seq<char>) -> Result<
    Seq<char>,
    ErrorModel,
> {
    let inner = follow_aliases(registry, name, MAX_ALIAS_DEPTH as nat);
    if registry.lookup(strip_kind_prefix_spec(inner)) is Some {
        Err(ErrorModel::Resolution { plugin: name, input: inner })
    } else {
        Ok(expand_shorthand(inner))
    }
}

/// The serialization of the URL that `input` parses to; `None` where the
/// parser rejects `input`.
pub uninterp spec fn parsed_url(input: Seq<char>) -> Option<Seq<char>>;

/// What parsing `input` on behalf of `plugin` comes to.
pub open spec fn parse_outcome(plugin: Seq<char>, input: Seq<char>, text: Seq<char>) -> Result<
    Seq<char>,
    ErrorModel,
> {
    match parsed_url(text) {
        Some(url) => Ok(url),
        None => Err(ErrorModel::Resolution { plugin, input }),
    }
}

/// The address that `name` resolves to without a configured remote.
pub open spec fn resolve_spec(registry: Registry, name: Seq<char>) -> Result<
    Seq<char>,
    ErrorModel,
> {
    match source_candidate_spec(registry, name) {
        Ok(text) => parse_outcome(
            name,
            follow_aliases(registry, name, MAX_ALIAS_DEPTH as nat),
            text,
        ),
        Err(e) => Err(e),
    }
}

/// The mathematical content of a textual result.
pub open spec fn text_result(r: Result<String, PluginError>) -> Result<Seq<char>, ErrorModel> {
    match r {
        Ok(text) => Ok(text@),
        Err(e) => Err(e@),
    }
}

/// A name of the form `owner/repo` that the registry does not know resolves
/// to what the parser makes of the GitHub address of that repository.
pub proof fn lemma_shorthand_resolves_to_github(registry: Registry, name: Seq<char>)
    requires
        is_shorthand_spec(name),
        registry.lookup(strip_kind_prefix_spec(name)) is None,
    ensures
        source_candidate_spec(registry, name) == Ok::<Seq<char>, ErrorModel>(github_base() + name),
        resolve_spec(registry, name) == parse_outcome(name, name, github_base() + name),
{
}

/// An alias resolves as its payload does: where the payload is itself no
/// alias, the alias stands for the payload's GitHub address if the payload
/// is a shorthand, and for the payload as it is otherwise.
pub proof fn lemma_alias_resolves_through_payload(registry: Registry, alias: Seq<char>)
    requires
        registry.lookup(strip_kind_prefix_spec(alias)) is Some,
        registry.lookup(
            strip_kind_prefix_spec(payload_of(registry.lookup(strip_kind_prefix_spec(alias))->0)),
        ) is None,
    ensures
        ({
            let payload = payload_of(registry.lookup(strip_kind_prefix_spec(alias))->0);
            &&& source_candidate_spec(registry, alias) == Ok::<Seq<char>, ErrorModel>(
                expand_shorthand(payload),
            )
            &&& resolve_spec(registry, alias) == parse_outcome(
                alias,
                payload,
                expand_shorthand(payload),
            )
        }),
{
    reveal_with_fuel(follow_aliases, 3);
}

/// Whatever the registry holds, at most [`MAX_ALIAS_DEPTH`] aliases are
/// followed: a name either comes to a text that is no alias, or to an error
/// that names the alias at which the search stopped.
pub proof fn lemma_resolution_is_bounded(registry: Registry, name: Seq<char>)
    ensures
        ({
            let inner = follow_aliases(registry, name, MAX_ALIAS_DEPTH as nat);
            match source_candidate_spec(registry, name) {
                Ok(text) => registry.lookup(strip_kind_prefix_spec(inner)) is None && text
                    == expand_shorthand(inner),
                Err(e) => registry.lookup(strip_kind_prefix_spec(inner)) is Some && e
                    == (ErrorModel::Resolution { plugin: name, input: inner }),
            }
        }),
{
}

/// The error of the `url` crate's parser, declared so that it can be handed
/// through verified code; nothing of its inside is known here.
#[verifier::external_type_specification]
#[verifier::external_body]
pub struct ExParseError(url::ParseError);

/// Calls `url::Url::parse` and hands back the serialization of the URL.
///
/// Trusted: the parser is a function of its input alone, so the outcome is
/// named by [`parsed_url`]; nothing more is claimed of it.
#[verifier::external_body]
fn parse_url(input: &str) -> (out: Result<String, url::ParseError>)
    ensures
        match out {
            Ok(url) => parsed_url(input@) == Some(url@),
            Err(_) => parsed_url(input@) is None,
        },
{
    url::Url::parse(input).map(String::from)
}

/// Removes every leading repetition of the kind prefix from `name`.
pub fn strip_kind_prefix(name: &str) -> (rest: String)
    ensures
        rest@ == strip_kind_prefix_spec(name@),
{
    proof {
        reveal_strlit("vfox-");
    }
    let mut rest: String = name.to_owned();
    while has_prefix(rest.as_str(), "vfox-")
        invariant
            kind_prefix().len() == 5,
            strip_kind_prefix_spec(rest@) == strip_kind_prefix_spec(name@),
        decreases rest@.len(),
    {
        rest = tail_from(rest.as_str(), 5);
    }
    rest
}

/// Tells whether `name` has the form `owner/repo`.
pub fn is_shorthand(name: &str) -> (yes: bool)
    ensures
        yes == is_shorthand_spec(name@),
{
    match find_char(name, '/') {
        None => false,
        Some(at) => {
            let n = name.unicode_len();
            if at == 0 || at + 1 >= n {
                return false;
            }
            let tail = tail_after(name, at);
            let clean = find_char(tail.as_str(), '/').is_none();
            proof {
                let s = name@;
                if clean {
                    assert forall|j: int| 0 <= j < s.len() && j != at implies s[j] != '/' by {
                        if j > at {
                            assert(tail@[j - at - 1] == s[j]);
                        }
                    }
                    assert(s[at as int] == '/');
                } else {
                    let k = choose|k: int| 0 <= k < tail@.len() && tail@[k] == '/';
                    assert(s[at + 1 + k] == '/');
                }
            }
            clean
        },
    }
}

/// Tells whether a clone target looks like a path on this machine.
pub fn is_local_path(target: &str) -> (yes: bool)
    ensures
        yes == is_local_path_spec(target@),
{
    if target.unicode_len() == 0 {
        return false;
    }
    let first = target.get_char(0);
    first == '/' || first == '~'
}

/// Splits an address at its first `#` into what is cloned and the ref to
/// check out afterwards.
pub fn split_url_and_ref(url: &str) -> (parts: (String, Option<String>))
    ensures
        parts.0@ == split_url_and_ref_spec(url@).0,
        match parts.1 {
            Some(r) => split_url_and_ref_spec(url@).1 == Some(r@),
            None => split_url_and_ref_spec(url@).1 is None,
        },
{
    match find_char(url, '#') {
        Some(at) => (head_to(url, at), Some(tail_after(url, at))),
        None => (url.to_owned(), None),
    }
}

/// Follows registry aliases from `name`, at most `fuel` of them.
fn resolve_aliases(registry: &Registry, name: String, fuel: usize) -> (inner: String)
    ensures
        inner@ == follow_aliases(*registry, name@, fuel as nat),
    decreases fuel,
{
    if fuel == 0 {
        return name;
    }
    let key = strip_kind_prefix(name.as_str());
    match registry.payload(key.as_str()) {
        Some(payload) => resolve_aliases(registry, payload, fuel - 1),
        None => name,
    }
}

/// Computes the text that stands for `name` and is then parsed as a URL:
/// aliases are followed and a shorthand is expanded.
pub fn source_candidate(registry: &Registry, name: &str) -> (out: Result<String, PluginError>)
    ensures
        text_result(out) == source_candidate_spec(*registry, name@),
{
    let inner = resolve_aliases(registry, name.to_owned(), MAX_ALIAS_DEPTH);
    let key = strip_kind_prefix(inner.as_str());
    if registry.get(key.as_str()).is_some() {
        return Err(PluginError::Resolution { plugin: name.to_owned(), input: inner });
    }
    if is_shorthand(inner.as_str()) {
        Ok(join2("https://github.com/", inner.as_str()))
    } else {
        Ok(inner)
    }
}

/// Turns the parser's answer for `plugin` into the library's result:
/// the address, or a resolution error that names `input`.
pub fn source_from_parse(plugin: &str, input: &str, parsed: Result<String, url::ParseError>) -> (out:
    Result<String, PluginError>)
    ensures
        match parsed {
            Ok(url) => text_result(out) == Ok::<Seq<char>, ErrorModel>(url@),
            Err(_) => text_result(out) == Err::<Seq<char>, ErrorModel>(
                ErrorModel::Resolution { plugin: plugin@, input: input@ },
            ),
        },
{
    match parsed {
        Ok(url) => Ok(url),
        Err(_) => Err(PluginError::Resolution { plugin: plugin.to_owned(), input: input.to_owned() }),
    }
}

/// Parses `text` as a URL on behalf of `plugin`; a failure names `input`.
pub fn parse_source(plugin: &str, input: &str, text: &str) -> (out: Result<String, PluginError>)
    ensures
        text_result(out) == parse_outcome(plugin@, input@, text@),
{
    source_from_parse(plugin, input, parse_url(text))
}

/// Resolves `name` to the address of its repository, when the working copy
/// has no remote of its own.
pub fn vfox_to_url(registry: &Registry, name: &str) -> (out: Result<String, PluginError>)
    ensures
        text_result(out) == resolve_spec(*registry, name@),
{
    let inner = resolve_aliases(registry, name.to_owned(), MAX_ALIAS_DEPTH);
    match source_candidate(registry, name) {
        Ok(text) => parse_source(name, inner.as_str(), text.as_str()),
        Err(e) => Err(e),
    }
}

} // verus!
