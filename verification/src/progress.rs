//! The text that an operation leaves on the progress display when it ends.

use vstd::prelude::*;
use crate::protocol::{Outcome, OutcomeModel, Refusal};
use crate::text::join2;

verus! {

/// `styled` is `text` between `before` and `after`.
pub open spec fn wraps(styled: Seq<char>, before: Seq<char>, text: Seq<char>, after: Seq<char>) -> bool {
    styled == before + text + after
}

/// `styled` shows `text`, possibly between control sequences for a terminal.
pub open spec fn shows(styled: Seq<char>, text: Seq<char>) -> bool {
    exists|before: Seq<char>, after: Seq<char>| #[trigger] wraps(styled, before, text, after)
}

/// The closing message for a working copy of `url` with the revision shown
/// as `marker`.
pub open spec fn finish_message_spec(url: Seq<char>, marker: Seq<char>) -> Seq<char> {
    url + "#"@ + marker
}

/// `message` closes an operation on a working copy of `url` at `revision`:
/// the address, a `#`, and the revision as it is shown.
pub open spec fn is_closing_message(message: Seq<char>, url: Seq<char>, revision: Seq<char>) -> bool {
    exists|marker: Seq<char>| #[trigger]
        shows(marker, revision) && message == finish_message_spec(url, marker)
}

/// The closing message of an uninstall that removed the install path.
pub open spec fn removed_message() -> Seq<char> {
    "uninstalled"@
}

/// The outcome changed what is on disk, so the progress display is closed
/// with a message for it.
pub open spec fn has_closing_message(outcome: OutcomeModel) -> bool {
    outcome is CheckedOut || outcome is Removed
}

/// The warning for an update of `plugin` that was refused for `why`.
pub open spec fn refusal_warning(plugin: Seq<char>, why: Refusal) -> Seq<char> {
    "plugin:"@ + plugin + match why {
        Refusal::Symlink => " is a symlink, not updating"@,
        Refusal::NotRepository => " is not a git repository, not updating"@,
    }
}

/// Styles `text` in bright yellow for the error stream, with
/// `console::style`, and renders it.
///
/// Trusted: whether colours are written depends on the terminal and the
/// environment, so only what holds either way is claimed: the rendering is
/// the text itself with control sequences, if any, before and after it.
#[verifier::external_body]
fn highlight(text: &str) -> (styled: String)
    ensures
        shows(styled@, text@),
{
    console::style(text).bright().yellow().for_stderr().to_string()
}

/// Builds the closing message from the address and the marker of the
/// revision.
pub fn finish_message(url: &str, marker: &str) -> (message: String)
    ensures
        message@ == finish_message_spec(url@, marker@),
{
    let mut message = join2(url, "#");
    message.append(marker);
    message
}

impl Outcome {
    /// The closing message for the progress display. For a working copy that
    /// was checked out it is its address, a `#` and its revision, highlighted;
    /// for an install path that was removed it says so. An operation that
    /// changed nothing on disk has none.
    pub fn message(&self) -> (message: Option<String>)
        ensures
            message is Some <==> has_closing_message(self@),
            match self@ {
                OutcomeModel::CheckedOut { url, revision } => message matches Some(text)
                    && is_closing_message(text@, url, revision),
                OutcomeModel::Removed => message matches Some(text) && text@ == removed_message(),
                _ => message is None,
            },
    {
        match self {
            Outcome::CheckedOut { url, revision } => {
                let marker = highlight(revision.as_str());
                let text = finish_message(url.as_str(), marker.as_str());
                assert(shows(marker@, revision@) && text@ == finish_message_spec(url@, marker@));
                Some(text)
            },
            Outcome::Removed => Some("uninstalled".to_owned()),
            _ => None,
        }
    }

    /// The warning to log for an update of `plugin` that was refused; none
    /// for every other outcome.
    pub fn warning(&self, plugin: &str) -> (warning: Option<String>)
        ensures
            match self@ {
                OutcomeModel::Refused(why) => warning matches Some(text) && text@
                    == refusal_warning(plugin@, why),
                _ => warning is None,
            },
    {
        match self {
            Outcome::Refused(why) => {
                let mut text = join2("plugin:", plugin);
                match why {
                    Refusal::Symlink => text.append(" is a symlink, not updating"),
                    Refusal::NotRepository => text.append(" is not a git repository, not updating"),
                }
                Some(text)
            },
            _ => None,
        }
    }
}

} // verus!
