//! What a lifecycle operation asks of its host, and what the host answers.
//!
//! The library decides; the host touches the disk, the network and the
//! progress display. An operation hands out one [`Request`] at a time and is
//! advanced with the host's [`Reply`] to it.

use vstd::prelude::*;
use crate::error::{ErrorModel, PluginError};
use crate::text::{copy_opt, opt_text};

verus! {

/// Why an update left the install path as it was.
#[derive(Debug, Clone, Copy, PartialEq, Eq, Structural)]
pub enum Refusal {
    /// The install path is a symbolic link.
    Symlink,
    /// The install path is no working copy.
    NotRepository,
}

/// How an operation ended when it did not fail.
#[derive(Debug, Clone, PartialEq, Eq)]
pub enum Outcome {
    /// The working copy stands at `revision`, cloned from or tracking `url`.
    CheckedOut { url: String, revision: String },
    /// An update was refused; nothing was changed.
    Refused(Refusal),
    /// Nothing had to be done.
    Untouched,
    /// The install path was removed.
    Removed,
    /// What was read from the working copy; `None` for a plugin that is not
    /// installed.
    Reading(Option<String>),
}

/// The mathematical content of an [`Outcome`].
pub enum OutcomeModel {
    CheckedOut { url: Seq<char>, revision: Seq<char> },
    Refused(Refusal),
    Untouched,
    Removed,
    Reading(Option<Seq<char>>),
}

impl View for Outcome {
    type V = OutcomeModel;

    open spec fn view(&self) -> OutcomeModel {
        match self {
            Outcome::CheckedOut { url, revision } => OutcomeModel::CheckedOut {
                url: url@,
                revision: revision@,
            },
            Outcome::Refused(why) => OutcomeModel::Refused(*why),
            Outcome::Untouched => OutcomeModel::Untouched,
            Outcome::Removed => OutcomeModel::Removed,
            Outcome::Reading(text) => OutcomeModel::Reading(opt_text(*text)),
        }
    }
}

/// The mathematical content of the result of an operation.
pub open spec fn result_model(r: Result<Outcome, PluginError>) -> Result<OutcomeModel, ErrorModel> {
    match r {
        Ok(outcome) => Ok(outcome@),
        Err(e) => Err(e@),
    }
}

/// What the host is asked to do next.
#[derive(Debug, PartialEq, Eq)]
pub enum Request {
    /// Ask the working copy for its configured remote. It answers
    /// [`Reply::Remote`], with `None` where the path is no working copy.
    RemoteUrl,
    /// Does the install path exist? Answered by [`Reply::Flag`].
    PathExists,
    /// Is the install path a symbolic link? Answered by [`Reply::Flag`].
    PathIsSymlink,
    /// Is the install path a working copy? Answered by [`Reply::Flag`].
    IsRepository,
    /// Show `message` on the progress display. Answered by [`Reply::Done`].
    Announce { message: String },
    /// Remove `path` and all below it. Answered by [`Reply::Done`] or
    /// [`Reply::Failed`].
    RemoveAll { path: String },
    /// Clone `url` into `path`. Answered by [`Reply::Done`] or
    /// [`Reply::Failed`].
    Clone { url: String, path: String },
    /// Fetch, then check out `gitref`, or the upstream tip of the current
    /// branch where there is none. Answered by [`Reply::Done`] or
    /// [`Reply::Failed`].
    Checkout { gitref: Option<String> },
    /// Read the abbreviated current revision. Answered by [`Reply::Text`] or
    /// [`Reply::Failed`].
    ShortRevision,
    /// Read the name of the current branch. Answered by [`Reply::Text`] or
    /// [`Reply::Failed`].
    BranchName,
    /// The operation is over, with this result. No answer is expected.
    Finished(Result<Outcome, PluginError>),
}

/// The mathematical content of a [`Request`].
pub enum RequestModel {
    RemoteUrl,
    PathExists,
    PathIsSymlink,
    IsRepository,
    Announce { message: Seq<char> },
    RemoveAll { path: Seq<char> },
    Clone { url: Seq<char>, path: Seq<char> },
    Checkout { gitref: Option<Seq<char>> },
    ShortRevision,
    BranchName,
    Finished(Result<OutcomeModel, ErrorModel>),
}

impl View for Request {
    type V = RequestModel;

    open spec fn view(&self) -> RequestModel {
        match self {
            Request::RemoteUrl => RequestModel::RemoteUrl,
            Request::PathExists => RequestModel::PathExists,
            Request::PathIsSymlink => RequestModel::PathIsSymlink,
            Request::IsRepository => RequestModel::IsRepository,
            Request::Announce { message } => RequestModel::Announce { message: message@ },
            Request::RemoveAll { path } => RequestModel::RemoveAll { path: path@ },
            Request::Clone { url, path } => RequestModel::Clone { url: url@, path: path@ },
            Request::Checkout { gitref } => RequestModel::Checkout { gitref: opt_text(*gitref) },
            Request::ShortRevision => RequestModel::ShortRevision,
            Request::BranchName => RequestModel::BranchName,
            Request::Finished(result) => RequestModel::Finished(result_model(*result)),
        }
    }
}

impl RequestModel {
    /// The request changes what is on disk.
    pub open spec fn mutates(self) -> bool {
        self is RemoveAll || self is Clone || self is Checkout
    }
}

/// The host's answer to a request.
#[derive(Debug, Clone, PartialEq, Eq)]
pub enum Reply {
    /// The answer to a yes-or-no question.
    Flag(bool),
    /// The configured remote, if the working copy has one.
    Remote(Option<String>),
    /// The text that was read.
    Text(String),
    /// The request was carried out.
    Done,
    /// The request failed, for this reason.
    Failed(String),
}

/// The mathematical content of a [`Reply`].
pub enum ReplyModel {
    Flag(bool),
    Remote(Option<Seq<char>>),
    Text(Seq<char>),
    Done,
    Failed(Seq<char>),
}

impl View for Reply {
    type V = ReplyModel;

    open spec fn view(&self) -> ReplyModel {
        match self {
            Reply::Flag(b) => ReplyModel::Flag(*b),
            Reply::Remote(url) => ReplyModel::Remote(opt_text(*url)),
            Reply::Text(text) => ReplyModel::Text(text@),
            Reply::Done => ReplyModel::Done,
            Reply::Failed(why) => ReplyModel::Failed(why@),
        }
    }
}

impl PluginError {
    /// A copy of the error.
    pub fn duplicate(&self) -> (copy: PluginError)
        ensures
            copy@ == self@,
    {
        match self {
            PluginError::Resolution { plugin, input } => PluginError::Resolution {
                plugin: plugin.clone(),
                input: input.clone(),
            },
            PluginError::Validation { plugin, url } => PluginError::Validation {
                plugin: plugin.clone(),
                url: url.clone(),
            },
            PluginError::Repository { plugin, path, detail } => PluginError::Repository {
                plugin: plugin.clone(),
                path: path.clone(),
                detail: detail.clone(),
            },
            PluginError::Filesystem { plugin, path, cause } => PluginError::Filesystem {
                plugin: plugin.clone(),
                path: path.clone(),
                cause: cause.clone(),
            },
            PluginError::NotInstalled { plugin } => PluginError::NotInstalled {
                plugin: plugin.clone(),
            },
            PluginError::RuntimeExecution { plugin, message } => PluginError::RuntimeExecution {
                plugin: plugin.clone(),
                message: message.clone(),
            },
        }
    }
}

impl Outcome {
    /// A copy of the outcome.
    pub fn duplicate(&self) -> (copy: Outcome)
        ensures
            copy@ == self@,
    {
        match self {
            Outcome::CheckedOut { url, revision } => Outcome::CheckedOut {
                url: url.clone(),
                revision: revision.clone(),
            },
            Outcome::Refused(why) => Outcome::Refused(*why),
            Outcome::Untouched => Outcome::Untouched,
            Outcome::Removed => Outcome::Removed,
            Outcome::Reading(text) => Outcome::Reading(copy_opt(text)),
        }
    }
}

/// A copy of the result of an operation.
pub fn duplicate_result(result: &Result<Outcome, PluginError>) -> (copy: Result<Outcome, PluginError>)
    ensures
        result_model(copy) == result_model(*result),
{
    match result {
        Ok(outcome) => Ok(outcome.duplicate()),
        Err(e) => Err(e.duplicate()),
    }
}

} // verus!
