//! Install, update, uninstall and the queries on an installed plugin, as a
//! machine that the host drives.
//!
//! Each operation begins in a state with one pending request. The host
//! carries the request out and advances the machine with its reply, until
//! the pending request is [`Request::Finished`]. A reply that does not
//! answer the pending request leaves the machine as it is.

use vstd::prelude::*;
use crate::error::{ErrorModel, PluginError};
use crate::plugin::{PluginModel, VfoxPlugin};
use crate::progress::has_closing_message;
use crate::protocol::{
    duplicate_result, result_model, Outcome, OutcomeModel, Refusal, Reply, ReplyModel, Request,
    RequestModel,
};
use crate::registry::Registry;
use crate::resolver::{
    is_local_path, is_local_path_spec, source_candidate, source_candidate_spec, split_url_and_ref,
    split_url_and_ref_spec,
};
use crate::text::{copy_opt, join2, opt_text};

verus! {

/// The operations on a plugin that touch its install path.
#[derive(Debug, Clone, Copy, PartialEq, Eq, Structural)]
pub enum Operation {
    Install,
    Update,
    Uninstall,
    EnsureInstalled,
    CurrentRevision,
    CurrentBranch,
}

/// Where an operation stands: each stage has one pending request.
#[derive(Debug, Clone, Copy, PartialEq, Eq, Structural)]
pub enum Stage {
    Remote,
    Exists,
    Symlink,
    Repository,
    SayUninstalling,
    SayRemoving,
    Remove,
    SayCloning,
    Clone,
    SayCheckingOut,
    SayUpdating,
    Checkout,
    Revision,
    Branch,
    Finished,
}

/// The mathematical content of a [`Lifecycle`].
pub struct MachineModel {
    pub operation: Operation,
    pub stage: Stage,
    pub plugin: PluginModel,
    /// What is cloned; set once the source is resolved.
    pub clone_url: Seq<char>,
    /// The ref to check out, if any.
    pub gitref: Option<Seq<char>>,
    /// The revision read after an update.
    pub revision: Seq<char>,
    /// The result, once the stage is `Finished`.
    pub result: Result<OutcomeModel, ErrorModel>,
}

/// What an install clones and checks out: the source text is refused where
/// its clone target looks like a local path, before it is parsed as a URL.
pub open spec fn install_source_spec(
    plugin: PluginModel,
    registry: Registry,
    configured: Option<Seq<char>>,
) -> Result<(Seq<char>, Option<Seq<char>>), ErrorModel> {
    let text = match configured {
        Some(url) => Ok(url),
        None => source_candidate_spec(registry, plugin.name),
    };
    match text {
        Err(e) => Err(e),
        Ok(t) => if is_local_path_spec(split_url_and_ref_spec(t).0) {
            Err(ErrorModel::Validation { plugin: plugin.name, url: split_url_and_ref_spec(t).0 })
        } else {
            match plugin.repo_url_spec(registry, configured) {
                Ok(url) => Ok(split_url_and_ref_spec(url)),
                Err(e) => Err(e),
            }
        },
    }
}

impl MachineModel {
    /// The state in which `operation` on `plugin` begins.
    pub open spec fn start(operation: Operation, plugin: PluginModel, gitref: Option<Seq<char>>) -> MachineModel {
        MachineModel {
            operation,
            stage: match operation {
                Operation::Install => Stage::Remote,
                Operation::Update => Stage::Symlink,
                _ => Stage::Exists,
            },
            plugin,
            clone_url: Seq::empty(),
            gitref,
            revision: Seq::empty(),
            result: Ok(OutcomeModel::Untouched),
        }
    }

    /// The same operation at another stage.
    pub open spec fn at(self, stage: Stage) -> MachineModel {
        MachineModel { stage, ..self }
    }

    /// The operation, over with `result`.
    pub open spec fn finish(self, result: Result<OutcomeModel, ErrorModel>) -> MachineModel {
        MachineModel { stage: Stage::Finished, result, ..self }
    }

    /// The operation, failed because the working copy refused a request.
    pub open spec fn fail_repository(self, detail: Seq<char>) -> MachineModel {
        self.finish(
            Err(
                ErrorModel::Repository {
                    plugin: self.plugin.name,
                    path: self.plugin.path(),
                    detail,
                },
            ),
        )
    }

    /// The pending request.
    pub open spec fn request(self) -> RequestModel {
        match self.stage {
            Stage::Remote => RequestModel::RemoteUrl,
            Stage::Exists => RequestModel::PathExists,
            Stage::Symlink => RequestModel::PathIsSymlink,
            Stage::Repository => RequestModel::IsRepository,
            Stage::SayUninstalling => RequestModel::Announce { message: "uninstalling"@ },
            Stage::SayRemoving => RequestModel::Announce {
                message: "removing "@ + self.plugin.path(),
            },
            Stage::Remove => RequestModel::RemoveAll { path: self.plugin.path() },
            Stage::SayCloning => RequestModel::Announce { message: "cloning "@ + self.clone_url },
            Stage::Clone => RequestModel::Clone { url: self.clone_url, path: self.plugin.path() },
            Stage::SayCheckingOut => RequestModel::Announce {
                message: "checking out "@ + match self.gitref {
                    Some(r) => r,
                    None => Seq::empty(),
                },
            },
            Stage::SayUpdating => RequestModel::Announce { message: "updating git repo"@ },
            Stage::Checkout => RequestModel::Checkout { gitref: self.gitref },
            Stage::Revision => RequestModel::ShortRevision,
            Stage::Branch => RequestModel::BranchName,
            Stage::Finished => RequestModel::Finished(self.result),
        }
    }

    /// `reply` answers the pending request.
    pub open spec fn expects(self, reply: ReplyModel) -> bool {
        match self.stage {
            Stage::Remote => reply is Remote,
            Stage::Exists | Stage::Symlink | Stage::Repository => reply is Flag,
            Stage::SayUninstalling | Stage::SayRemoving | Stage::SayCloning | Stage::SayCheckingOut
            | Stage::SayUpdating => reply is Done,
            Stage::Remove | Stage::Clone | Stage::Checkout => reply is Done || reply is Failed,
            Stage::Revision | Stage::Branch => reply is Text || reply is Failed,
            Stage::Finished => false,
        }
    }

    /// The state after the configured remote is known.
    pub open spec fn after_remote(self, registry: Registry, configured: Option<Seq<char>>) -> MachineModel {
        if self.operation == Operation::Update {
            self.finish(
                Ok(
                    OutcomeModel::CheckedOut {
                        url: match self.plugin.remote(configured) {
                            Some(url) => url,
                            None => Seq::empty(),
                        },
                        revision: self.revision,
                    },
                ),
            )
        } else {
            match install_source_spec(self.plugin, registry, configured) {
                Ok(source) => MachineModel {
                    stage: Stage::Exists,
                    clone_url: source.0,
                    gitref: source.1,
                    ..self
                },
                Err(e) => self.finish(Err(e)),
            }
        }
    }

    /// The state after it is known whether the install path exists.
    pub open spec fn after_exists(self, exists: bool) -> MachineModel {
        match self.operation {
            Operation::Install => if exists {
                self.at(Stage::SayUninstalling)
            } else {
                self.at(Stage::SayCloning)
            },
            Operation::Uninstall => if exists {
                self.at(Stage::SayUninstalling)
            } else {
                self.finish(Ok(OutcomeModel::Untouched))
            },
            Operation::EnsureInstalled => if exists {
                self.finish(Ok(OutcomeModel::Untouched))
            } else {
                MachineModel { operation: Operation::Install, stage: Stage::Remote, ..self }
            },
            Operation::CurrentRevision => if exists {
                self.at(Stage::Revision)
            } else {
                self.finish(Ok(OutcomeModel::Reading(None)))
            },
            Operation::CurrentBranch => if exists {
                self.at(Stage::Branch)
            } else {
                self.finish(Ok(OutcomeModel::Reading(None)))
            },
            Operation::Update => self,
        }
    }

    /// The state after a revision was read.
    pub open spec fn after_revision(self, revision: Seq<char>) -> MachineModel {
        match self.operation {
            Operation::Update => MachineModel { stage: Stage::Remote, revision, ..self },
            Operation::CurrentRevision | Operation::CurrentBranch => self.finish(
                Ok(OutcomeModel::Reading(Some(revision))),
            ),
            _ => self.finish(Ok(OutcomeModel::CheckedOut { url: self.clone_url, revision })),
        }
    }

    /// The state after `reply`. A reply that the pending request does not
    /// expect changes nothing.
    pub open spec fn next(self, registry: Registry, reply: ReplyModel) -> MachineModel {
        match (self.stage, reply) {
            (Stage::Remote, ReplyModel::Remote(configured)) => self.after_remote(registry, configured),
            (Stage::Exists, ReplyModel::Flag(exists)) => self.after_exists(exists),
            (Stage::Symlink, ReplyModel::Flag(link)) => if link {
                self.finish(Ok(OutcomeModel::Refused(Refusal::Symlink)))
            } else {
                self.at(Stage::Repository)
            },
            (Stage::Repository, ReplyModel::Flag(repo)) => if repo {
                self.at(Stage::SayUpdating)
            } else {
                self.finish(Ok(OutcomeModel::Refused(Refusal::NotRepository)))
            },
            (Stage::SayUninstalling, ReplyModel::Done) => self.at(Stage::SayRemoving),
            (Stage::SayRemoving, ReplyModel::Done) => self.at(Stage::Remove),
            (Stage::Remove, ReplyModel::Done) => if self.operation == Operation::Install {
                self.at(Stage::SayCloning)
            } else {
                self.finish(Ok(OutcomeModel::Removed))
            },
            (Stage::Remove, ReplyModel::Failed(cause)) => self.finish(
                Err(
                    ErrorModel::Filesystem {
                        plugin: self.plugin.name,
                        path: self.plugin.path(),
                        cause,
                    },
                ),
            ),
            (Stage::SayCloning, ReplyModel::Done) => self.at(Stage::Clone),
            (Stage::Clone, ReplyModel::Done) => if self.gitref is Some {
                self.at(Stage::SayCheckingOut)
            } else {
                self.at(Stage::Revision)
            },
            (Stage::SayCheckingOut, ReplyModel::Done) => self.at(Stage::Checkout),
            (Stage::SayUpdating, ReplyModel::Done) => self.at(Stage::Checkout),
            (Stage::Checkout, ReplyModel::Done) => self.at(Stage::Revision),
            (Stage::Clone, ReplyModel::Failed(detail)) => self.fail_repository(detail),
            (Stage::Checkout, ReplyModel::Failed(detail)) => self.fail_repository(detail),
            (Stage::Revision, ReplyModel::Failed(detail)) => self.fail_repository(detail),
            (Stage::Branch, ReplyModel::Failed(detail)) => self.fail_repository(detail),
            (Stage::Revision, ReplyModel::Text(revision)) => self.after_revision(revision),
            (Stage::Branch, ReplyModel::Text(branch)) => self.finish(
                Ok(OutcomeModel::Reading(Some(branch))),
            ),
            _ => self,
        }
    }

    /// The stage is one that the operation goes through, a ref is at hand
    /// where its checkout is announced, and an operation that is over has a
    /// result of its own kind.
    pub open spec fn consistent(self) -> bool {
        &&& match self.operation {
            Operation::Install => !(self.stage is Symlink || self.stage is Repository
                || self.stage is SayUpdating || self.stage is Branch),
            Operation::Update => self.stage is Symlink || self.stage is Repository
                || self.stage is SayUpdating || self.stage is Checkout || self.stage is Revision
                || self.stage is Remote || self.stage is Finished,
            Operation::Uninstall => self.stage is Exists || self.stage is SayUninstalling
                || self.stage is SayRemoving || self.stage is Remove || self.stage is Finished,
            Operation::EnsureInstalled => self.stage is Exists || self.stage is Finished,
            Operation::CurrentRevision => self.stage is Exists || self.stage is Revision
                || self.stage is Finished,
            Operation::CurrentBranch => self.stage is Exists || self.stage is Branch
                || self.stage is Finished,
        }
        &&& self.stage is SayCheckingOut ==> self.gitref is Some
        &&& self.stage is Finished ==> self.result is Err || match self.operation {
            Operation::Install => self.result->Ok_0 is CheckedOut,
            Operation::Update => self.result->Ok_0 is CheckedOut || self.result->Ok_0 is Refused,
            Operation::Uninstall => self.result->Ok_0 is Removed || self.result->Ok_0 is Untouched,
            Operation::EnsureInstalled => self.result->Ok_0 is Untouched,
            Operation::CurrentRevision | Operation::CurrentBranch => self.result->Ok_0 is Reading,
        }
    }

    /// The operation that the state belongs to or may turn into: ensuring a
    /// plugin becomes an install, every other operation stays what it is.
    pub open spec fn continues(self, begun: Operation) -> bool {
        self.operation == begun || (begun == Operation::EnsureInstalled && self.operation
            == Operation::Install)
    }

    /// The state after each of `replies` in turn.
    pub open spec fn run(self, registry: Registry, replies: Seq<ReplyModel>) -> MachineModel
        decreases replies.len(),
    {
        if replies.len() == 0 {
            self
        } else {
            self.next(registry, replies[0]).run(registry, replies.drop_first())
        }
    }
}

/// Every operation begins in a consistent state, and no reply leads out
/// of the consistent states or to another operation.
pub proof fn lemma_operation_stays_consistent(
    begun: Operation,
    plugin: PluginModel,
    gitref: Option<Seq<char>>,
    registry: Registry,
    replies: Seq<ReplyModel>,
)
    ensures
        MachineModel::start(begun, plugin, gitref).run(registry, replies).consistent(),
        MachineModel::start(begun, plugin, gitref).run(registry, replies).continues(begun),
        MachineModel::start(begun, plugin, gitref).run(registry, replies).plugin == plugin,
{
    lemma_run_stays_consistent(MachineModel::start(begun, plugin, gitref), begun, registry, replies);
}

/// From a consistent state every run ends in a consistent state of the
/// same operation on the same plugin.
pub proof fn lemma_run_stays_consistent(
    m: MachineModel,
    begun: Operation,
    registry: Registry,
    replies: Seq<ReplyModel>,
)
    requires
        m.consistent(),
        m.continues(begun),
    ensures
        m.run(registry, replies).consistent(),
        m.run(registry, replies).continues(begun),
        m.run(registry, replies).plugin == m.plugin,
    decreases replies.len(),
{
    if replies.len() > 0 {
        lemma_run_stays_consistent(
            m.next(registry, replies[0]),
            begun,
            registry,
            replies.drop_first(),
        );
    }
}

/// Whatever the host replies, an update neither removes the install path
/// nor clones into it; an uninstall neither clones nor checks out; ensuring
/// and installing are the only operations that clone; and reading the
/// revision or the branch changes nothing on disk.
pub proof fn lemma_operations_keep_to_their_requests(
    begun: Operation,
    plugin: PluginModel,
    gitref: Option<Seq<char>>,
    registry: Registry,
    replies: Seq<ReplyModel>,
)
    ensures
        ({
            let pending = MachineModel::start(begun, plugin, gitref).run(registry, replies).request();
            &&& begun == Operation::Update ==> !(pending is RemoveAll || pending is Clone)
            &&& begun == Operation::Uninstall ==> !(pending is Clone || pending is Checkout)
            &&& pending is Clone ==> begun == Operation::Install || begun
                == Operation::EnsureInstalled
            &&& begun == Operation::CurrentRevision || begun == Operation::CurrentBranch
                ==> !pending.mutates()
            &&& pending matches RequestModel::RemoveAll { path } ==> path == plugin.path()
            &&& pending matches RequestModel::Clone { path, .. } ==> path == plugin.path()
        }),
{
    lemma_operation_stays_consistent(begun, plugin, gitref, registry, replies);
}

/// However the host replies, an operation that ends well after it changed
/// the disk has a closing message for the progress display: an install ends
/// with a checkout, an uninstall with a removal unless the plugin was
/// absent, an update with a checkout unless it was refused.
pub proof fn lemma_success_closes_the_display(
    begun: Operation,
    plugin: PluginModel,
    gitref: Option<Seq<char>>,
    registry: Registry,
    replies: Seq<ReplyModel>,
)
    requires
        MachineModel::start(begun, plugin, gitref).run(registry, replies).request() matches RequestModel::Finished(
            Ok(_),
        ),
    ensures
        ({
            let ended = MachineModel::start(begun, plugin, gitref).run(registry, replies);
            let outcome = ended.result->Ok_0;
            &&& ended.request() == RequestModel::Finished(Ok(outcome))
            &&& begun == Operation::Install ==> has_closing_message(outcome)
            &&& begun == Operation::Uninstall ==> has_closing_message(outcome) || outcome is Untouched
            &&& begun == Operation::Update ==> has_closing_message(outcome) || outcome is Refused
            &&& begun == Operation::EnsureInstalled ==> has_closing_message(outcome) || outcome
                is Untouched
        }),
{
    lemma_operation_stays_consistent(begun, plugin, gitref, registry, replies);
}

/// Once an operation is over, no reply changes it: the host is asked for
/// nothing more.
pub proof fn lemma_finished_is_final(m: MachineModel, registry: Registry, replies: Seq<ReplyModel>)
    requires
        m.stage == Stage::Finished,
    ensures
        m.run(registry, replies) == m,
    decreases replies.len(),
{
    if replies.len() > 0 {
        lemma_finished_is_final(m, registry, replies.drop_first());
    }
}

/// A reply that does not answer the pending request changes nothing.
pub proof fn lemma_unexpected_reply_is_ignored(m: MachineModel, registry: Registry, reply: ReplyModel)
    requires
        !m.expects(reply),
    ensures
        m.next(registry, reply) == m,
{
}

/// An uninstall of a plugin that is not on disk asks only whether the path
/// exists, and then succeeds with nothing done.
pub proof fn lemma_uninstall_of_absent_is_noop(
    plugin: PluginModel,
    registry: Registry,
    replies: Seq<ReplyModel>,
)
    ensures
        ({
            let begun = MachineModel::start(Operation::Uninstall, plugin, None);
            let ended = begun.next(registry, ReplyModel::Flag(false));
            &&& begun.request() == RequestModel::PathExists
            &&& ended.request() == RequestModel::Finished(Ok(OutcomeModel::Untouched))
            &&& ended.run(registry, replies) == ended
        }),
{
    let begun = MachineModel::start(Operation::Uninstall, plugin, None);
    lemma_finished_is_final(begun.next(registry, ReplyModel::Flag(false)), registry, replies);
}

/// An uninstall of a plugin that is on disk removes its install path, and
/// a failure to do so is reported with the path and the cause.
pub proof fn lemma_uninstall_removes_install_path(
    plugin: PluginModel,
    registry: Registry,
    cause: Seq<char>,
)
    ensures
        ({
            let begun = MachineModel::start(Operation::Uninstall, plugin, None);
            let removing = begun.next(registry, ReplyModel::Flag(true)).next(
                registry,
                ReplyModel::Done,
            ).next(registry, ReplyModel::Done);
            &&& removing.request() == RequestModel::RemoveAll { path: plugin.path() }
            &&& removing.next(registry, ReplyModel::Done).request() == RequestModel::Finished(
                Ok(OutcomeModel::Removed),
            )
            &&& removing.next(registry, ReplyModel::Failed(cause)).request()
                == RequestModel::Finished(
                Err(ErrorModel::Filesystem { plugin: plugin.name, path: plugin.path(), cause }),
            )
        }),
{
}

/// An update of a plugin whose install path is a symbolic link succeeds
/// without a request that changes the disk, now or later.
pub proof fn lemma_update_of_symlink_is_refused(
    plugin: PluginModel,
    gitref: Option<Seq<char>>,
    registry: Registry,
    replies: Seq<ReplyModel>,
)
    ensures
        ({
            let begun = MachineModel::start(Operation::Update, plugin, gitref);
            let ended = begun.next(registry, ReplyModel::Flag(true));
            &&& begun.request() == RequestModel::PathIsSymlink
            &&& ended.request() == RequestModel::Finished(
                Ok(OutcomeModel::Refused(Refusal::Symlink)),
            )
            &&& ended.run(registry, replies) == ended
        }),
{
    let begun = MachineModel::start(Operation::Update, plugin, gitref);
    lemma_finished_is_final(begun.next(registry, ReplyModel::Flag(true)), registry, replies);
}

/// An update of a path that is no working copy is refused in the same way.
pub proof fn lemma_update_of_non_repository_is_refused(
    plugin: PluginModel,
    gitref: Option<Seq<char>>,
    registry: Registry,
    replies: Seq<ReplyModel>,
)
    ensures
        ({
            let begun = MachineModel::start(Operation::Update, plugin, gitref);
            let asked = begun.next(registry, ReplyModel::Flag(false));
            let ended = asked.next(registry, ReplyModel::Flag(false));
            &&& asked.request() == RequestModel::IsRepository
            &&& ended.request() == RequestModel::Finished(
                Ok(OutcomeModel::Refused(Refusal::NotRepository)),
            )
            &&& ended.run(registry, replies) == ended
        }),
{
    let begun = MachineModel::start(Operation::Update, plugin, gitref);
    lemma_finished_is_final(
        begun.next(registry, ReplyModel::Flag(false)).next(registry, ReplyModel::Flag(false)),
        registry,
        replies,
    );
}

/// An update of a working copy checks out the ref that was asked for, reads
/// the revision after that, and reports it with the remote.
pub proof fn lemma_update_reports_checked_out_ref(
    plugin: PluginModel,
    gitref: Option<Seq<char>>,
    registry: Registry,
    revision: Seq<char>,
    configured: Option<Seq<char>>,
)
    ensures
        ({
            let begun = MachineModel::start(Operation::Update, plugin, gitref);
            let checking = begun.next(registry, ReplyModel::Flag(false)).next(
                registry,
                ReplyModel::Flag(true),
            ).next(registry, ReplyModel::Done);
            let reading = checking.next(registry, ReplyModel::Done);
            let ended = reading.next(registry, ReplyModel::Text(revision)).next(
                registry,
                ReplyModel::Remote(configured),
            );
            &&& checking.request() == RequestModel::Checkout { gitref }
            &&& reading.request() == RequestModel::ShortRevision
            &&& ended.request() == RequestModel::Finished(
                Ok(
                    OutcomeModel::CheckedOut {
                        url: match plugin.remote(configured) {
                            Some(url) => url,
                            None => Seq::empty(),
                        },
                        revision,
                    },
                ),
            )
        }),
{
}

/// An install begins by resolving the source. Where that fails, or the
/// clone target looks like a local path, the install ends there: before the
/// disk is asked about and before anything on it is changed.
pub proof fn lemma_install_fails_before_touching_disk(
    plugin: PluginModel,
    registry: Registry,
    configured: Option<Seq<char>>,
)
    requires
        install_source_spec(plugin, registry, configured) is Err,
    ensures
        ({
            let begun = MachineModel::start(Operation::Install, plugin, None);
            &&& begun.request() == RequestModel::RemoteUrl
            &&& begun.next(registry, ReplyModel::Remote(configured)).request()
                == RequestModel::Finished(
                Err(install_source_spec(plugin, registry, configured)->Err_0),
            )
        }),
{
}

/// An install over an installed plugin removes the install path and then
/// goes on exactly as the install of an absent plugin does: from there on
/// the same replies lead to the same requests and the same result.
pub proof fn lemma_reinstall_is_remove_then_install(m: MachineModel, registry: Registry)
    requires
        m.operation == Operation::Install,
        m.stage == Stage::Exists,
    ensures
        ({
            let removing = m.next(registry, ReplyModel::Flag(true)).next(
                registry,
                ReplyModel::Done,
            ).next(registry, ReplyModel::Done);
            &&& removing.request() == RequestModel::RemoveAll { path: m.plugin.path() }
            &&& removing.next(registry, ReplyModel::Done) == m.next(
                registry,
                ReplyModel::Flag(false),
            )
        }),
{
}

/// An install of a source with a ref clones the address, checks out that
/// ref, reads the revision after the checkout and reports that revision.
pub proof fn lemma_install_reports_checked_out_ref(
    plugin: PluginModel,
    registry: Registry,
    configured: Option<Seq<char>>,
    revision: Seq<char>,
)
    requires
        install_source_spec(plugin, registry, configured) matches Ok(source) && source.1 is Some,
    ensures
        ({
            let source = install_source_spec(plugin, registry, configured)->Ok_0;
            let begun = MachineModel::start(Operation::Install, plugin, None);
            let cloning = begun.next(registry, ReplyModel::Remote(configured)).next(
                registry,
                ReplyModel::Flag(false),
            ).next(registry, ReplyModel::Done);
            let checking = cloning.next(registry, ReplyModel::Done).next(registry, ReplyModel::Done);
            let reading = checking.next(registry, ReplyModel::Done);
            &&& cloning.request() == RequestModel::Clone { url: source.0, path: plugin.path() }
            &&& checking.request() == RequestModel::Checkout { gitref: source.1 }
            &&& reading.request() == RequestModel::ShortRevision
            &&& reading.next(registry, ReplyModel::Text(revision)).request()
                == RequestModel::Finished(
                Ok(OutcomeModel::CheckedOut { url: source.0, revision }),
            )
        }),
{
}

/// An install of a source without a ref clones the address and reports the
/// revision that the clone stands at.
pub proof fn lemma_install_reports_cloned_revision(
    plugin: PluginModel,
    registry: Registry,
    configured: Option<Seq<char>>,
    revision: Seq<char>,
)
    requires
        install_source_spec(plugin, registry, configured) matches Ok(source) && source.1 is None,
    ensures
        ({
            let source = install_source_spec(plugin, registry, configured)->Ok_0;
            let begun = MachineModel::start(Operation::Install, plugin, None);
            let cloning = begun.next(registry, ReplyModel::Remote(configured)).next(
                registry,
                ReplyModel::Flag(false),
            ).next(registry, ReplyModel::Done);
            let reading = cloning.next(registry, ReplyModel::Done);
            &&& cloning.request() == RequestModel::Clone { url: source.0, path: plugin.path() }
            &&& reading.request() == RequestModel::ShortRevision
            &&& reading.next(registry, ReplyModel::Text(revision)).request()
                == RequestModel::Finished(
                Ok(OutcomeModel::CheckedOut { url: source.0, revision }),
            )
        }),
{
}

/// Ensuring a plugin that is on disk changes nothing; ensuring one that is
/// not is an install.
pub proof fn lemma_ensure_installed_installs_when_absent(plugin: PluginModel, registry: Registry)
    ensures
        ({
            let begun = MachineModel::start(Operation::EnsureInstalled, plugin, None);
            &&& begun.request() == RequestModel::PathExists
            &&& begun.next(registry, ReplyModel::Flag(true)).request() == RequestModel::Finished(
                Ok(OutcomeModel::Untouched),
            )
            &&& begun.next(registry, ReplyModel::Flag(false)) == MachineModel::start(
                Operation::Install,
                plugin,
                None,
            )
        }),
{
}

/// The revision of a plugin that is not on disk is `None`, and the working
/// copy is not asked; of one that is on disk it is what the working copy
/// answers.
pub proof fn lemma_revision_is_read_only_when_installed(
    plugin: PluginModel,
    registry: Registry,
    revision: Seq<char>,
)
    ensures
        ({
            let begun = MachineModel::start(Operation::CurrentRevision, plugin, None);
            let reading = begun.next(registry, ReplyModel::Flag(true));
            &&& begun.next(registry, ReplyModel::Flag(false)).request() == RequestModel::Finished(
                Ok(OutcomeModel::Reading(None)),
            )
            &&& reading.request() == RequestModel::ShortRevision
            &&& reading.next(registry, ReplyModel::Text(revision)).request()
                == RequestModel::Finished(Ok(OutcomeModel::Reading(Some(revision))))
        }),
{
}

/// An operation on a plugin, under way.
#[derive(Debug)]
pub struct Lifecycle {
    operation: Operation,
    stage: Stage,
    plugin: VfoxPlugin,
    clone_url: String,
    gitref: Option<String>,
    revision: String,
    result: Result<Outcome, PluginError>,
}

impl View for Lifecycle {
    type V = MachineModel;

    closed spec fn view(&self) -> MachineModel {
        MachineModel {
            operation: self.operation,
            stage: self.stage,
            plugin: self.plugin@,
            clone_url: self.clone_url@,
            gitref: opt_text(self.gitref),
            revision: self.revision@,
            result: result_model(self.result),
        }
    }
}

impl VfoxPlugin {
    /// What an install of this plugin clones, and the ref it then checks
    /// out, given the remote `configured` in the working copy.
    pub fn install_source(&self, registry: &Registry, configured: Option<&str>) -> (out: Result<
        (String, Option<String>),
        PluginError,
    >)
        ensures
            match out {
                Ok(source) => install_source_spec(
                    self@,
                    *registry,
                    match configured {
                        Some(url) => Some(url@),
                        None => None,
                    },
                ) == Ok::<(Seq<char>, Option<Seq<char>>), ErrorModel>(
                    (source.0@, opt_text(source.1)),
                ),
                Err(e) => install_source_spec(
                    self@,
                    *registry,
                    match configured {
                        Some(url) => Some(url@),
                        None => None,
                    },
                ) == Err::<(Seq<char>, Option<Seq<char>>), ErrorModel>(e@),
            },
    {
        let text = match configured {
            Some(url) => url.to_owned(),
            None => match source_candidate(registry, self.name()) {
                Ok(text) => text,
                Err(e) => {
                    return Err(e);
                },
            },
        };
        let (target, _) = split_url_and_ref(text.as_str());
        if is_local_path(target.as_str()) {
            return Err(PluginError::Validation { plugin: self.name().to_owned(), url: target });
        }
        match self.get_repo_url(registry, configured) {
            Ok(url) => Ok(split_url_and_ref(url.as_str())),
            Err(e) => Err(e),
        }
    }

    /// Begins `operation` on this plugin; `gitref` is what an update checks
    /// out.
    fn begin(&self, operation: Operation, gitref: Option<String>) -> (machine: Lifecycle)
        ensures
            machine@ == MachineModel::start(operation, self@, opt_text(gitref)),
    {
        Lifecycle {
            operation,
            stage: match operation {
                Operation::Install => Stage::Remote,
                Operation::Update => Stage::Symlink,
                _ => Stage::Exists,
            },
            plugin: self.duplicate(),
            clone_url: String::new(),
            gitref,
            revision: String::new(),
            result: Ok(Outcome::Untouched),
        }
    }

    /// Begins an install: a fresh clone of the resolved source, in place of
    /// whatever is installed.
    pub fn install(&self) -> (machine: Lifecycle)
        ensures
            machine@ == MachineModel::start(Operation::Install, self@, None),
    {
        self.begin(Operation::Install, None)
    }

    /// Begins an update to `gitref`, or to the upstream tip without one.
    pub fn update(&self, gitref: Option<String>) -> (machine: Lifecycle)
        ensures
            machine@ == MachineModel::start(Operation::Update, self@, opt_text(gitref)),
    {
        self.begin(Operation::Update, gitref)
    }

    /// Begins an uninstall.
    pub fn uninstall(&self) -> (machine: Lifecycle)
        ensures
            machine@ == MachineModel::start(Operation::Uninstall, self@, None),
    {
        self.begin(Operation::Uninstall, None)
    }

    /// Begins an install that is skipped where the plugin is installed.
    pub fn ensure_installed(&self) -> (machine: Lifecycle)
        ensures
            machine@ == MachineModel::start(Operation::EnsureInstalled, self@, None),
    {
        self.begin(Operation::EnsureInstalled, None)
    }

    /// Begins reading the abbreviated revision of the working copy.
    pub fn current_sha_short(&self) -> (machine: Lifecycle)
        ensures
            machine@ == MachineModel::start(Operation::CurrentRevision, self@, None),
    {
        self.begin(Operation::CurrentRevision, None)
    }

    /// Begins reading the branch that the working copy is on.
    pub fn current_abbrev_ref(&self) -> (machine: Lifecycle)
        ensures
            machine@ == MachineModel::start(Operation::CurrentBranch, self@, None),
    {
        self.begin(Operation::CurrentBranch, None)
    }
}

impl Lifecycle {
    /// Tells whether the operation is over.
    pub fn is_finished(&self) -> (yes: bool)
        ensures
            yes == (self@.stage == Stage::Finished),
    {
        self.stage == Stage::Finished
    }

    /// The pending request.
    pub fn request(&self) -> (request: Request)
        ensures
            request@ == self@.request(),
    {
        match self.stage {
            Stage::Remote => Request::RemoteUrl,
            Stage::Exists => Request::PathExists,
            Stage::Symlink => Request::PathIsSymlink,
            Stage::Repository => Request::IsRepository,
            Stage::SayUninstalling => Request::Announce { message: "uninstalling".to_owned() },
            Stage::SayRemoving => Request::Announce {
                message: join2("removing ", self.plugin.path().as_str()),
            },
            Stage::Remove => Request::RemoveAll { path: self.plugin.path() },
            Stage::SayCloning => Request::Announce {
                message: join2("cloning ", self.clone_url.as_str()),
            },
            Stage::Clone => Request::Clone { url: self.clone_url.clone(), path: self.plugin.path() },
            Stage::SayCheckingOut => Request::Announce {
                message: match &self.gitref {
                    Some(r) => join2("checking out ", r.as_str()),
                    None => {
                        assert("checking out "@ + Seq::<char>::empty() =~= "checking out "@);
                        "checking out ".to_owned()
                    },
                },
            },
            Stage::SayUpdating => Request::Announce { message: "updating git repo".to_owned() },
            Stage::Checkout => Request::Checkout { gitref: copy_opt(&self.gitref) },
            Stage::Revision => Request::ShortRevision,
            Stage::Branch => Request::BranchName,
            Stage::Finished => Request::Finished(duplicate_result(&self.result)),
        }
    }

    /// Tells whether `reply` answers the pending request.
    pub fn expects(&self, reply: &Reply) -> (yes: bool)
        ensures
            yes == self@.expects(reply@),
    {
        match self.stage {
            Stage::Remote => matches!(reply, Reply::Remote(_)),
            Stage::Exists | Stage::Symlink | Stage::Repository => matches!(reply, Reply::Flag(_)),
            Stage::SayUninstalling | Stage::SayRemoving | Stage::SayCloning | Stage::SayCheckingOut
            | Stage::SayUpdating => matches!(reply, Reply::Done),
            Stage::Remove | Stage::Clone | Stage::Checkout => matches!(reply, Reply::Done)
                || matches!(reply, Reply::Failed(_)),
            Stage::Revision | Stage::Branch => matches!(reply, Reply::Text(_)) || matches!(
                reply,
                Reply::Failed(_)
            ),
            Stage::Finished => false,
        }
    }

    fn at(self, stage: Stage) -> (machine: Lifecycle)
        ensures
            machine@ == self@.at(stage),
    {
        Lifecycle { stage, ..self }
    }

    fn finish(self, result: Result<Outcome, PluginError>) -> (machine: Lifecycle)
        ensures
            machine@ == self@.finish(result_model(result)),
    {
        Lifecycle { stage: Stage::Finished, result, ..self }
    }

    fn fail_repository(self, detail: String) -> (machine: Lifecycle)
        ensures
            machine@ == self@.fail_repository(detail@),
    {
        let error = PluginError::Repository {
            plugin: self.plugin.name().to_owned(),
            path: self.plugin.path(),
            detail,
        };
        self.finish(Err(error))
    }

    fn after_remote(self, registry: &Registry, configured: Option<String>) -> (machine: Lifecycle)
        ensures
            machine@ == self@.after_remote(*registry, opt_text(configured)),
    {
        if self.operation == Operation::Update {
            let url = match self.plugin.get_remote_url(configured) {
                Some(url) => url,
                None => String::new(),
            };
            let revision = self.revision.clone();
            self.finish(Ok(Outcome::CheckedOut { url, revision }))
        } else {
            let source = match &configured {
                Some(url) => self.plugin.install_source(registry, Some(url.as_str())),
                None => self.plugin.install_source(registry, None),
            };
            match source {
                Ok((clone_url, gitref)) => Lifecycle { stage: Stage::Exists, clone_url, gitref, ..self },
                Err(e) => self.finish(Err(e)),
            }
        }
    }

    fn after_exists(self, exists: bool) -> (machine: Lifecycle)
        ensures
            machine@ == self@.after_exists(exists),
    {
        match self.operation {
            Operation::Install => if exists {
                self.at(Stage::SayUninstalling)
            } else {
                self.at(Stage::SayCloning)
            },
            Operation::Uninstall => if exists {
                self.at(Stage::SayUninstalling)
            } else {
                self.finish(Ok(Outcome::Untouched))
            },
            Operation::EnsureInstalled => if exists {
                self.finish(Ok(Outcome::Untouched))
            } else {
                Lifecycle { operation: Operation::Install, stage: Stage::Remote, ..self }
            },
            Operation::CurrentRevision => if exists {
                self.at(Stage::Revision)
            } else {
                self.finish(Ok(Outcome::Reading(None)))
            },
            Operation::CurrentBranch => if exists {
                self.at(Stage::Branch)
            } else {
                self.finish(Ok(Outcome::Reading(None)))
            },
            Operation::Update => self,
        }
    }

    fn after_revision(self, revision: String) -> (machine: Lifecycle)
        ensures
            machine@ == self@.after_revision(revision@),
    {
        match self.operation {
            Operation::Update => Lifecycle { stage: Stage::Remote, revision, ..self },
            Operation::CurrentRevision | Operation::CurrentBranch => self.finish(
                Ok(Outcome::Reading(Some(revision))),
            ),
            _ => {
                let url = self.clone_url.clone();
                self.finish(Ok(Outcome::CheckedOut { url, revision }))
            },
        }
    }

    /// Advances the operation with the host's reply to the pending request.
    /// Names are resolved against `registry`.
    pub fn advance(self, registry: &Registry, reply: Reply) -> (machine: Lifecycle)
        ensures
            machine@ == self@.next(*registry, reply@),
    {
        match (self.stage, reply) {
            (Stage::Remote, Reply::Remote(configured)) => self.after_remote(registry, configured),
            (Stage::Exists, Reply::Flag(exists)) => self.after_exists(exists),
            (Stage::Symlink, Reply::Flag(link)) => if link {
                self.finish(Ok(Outcome::Refused(Refusal::Symlink)))
            } else {
                self.at(Stage::Repository)
            },
            (Stage::Repository, Reply::Flag(repo)) => if repo {
                self.at(Stage::SayUpdating)
            } else {
                self.finish(Ok(Outcome::Refused(Refusal::NotRepository)))
            },
            (Stage::SayUninstalling, Reply::Done) => self.at(Stage::SayRemoving),
            (Stage::SayRemoving, Reply::Done) => self.at(Stage::Remove),
            (Stage::Remove, Reply::Done) => if self.operation == Operation::Install {
                self.at(Stage::SayCloning)
            } else {
                self.finish(Ok(Outcome::Removed))
            },
            (Stage::Remove, Reply::Failed(cause)) => {
                let error = PluginError::Filesystem {
                    plugin: self.plugin.name().to_owned(),
                    path: self.plugin.path(),
                    cause,
                };
                self.finish(Err(error))
            },
            (Stage::SayCloning, Reply::Done) => self.at(Stage::Clone),
            (Stage::Clone, Reply::Done) => if self.gitref.is_some() {
                self.at(Stage::SayCheckingOut)
            } else {
                self.at(Stage::Revision)
            },
            (Stage::SayCheckingOut, Reply::Done) => self.at(Stage::Checkout),
            (Stage::SayUpdating, Reply::Done) => self.at(Stage::Checkout),
            (Stage::Checkout, Reply::Done) => self.at(Stage::Revision),
            (Stage::Clone, Reply::Failed(detail)) => self.fail_repository(detail),
            (Stage::Checkout, Reply::Failed(detail)) => self.fail_repository(detail),
            (Stage::Revision, Reply::Failed(detail)) => self.fail_repository(detail),
            (Stage::Branch, Reply::Failed(detail)) => self.fail_repository(detail),
            (Stage::Revision, Reply::Text(revision)) => self.after_revision(revision),
            (Stage::Branch, Reply::Text(branch)) => self.finish(Ok(Outcome::Reading(Some(branch)))),
            _ => self,
        }
    }
}

} // verus!
