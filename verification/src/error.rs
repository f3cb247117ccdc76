//! The errors that plugin operations surface.

use vstd::prelude::*;
use crate::text::join2;

verus! {

/// What went wrong in an operation on a plugin.
///
/// Every variant names the plugin and the path, address or text at fault.
#[derive(Debug, Clone, PartialEq, Eq)]
pub enum PluginError {
    /// No source address can be derived from `input`.
    Resolution { plugin: String, input: String },
    /// The clone target `url` looks like a local path.
    Validation { plugin: String, url: String },
    /// The working copy at `path` refused an operation.
    Repository { plugin: String, path: String, detail: String },
    /// The install path could not be removed.
    Filesystem { plugin: String, path: String, cause: String },
    /// The operation needs the plugin on disk.
    NotInstalled { plugin: String },
    /// The embedded runtime failed.
    RuntimeExecution { plugin: String, message: String },
}

/// The mathematical content of a [`PluginError`].
pub enum ErrorModel {
    Resolution { plugin: Seq<char>, input: Seq<char> },
    Validation { plugin: Seq<char>, url: Seq<char> },
    Repository { plugin: Seq<char>, path: Seq<char>, detail: Seq<char> },
    Filesystem { plugin: Seq<char>, path: Seq<char>, cause: Seq<char> },
    NotInstalled { plugin: Seq<char> },
    RuntimeExecution { plugin: Seq<char>, message: Seq<char> },
}

impl View for PluginError {
    type V = ErrorModel;

    open spec fn view(&self) -> ErrorModel {
        match self {
            PluginError::Resolution { plugin, input } => ErrorModel::Resolution {
                plugin: plugin@,
                input: input@,
            },
            PluginError::Validation { plugin, url } => ErrorModel::Validation {
                plugin: plugin@,
                url: url@,
            },
            PluginError::Repository { plugin, path, detail } => ErrorModel::Repository {
                plugin: plugin@,
                path: path@,
                detail: detail@,
            },
            PluginError::Filesystem { plugin, path, cause } => ErrorModel::Filesystem {
                plugin: plugin@,
                path: path@,
                cause: cause@,
            },
            PluginError::NotInstalled { plugin } => ErrorModel::NotInstalled { plugin: plugin@ },
            PluginError::RuntimeExecution { plugin, message } => ErrorModel::RuntimeExecution {
                plugin: plugin@,
                message: message@,
            },
        }
    }
}

impl ErrorModel {
    /// The plugin that the error names.
    pub open spec fn plugin(self) -> Seq<char> {
        match self {
            ErrorModel::Resolution { plugin, .. } => plugin,
            ErrorModel::Validation { plugin, .. } => plugin,
            ErrorModel::Repository { plugin, .. } => plugin,
            ErrorModel::Filesystem { plugin, .. } => plugin,
            ErrorModel::NotInstalled { plugin } => plugin,
            ErrorModel::RuntimeExecution { plugin, .. } => plugin,
        }
    }

    /// The text shown to the user.
    pub open spec fn message(self) -> Seq<char> {
        match self {
            ErrorModel::Resolution { input, .. } => "Invalid version: "@ + input,
            ErrorModel::Validation { url, .. } => "Invalid repository URL: "@ + url
                + "\nIf you are trying to link to a local directory, use `mise plugins link` instead.\nPlugins could support local directories in the future but for now a symlink is required which `mise plugins link` will create for you."@,
            ErrorModel::Repository { plugin, path, detail } => "plugin "@ + plugin + " at "@ + path
                + ": "@ + detail,
            ErrorModel::Filesystem { path, cause, .. } => "Failed to remove directory "@ + path
                + ": "@ + cause,
            ErrorModel::NotInstalled { plugin } => "run with --yes to install plugin automatically: asdf plugin "@
                + plugin + " is not installed"@,
            ErrorModel::RuntimeExecution { plugin, message } => "plugin "@ + plugin + ": "@
                + message,
        }
    }
}

impl PluginError {
    /// The plugin that the error names.
    pub fn plugin(&self) -> (name: &str)
        ensures
            name@ == self@.plugin(),
    {
        match self {
            PluginError::Resolution { plugin, .. } => plugin.as_str(),
            PluginError::Validation { plugin, .. } => plugin.as_str(),
            PluginError::Repository { plugin, .. } => plugin.as_str(),
            PluginError::Filesystem { plugin, .. } => plugin.as_str(),
            PluginError::NotInstalled { plugin } => plugin.as_str(),
            PluginError::RuntimeExecution { plugin, .. } => plugin.as_str(),
        }
    }

    /// Renders the error as the text shown to the user.
    pub fn message(&self) -> (text: String)
        ensures
            text@ == self@.message(),
    {
        match self {
            PluginError::Resolution { input, .. } => join2("Invalid version: ", input.as_str()),
            PluginError::Validation { url, .. } => {
                let head = join2("Invalid repository URL: ", url.as_str());
                join2(
                    head.as_str(),
                    "\nIf you are trying to link to a local directory, use `mise plugins link` instead.\nPlugins could support local directories in the future but for now a symlink is required which `mise plugins link` will create for you.",
                )
            },
            PluginError::Repository { plugin, path, detail } => {
                let mut text = join2("plugin ", plugin.as_str());
                text.append(" at ");
                text.append(path.as_str());
                text.append(": ");
                text.append(detail.as_str());
                text
            },
            PluginError::Filesystem { path, cause, .. } => {
                let mut text = join2("Failed to remove directory ", path.as_str());
                text.append(": ");
                text.append(cause.as_str());
                text
            },
            PluginError::NotInstalled { plugin } => {
                let mut text = join2(
                    "run with --yes to install plugin automatically: asdf plugin ",
                    plugin.as_str(),
                );
                text.append(" is not installed");
                text
            },
            PluginError::RuntimeExecution { plugin, message } => {
                let mut text = join2("plugin ", plugin.as_str());
                text.append(": ");
                text.append(message.as_str());
                text
            },
        }
    }
}

} // verus!
