//! How a run ends: the error taxonomy, the three outcomes, and what the user
//! is told about each.

use vstd::prelude::*;
use vstd::string::*;

verus! {

/// Every way a run request can fail.
#[derive(Debug, Clone, PartialEq, Eq)]
pub enum LaunchError {
    /// The user's home directory cannot be determined.
    ConfigurationError,
    /// The language has no entry in the registry.
    UnsupportedLanguage,
    /// The package manager could not be launched; holds the cause.
    PackageManagerUnavailable(String),
    /// The package manager ran and exited with a failure status.
    InstallFailed,
    /// The fetch failed in transport; holds the cause.
    DownloadFailed(String),
    /// A directory or file could not be created or written; holds the cause.
    FilesystemError(String),
    /// The console could not be flushed or read; holds the cause.
    PromptFailed(String),
    /// No artifact exists at the language's artifact path.
    ModuleNotFound,
    /// The artifact is not a valid module for the engine; holds the cause.
    ModuleLoadError(String),
    /// The module could not be instantiated in its store; holds the cause.
    InstantiationFailed(String),
    /// The module exports no entry point of the expected name.
    EntryPointMissing,
    /// The guest faulted while running; holds the fault description.
    ExecutionTrap(String),
    /// The caller answered an action with an event that action cannot produce.
    UnexpectedEvent,
}

/// Mathematical model of a [`LaunchError`].
pub enum LaunchErrorView {
    ConfigurationError,
    UnsupportedLanguage,
    PackageManagerUnavailable(Seq<char>),
    InstallFailed,
    DownloadFailed(Seq<char>),
    FilesystemError(Seq<char>),
    PromptFailed(Seq<char>),
    ModuleNotFound,
    ModuleLoadError(Seq<char>),
    InstantiationFailed(Seq<char>),
    EntryPointMissing,
    ExecutionTrap(Seq<char>),
    UnexpectedEvent,
}

impl View for LaunchError {
    type V = LaunchErrorView;

    open spec fn view(&self) -> LaunchErrorView {
        match *self {
            LaunchError::ConfigurationError => LaunchErrorView::ConfigurationError,
            LaunchError::UnsupportedLanguage => LaunchErrorView::UnsupportedLanguage,
            LaunchError::PackageManagerUnavailable(cause) => {
                LaunchErrorView::PackageManagerUnavailable(cause@)
            },
            LaunchError::InstallFailed => LaunchErrorView::InstallFailed,
            LaunchError::DownloadFailed(cause) => LaunchErrorView::DownloadFailed(cause@),
            LaunchError::FilesystemError(cause) => LaunchErrorView::FilesystemError(cause@),
            LaunchError::PromptFailed(cause) => LaunchErrorView::PromptFailed(cause@),
            LaunchError::ModuleNotFound => LaunchErrorView::ModuleNotFound,
            LaunchError::ModuleLoadError(cause) => LaunchErrorView::ModuleLoadError(cause@),
            LaunchError::InstantiationFailed(cause) => LaunchErrorView::InstantiationFailed(cause@),
            LaunchError::EntryPointMissing => LaunchErrorView::EntryPointMissing,
            LaunchError::ExecutionTrap(cause) => LaunchErrorView::ExecutionTrap(cause@),
            LaunchError::UnexpectedEvent => LaunchErrorView::UnexpectedEvent,
        }
    }
}

/// The text shown to the user for an error.
pub open spec fn error_message(error: LaunchErrorView) -> Seq<char> {
    match error {
        LaunchErrorView::ConfigurationError => "$HOME not set"@,
        LaunchErrorView::UnsupportedLanguage => "Language not supported"@,
        LaunchErrorView::PackageManagerUnavailable(cause) => "Wasmer not found: "@ + cause
            + ". Please install Wasmer[](https://wasmer.io/)."@,
        LaunchErrorView::InstallFailed => "Wasmer installation failed"@,
        LaunchErrorView::DownloadFailed(cause) => "Failed to download: "@ + cause,
        LaunchErrorView::FilesystemError(cause) => cause,
        LaunchErrorView::PromptFailed(cause) => cause,
        LaunchErrorView::ModuleNotFound => "Runtime module not found"@,
        LaunchErrorView::ModuleLoadError(cause) => cause,
        LaunchErrorView::InstantiationFailed(cause) => cause,
        LaunchErrorView::EntryPointMissing => "_start function not found"@,
        LaunchErrorView::ExecutionTrap(cause) => cause,
        LaunchErrorView::UnexpectedEvent => "Unexpected event"@,
    }
}

impl LaunchError {
    /// A copy of this error.
    pub fn duplicate(&self) -> (copy: LaunchError)
        ensures
            copy@ == self@,
    {
        match self {
            LaunchError::ConfigurationError => LaunchError::ConfigurationError,
            LaunchError::UnsupportedLanguage => LaunchError::UnsupportedLanguage,
            LaunchError::PackageManagerUnavailable(cause) => {
                LaunchError::PackageManagerUnavailable(cause.clone())
            },
            LaunchError::InstallFailed => LaunchError::InstallFailed,
            LaunchError::DownloadFailed(cause) => LaunchError::DownloadFailed(cause.clone()),
            LaunchError::FilesystemError(cause) => LaunchError::FilesystemError(cause.clone()),
            LaunchError::PromptFailed(cause) => LaunchError::PromptFailed(cause.clone()),
            LaunchError::ModuleNotFound => LaunchError::ModuleNotFound,
            LaunchError::ModuleLoadError(cause) => LaunchError::ModuleLoadError(cause.clone()),
            LaunchError::InstantiationFailed(cause) => {
                LaunchError::InstantiationFailed(cause.clone())
            },
            LaunchError::EntryPointMissing => LaunchError::EntryPointMissing,
            LaunchError::ExecutionTrap(cause) => LaunchError::ExecutionTrap(cause.clone()),
            LaunchError::UnexpectedEvent => LaunchError::UnexpectedEvent,
        }
    }

    /// The text shown to the user for this error. Causes reported by the
    /// caller are passed on verbatim.
    pub fn message(&self) -> (text: String)
        ensures
            text@ == error_message(self@),
    {
        match self {
            LaunchError::ConfigurationError => String::from_str("$HOME not set"),
            LaunchError::UnsupportedLanguage => String::from_str("Language not supported"),
            LaunchError::PackageManagerUnavailable(cause) => {
                let mut text = String::from_str("Wasmer not found: ");
                text.append(cause.as_str());
                text.append(". Please install Wasmer[](https://wasmer.io/).");
                text
            },
            LaunchError::InstallFailed => String::from_str("Wasmer installation failed"),
            LaunchError::DownloadFailed(cause) => {
                let mut text = String::from_str("Failed to download: ");
                text.append(cause.as_str());
                text
            },
            LaunchError::FilesystemError(cause) => cause.clone(),
            LaunchError::PromptFailed(cause) => cause.clone(),
            LaunchError::ModuleNotFound => String::from_str("Runtime module not found"),
            LaunchError::ModuleLoadError(cause) => cause.clone(),
            LaunchError::InstantiationFailed(cause) => cause.clone(),
            LaunchError::EntryPointMissing => String::from_str("_start function not found"),
            LaunchError::ExecutionTrap(cause) => cause.clone(),
            LaunchError::UnexpectedEvent => String::from_str("Unexpected event"),
        }
    }
}

/// How a run request ended.
#[derive(Debug, Clone, PartialEq, Eq)]
pub enum Outcome {
    /// The guest ran to completion.
    Completed,
    /// The user declined the installation: a normal ending, not a failure.
    Aborted,
    /// The run was stopped by an error.
    Failed(LaunchError),
}

/// Mathematical model of an [`Outcome`].
pub enum OutcomeView {
    Completed,
    Aborted,
    Failed(LaunchErrorView),
}

impl View for Outcome {
    type V = OutcomeView;

    open spec fn view(&self) -> OutcomeView {
        match *self {
            Outcome::Completed => OutcomeView::Completed,
            Outcome::Aborted => OutcomeView::Aborted,
            Outcome::Failed(error) => OutcomeView::Failed(error@),
        }
    }
}

/// What the user is told when a run ends; nothing after a completed run.
pub open spec fn outcome_message(outcome: OutcomeView) -> Option<Seq<char>> {
    match outcome {
        OutcomeView::Completed => None,
        OutcomeView::Aborted => Some("Installation aborted"@),
        OutcomeView::Failed(error) => Some(error_message(error)),
    }
}

/// The process exit status of an outcome: zero for a completed run only.
pub open spec fn outcome_exit_code(outcome: OutcomeView) -> int {
    match outcome {
        OutcomeView::Completed => 0,
        _ => 1,
    }
}

impl Outcome {
    /// A copy of this outcome.
    pub fn duplicate(&self) -> (copy: Outcome)
        ensures
            copy@ == self@,
    {
        match self {
            Outcome::Completed => Outcome::Completed,
            Outcome::Aborted => Outcome::Aborted,
            Outcome::Failed(error) => Outcome::Failed(error.duplicate()),
        }
    }

    /// What the user is told when a run ends so.
    pub fn message(&self) -> (text: Option<String>)
        ensures
            match text {
                Some(text) => outcome_message(self@) == Some(text@),
                None => outcome_message(self@) is None,
            },
    {
        match self {
            Outcome::Completed => None,
            Outcome::Aborted => Some(String::from_str("Installation aborted")),
            Outcome::Failed(error) => Some(error.message()),
        }
    }

    /// The process exit status for this outcome.
    pub fn exit_code(&self) -> (code: u8)
        ensures
            code == outcome_exit_code(self@),
    {
        match self {
            Outcome::Completed => 0,
            _ => 1,
        }
    }
}

/// Only a completed run exits with status zero: a declined installation and
/// every failure exit with a non-zero status.
pub proof fn exit_code_zero_only_when_completed(outcome: OutcomeView)
    ensures
        outcome_exit_code(outcome) == 0 <==> outcome is Completed,
{
}

} // verus!
