//! The vocabulary shared by the library and its caller: the stages of a run,
//! the actions that the caller performs, and the events that answer them.

use crate::outcome::{LaunchError, LaunchErrorView, Outcome, OutcomeView};
use crate::paths::{sdk_dir, sdk_root_of, SdkPath};
use vstd::prelude::*;

verus! {

/// A text, if there is one.
pub open spec fn text_of(text: Option<String>) -> Option<Seq<char>> {
    match text {
        Some(text) => Some(text@),
        None => None,
    }
}

/// The texts of a list, in order.
pub open spec fn texts_of(list: Seq<String>) -> Seq<Seq<char>> {
    Seq::new(list.len(), |i: int| list[i]@)
}

/// What is asked for: a script to run with the runtime of a language, found
/// under a root directory.
#[derive(Debug, Clone, PartialEq, Eq)]
pub struct RunRequest {
    pub root: SdkPath,
    pub language: String,
    pub script: String,
}

/// Mathematical model of a [`RunRequest`].
pub struct RunRequestView {
    pub root: Seq<Seq<char>>,
    pub language: Seq<char>,
    pub script: Seq<char>,
}

impl View for RunRequest {
    type V = RunRequestView;

    open spec fn view(&self) -> RunRequestView {
        RunRequestView { root: self.root@, language: self.language@, script: self.script@ }
    }
}

impl RunRequest {
    /// The request to run `script` with the runtime of `language`, for the
    /// user whose home directory is `home`. Fails with `ConfigurationError`
    /// exactly when no home directory is known.
    pub fn for_home(home: Option<String>, language: String, script: String) -> (request: Result<
        RunRequest,
        LaunchError,
    >)
        ensures
            home is None ==> request is Err && request->Err_0@
                == LaunchErrorView::ConfigurationError,
            home is Some ==> request is Ok && request->Ok_0@ == (RunRequestView {
                root: sdk_root_of(home->0@),
                language: language@,
                script: script@,
            }),
    {
        match sdk_dir(home) {
            Ok(root) => Ok(RunRequest { root, language, script }),
            Err(error) => Err(error),
        }
    }
}

/// How a runtime is to be acquired.
#[derive(Debug, Clone, PartialEq, Eq)]
pub enum InstallRequest {
    /// Through the package manager, for the language named.
    FromRegistry(String),
    /// By download, for the language named, from the location given.
    FromUrl(String, String),
}

/// Mathematical model of an [`InstallRequest`].
pub enum InstallRequestView {
    FromRegistry(Seq<char>),
    FromUrl(Seq<char>, Seq<char>),
}

impl View for InstallRequest {
    type V = InstallRequestView;

    open spec fn view(&self) -> InstallRequestView {
        match *self {
            InstallRequest::FromRegistry(language) => InstallRequestView::FromRegistry(language@),
            InstallRequest::FromUrl(language, url) => InstallRequestView::FromUrl(language@, url@),
        }
    }
}

/// The system interface that a guest is given: its command-line arguments and
/// whether it shares the host's standard streams.
#[derive(Debug, Clone, PartialEq, Eq)]
pub struct ExecutionContext {
    pub arguments: Vec<String>,
    pub inherit_stdio: bool,
}

/// Mathematical model of an [`ExecutionContext`].
pub struct ExecutionContextView {
    pub arguments: Seq<Seq<char>>,
    pub inherit_stdio: bool,
}

impl View for ExecutionContext {
    type V = ExecutionContextView;

    open spec fn view(&self) -> ExecutionContextView {
        ExecutionContextView {
            arguments: texts_of(self.arguments@),
            inherit_stdio: self.inherit_stdio,
        }
    }
}

/// One argument of a subprocess: a text, or a location that the caller
/// renders as the platform writes paths.
#[derive(Debug, Clone, PartialEq, Eq)]
pub enum CommandArgument {
    Text(String),
    Location(SdkPath),
}

/// Mathematical model of a [`CommandArgument`].
pub enum CommandArgumentView {
    Text(Seq<char>),
    Location(Seq<Seq<char>>),
}

impl View for CommandArgument {
    type V = CommandArgumentView;

    open spec fn view(&self) -> CommandArgumentView {
        match *self {
            CommandArgument::Text(text) => CommandArgumentView::Text(text@),
            CommandArgument::Location(path) => CommandArgumentView::Location(path@),
        }
    }
}

/// A subprocess to run: the program and its arguments.
#[derive(Debug, Clone, PartialEq, Eq)]
pub struct ManagerCommand {
    pub program: String,
    pub arguments: Vec<CommandArgument>,
}

/// Mathematical model of a [`ManagerCommand`].
pub struct ManagerCommandView {
    pub program: Seq<char>,
    pub arguments: Seq<CommandArgumentView>,
}

impl View for ManagerCommand {
    type V = ManagerCommandView;

    open spec fn view(&self) -> ManagerCommandView {
        ManagerCommandView {
            program: self.program@,
            arguments: Seq::new(self.arguments@.len(), |i: int| self.arguments@[i]@),
        }
    }
}

/// What the caller reports back after performing an action.
#[derive(Debug, Clone, PartialEq, Eq)]
pub enum Event {
    /// Whether what was looked for is there.
    Found(bool),
    /// A line read from the console, as typed.
    Line(String),
    /// The action succeeded.
    Completed,
    /// The action failed; holds the cause.
    Failed(String),
    /// The subprocess ran; holds whether it exited with success.
    Exited(bool),
    /// A piece of the response body.
    Chunk(Vec<u8>),
    /// The response body has been read to its end.
    EndOfBody,
}

/// Mathematical model of an [`Event`].
pub enum EventView {
    Found(bool),
    Line(Seq<char>),
    Completed,
    Failed(Seq<char>),
    Exited(bool),
    Chunk(Seq<u8>),
    EndOfBody,
}

impl View for Event {
    type V = EventView;

    open spec fn view(&self) -> EventView {
        match *self {
            Event::Found(found) => EventView::Found(found),
            Event::Line(line) => EventView::Line(line@),
            Event::Completed => EventView::Completed,
            Event::Failed(cause) => EventView::Failed(cause@),
            Event::Exited(success) => EventView::Exited(success),
            Event::Chunk(bytes) => EventView::Chunk(bytes@),
            Event::EndOfBody => EventView::EndOfBody,
        }
    }
}

/// What the caller is to do next.
#[derive(Debug, Clone, PartialEq, Eq)]
pub enum Action {
    /// Report whether a file exists at the path. Answer: `Found`.
    CheckArtifact(SdkPath),
    /// Print the prompt without a line end, flush, and read one line.
    /// Answer: `Line` or `Failed`.
    Ask(String),
    /// Create the directory and its parents. Answer: `Completed` or `Failed`.
    CreateDirectory(SdkPath),
    /// Run the subprocess to its end. Answer: `Exited`, or `Failed` when it
    /// could not be launched.
    RunPackageManager(ManagerCommand),
    /// Create the file, emptying one that exists. Answer: `Completed` or
    /// `Failed`.
    CreateFile(SdkPath),
    /// Send a GET request to the location. Answer: `Completed` or `Failed`.
    Fetch(String),
    /// Read the next piece of the response body. Answer: `Chunk`,
    /// `EndOfBody` or `Failed`.
    ReadBody,
    /// Append the bytes to the file at the path. Answer: `Completed` or
    /// `Failed`.
    WriteBody(SdkPath, Vec<u8>),
    /// Load and validate the module at the path. Answer: `Completed` or
    /// `Failed`.
    LoadModule(SdkPath),
    /// Instantiate the loaded module in a fresh store with this context.
    /// Answer: `Completed` or `Failed`.
    Instantiate(ExecutionContext),
    /// Look up the exported function of this name. Answer: `Found`.
    LocateEntry(String),
    /// Call the exported function of this name with no arguments.
    /// Answer: `Completed`, or `Failed` with the fault's description.
    Invoke(String),
    /// Report the outcome and exit. No answer is expected.
    Finish(Outcome),
}

/// Mathematical model of an [`Action`].
pub enum ActionView {
    CheckArtifact(Seq<Seq<char>>),
    Ask(Seq<char>),
    CreateDirectory(Seq<Seq<char>>),
    RunPackageManager(ManagerCommandView),
    CreateFile(Seq<Seq<char>>),
    Fetch(Seq<char>),
    ReadBody,
    WriteBody(Seq<Seq<char>>, Seq<u8>),
    LoadModule(Seq<Seq<char>>),
    Instantiate(ExecutionContextView),
    LocateEntry(Seq<char>),
    Invoke(Seq<char>),
    Finish(OutcomeView),
}

impl View for Action {
    type V = ActionView;

    open spec fn view(&self) -> ActionView {
        match *self {
            Action::CheckArtifact(path) => ActionView::CheckArtifact(path@),
            Action::Ask(prompt) => ActionView::Ask(prompt@),
            Action::CreateDirectory(path) => ActionView::CreateDirectory(path@),
            Action::RunPackageManager(command) => ActionView::RunPackageManager(command@),
            Action::CreateFile(path) => ActionView::CreateFile(path@),
            Action::Fetch(url) => ActionView::Fetch(url@),
            Action::ReadBody => ActionView::ReadBody,
            Action::WriteBody(path, bytes) => ActionView::WriteBody(path@, bytes@),
            Action::LoadModule(path) => ActionView::LoadModule(path@),
            Action::Instantiate(context) => ActionView::Instantiate(context@),
            Action::LocateEntry(name) => ActionView::LocateEntry(name@),
            Action::Invoke(name) => ActionView::Invoke(name@),
            Action::Finish(outcome) => ActionView::Finish(outcome@),
        }
    }
}

/// Where a registry install stands.
#[derive(Debug, Clone, PartialEq, Eq)]
pub enum RegistryStep {
    /// The target directory is being created; holds the package to install.
    CreatingDirectory(String),
    /// The package manager is running.
    RunningManager,
}

/// Mathematical model of a [`RegistryStep`].
pub enum RegistryStepView {
    CreatingDirectory(Seq<char>),
    RunningManager,
}

impl View for RegistryStep {
    type V = RegistryStepView;

    open spec fn view(&self) -> RegistryStepView {
        match *self {
            RegistryStep::CreatingDirectory(package) => RegistryStepView::CreatingDirectory(
                package@,
            ),
            RegistryStep::RunningManager => RegistryStepView::RunningManager,
        }
    }
}

/// The bytes of a piece, if there is one.
pub open spec fn bytes_of(piece: Option<Vec<u8>>) -> Option<Seq<u8>> {
    match piece {
        Some(bytes) => Some(bytes@),
        None => None,
    }
}

/// Where a URL install stands. The artifact file is left as it is until the
/// response body has begun to arrive.
#[derive(Debug, Clone, PartialEq, Eq)]
pub enum UrlStep {
    /// The target directory is being created; holds the download location.
    CreatingDirectory(String),
    /// The request has been sent.
    Connecting,
    /// The first piece of the body is being read; the artifact is untouched.
    AwaitingBody,
    /// The artifact file is being created; holds the first piece of the body,
    /// which is written next, or nothing where the body is empty.
    CreatingFile(Option<Vec<u8>>),
    /// The piece last read is being written.
    WritingBody,
    /// A further piece of the body is being read.
    ReadingBody,
}

/// Mathematical model of a [`UrlStep`].
pub enum UrlStepView {
    CreatingDirectory(Seq<char>),
    Connecting,
    AwaitingBody,
    CreatingFile(Option<Seq<u8>>),
    WritingBody,
    ReadingBody,
}

impl View for UrlStep {
    type V = UrlStepView;

    open spec fn view(&self) -> UrlStepView {
        match *self {
            UrlStep::CreatingDirectory(url) => UrlStepView::CreatingDirectory(url@),
            UrlStep::Connecting => UrlStepView::Connecting,
            UrlStep::AwaitingBody => UrlStepView::AwaitingBody,
            UrlStep::CreatingFile(piece) => UrlStepView::CreatingFile(bytes_of(piece)),
            UrlStep::WritingBody => UrlStepView::WritingBody,
            UrlStep::ReadingBody => UrlStepView::ReadingBody,
        }
    }
}

/// Where the execution engine stands.
#[derive(Debug, Clone, Copy, PartialEq, Eq)]
pub enum EngineStep {
    /// The artifact's existence is being confirmed.
    ConfirmingArtifact,
    /// The module is being loaded and validated.
    LoadingModule,
    /// The module is being instantiated in its store.
    Instantiating,
    /// The entry point is being looked up.
    LocatingEntry,
    /// The guest is running.
    Invoking,
}

/// The state of a run request.
#[derive(Debug, Clone, PartialEq, Eq)]
pub enum Stage {
    /// The artifact's existence is being looked up.
    CacheCheck,
    /// The user is being asked whether to install through the registry.
    PromptUser,
    /// The user is being asked for a download location.
    RequestUrl,
    /// The package manager is acquiring the runtime.
    InstallViaRegistry(RegistryStep),
    /// The runtime is being downloaded.
    InstallViaUrl(UrlStep),
    /// The runtime is taken to be present and the execution engine is at
    /// work.
    Ready(EngineStep),
    /// The run is over.
    Finished(Outcome),
}

/// Mathematical model of a [`Stage`].
pub enum StageView {
    CacheCheck,
    PromptUser,
    RequestUrl,
    InstallViaRegistry(RegistryStepView),
    InstallViaUrl(UrlStepView),
    Ready(EngineStep),
    Finished(OutcomeView),
}

impl View for Stage {
    type V = StageView;

    open spec fn view(&self) -> StageView {
        match *self {
            Stage::CacheCheck => StageView::CacheCheck,
            Stage::PromptUser => StageView::PromptUser,
            Stage::RequestUrl => StageView::RequestUrl,
            Stage::InstallViaRegistry(step) => StageView::InstallViaRegistry(step@),
            Stage::InstallViaUrl(step) => StageView::InstallViaUrl(step@),
            Stage::Ready(step) => StageView::Ready(step),
            Stage::Finished(outcome) => StageView::Finished(outcome@),
        }
    }
}

/// The result of one decision: the stage entered, a line to show the user
/// first if there is one, and the action to perform.
#[derive(Debug, Clone, PartialEq, Eq)]
pub struct Transition {
    pub stage: Stage,
    pub notice: Option<String>,
    pub action: Action,
}

/// Mathematical model of a [`Transition`].
pub struct TransitionView {
    pub stage: StageView,
    pub notice: Option<Seq<char>>,
    pub action: ActionView,
}

impl View for Transition {
    type V = TransitionView;

    open spec fn view(&self) -> TransitionView {
        TransitionView { stage: self.stage@, notice: text_of(self.notice), action: self.action@ }
    }
}

/// The transition that ends a run with `outcome`.
pub open spec fn stop(outcome: OutcomeView) -> TransitionView {
    TransitionView {
        stage: StageView::Finished(outcome),
        notice: None,
        action: ActionView::Finish(outcome),
    }
}

/// The transition that ends a run with `error`.
pub open spec fn fail(error: LaunchErrorView) -> TransitionView {
    stop(OutcomeView::Failed(error))
}

/// `transition`, with `notice` to be shown first.
pub open spec fn announced(transition: TransitionView, notice: Seq<char>) -> TransitionView {
    TransitionView { stage: transition.stage, notice: Some(notice), action: transition.action }
}

impl Transition {
    /// Ends the run with `outcome`.
    pub fn stop(outcome: Outcome) -> (transition: Transition)
        ensures
            transition@ == stop(outcome@),
    {
        let reported = outcome.duplicate();
        Transition { stage: Stage::Finished(outcome), notice: None, action: Action::Finish(reported) }
    }

    /// Ends the run with `error`.
    pub fn fail(error: LaunchError) -> (transition: Transition)
        ensures
            transition@ == fail(error@),
    {
        Transition::stop(Outcome::Failed(error))
    }

    /// This transition, with `notice` to be shown first.
    pub fn announced(self, notice: String) -> (transition: Transition)
        ensures
            transition@ == announced(self@, notice@),
    {
        Transition { stage: self.stage, notice: Some(notice), action: self.action }
    }
}

} // verus!
