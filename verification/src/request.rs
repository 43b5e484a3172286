//! What a launch is asked to do and how it can end.

use vstd::prelude::*;
use vstd::string::*;

verus! {

/// One request to open a file in the game. Once made, a request does not
/// change.
#[derive(Clone, Debug, PartialEq, Eq)]
pub struct LaunchRequest {
    path: String,
    prefer_client: bool,
}

/// A [`LaunchRequest`] as contracts see it.
pub struct LaunchRequestView {
    /// The file or level to hand to the game.
    pub path: Seq<char>,
    /// Whether to go through the Steam client where that is possible.
    pub prefer_client: bool,
}

impl View for LaunchRequest {
    type V = LaunchRequestView;

    closed spec fn view(&self) -> LaunchRequestView {
        LaunchRequestView { path: self.path@, prefer_client: self.prefer_client }
    }
}

impl LaunchRequest {
    /// A request to open `path`, through the Steam client if
    /// `prefer_client` says so.
    pub fn new(path: String, prefer_client: bool) -> (request: LaunchRequest)
        ensures
            request@ == (LaunchRequestView { path: path@, prefer_client }),
    {
        LaunchRequest { path, prefer_client }
    }

    /// The file or level to hand to the game.
    pub fn path(&self) -> (path: &str)
        ensures
            path@ == self@.path,
    {
        self.path.as_str()
    }

    /// Whether to go through the Steam client where that is possible.
    pub fn prefer_client(&self) -> (prefer: bool)
        ensures
            prefer == self@.prefer_client,
    {
        self.prefer_client
    }
}

/// How a launch ended.
#[derive(Clone, Debug, PartialEq, Eq)]
pub enum LaunchOutcome {
    /// A process was started.
    Success,
    /// Every way of starting the game was tried and none worked.
    Failure { reason: String },
}

/// A [`LaunchOutcome`] as contracts see it.
pub enum LaunchOutcomeView {
    Success,
    Failure { reason: Seq<char> },
}

impl View for LaunchOutcome {
    type V = LaunchOutcomeView;

    open spec fn view(&self) -> LaunchOutcomeView {
        match self {
            LaunchOutcome::Success => LaunchOutcomeView::Success,
            LaunchOutcome::Failure { reason } => LaunchOutcomeView::Failure { reason: reason@ },
        }
    }
}

/// The reason given when no way of starting the game worked.
pub open spec fn exhausted_reason() -> Seq<char> {
    "could not locate or launch the target game."@
}

/// The outcome of a launch in which no way of starting the game worked.
pub fn exhausted() -> (outcome: LaunchOutcome)
    ensures
        outcome@ == (LaunchOutcomeView::Failure { reason: exhausted_reason() }),
{
    LaunchOutcome::Failure { reason: String::from_str("could not locate or launch the target game.") }
}

/// What can go wrong on the way to a launch. All but `UnsupportedPlatform`
/// only close one way of starting the game; the launch goes on with the
/// next.
#[derive(Clone, Copy, Debug, PartialEq, Eq, Structural)]
pub enum LaunchError {
    /// The Steam client is not installed where it was looked for.
    ClientNotFound,
    /// Steam's library does not hold the game.
    GameNotFound,
    /// The operating system did not start the process.
    SpawnFailed,
    /// The path could not be left for the game's plugin to pick up.
    NotifyFailed,
    /// The operating system is none of Windows, macOS and Linux.
    UnsupportedPlatform,
}

/// How loudly a failure is to be reported.
#[derive(Clone, Copy, Debug, PartialEq, Eq, Structural)]
pub enum Severity {
    Info,
    Warning,
    Error,
}

/// The exit code after a launch that started a process.
pub const EXIT_LAUNCHED: u8 = 0;

/// The exit code when no file was given and the settings were shown instead.
pub const EXIT_SETTINGS_SHOWN: u8 = 1;

/// The exit code when no way of starting the game worked.
pub const EXIT_EXHAUSTED: u8 = 2;

/// The exit code that reports `outcome`.
pub open spec fn exit_code_of(outcome: LaunchOutcomeView) -> u8 {
    match outcome {
        LaunchOutcomeView::Success => EXIT_LAUNCHED,
        LaunchOutcomeView::Failure { .. } => EXIT_EXHAUSTED,
    }
}

/// The exit code that reports `outcome`.
pub fn exit_code(outcome: &LaunchOutcome) -> (code: u8)
    ensures
        code == exit_code_of(outcome@),
{
    match outcome {
        LaunchOutcome::Success => EXIT_LAUNCHED,
        LaunchOutcome::Failure { .. } => EXIT_EXHAUSTED,
    }
}

} // verus!
