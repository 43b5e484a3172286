//! The launch chain: an ordered list of ways to start the game, tried one
//! after the other until one of them starts a process.
//!
//! The chain decides and never acts. Each step hands out one [`Action`] for
//! the caller to perform and takes back a [`Reply`] that says how it went;
//! from the reply the chain decides what to do next.

use vstd::prelude::*;
use vstd::string::*;
use crate::command::{
    build_client_arguments,
    build_game_arguments,
    build_protocol_uri,
    client_arguments,
    game_arguments,
    protocol_uri,
    APP_ID,
};
use crate::platform::{executable_path, platform_named, Platform};
use crate::request::{
    exhausted,
    exhausted_reason,
    LaunchError,
    LaunchOutcome,
    LaunchOutcomeView,
    LaunchRequest,
    LaunchRequestView,
    Severity,
};

verus! {

/// One of the three ways of starting the game, in the order in which they
/// are tried.
#[derive(Clone, Copy, Debug, PartialEq, Eq, Structural)]
pub enum Strategy {
    /// Start the Steam client with the game's id and the path as arguments.
    ClientArgLaunch,
    /// Leave the path for the game's plugin, then ask the installed client
    /// to run the game through its `steam://` address.
    ProtocolFallback,
    /// Start the game's own executable, without the client.
    DirectLaunch,
}

/// Where the chain stands.
#[derive(Clone, Copy, Debug, PartialEq, Eq, Structural)]
pub enum Stage {
    /// Nothing has been tried yet.
    Start,
    /// Waiting to hear where the Steam client is.
    LocatingClient,
    /// Waiting to hear whether the Steam client started.
    LaunchingClient,
    /// Waiting to hear whether the path was left for the plugin.
    Notifying,
    /// Waiting to hear whether the `steam://` address was opened.
    OpeningUri,
    /// Waiting to hear where the game is installed.
    LocatingGame,
    /// Waiting to hear whether the game started.
    LaunchingGame,
    /// A process was started. Final.
    Succeeded,
    /// Nothing worked. Final.
    Failed,
}

impl Stage {
    /// The strategy that this stage is a part of.
    pub open spec fn strategy(self) -> Option<Strategy> {
        match self {
            Stage::LocatingClient | Stage::LaunchingClient => Some(Strategy::ClientArgLaunch),
            Stage::Notifying | Stage::OpeningUri => Some(Strategy::ProtocolFallback),
            Stage::LocatingGame | Stage::LaunchingGame => Some(Strategy::DirectLaunch),
            _ => None,
        }
    }

    /// Whether the chain has ended.
    pub open spec fn is_final(self) -> bool {
        self == Stage::Succeeded || self == Stage::Failed
    }

    /// Whether this stage goes through the Steam client.
    pub open spec fn uses_client(self) -> bool {
        self.strategy() == Some(Strategy::ClientArgLaunch) || self.strategy() == Some(
            Strategy::ProtocolFallback,
        )
    }

    /// The position of this stage in the order of the chain. Every step
    /// from a stage that is not final leads to a later position.
    pub open spec fn position(self) -> nat {
        match self {
            Stage::Start => 0,
            Stage::LocatingClient => 1,
            Stage::LaunchingClient => 2,
            Stage::Notifying => 3,
            Stage::OpeningUri => 4,
            Stage::LocatingGame => 5,
            Stage::LaunchingGame => 6,
            Stage::Succeeded => 7,
            Stage::Failed => 7,
        }
    }

    /// How loudly a failure in this stage is reported: the further the
    /// chain has fallen back, the louder.
    pub open spec fn severity(self) -> Severity {
        match self.strategy() {
            Some(Strategy::DirectLaunch) => Severity::Error,
            Some(Strategy::ProtocolFallback) => Severity::Warning,
            _ => Severity::Info,
        }
    }
}

/// What came back from an action.
#[derive(Debug, PartialEq, Eq)]
pub enum Reply {
    /// What was looked for is at this path.
    Located(String),
    /// What was to be done was done: the process was started, the path was
    /// left, the address was opened.
    Completed,
    /// What was looked for is not there, or what was to be done failed.
    Unavailable,
}

/// A [`Reply`] as contracts see it.
pub enum ReplyView {
    Located(Seq<char>),
    Completed,
    Unavailable,
}

impl View for Reply {
    type V = ReplyView;

    open spec fn view(&self) -> ReplyView {
        match self {
            Reply::Located(path) => ReplyView::Located(path@),
            Reply::Completed => ReplyView::Completed,
            Reply::Unavailable => ReplyView::Unavailable,
        }
    }
}

impl Clone for Reply {
    fn clone(&self) -> (copy: Reply)
        ensures
            copy@ == self@,
    {
        match self {
            Reply::Located(path) => Reply::Located(path.clone()),
            Reply::Completed => Reply::Completed,
            Reply::Unavailable => Reply::Unavailable,
        }
    }
}

/// The reply that reports where something was found, or that it was not.
pub fn reply_from_location(found: Option<String>) -> (reply: Reply)
    ensures
        reply@ == match found {
            Some(path) => ReplyView::Located(path@),
            None => ReplyView::Unavailable,
        },
{
    match found {
        Some(path) => Reply::Located(path),
        None => Reply::Unavailable,
    }
}

/// The reply that reports whether something was done.
pub fn reply_from_completion(done: bool) -> (reply: Reply)
    ensures
        reply@ == if done {
            ReplyView::Completed
        } else {
            ReplyView::Unavailable
        },
{
    if done {
        Reply::Completed
    } else {
        Reply::Unavailable
    }
}

/// What the chain asks its caller to do.
#[derive(Clone, Debug, PartialEq, Eq)]
pub enum Action {
    /// Find the Steam client's executable.
    LocateClient,
    /// Start `program` with `args` and do not wait for it.
    Spawn { program: String, args: Vec<String> },
    /// Leave `path` where the game's plugin will find it.
    Notify { path: String },
    /// Open `uri` with the system's handler for it.
    OpenUri { uri: String },
    /// Find the install directory of the application `app_id`.
    LocateGame { app_id: u32 },
}

/// An [`Action`] as contracts see it.
pub enum ActionView {
    LocateClient,
    Spawn { program: Seq<char>, args: Seq<Seq<char>> },
    Notify { path: Seq<char> },
    OpenUri { uri: Seq<char> },
    LocateGame { app_id: u32 },
}

impl View for Action {
    type V = ActionView;

    open spec fn view(&self) -> ActionView {
        match self {
            Action::LocateClient => ActionView::LocateClient,
            Action::Spawn { program, args } => ActionView::Spawn {
                program: program@,
                args: args.deep_view(),
            },
            Action::Notify { path } => ActionView::Notify { path: path@ },
            Action::OpenUri { uri } => ActionView::OpenUri { uri: uri@ },
            Action::LocateGame { app_id } => ActionView::LocateGame { app_id: *app_id },
        }
    }
}

/// A failure that closed one way of starting the game.
#[derive(Clone, Copy, Debug, PartialEq, Eq, Structural)]
pub struct Fault {
    pub error: LaunchError,
    pub severity: Severity,
}

/// What one step of the chain decided.
#[derive(Clone, Debug, PartialEq, Eq)]
pub struct Step {
    /// What to do next; `None` once the chain has ended.
    pub action: Option<Action>,
    /// The failure that the reply reported, if it reported one.
    pub fault: Option<Fault>,
}

/// What one step of the chain decided, as contracts see it.
pub struct StepView {
    pub action: Option<ActionView>,
    pub fault: Option<Fault>,
}

impl View for Step {
    type V = StepView;

    open spec fn view(&self) -> StepView {
        StepView { action: seen_action(self.action), fault: self.fault }
    }
}

/// An optional action as contracts see it.
pub open spec fn seen_action(action: Option<Action>) -> Option<ActionView> {
    match action {
        Some(action) => Some(action@),
        None => None,
    }
}

/// An optional reply as contracts see it.
pub open spec fn seen_reply(reply: Option<Reply>) -> Option<ReplyView> {
    match reply {
        Some(reply) => Some(reply@),
        None => None,
    }
}

/// The path that a reply reports, if it reports one.
pub open spec fn located(reply: Option<ReplyView>) -> Option<Seq<char>> {
    match reply {
        Some(ReplyView::Located(path)) => Some(path),
        _ => None,
    }
}

/// Whether a reply reports that the action was carried out. Any other
/// reply, a missing one and one of the wrong kind too, counts as a failure.
pub open spec fn completed(reply: Option<ReplyView>) -> bool {
    reply == Some(ReplyView::Completed)
}

/// The chain as contracts see it: the request it serves, the platform it
/// runs on and the stage it has reached.
pub struct ChainView {
    pub request: LaunchRequestView,
    pub platform: Platform,
    pub stage: Stage,
}

impl ChainView {
    /// The chain before anything was tried.
    pub open spec fn start(request: LaunchRequestView, platform: Platform) -> ChainView {
        ChainView { request, platform, stage: Stage::Start }
    }

    /// A chain only stands in a stage that goes through the Steam client
    /// if its request prefers the client.
    pub open spec fn coherent(self) -> bool {
        self.stage.uses_client() ==> self.request.prefer_client
    }

    /// The stage that follows when `reply` comes back. In `Start` no
    /// action is out yet and the reply is not read. A strategy whose step
    /// fails is left for the next one; a step that starts a process ends
    /// the chain.
    pub open spec fn next_stage(self, reply: Option<ReplyView>) -> Stage {
        match self.stage {
            Stage::Start => if self.request.prefer_client {
                Stage::LocatingClient
            } else {
                Stage::LocatingGame
            },
            Stage::LocatingClient => if located(reply) is Some {
                Stage::LaunchingClient
            } else {
                Stage::Notifying
            },
            Stage::LaunchingClient => if completed(reply) {
                Stage::Succeeded
            } else {
                Stage::Notifying
            },
            Stage::Notifying => if completed(reply) {
                Stage::OpeningUri
            } else {
                Stage::LocatingGame
            },
            Stage::OpeningUri => if completed(reply) {
                Stage::Succeeded
            } else {
                Stage::LocatingGame
            },
            Stage::LocatingGame => if located(reply) is Some {
                Stage::LaunchingGame
            } else {
                Stage::Failed
            },
            Stage::LaunchingGame => if completed(reply) {
                Stage::Succeeded
            } else {
                Stage::Failed
            },
            Stage::Succeeded => Stage::Succeeded,
            Stage::Failed => Stage::Failed,
        }
    }

    /// The chain after `reply` came back.
    pub open spec fn after(self, reply: Option<ReplyView>) -> ChainView {
        ChainView { stage: self.next_stage(reply), ..self }
    }

    /// The action that the step on `reply` hands out: the one that the
    /// stage it leads to waits for.
    pub open spec fn issues(self, reply: Option<ReplyView>) -> Option<ActionView> {
        match self.next_stage(reply) {
            Stage::Start => None,
            Stage::LocatingClient => Some(ActionView::LocateClient),
            Stage::LaunchingClient => Some(
                ActionView::Spawn {
                    program: located(reply).unwrap(),
                    args: client_arguments(self.platform, APP_ID, self.request.path),
                },
            ),
            Stage::Notifying => Some(ActionView::Notify { path: self.request.path }),
            Stage::OpeningUri => Some(ActionView::OpenUri { uri: protocol_uri(APP_ID) }),
            Stage::LocatingGame => Some(ActionView::LocateGame { app_id: APP_ID }),
            Stage::LaunchingGame => Some(
                ActionView::Spawn {
                    program: self.platform.executable_path(located(reply).unwrap()),
                    args: game_arguments(self.request.path),
                },
            ),
            Stage::Succeeded => None,
            Stage::Failed => None,
        }
    }

    /// The failure that `reply` reports to a chain in this stage. That the
    /// `steam://` address could not be opened counts as a process that
    /// did not start.
    pub open spec fn failure(self, reply: Option<ReplyView>) -> Option<LaunchError> {
        match self.stage {
            Stage::LocatingClient => if located(reply) is Some {
                None
            } else {
                Some(LaunchError::ClientNotFound)
            },
            Stage::Notifying => if completed(reply) {
                None
            } else {
                Some(LaunchError::NotifyFailed)
            },
            Stage::LocatingGame => if located(reply) is Some {
                None
            } else {
                Some(LaunchError::GameNotFound)
            },
            Stage::LaunchingClient | Stage::OpeningUri | Stage::LaunchingGame => if completed(
                reply,
            ) {
                None
            } else {
                Some(LaunchError::SpawnFailed)
            },
            Stage::Start | Stage::Succeeded | Stage::Failed => None,
        }
    }

    /// The failure that `reply` reports, with the severity of the stage in
    /// which it happened.
    pub open spec fn fault(self, reply: Option<ReplyView>) -> Option<Fault> {
        match self.failure(reply) {
            Some(error) => Some(Fault { error, severity: self.stage.severity() }),
            None => None,
        }
    }

    /// What the step on `reply` decides.
    pub open spec fn decides(self, reply: Option<ReplyView>) -> StepView {
        StepView { action: self.issues(reply), fault: self.fault(reply) }
    }

    /// How the launch ended, once the chain is in a final stage.
    pub open spec fn outcome(self) -> Option<LaunchOutcomeView> {
        match self.stage {
            Stage::Succeeded => Some(LaunchOutcomeView::Success),
            Stage::Failed => Some(LaunchOutcomeView::Failure { reason: exhausted_reason() }),
            _ => None,
        }
    }
}

/// The chain for `request` after its first step and one further step for
/// each of `replies`, in their order.
pub open spec fn run(request: LaunchRequestView, platform: Platform, replies: Seq<ReplyView>) -> ChainView
    decreases replies.len(),
{
    if replies.len() == 0 {
        ChainView::start(request, platform).after(None)
    } else {
        run(request, platform, replies.drop_last()).after(Some(replies.last()))
    }
}

/// The action that is out once `replies` have come back: the one that the
/// last step handed out. `None` once the chain has ended.
pub open spec fn pending(
    request: LaunchRequestView,
    platform: Platform,
    replies: Seq<ReplyView>,
) -> Option<ActionView> {
    if replies.len() == 0 {
        ChainView::start(request, platform).issues(None)
    } else {
        run(request, platform, replies.drop_last()).issues(Some(replies.last()))
    }
}

/// The launch chain for one request.
#[derive(Debug)]
pub struct LaunchOrchestrator {
    request: LaunchRequest,
    platform: Platform,
    stage: Stage,
}

impl View for LaunchOrchestrator {
    type V = ChainView;

    closed spec fn view(&self) -> ChainView {
        ChainView { request: self.request@, platform: self.platform, stage: self.stage }
    }
}

impl LaunchOrchestrator {
    #[verifier::type_invariant]
    spec fn coherent(self) -> bool {
        self@.coherent()
    }

    /// A chain for `request` on `platform`, with nothing tried yet.
    pub fn new(request: LaunchRequest, platform: Platform) -> (chain: LaunchOrchestrator)
        ensures
            chain@ == ChainView::start(request@, platform),
    {
        LaunchOrchestrator { request, platform, stage: Stage::Start }
    }

    /// A chain for `request` on the operating system called `os_name`.
    /// Fails at once on a system that is none of Windows, macOS and Linux:
    /// nothing is known there about how to start the game.
    pub fn for_os(request: LaunchRequest, os_name: &str) -> (chain: Result<
        LaunchOrchestrator,
        LaunchError,
    >)
        ensures
            match Platform::named(os_name@) {
                Some(platform) => chain is Ok && chain->Ok_0@ == ChainView::start(
                    request@,
                    platform,
                ),
                None => chain == Err::<LaunchOrchestrator, LaunchError>(
                    LaunchError::UnsupportedPlatform,
                ),
            },
    {
        match platform_named(os_name) {
            Some(platform) => Ok(LaunchOrchestrator::new(request, platform)),
            None => Err(LaunchError::UnsupportedPlatform),
        }
    }

    /// The stage that the chain has reached. A chain only ever stands in
    /// a stage that fits its request.
    pub fn stage(&self) -> (stage: Stage)
        ensures
            stage == self@.stage,
            self@.coherent(),
    {
        proof {
            use_type_invariant(self);
        }
        self.stage
    }

    /// The platform on which the chain runs.
    pub fn platform(&self) -> (platform: Platform)
        ensures
            platform == self@.platform,
    {
        self.platform
    }

    /// The request that the chain serves.
    pub fn request(&self) -> (request: &LaunchRequest)
        ensures
            request@ == self@.request,
    {
        &self.request
    }

    /// Whether the chain has ended.
    pub fn is_finished(&self) -> (finished: bool)
        ensures
            finished == self@.stage.is_final(),
    {
        matches!(self.stage, Stage::Succeeded | Stage::Failed)
    }

    /// How the launch ended; `None` while the chain has not ended.
    pub fn outcome(&self) -> (outcome: Option<LaunchOutcome>)
        ensures
            seen_outcome(outcome) == self@.outcome(),
    {
        match self.stage {
            Stage::Succeeded => Some(LaunchOutcome::Success),
            Stage::Failed => Some(exhausted()),
            _ => None,
        }
    }

    /// Takes the reply to the action handed out last (`None` on the first
    /// step), moves to the next stage and hands out the action for it.
    pub fn step(&mut self, reply: Option<Reply>) -> (taken: Step)
        ensures
            final(self)@ == old(self)@.after(seen_reply(reply)),
            taken@ == old(self)@.decides(seen_reply(reply)),
            final(self)@.coherent(),
    {
        proof {
            use_type_invariant(&*self);
        }
        let severity = severity_of(self.stage);
        match self.stage {
            Stage::Start => {
                if self.request.prefer_client() {
                    self.stage = Stage::LocatingClient;
                    Step { action: Some(Action::LocateClient), fault: None }
                } else {
                    self.stage = Stage::LocatingGame;
                    Step { action: Some(Action::LocateGame { app_id: APP_ID }), fault: None }
                }
            },
            Stage::LocatingClient => match reply {
                Some(Reply::Located(program)) => {
                    self.stage = Stage::LaunchingClient;
                    let args = build_client_arguments(self.platform, APP_ID, self.request.path());
                    Step { action: Some(Action::Spawn { program, args }), fault: None }
                },
                _ => {
                    self.stage = Stage::Notifying;
                    Step {
                        action: Some(Action::Notify { path: String::from_str(self.request.path()) }),
                        fault: Some(Fault { error: LaunchError::ClientNotFound, severity }),
                    }
                },
            },
            Stage::LaunchingClient => match reply {
                Some(Reply::Completed) => {
                    self.stage = Stage::Succeeded;
                    Step { action: None, fault: None }
                },
                _ => {
                    self.stage = Stage::Notifying;
                    Step {
                        action: Some(Action::Notify { path: String::from_str(self.request.path()) }),
                        fault: Some(Fault { error: LaunchError::SpawnFailed, severity }),
                    }
                },
            },
            Stage::Notifying => match reply {
                Some(Reply::Completed) => {
                    self.stage = Stage::OpeningUri;
                    Step {
                        action: Some(Action::OpenUri { uri: build_protocol_uri(APP_ID) }),
                        fault: None,
                    }
                },
                _ => {
                    self.stage = Stage::LocatingGame;
                    Step {
                        action: Some(Action::LocateGame { app_id: APP_ID }),
                        fault: Some(Fault { error: LaunchError::NotifyFailed, severity }),
                    }
                },
            },
            Stage::OpeningUri => match reply {
                Some(Reply::Completed) => {
                    self.stage = Stage::Succeeded;
                    Step { action: None, fault: None }
                },
                _ => {
                    self.stage = Stage::LocatingGame;
                    Step {
                        action: Some(Action::LocateGame { app_id: APP_ID }),
                        fault: Some(Fault { error: LaunchError::SpawnFailed, severity }),
                    }
                },
            },
            Stage::LocatingGame => match reply {
                Some(Reply::Located(install_dir)) => {
                    self.stage = Stage::LaunchingGame;
                    let program = executable_path(self.platform, install_dir.as_str());
                    let args = build_game_arguments(self.request.path());
                    Step { action: Some(Action::Spawn { program, args }), fault: None }
                },
                _ => {
                    self.stage = Stage::Failed;
                    Step {
                        action: None,
                        fault: Some(Fault { error: LaunchError::GameNotFound, severity }),
                    }
                },
            },
            Stage::LaunchingGame => match reply {
                Some(Reply::Completed) => {
                    self.stage = Stage::Succeeded;
                    Step { action: None, fault: None }
                },
                _ => {
                    self.stage = Stage::Failed;
                    Step {
                        action: None,
                        fault: Some(Fault { error: LaunchError::SpawnFailed, severity }),
                    }
                },
            },
            Stage::Succeeded => Step { action: None, fault: None },
            Stage::Failed => Step { action: None, fault: None },
        }
    }
}

/// An optional outcome as contracts see it.
pub open spec fn seen_outcome(outcome: Option<LaunchOutcome>) -> Option<LaunchOutcomeView> {
    match outcome {
        Some(outcome) => Some(outcome@),
        None => None,
    }
}

/// How loudly a failure in `stage` is reported.
pub fn severity_of(stage: Stage) -> (severity: Severity)
    ensures
        severity == stage.severity(),
{
    match stage {
        Stage::LocatingGame | Stage::LaunchingGame => Severity::Error,
        Stage::Notifying | Stage::OpeningUri => Severity::Warning,
        _ => Severity::Info,
    }
}

/// The strategy that `stage` is a part of.
pub fn strategy_of(stage: Stage) -> (strategy: Option<Strategy>)
    ensures
        strategy == stage.strategy(),
{
    match stage {
        Stage::LocatingClient | Stage::LaunchingClient => Some(Strategy::ClientArgLaunch),
        Stage::Notifying | Stage::OpeningUri => Some(Strategy::ProtocolFallback),
        Stage::LocatingGame | Stage::LaunchingGame => Some(Strategy::DirectLaunch),
        _ => None,
    }
}

} // verus!
