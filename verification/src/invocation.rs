//! What one run of the launcher is asked to do, read from its command line
//! and its settings.

use vstd::prelude::*;
use crate::config_wrapper::{asks_for_client, prefers_client};
use crate::request::{LaunchRequest, LaunchRequestView};

verus! {

/// What a run of the launcher is to do.
#[derive(Debug, PartialEq, Eq)]
pub enum Invocation {
    /// No file was given: show the settings file for editing.
    ShowSettings,
    /// Open the file in the game.
    Launch(LaunchRequest),
}

/// An [`Invocation`] as contracts see it.
pub enum InvocationView {
    ShowSettings,
    Launch(LaunchRequestView),
}

impl View for Invocation {
    type V = InvocationView;

    open spec fn view(&self) -> InvocationView {
        match self {
            Invocation::ShowSettings => InvocationView::ShowSettings,
            Invocation::Launch(request) => InvocationView::Launch(request@),
        }
    }
}

/// What the command line `args` asks for, `args[0]` being the program's
/// own name: the first argument after it is the file to open, and what
/// follows it is not read. The `steam` setting decides whether the launch
/// prefers the client.
pub open spec fn planned(args: Seq<Seq<char>>, steam_setting: Option<Seq<char>>) -> InvocationView {
    if args.len() < 2 {
        InvocationView::ShowSettings
    } else {
        InvocationView::Launch(
            LaunchRequestView { path: args[1], prefer_client: asks_for_client(steam_setting) },
        )
    }
}

/// Reads the command line and the `steam` setting.
pub fn plan_invocation(args: &Vec<String>, steam_setting: Option<&str>) -> (invocation: Invocation)
    ensures
        invocation@ == planned(
            args.deep_view(),
            match steam_setting {
                Some(value) => Some(value@),
                None => None,
            },
        ),
{
    if args.len() < 2 {
        Invocation::ShowSettings
    } else {
        assert(args.deep_view()[1] == args@[1].deep_view());
        let path = args[1].clone();
        Invocation::Launch(LaunchRequest::new(path, prefers_client(steam_setting)))
    }
}

} // verus!
