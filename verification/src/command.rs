//! The commands and addresses that start the game.

use vstd::prelude::*;
use vstd::string::*;
use crate::platform::Platform;
use crate::text::{decimal, decimal_text};

verus! {

/// Rhythm Doctor's application id in Steam's catalogue.
pub const APP_ID: u32 = 774181;

/// The arguments with which the Steam client is started so that it starts
/// the application `app_id` and hands it `path`. On Linux the game runs
/// under its plugin loader's script, which is named between the two.
pub open spec fn client_arguments(platform: Platform, app_id: u32, path: Seq<char>) -> Seq<
    Seq<char>,
> {
    match platform {
        Platform::Linux => seq![
            "-applaunch"@,
            decimal(app_id as nat),
            "./run_bepinex.sh %command%"@,
            path,
        ],
        _ => seq!["-applaunch"@, decimal(app_id as nat), path],
    }
}

/// The address that asks an installed Steam client to run `app_id`.
pub open spec fn protocol_uri(app_id: u32) -> Seq<char> {
    "steam://run/"@ + decimal(app_id as nat)
}

/// The arguments with which the game itself is started: the path alone.
pub open spec fn game_arguments(path: Seq<char>) -> Seq<Seq<char>> {
    seq![path]
}

/// Builds the arguments for the Steam client.
pub fn build_client_arguments(platform: Platform, app_id: u32, path: &str) -> (args: Vec<String>)
    ensures
        args.deep_view() == client_arguments(platform, app_id, path@),
{
    let mut args: Vec<String> = Vec::new();
    args.push(String::from_str("-applaunch"));
    args.push(decimal_text(app_id));
    if matches!(platform, Platform::Linux) {
        args.push(String::from_str("./run_bepinex.sh %command%"));
    }
    args.push(String::from_str(path));
    assert(args.deep_view() =~= client_arguments(platform, app_id, path@));
    args
}

/// Builds the address that asks the Steam client to run `app_id`.
pub fn build_protocol_uri(app_id: u32) -> (uri: String)
    ensures
        uri@ == protocol_uri(app_id),
{
    let mut uri = String::from_str("steam://run/");
    let id = decimal_text(app_id);
    uri.append(id.as_str());
    uri
}

/// Builds the arguments for the game itself.
pub fn build_game_arguments(path: &str) -> (args: Vec<String>)
    ensures
        args.deep_view() == game_arguments(path@),
{
    let mut args: Vec<String> = Vec::new();
    args.push(String::from_str(path));
    assert(args.deep_view() =~= game_arguments(path@));
    args
}

} // verus!
