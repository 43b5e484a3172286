//! Where the launcher keeps its settings and its log, and how the settings
//! are read.

use vstd::prelude::*;
use vstd::string::*;
use crate::handler::open_with_system;
use crate::platform::{join_path, Platform};
use crate::text::same_text;

verus! {

/// The name of the log file.
pub open spec fn log_filename() -> Seq<char> {
    "launcher.log"@
}

/// The name of the settings file.
pub open spec fn config_filename() -> Seq<char> {
    "launcher.toml"@
}

/// The key of the setting that says whether to go through Steam.
pub open spec fn client_setting_key() -> Seq<char> {
    "steam"@
}

/// What a new settings file holds.
pub open spec fn default_settings() -> Seq<char> {
    "# Open Rhythm Doctor with Steam.\nsteam = true"@
}

/// Whether the launcher's executable lies deep enough for a settings
/// folder to be above it. `ancestors` are the executable and the
/// directories above it, nearest first (`ancestors[0]` is the executable
/// itself).
pub open spec fn has_parent_folder(platform: Platform, ancestors: Seq<Seq<char>>) -> bool {
    platform.levels_to_home() < ancestors.len()
}

/// The folder that holds the settings, given the launcher's executable and
/// the directories above it, nearest first.
pub open spec fn parent_folder(platform: Platform, ancestors: Seq<Seq<char>>) -> Seq<char>
    recommends
        has_parent_folder(platform, ancestors),
{
    ancestors[platform.levels_to_home() as int]
}

/// The path of the file called `name` in the settings folder.
pub open spec fn path_in_parent_folder(
    platform: Platform,
    ancestors: Seq<Seq<char>>,
    name: Seq<char>,
) -> Seq<char>
    recommends
        has_parent_folder(platform, ancestors),
{
    platform.join(parent_folder(platform, ancestors), name)
}

/// Whether the value of the `steam` setting asks for the client: only the
/// value `true` does, and a missing setting does not.
pub open spec fn asks_for_client(setting: Option<Seq<char>>) -> bool {
    setting == Some("true"@)
}

/// How many directories lie between the launcher's executable and the
/// settings folder.
pub fn levels_to_home(platform: Platform) -> (levels: usize)
    ensures
        levels == platform.levels_to_home(),
{
    match platform {
        Platform::Windows => 1,
        Platform::MacOs => 4,
        Platform::Linux => 1,
    }
}

/// Picks the settings folder from the launcher's executable and the
/// directories above it, nearest first. The executable has to lie deep
/// enough: there is no settings folder for one that does not, and no
/// other folder is given in its place.
pub fn get_parent_folder(platform: Platform, ancestors: &Vec<String>) -> (folder: String)
    requires
        has_parent_folder(platform, ancestors.deep_view()),
    ensures
        folder@ == parent_folder(platform, ancestors.deep_view()),
{
    let levels = levels_to_home(platform);
    assert(ancestors.deep_view().len() == ancestors@.len());
    assert(ancestors.deep_view()[levels as int] == ancestors@[levels as int].deep_view());
    ancestors[levels].clone()
}

fn path_in_folder(platform: Platform, ancestors: &Vec<String>, name: &str) -> (path: String)
    requires
        has_parent_folder(platform, ancestors.deep_view()),
    ensures
        path@ == path_in_parent_folder(platform, ancestors.deep_view(), name@),
{
    let folder = get_parent_folder(platform, ancestors);
    join_path(platform, folder.as_str(), name)
}

/// The path of the log file.
pub fn get_log_path(platform: Platform, ancestors: &Vec<String>) -> (path: String)
    requires
        has_parent_folder(platform, ancestors.deep_view()),
    ensures
        path@ == path_in_parent_folder(platform, ancestors.deep_view(), log_filename()),
{
    path_in_folder(platform, ancestors, "launcher.log")
}

/// The path of the settings file.
pub fn get_config_path(platform: Platform, ancestors: &Vec<String>) -> (path: String)
    requires
        has_parent_folder(platform, ancestors.deep_view()),
    ensures
        path@ == path_in_parent_folder(platform, ancestors.deep_view(), config_filename()),
{
    path_in_folder(platform, ancestors, "launcher.toml")
}

/// The key of the setting that says whether to go through Steam.
pub fn client_setting() -> (key: &'static str)
    ensures
        key@ == client_setting_key(),
{
    "steam"
}

/// What a new settings file holds.
pub fn default_settings_text() -> (text: &'static str)
    ensures
        text@ == default_settings(),
{
    "# Open Rhythm Doctor with Steam.\nsteam = true"
}

/// Reads the `steam` setting.
pub fn prefers_client(setting: Option<&str>) -> (prefers: bool)
    ensures
        prefers == asks_for_client(
            match setting {
                Some(value) => Some(value@),
                None => None,
            },
        ),
{
    match setting {
        Some(value) => same_text(value, "true"),
        None => false,
    }
}

/// The step at which bringing a new settings file into being failed.
#[derive(Clone, Copy, Debug, PartialEq, Eq, Structural)]
pub enum SettingsFault {
    Create,
    Write,
    Load,
    Open,
}

impl SettingsFault {
    /// What is said of this failure, before the details.
    pub open spec fn summary(self) -> Seq<char> {
        match self {
            SettingsFault::Create => "Failed to create new settings file"@,
            SettingsFault::Write => "Failed to write to new settings file"@,
            SettingsFault::Load => "Failed to load new settings file"@,
            SettingsFault::Open => "Failed to open settings file"@,
        }
    }

    /// The message for this failure: the summary, and after a colon the
    /// details where there are any.
    pub open spec fn message(self, detail: Option<Seq<char>>) -> Seq<char> {
        match detail {
            Some(detail) => self.summary() + ": "@ + detail,
            None => self.summary(),
        }
    }
}

/// Words the message for a failure to set up or show the settings file.
pub fn settings_fault_message(fault: SettingsFault, detail: Option<&str>) -> (message: String)
    ensures
        message@ == fault.message(
            match detail {
                Some(detail) => Some(detail@),
                None => None,
            },
        ),
{
    let summary: &'static str = match fault {
        SettingsFault::Create => "Failed to create new settings file",
        SettingsFault::Write => "Failed to write to new settings file",
        SettingsFault::Load => "Failed to load new settings file",
        SettingsFault::Open => "Failed to open settings file",
    };
    let mut message = String::from_str(summary);
    match detail {
        Some(detail) => {
            message.append(": ");
            message.append(detail);
        },
        None => {},
    }
    message
}

/// Shows the settings file at `config_path` in the program that the
/// system has for it. Whether that works depends on the machine; when it
/// does not, the error is the message for [`SettingsFault::Open`].
pub fn open_config_file(config_path: &str) -> (shown: Result<(), String>)
    ensures
        shown matches Err(message) ==> message@ == SettingsFault::Open.message(None),
{
    settings_shown(open_with_system(config_path).is_ok())
}

/// What showing the settings file comes to: nothing more to say where it
/// was opened, and the message for [`SettingsFault::Open`] where it was
/// not.
pub fn settings_shown(opened: bool) -> (shown: Result<(), String>)
    ensures
        opened ==> shown is Ok,
        !opened ==> (shown matches Err(message) && message@ == SettingsFault::Open.message(None)),
{
    if opened {
        Ok(())
    } else {
        Err(settings_fault_message(SettingsFault::Open, None))
    }
}

} // verus!
