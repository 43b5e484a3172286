//! The three operating systems the launcher runs on, and what differs
//! between them: how the game's executable is called, how a path is put
//! together, and where the Steam client usually sits.

use vstd::prelude::*;
use vstd::string::*;
use crate::text::same_text;

verus! {

/// An operating system on which the game can be launched.
#[derive(Clone, Copy, Debug, PartialEq, Eq, Structural)]
pub enum Platform {
    Windows,
    MacOs,
    Linux,
}

impl Platform {
    /// The platform that the operating-system name `name` stands for, as
    /// `std::env::consts::OS` spells it.
    pub open spec fn named(name: Seq<char>) -> Option<Platform> {
        if name == "windows"@ {
            Some(Platform::Windows)
        } else if name == "macos"@ {
            Some(Platform::MacOs)
        } else if name == "linux"@ {
            Some(Platform::Linux)
        } else {
            None
        }
    }

    /// What this platform puts behind the game's name to name its
    /// executable: `.exe` on Windows, `.app` on macOS, nothing on Linux.
    pub open spec fn executable_suffix(self) -> Seq<char> {
        match self {
            Platform::Windows => ".exe"@,
            Platform::MacOs => ".app"@,
            Platform::Linux => Seq::empty(),
        }
    }

    /// The file name of the game inside its install directory: the game's
    /// name and the platform's suffix.
    pub open spec fn executable_name(self) -> Seq<char> {
        game_name() + self.executable_suffix()
    }

    /// The character that this platform writes between the parts of a path.
    pub open spec fn separator(self) -> char {
        match self {
            Platform::Windows => '\\',
            Platform::MacOs => '/',
            Platform::Linux => '/',
        }
    }

    /// Whether `c` ends a part of a path on this platform. Windows reads
    /// both slashes as separators.
    pub open spec fn is_separator(self, c: char) -> bool {
        c == '/' || (self == Platform::Windows && c == '\\')
    }

    /// `name` placed inside the directory `dir`: the two are set side by
    /// side, with the platform's separator between them unless `dir` is
    /// empty or already ends in one.
    pub open spec fn join(self, dir: Seq<char>, name: Seq<char>) -> Seq<char> {
        if dir.len() == 0 {
            name
        } else if self.is_separator(dir.last()) {
            dir + name
        } else {
            dir.push(self.separator()) + name
        }
    }

    /// The full path of the game's executable for an install directory.
    pub open spec fn executable_path(self, install_dir: Seq<char>) -> Seq<char> {
        self.join(install_dir, self.executable_name())
    }

    /// How many directories lie between the launcher's own executable and
    /// the folder that holds its settings: the executable's directory on
    /// Windows and Linux; on macOS the executable sits three levels deep in
    /// an application bundle, and the folder is the one holding the bundle.
    pub open spec fn levels_to_home(self) -> nat {
        match self {
            Platform::Windows => 1,
            Platform::MacOs => 4,
            Platform::Linux => 1,
        }
    }
}

/// The name of the game, as its files carry it.
pub open spec fn game_name() -> Seq<char> {
    "Rhythm Doctor"@
}

/// Reads an operating-system name. Any name but `windows`, `macos` and
/// `linux` gives `None`.
pub fn platform_named(name: &str) -> (platform: Option<Platform>)
    ensures
        platform == Platform::named(name@),
{
    if same_text(name, "windows") {
        Some(Platform::Windows)
    } else if same_text(name, "macos") {
        Some(Platform::MacOs)
    } else if same_text(name, "linux") {
        Some(Platform::Linux)
    } else {
        None
    }
}

/// The file name of the game inside its install directory.
pub fn executable_name(platform: Platform) -> (name: &'static str)
    ensures
        name@ == platform.executable_name(),
{
    proof {
        reveal_strlit("Rhythm Doctor");
        reveal_strlit(".exe");
        reveal_strlit(".app");
        reveal_strlit("Rhythm Doctor.exe");
        reveal_strlit("Rhythm Doctor.app");
    }
    let name: &'static str = match platform {
        Platform::Windows => "Rhythm Doctor.exe",
        Platform::MacOs => "Rhythm Doctor.app",
        Platform::Linux => "Rhythm Doctor",
    };
    assert(name@ =~= platform.executable_name());
    name
}

fn separator_text(platform: Platform) -> (text: &'static str)
    ensures
        text@ == seq![platform.separator()],
{
    proof {
        reveal_strlit("\\");
        reveal_strlit("/");
    }
    let text: &'static str = match platform {
        Platform::Windows => "\\",
        Platform::MacOs => "/",
        Platform::Linux => "/",
    };
    assert(text@ =~= seq![platform.separator()]);
    text
}

/// Whether `c` ends a part of a path on `platform`.
pub fn is_separator(platform: Platform, c: char) -> (yes: bool)
    ensures
        yes == platform.is_separator(c),
{
    c == '/' || (matches!(platform, Platform::Windows) && c == '\\')
}

/// Places `name` inside the directory `dir`.
pub fn join_path(platform: Platform, dir: &str, name: &str) -> (joined: String)
    ensures
        joined@ == platform.join(dir@, name@),
{
    let length: usize = dir.unicode_len();
    let mut joined = String::from_str(dir);
    if length > 0 {
        let last = dir.get_char(length - 1);
        if !is_separator(platform, last) {
            joined.append(separator_text(platform));
        }
    }
    joined.append(name);
    assert(joined@ =~= platform.join(dir@, name@));
    joined
}

/// The full path of the game's executable for an install directory.
pub fn executable_path(platform: Platform, install_dir: &str) -> (path: String)
    ensures
        path@ == platform.executable_path(install_dir@),
{
    join_path(platform, install_dir, executable_name(platform))
}

/// A joined path ends with the name that was placed in the directory, and
/// begins with the directory.
pub proof fn lemma_join_keeps_both(platform: Platform, dir: Seq<char>, name: Seq<char>)
    ensures
        crate::text::ends_with(platform.join(dir, name), name),
        crate::text::starts_with(platform.join(dir, name), dir),
{
    let joined = platform.join(dir, name);
    assert(joined.subrange(joined.len() - name.len(), joined.len() as int) =~= name);
    assert(joined.subrange(0, dir.len() as int) =~= dir);
}

/// On every platform the path of the game's executable begins with the
/// install directory and ends with the game's name and that platform's
/// suffix: nothing comes after the suffix.
pub proof fn lemma_executable_path_ends_with_name(platform: Platform, install_dir: Seq<char>)
    ensures
        crate::text::starts_with(platform.executable_path(install_dir), install_dir),
        crate::text::ends_with(
            platform.executable_path(install_dir),
            platform.executable_name(),
        ),
        crate::text::ends_with(
            platform.executable_path(install_dir),
            platform.executable_suffix(),
        ),
        platform.executable_name() == game_name() + platform.executable_suffix(),
{
    let path = platform.executable_path(install_dir);
    let name = platform.executable_name();
    let suffix = platform.executable_suffix();
    lemma_join_keeps_both(platform, install_dir, name);
    assert(name.subrange(name.len() - suffix.len(), name.len() as int) =~= suffix);
    assert(path.subrange(path.len() - suffix.len(), path.len() as int) =~= path.subrange(
        path.len() - name.len(),
        path.len() as int,
    ).subrange(name.len() - suffix.len(), name.len() as int));
}

} // verus!
