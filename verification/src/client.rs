//! Finding the Steam client: first on the search path, then in the place
//! where it is usually installed.

use vstd::prelude::*;
use vstd::string::*;
use crate::platform::Platform;
use crate::text::seen_path;

verus! {

/// The name under which the Steam client is looked up on the search path.
pub open spec fn client_binary() -> Seq<char> {
    "steam"@
}

/// The places where the Steam client is usually installed, in the order in
/// which they are tried.
pub open spec fn default_client_paths(platform: Platform) -> Seq<Seq<char>> {
    match platform {
        Platform::Windows => seq!["C:\\Program Files (x86)\\Steam\\steam.exe"@],
        Platform::MacOs => seq!["/Applications/Steam.app/Contents/MacOS/steam_osx"@],
        Platform::Linux => seq!["/usr/games/steam"@],
    }
}

/// The first of `paths` whose flag in `installed` is set. Where one list is
/// longer than the other, what has no partner is not looked at.
pub open spec fn first_installed(paths: Seq<Seq<char>>, installed: Seq<bool>) -> Option<
    Seq<char>,
>
    decreases paths.len(),
{
    if paths.len() == 0 || installed.len() == 0 {
        None
    } else if installed[0] {
        Some(paths[0])
    } else {
        first_installed(paths.skip(1), installed.skip(1))
    }
}

/// The client's executable, given what was found out about this machine:
/// the search path has the first word, then the default places in their
/// order. `None` if the client is in none of them.
pub open spec fn chosen_client(
    platform: Platform,
    on_search_path: Option<Seq<char>>,
    installed: Seq<bool>,
) -> Option<Seq<char>> {
    match on_search_path {
        Some(path) => Some(path),
        None => first_installed(default_client_paths(platform), installed),
    }
}

/// What `first_installed` picks is the path at the first set flag, and it
/// picks nothing exactly when no flag with a partner is set.
pub proof fn lemma_first_installed(paths: Seq<Seq<char>>, installed: Seq<bool>)
    ensures
        match first_installed(paths, installed) {
            Some(path) => exists|i: int|
                0 <= i < paths.len() && i < installed.len() && installed[i] && path == paths[i]
                    && forall|j: int| 0 <= j < i ==> !installed[j],
            None => forall|i: int| 0 <= i < paths.len() && i < installed.len() ==> !installed[i],
        },
    decreases paths.len(),
{
    if paths.len() == 0 || installed.len() == 0 {
    } else if installed[0] {
        assert(0 <= 0 < paths.len() && installed[0] && paths[0] == paths[0]);
    } else {
        let rest_paths = paths.skip(1);
        let rest_installed = installed.skip(1);
        lemma_first_installed(rest_paths, rest_installed);
        match first_installed(rest_paths, rest_installed) {
            Some(path) => {
                let i = choose|i: int|
                    0 <= i < rest_paths.len() && i < rest_installed.len() && rest_installed[i]
                        && path == rest_paths[i] && forall|j: int|
                        0 <= j < i ==> !rest_installed[j];
                assert forall|j: int| 0 <= j < i + 1 implies !installed[j] by {
                    if j > 0 {
                        assert(installed[j] == rest_installed[j - 1]);
                    }
                }
                assert(installed[i + 1] == rest_installed[i]);
                assert(paths[i + 1] == rest_paths[i]);
            },
            None => {
                assert forall|i: int|
                    0 <= i < paths.len() && i < installed.len() implies !installed[i] by {
                    if i > 0 {
                        assert(installed[i] == rest_installed[i - 1]);
                    }
                }
            },
        }
    }
}

/// The name under which the Steam client is looked up on the search path.
pub fn client_binary_name() -> (name: &'static str)
    ensures
        name@ == client_binary(),
{
    "steam"
}

/// The places where the Steam client is usually installed.
pub fn default_client_locations(platform: Platform) -> (paths: Vec<String>)
    ensures
        paths.deep_view() == default_client_paths(platform),
{
    let mut paths: Vec<String> = Vec::new();
    match platform {
        Platform::Windows => {
            paths.push(String::from_str("C:\\Program Files (x86)\\Steam\\steam.exe"));
        },
        Platform::MacOs => {
            paths.push(String::from_str("/Applications/Steam.app/Contents/MacOS/steam_osx"));
        },
        Platform::Linux => {
            paths.push(String::from_str("/usr/games/steam"));
        },
    }
    assert(paths.deep_view() =~= default_client_paths(platform));
    paths
}

/// Picks the client's executable from what was found out about this
/// machine: `on_search_path` is what the search path gave for the client's
/// name, and `installed` says of each default place, in order, whether a
/// file is there.
pub fn choose_client(platform: Platform, on_search_path: Option<String>, installed: &Vec<bool>) -> (found: Option<String>)
    ensures
        seen_path(found) == chosen_client(platform, seen_path(on_search_path), installed@),
{
    match on_search_path {
        Some(path) => Some(path),
        None => {
            let paths = default_client_locations(platform);
            let ghost all = paths.deep_view();
            let mut index: usize = 0;
            proof {
                assert(all.skip(0) =~= all);
                assert(installed@.skip(0) =~= installed@);
            }
            while index < paths.len() && index < installed.len()
                invariant
                    on_search_path is None,
                    paths.deep_view() == all,
                    all == default_client_paths(platform),
                    index <= paths.len(),
                    index <= installed.len(),
                    first_installed(all, installed@) == first_installed(
                        all.skip(index as int),
                        installed@.skip(index as int),
                    ),
                decreases paths.len() - index,
            {
                if installed[index] {
                    let path = paths[index].clone();
                    proof {
                        assert(all[index as int] == paths@[index as int].deep_view());
                        assert(all.skip(index as int)[0] == all[index as int]);
                        assert(installed@.skip(index as int)[0] == installed@[index as int]);
                    }
                    return Some(path);
                }
                proof {
                    assert(all.skip(index as int).skip(1) =~= all.skip(index as int + 1));
                    assert(installed@.skip(index as int).skip(1) =~= installed@.skip(
                        index as int + 1,
                    ));
                    assert(installed@.skip(index as int)[0] == installed@[index as int]);
                }
                index += 1;
            }
            None
        },
    }
}

/// Looks `name` up on the search path with `which::which`. Nothing is
/// claimed of the answer: it depends on the environment and on what is on
/// disk. A path that is not valid Unicode is given with the offending
/// parts replaced, as `to_string_lossy` does.
#[verifier::external_body]
fn search_path(name: &str) -> (found: Option<String>) {
    match which::which(name) {
        Ok(path) => Some(path.to_string_lossy().into_owned()),
        Err(_) => None,
    }
}

/// Asks with `std::path::Path::exists` whether anything is at `path`.
/// Nothing is claimed of the answer: it depends on what is on disk.
#[verifier::external_body]
fn path_exists(path: &str) -> (exists: bool) {
    std::path::Path::new(path).exists()
}

/// Looks into each default place of `platform`, in order.
fn probe_default_locations(platform: Platform) -> (installed: Vec<bool>)
    ensures
        installed@.len() == default_client_paths(platform).len(),
{
    let paths = default_client_locations(platform);
    let mut installed: Vec<bool> = Vec::new();
    let mut index: usize = 0;
    while index < paths.len()
        invariant
            index <= paths.len(),
            installed@.len() == index,
            paths.deep_view() == default_client_paths(platform),
        decreases paths.len() - index,
    {
        installed.push(path_exists(paths[index].as_str()));
        index += 1;
    }
    assert(paths.deep_view().len() == paths.len());
    installed
}

/// Finds the Steam client on this machine: on the search path under the
/// name `steam`, else in the default places of `platform`. That the client
/// is nowhere is an answer, not an error.
///
/// The answer depends on the machine. Whatever it is, it is what
/// [`choose_client`] picks from some answer of the search path and some
/// state of the default places.
pub fn find_steam_executable(platform: Platform) -> (found: Option<String>)
    ensures
        exists|on_search_path: Option<Seq<char>>, installed: Seq<bool>|
            installed.len() == default_client_paths(platform).len() && seen_path(found)
                == #[trigger] chosen_client(platform, on_search_path, installed),
{
    let on_search_path = search_path(client_binary_name());
    let ghost heard = seen_path(on_search_path);
    if on_search_path.is_some() {
        proof {
            let unseen = Seq::new(default_client_paths(platform).len(), |i: int| false);
            assert(seen_path(on_search_path) == chosen_client(platform, heard, unseen));
        }
        on_search_path
    } else {
        let installed = probe_default_locations(platform);
        let found = choose_client(platform, on_search_path, &installed);
        assert(seen_path(found) == chosen_client(platform, heard, installed@));
        found
    }
}

} // verus!
