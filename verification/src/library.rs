//! Finding where the game is installed, from the library that the Steam
//! client keeps on disk.

use vstd::prelude::*;
use crate::command::APP_ID;
use crate::text::seen_path;

verus! {

/// A Steam installation, as `steamlocate` found it.
#[verifier::external_type_specification]
#[verifier::external_body]
pub struct ExSteamDir(steamlocate::SteamDir);

/// One of Steam's library folders.
#[verifier::external_type_specification]
#[verifier::external_body]
pub struct ExLibrary(steamlocate::Library);

/// What a library's manifest says of one installed application.
#[verifier::external_type_specification]
#[verifier::external_body]
pub struct ExApp(steamlocate::App);

/// Why `steamlocate` could not answer.
#[verifier::external_type_specification]
#[verifier::external_body]
pub struct ExLocateError(steamlocate::Error);

/// What a look into Steam's library gave.
#[derive(Clone, Debug, PartialEq, Eq)]
pub enum LibraryLookup {
    /// The application is installed in this directory.
    Found(String),
    /// Steam's own directory was not found or could not be read.
    ClientDataUnreadable,
    /// No library holds the application.
    AppAbsent,
    /// The index of Steam's libraries, or the manifest of the application
    /// in the library that holds it, could not be read.
    EntryMalformed,
}

/// A [`LibraryLookup`] as contracts see it.
pub enum LibraryLookupView {
    Found(Seq<char>),
    ClientDataUnreadable,
    AppAbsent,
    EntryMalformed,
}

impl View for LibraryLookup {
    type V = LibraryLookupView;

    open spec fn view(&self) -> LibraryLookupView {
        match self {
            LibraryLookup::Found(dir) => LibraryLookupView::Found(dir@),
            LibraryLookup::ClientDataUnreadable => LibraryLookupView::ClientDataUnreadable,
            LibraryLookup::AppAbsent => LibraryLookupView::AppAbsent,
            LibraryLookup::EntryMalformed => LibraryLookupView::EntryMalformed,
        }
    }
}

impl LibraryLookupView {
    /// The install directory, if the look-up found one. The three ways in
    /// which it can fail all read the same: the game is not there.
    pub open spec fn install_dir(self) -> Option<Seq<char>> {
        match self {
            LibraryLookupView::Found(dir) => Some(dir),
            _ => None,
        }
    }
}

/// The install directory that a look-up found, if it found one.
pub fn install_dir(lookup: LibraryLookup) -> (dir: Option<String>)
    ensures
        seen_path(dir) == lookup@.install_dir(),
{
    match lookup {
        LibraryLookup::Found(dir) => Some(dir),
        _ => None,
    }
}

/// The directory in which `library` keeps `app`, as text: what
/// `steamlocate::Library::resolve_app_dir` gives for the two.
pub uninterp spec fn resolved_dir(library: steamlocate::Library, app: steamlocate::App) -> Seq<
    char,
>;

/// The ids of the applications that `library` holds: what
/// `steamlocate::Library::app_ids` lists.
pub uninterp spec fn held_app_ids(library: steamlocate::Library) -> Set<u32>;

/// Whether `dir` is the directory in which some library that holds the
/// application `app_id` keeps an application of its own.
pub open spec fn is_install_dir_of(app_id: u32, dir: Seq<char>) -> bool {
    exists|library: steamlocate::Library, app: steamlocate::App|
        dir == #[trigger] resolved_dir(library, app) && held_app_ids(library).contains(app_id)
}

/// Finds the Steam installation with `steamlocate::SteamDir::locate`.
/// Nothing is claimed of the answer: it depends on the environment and on
/// what is on disk.
#[verifier::external_body]
fn locate_steam() -> (steam: Result<steamlocate::SteamDir, steamlocate::Error>) {
    steamlocate::SteamDir::locate()
}

/// Searches the libraries of a Steam installation for an application with
/// `steamlocate::SteamDir::find_app`. Which answer comes depends on what
/// is on disk. What is claimed: a library that comes back is one that
/// lists `app_id` among its applications, for the search only looks at the
/// manifest of an application in a library whose list holds its id.
#[verifier::external_body]
fn find_app(steam: &steamlocate::SteamDir, app_id: u32) -> (found: Result<
    Option<(steamlocate::App, steamlocate::Library)>,
    steamlocate::Error,
>)
    ensures
        found matches Ok(Some((_, library))) ==> held_app_ids(library).contains(app_id),
{
    steam.find_app(app_id)
}

/// The directory in which `library` keeps `app`, as
/// `steamlocate::Library::resolve_app_dir` puts it together from the two
/// and from nothing else. A path that is not valid Unicode is given with
/// the offending parts replaced, as `to_string_lossy` does.
#[verifier::external_body]
fn resolve_app_dir(library: &steamlocate::Library, app: &steamlocate::App) -> (dir: String)
    ensures
        dir@ == resolved_dir(*library, *app),
{
    library.resolve_app_dir(app).to_string_lossy().into_owned()
}

/// Looks the application `app_id` up in Steam's library on this machine.
/// Which of the four answers comes back depends on the machine. A
/// directory that comes back is the one in which a library that holds
/// `app_id` keeps the application it found.
pub fn look_up(app_id: u32) -> (lookup: LibraryLookup)
    ensures
        lookup@ matches LibraryLookupView::Found(dir) ==> is_install_dir_of(app_id, dir),
{
    lookup_from_location(locate_steam(), app_id)
}

/// Finds the directory in which Rhythm Doctor is installed on this
/// machine, or `None` if Steam's library does not show one: the three
/// ways in which a look-up can fail all read the same. Whether a
/// directory comes back depends on the machine. One that does is the one
/// in which a library that holds Rhythm Doctor's id keeps the application
/// it found, with no file name added.
pub fn find_rhythm_doctor() -> (dir: Option<String>)
    ensures
        dir matches Some(path) ==> is_install_dir_of(APP_ID, path@),
{
    install_dir(look_up(APP_ID))
}

/// The answer of a look-up, from what the search for Steam itself gave.
/// Where Steam was not found the answer is `ClientDataUnreadable`, and it
/// is that in no other case: where Steam was found, its libraries are
/// searched for `app_id`, and the answer is what [`lookup_from_search`]
/// makes of the search.
pub fn lookup_from_location(
    located: Result<steamlocate::SteamDir, steamlocate::Error>,
    app_id: u32,
) -> (lookup: LibraryLookup)
    ensures
        located is Err <==> lookup@ == LibraryLookupView::ClientDataUnreadable,
        lookup@ matches LibraryLookupView::Found(dir) ==> is_install_dir_of(app_id, dir),
{
    match located {
        Err(_) => LibraryLookup::ClientDataUnreadable,
        Ok(steam) => {
            let found = find_app(&steam, app_id);
            let ghost seen = found;
            let lookup = lookup_from_search(found);
            proof {
                if let Ok(Some((app, library))) = seen {
                    assert(lookup@ == LibraryLookupView::Found(resolved_dir(library, app)));
                    assert(held_app_ids(library).contains(app_id));
                }
            }
            lookup
        },
    }
}

/// The answer of a look-up, from what the search of Steam's libraries gave:
/// `EntryMalformed` where the search failed, `AppAbsent` where it found no
/// library that holds the application, and otherwise `Found`, with the
/// directory in which the library that was found keeps the application
/// that was found.
pub fn lookup_from_search(
    found: Result<Option<(steamlocate::App, steamlocate::Library)>, steamlocate::Error>,
) -> (lookup: LibraryLookup)
    ensures
        match found {
            Err(_) => lookup@ == LibraryLookupView::EntryMalformed,
            Ok(None) => lookup@ == LibraryLookupView::AppAbsent,
            Ok(Some((app, library))) => lookup@ == LibraryLookupView::Found(
                resolved_dir(library, app),
            ),
        },
{
    match found {
        Err(_) => LibraryLookup::EntryMalformed,
        Ok(None) => LibraryLookup::AppAbsent,
        Ok(Some((app, library))) => LibraryLookup::Found(resolve_app_dir(&library, &app)),
    }
}

} // verus!
