use rd_launcher::client::{
    choose_client, client_binary_name, default_client_locations, find_steam_executable,
};
use rd_launcher::library::{
    find_rhythm_doctor, install_dir, look_up, lookup_from_location, lookup_from_search,
    LibraryLookup,
};
use rd_launcher::platform::Platform;

fn text(s: &str) -> String {
    s.to_string()
}

#[test]
fn default_locations_are_fixed_per_platform() {
    assert_eq!(
        default_client_locations(Platform::Windows),
        vec![text("C:\\Program Files (x86)\\Steam\\steam.exe")]
    );
    assert_eq!(
        default_client_locations(Platform::MacOs),
        vec![text("/Applications/Steam.app/Contents/MacOS/steam_osx")]
    );
    assert_eq!(default_client_locations(Platform::Linux), vec![text("/usr/games/steam")]);
}

#[test]
fn client_is_looked_up_under_its_name() {
    assert_eq!(client_binary_name(), "steam");
}

#[test]
fn search_path_has_the_first_word() {
    for platform in [Platform::Windows, Platform::MacOs, Platform::Linux] {
        for installed in [vec![], vec![false], vec![true], vec![true, true]] {
            assert_eq!(
                choose_client(platform, Some(text("/opt/steam/steam")), &installed),
                Some(text("/opt/steam/steam"))
            );
        }
    }
}

#[test]
fn default_location_is_taken_when_the_search_path_has_nothing() {
    assert_eq!(choose_client(Platform::Linux, None, &vec![true]), Some(text("/usr/games/steam")));
    assert_eq!(
        choose_client(Platform::Windows, None, &vec![true]),
        Some(text("C:\\Program Files (x86)\\Steam\\steam.exe"))
    );
    assert_eq!(
        choose_client(Platform::MacOs, None, &vec![true, false]),
        Some(text("/Applications/Steam.app/Contents/MacOS/steam_osx"))
    );
}

#[test]
fn nothing_found_means_no_client() {
    for platform in [Platform::Windows, Platform::MacOs, Platform::Linux] {
        assert_eq!(choose_client(platform, None, &vec![false]), None);
        assert_eq!(choose_client(platform, None, &vec![]), None);
        assert_eq!(choose_client(platform, None, &vec![false, true]), None);
    }
}

#[test]
fn client_search_on_this_machine_gives_a_path_or_nothing() {
    if let Some(path) = find_steam_executable(Platform::Linux) {
        assert!(!path.is_empty());
    }
}

#[test]
fn only_a_found_directory_counts() {
    assert_eq!(install_dir(LibraryLookup::Found(text("/games/rd"))), Some(text("/games/rd")));
    assert_eq!(install_dir(LibraryLookup::ClientDataUnreadable), None);
    assert_eq!(install_dir(LibraryLookup::AppAbsent), None);
    assert_eq!(install_dir(LibraryLookup::EntryMalformed), None);
}

#[test]
fn library_search_on_this_machine_agrees_with_its_look_up() {
    let lookup = look_up(774181);
    let found = find_rhythm_doctor();
    assert_eq!(found.is_some(), matches!(lookup, LibraryLookup::Found(_)));
}

#[test]
fn steam_that_is_not_there_makes_the_client_data_unreadable() {
    let located = steamlocate::SteamDir::from_dir(std::path::Path::new("/no-such-folder-for-rd"));
    assert!(located.is_err());
    assert_eq!(lookup_from_location(located, 774181), LibraryLookup::ClientDataUnreadable);
}

#[test]
fn steam_without_a_library_index_gives_a_malformed_entry() {
    let located = steamlocate::SteamDir::from_dir(std::path::Path::new("/"));
    assert!(located.is_ok());
    assert_eq!(lookup_from_location(located, 774181), LibraryLookup::EntryMalformed);
}

#[test]
fn failed_search_gives_a_malformed_entry() {
    let steam = steamlocate::SteamDir::from_dir(std::path::Path::new("/")).unwrap();
    let found = steam.find_app(774181);
    assert!(found.is_err());
    assert_eq!(lookup_from_search(found), LibraryLookup::EntryMalformed);
}

#[test]
fn search_that_finds_no_library_with_the_game_gives_an_absent_app() {
    assert_eq!(lookup_from_search(Ok(None)), LibraryLookup::AppAbsent);
}
