use rd_launcher::command::{
    build_client_arguments, build_game_arguments, build_protocol_uri, APP_ID,
};
use rd_launcher::platform::{
    executable_name, executable_path, is_separator, join_path, platform_named, Platform,
};
use rd_launcher::text::{decimal_text, same_text};

fn texts(items: &[&str]) -> Vec<String> {
    items.iter().map(|s| s.to_string()).collect()
}

#[test]
fn executable_name_carries_the_platform_s_suffix() {
    assert_eq!(executable_name(Platform::Windows), "Rhythm Doctor.exe");
    assert_eq!(executable_name(Platform::MacOs), "Rhythm Doctor.app");
    assert_eq!(executable_name(Platform::Linux), "Rhythm Doctor");
}

#[test]
fn executable_path_is_the_directory_and_the_name() {
    assert_eq!(executable_path(Platform::Linux, "/games/rd"), "/games/rd/Rhythm Doctor");
    assert_eq!(
        executable_path(Platform::MacOs, "/Users/a/Library/rd"),
        "/Users/a/Library/rd/Rhythm Doctor.app"
    );
    assert_eq!(
        executable_path(Platform::Windows, "C:\\Steam\\steamapps\\common\\Rhythm Doctor"),
        "C:\\Steam\\steamapps\\common\\Rhythm Doctor\\Rhythm Doctor.exe"
    );
    for platform in [Platform::Windows, Platform::MacOs, Platform::Linux] {
        for dir in ["", "/", "/games/rd", "/games/rd/", "C:\\Games", "C:\\Games\\", "rel"] {
            let path = executable_path(platform, dir);
            assert!(path.starts_with(dir));
            assert!(path.ends_with(executable_name(platform)));
        }
    }
}

#[test]
fn join_adds_one_separator_where_one_is_missing() {
    assert_eq!(join_path(Platform::Linux, "/a", "b"), "/a/b");
    assert_eq!(join_path(Platform::Linux, "/a/", "b"), "/a/b");
    assert_eq!(join_path(Platform::Linux, "/", "b"), "/b");
    assert_eq!(join_path(Platform::Linux, "", "b"), "b");
    assert_eq!(join_path(Platform::Linux, "a\\", "b"), "a\\/b");
    assert_eq!(join_path(Platform::MacOs, "/a", "b c"), "/a/b c");
    assert_eq!(join_path(Platform::Windows, "C:\\a", "b"), "C:\\a\\b");
    assert_eq!(join_path(Platform::Windows, "C:\\a\\", "b"), "C:\\a\\b");
    assert_eq!(join_path(Platform::Windows, "C:/a/", "b"), "C:/a/b");
    assert_eq!(join_path(Platform::Windows, "C:/a", "b"), "C:/a\\b");
    assert_eq!(join_path(Platform::Windows, "", "b"), "b");
    assert_eq!(join_path(Platform::Linux, "/spiel\u{e9}", "b"), "/spiel\u{e9}/b");
    assert_eq!(join_path(Platform::Linux, "/a", ""), "/a/");
}

#[test]
fn separators_differ_by_platform() {
    assert!(is_separator(Platform::Linux, '/'));
    assert!(!is_separator(Platform::Linux, '\\'));
    assert!(is_separator(Platform::MacOs, '/'));
    assert!(!is_separator(Platform::MacOs, '\\'));
    assert!(is_separator(Platform::Windows, '/'));
    assert!(is_separator(Platform::Windows, '\\'));
    assert!(!is_separator(Platform::Windows, ':'));
}

#[test]
fn platforms_are_read_from_their_names() {
    assert_eq!(platform_named("windows"), Some(Platform::Windows));
    assert_eq!(platform_named("macos"), Some(Platform::MacOs));
    assert_eq!(platform_named("linux"), Some(Platform::Linux));
    assert_eq!(platform_named("Windows"), None);
    assert_eq!(platform_named("freebsd"), None);
    assert_eq!(platform_named(""), None);
}

#[test]
fn client_arguments_have_the_platform_s_shape() {
    assert_eq!(
        build_client_arguments(Platform::Windows, APP_ID, "level.rdzip"),
        texts(&["-applaunch", "774181", "level.rdzip"])
    );
    assert_eq!(
        build_client_arguments(Platform::MacOs, APP_ID, "level.rdzip"),
        texts(&["-applaunch", "774181", "level.rdzip"])
    );
    assert_eq!(
        build_client_arguments(Platform::Linux, APP_ID, "level.rdzip"),
        texts(&["-applaunch", "774181", "./run_bepinex.sh %command%", "level.rdzip"])
    );
    assert_eq!(
        build_client_arguments(Platform::Linux, 7, "a b"),
        texts(&["-applaunch", "7", "./run_bepinex.sh %command%", "a b"])
    );
}

#[test]
fn protocol_address_names_the_application() {
    assert_eq!(APP_ID, 774181);
    assert_eq!(build_protocol_uri(APP_ID), "steam://run/774181");
    assert_eq!(build_protocol_uri(0), "steam://run/0");
}

#[test]
fn game_takes_the_path_as_its_only_argument() {
    assert_eq!(build_game_arguments("level.rdzip"), texts(&["level.rdzip"]));
    assert_eq!(build_game_arguments(""), texts(&[""]));
}

#[test]
fn numbers_are_written_in_base_ten() {
    assert_eq!(decimal_text(0), "0");
    assert_eq!(decimal_text(7), "7");
    assert_eq!(decimal_text(10), "10");
    assert_eq!(decimal_text(99), "99");
    assert_eq!(decimal_text(100), "100");
    assert_eq!(decimal_text(774181), "774181");
    assert_eq!(decimal_text(1234567890), "1234567890");
    assert_eq!(decimal_text(u32::MAX), "4294967295");
    for n in [0u32, 1, 9, 10, 11, 305, 4096, 65535, 1000000, 2147483648] {
        assert_eq!(decimal_text(n), n.to_string());
    }
}

#[test]
fn text_is_compared_by_its_characters() {
    assert!(same_text("", ""));
    assert!(same_text("steam", "steam"));
    assert!(!same_text("steam", "Steam"));
    assert!(!same_text("steam", "steam "));
    assert!(!same_text("a", ""));
}
