use rd_launcher::config_wrapper::{
    client_setting, default_settings_text, get_config_path, get_log_path, get_parent_folder,
    levels_to_home, prefers_client, settings_fault_message, SettingsFault,
};
use rd_launcher::invocation::{plan_invocation, Invocation};
use rd_launcher::listener::{Listener, ListenerAction, ListenerEvent, IDLE_LIMIT};
use rd_launcher::platform::Platform;
use rd_launcher::request::LaunchRequest;

fn text(s: &str) -> String {
    s.to_string()
}

fn texts(items: &[&str]) -> Vec<String> {
    items.iter().map(|s| s.to_string()).collect()
}

#[test]
fn settings_folder_is_the_executable_s_directory_on_linux_and_windows() {
    let linux = texts(&["/opt/rd/launcher", "/opt/rd", "/opt", "/"]);
    assert_eq!(get_parent_folder(Platform::Linux, &linux), "/opt/rd");
    assert_eq!(get_log_path(Platform::Linux, &linux), "/opt/rd/launcher.log");
    assert_eq!(get_config_path(Platform::Linux, &linux), "/opt/rd/launcher.toml");
    let windows = texts(&["C:\\RD\\launcher.exe", "C:\\RD", "C:\\"]);
    assert_eq!(get_parent_folder(Platform::Windows, &windows), "C:\\RD");
    assert_eq!(get_log_path(Platform::Windows, &windows), "C:\\RD\\launcher.log");
    assert_eq!(get_config_path(Platform::Windows, &windows), "C:\\RD\\launcher.toml");
}

#[test]
fn settings_folder_holds_the_bundle_on_macos() {
    let ancestors = texts(&[
        "/Users/a/Apps/Launcher.app/Contents/MacOS/launcher",
        "/Users/a/Apps/Launcher.app/Contents/MacOS",
        "/Users/a/Apps/Launcher.app/Contents",
        "/Users/a/Apps/Launcher.app",
        "/Users/a/Apps",
        "/Users/a",
        "/Users",
        "/",
    ]);
    assert_eq!(get_parent_folder(Platform::MacOs, &ancestors), "/Users/a/Apps");
    assert_eq!(get_log_path(Platform::MacOs, &ancestors), "/Users/a/Apps/launcher.log");
    assert_eq!(get_config_path(Platform::MacOs, &ancestors), "/Users/a/Apps/launcher.toml");
}

#[test]
fn settings_folder_at_the_root_needs_no_second_separator() {
    let ancestors = texts(&["/launcher", "/"]);
    assert_eq!(get_parent_folder(Platform::Linux, &ancestors), "/");
    assert_eq!(get_config_path(Platform::Linux, &ancestors), "/launcher.toml");
}

#[test]
fn settings_folder_lies_one_level_up_or_four() {
    assert_eq!(levels_to_home(Platform::Windows), 1);
    assert_eq!(levels_to_home(Platform::Linux), 1);
    assert_eq!(levels_to_home(Platform::MacOs), 4);
    let five = texts(&["/a/b/c/d", "/a/b/c", "/a/b", "/a", "/"]);
    assert_eq!(get_parent_folder(Platform::MacOs, &five), "/");
    assert_eq!(get_parent_folder(Platform::Linux, &five), "/a/b/c");
    assert_eq!(get_log_path(Platform::MacOs, &five), "/launcher.log");
}

#[test]
fn only_the_value_true_asks_for_the_client() {
    assert!(prefers_client(Some("true")));
    assert!(!prefers_client(Some("false")));
    assert!(!prefers_client(Some("True")));
    assert!(!prefers_client(Some("true ")));
    assert!(!prefers_client(Some("1")));
    assert!(!prefers_client(Some("")));
    assert!(!prefers_client(None));
    assert_eq!(client_setting(), "steam");
}

#[test]
fn new_settings_file_turns_the_client_on() {
    assert_eq!(default_settings_text(), "# Open Rhythm Doctor with Steam.\nsteam = true");
}

#[test]
fn settings_failures_are_worded() {
    assert_eq!(
        settings_fault_message(SettingsFault::Create, Some("denied")),
        "Failed to create new settings file: denied"
    );
    assert_eq!(
        settings_fault_message(SettingsFault::Write, Some("disk full")),
        "Failed to write to new settings file: disk full"
    );
    assert_eq!(
        settings_fault_message(SettingsFault::Load, Some("bad toml")),
        "Failed to load new settings file: bad toml"
    );
    assert_eq!(settings_fault_message(SettingsFault::Open, None), "Failed to open settings file");
}

#[test]
fn no_argument_shows_the_settings() {
    assert_eq!(plan_invocation(&texts(&[]), Some("true")), Invocation::ShowSettings);
    assert_eq!(plan_invocation(&texts(&["launcher"]), None), Invocation::ShowSettings);
}

#[test]
fn first_argument_is_the_file_to_open() {
    assert_eq!(
        plan_invocation(&texts(&["launcher", "level.rdzip"]), Some("true")),
        Invocation::Launch(LaunchRequest::new(text("level.rdzip"), true))
    );
    assert_eq!(
        plan_invocation(&texts(&["launcher", "a.rdlevel", "b.rdlevel"]), Some("no")),
        Invocation::Launch(LaunchRequest::new(text("a.rdlevel"), false))
    );
    assert_eq!(
        plan_invocation(&texts(&["launcher", "a.rdlevel"]), None),
        Invocation::Launch(LaunchRequest::new(text("a.rdlevel"), false))
    );
    let request = LaunchRequest::new(text("a.rdlevel"), true);
    assert_eq!(request.path(), "a.rdlevel");
    assert!(request.prefer_client());
}

#[test]
fn listener_opens_the_first_file_that_arrives() {
    let mut listener = Listener::new();
    assert_eq!(listener.idle, 0);
    assert_eq!(listener.on_event(ListenerEvent::Other), ListenerAction::Wait);
    assert_eq!(listener.idle, 1);
    assert_eq!(listener.on_event(ListenerEvent::Opened { first: None }), ListenerAction::Wait);
    assert_eq!(listener.idle, 1);
    assert_eq!(
        listener.on_event(ListenerEvent::Opened { first: Some(text("/l/level.rdzip")) }),
        ListenerAction::Launch { path: text("/l/level.rdzip") }
    );
    assert_eq!(listener.idle, 1);
}

#[test]
fn listener_shows_the_settings_once_after_fifty_idle_events() {
    assert_eq!(IDLE_LIMIT, 50);
    let mut listener = Listener::new();
    for _ in 0..49 {
        assert_eq!(listener.on_event(ListenerEvent::Other), ListenerAction::Wait);
    }
    assert_eq!(listener.on_event(ListenerEvent::Other), ListenerAction::ShowSettings);
    assert_eq!(listener.idle, 50);
    for _ in 0..300 {
        assert_eq!(listener.on_event(ListenerEvent::Other), ListenerAction::Wait);
    }
    assert_eq!(listener.idle, 255);
}

#[test]
fn settings_file_that_is_not_there_cannot_be_shown() {
    assert_eq!(
        rd_launcher::config_wrapper::open_config_file("/no-such-folder-for-rd/launcher.toml"),
        Err(text("Failed to open settings file"))
    );
}

#[test]
fn address_that_is_a_missing_file_cannot_be_opened() {
    assert_eq!(
        rd_launcher::handler::open_uri("/no-such-folder-for-rd/level.rdzip"),
        rd_launcher::orchestrator::Reply::Unavailable
    );
}

#[test]
fn showing_the_settings_succeeds_or_names_the_failure() {
    assert_eq!(rd_launcher::config_wrapper::settings_shown(true), Ok(()));
    assert_eq!(
        rd_launcher::config_wrapper::settings_shown(false),
        Err(text("Failed to open settings file"))
    );
}
