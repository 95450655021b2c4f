use just_merge::pubsub::gitlab::User;
use just_merge::store::{config_file_path, CONFIG_FILE_NAME, GITLAB_DOMAIN_KEY};
use just_merge::tray::{menu_action, MenuAction};
use just_merge::{format_log_line, hides_on_close, log_target_enabled, AppData, LogLevel};

#[test]
fn log_stream_starts_once() {
    let mut d = AppData::new();
    assert!(d.begin_push_log());
    assert!(!d.begin_push_log());
    assert!(!d.begin_push_log());
}

#[test]
fn current_user_is_remembered() {
    let mut d = AppData::new();
    assert!(d.cached_me().is_none());
    d.remember_me(User { id: 5, name: "Eve".to_string(), username: "eve".to_string() });
    assert_eq!(d.cached_me().unwrap().id, 5);
    assert!(d.begin_push_log());
    assert_eq!(d.cached_me().unwrap().name, "Eve");
}

#[test]
fn log_lines_are_coloured_by_level() {
    assert_eq!(
        format_log_line(LogLevel::Info, "2024-01-02", "10:11:12", "hello"),
        "\x1B[37m[2024-01-02][10:11:12][INFO] hello\x1B[39m"
    );
    assert_eq!(format_log_line(LogLevel::Debug, "d", "t", "m"), "\x1B[90m[d][t][DEBUG] m\x1B[39m");
    assert_eq!(format_log_line(LogLevel::Warn, "d", "t", "m"), "\x1B[33m[d][t][WARN] m\x1B[39m");
    assert_eq!(format_log_line(LogLevel::Error, "d", "t", "m"), "\x1B[31m[d][t][ERROR] m\x1B[39m");
    assert_eq!(format_log_line(LogLevel::Trace, "d", "t", "m"), "\x1B[32m[d][t][TRACE] m\x1B[39m");
}

#[test]
fn noisy_targets_are_filtered() {
    assert!(log_target_enabled("reqwest::connect", LogLevel::Info));
    assert!(!log_target_enabled("reqwest::connect", LogLevel::Debug));
    assert!(!log_target_enabled("gitlab::api", LogLevel::Trace));
    assert!(log_target_enabled("gitlab::api", LogLevel::Error));
    assert!(log_target_enabled("just_merge", LogLevel::Trace));
    assert!(log_target_enabled("gitla", LogLevel::Debug));
}

#[test]
fn only_the_main_window_hides() {
    assert!(hides_on_close("main"));
    assert!(!hides_on_close("settings"));
}

#[test]
fn settings_file_path() {
    assert_eq!(config_file_path("/home/ann"), "/home/ann/.just_merge.json");
    assert_eq!(config_file_path("/home/ann/"), "/home/ann/.just_merge.json");
    assert_eq!(config_file_path(""), ".just_merge.json");
    assert_eq!(CONFIG_FILE_NAME, ".just_merge.json");
    assert_eq!(GITLAB_DOMAIN_KEY, "gitlab-domain");
}

#[test]
fn tray_menu_entries() {
    assert_eq!(menu_action("quit"), MenuAction::Quit);
    assert_eq!(menu_action("window"), MenuAction::ShowWindow);
    assert_eq!(menu_action("other"), MenuAction::Nothing);
}
