use rtc_agent::config::{user_file_location, UserDirectories, UserFile};
use rtc_agent::protocol::PlatformId;

fn host_dirs() -> UserDirectories {
    UserDirectories {
        appdata: Some(r"C:\Users\u\AppData\Roaming".into()),
        xdg_config_home: None,
        xdg_state_home: Some("   ".into()),
        home_dir: Some("/Users/u".into()),
        data_dir: Some(r"D:\Roaming".into()),
        config_dir: Some("/home/u/.config".into()),
        state_dir: Some("/home/u/.local/state".into()),
    }
}

#[test]
fn windows_config_lives_under_appdata() {
    let parts = user_file_location(PlatformId::Windows, UserFile::Config, &host_dirs());
    assert_eq!(parts, vec![r"C:\Users\u\AppData\Roaming", "remote-terminal-cloud-agent", "config.json"]);
}

#[test]
fn windows_falls_back_to_roaming_data_dir() {
    let dirs = UserDirectories { appdata: Some("  ".into()), ..host_dirs() };
    let parts = user_file_location(PlatformId::Windows, UserFile::Preferences, &dirs);
    assert_eq!(parts, vec![r"D:\Roaming", "remote-terminal-cloud-agent", "preferences.json"]);
}

#[test]
fn macos_config_lives_in_application_support() {
    let parts = user_file_location(PlatformId::Macos, UserFile::Config, &host_dirs());
    assert_eq!(
        parts,
        vec!["/Users/u", "Library", "Application Support", "remote-terminal-cloud-agent", "config.json"]
    );
}

#[test]
fn linux_config_and_preferences_use_xdg_directories() {
    let config = user_file_location(PlatformId::Linux, UserFile::Config, &host_dirs());
    assert_eq!(config, vec!["/home/u/.config", "remote-terminal-cloud-agent", "config.json"]);
    let prefs = user_file_location(PlatformId::Linux, UserFile::Preferences, &host_dirs());
    assert_eq!(prefs, vec!["/home/u/.local/state", "remote-terminal-cloud-agent", "preferences.json"]);
    let dirs = UserDirectories { xdg_config_home: Some("/xdg".into()), ..host_dirs() };
    let config = user_file_location(PlatformId::Linux, UserFile::Config, &dirs);
    assert_eq!(config, vec!["/xdg", "remote-terminal-cloud-agent", "config.json"]);
}

#[test]
fn unknown_directory_is_the_current_one() {
    let parts = user_file_location(PlatformId::Macos, UserFile::Config, &UserDirectories::default());
    assert_eq!(parts[0], ".");
}
