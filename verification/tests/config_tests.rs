use ptd_launcher::get_app_dir;
use ptd_launcher::get_flash_dir;
use ptd_launcher::get_flash_player_path;
use ptd_launcher::get_games_dir;
use ptd_launcher::get_ruffle_dir;
use ptd_launcher::get_ruffle_path;
use ptd_launcher::resolve_install_path;
use ptd_launcher::AppConfig;
use ptd_launcher::GameVersions;
use ptd_launcher::Os;
use ptd_launcher::Settings;

#[test]
fn app_dir_follows_the_os_convention() {
    assert_eq!(
        get_app_dir(Os::Windows, "C:/Users/u/AppData/Roaming"),
        "C:/Users/u/AppData/Roaming/PTD Launcher"
    );
    assert_eq!(
        get_app_dir(Os::MacOs, "/Users/u"),
        "/Users/u/Library/Application Support/PTD Launcher"
    );
    assert_eq!(
        get_app_dir(Os::Linux, "/home/u"),
        "/home/u/.local/share/PTD Launcher"
    );
}

#[test]
fn component_dirs_sit_under_the_app_dir() {
    let app = get_app_dir(Os::Linux, "/home/u");
    assert_eq!(get_games_dir(&app), "/home/u/.local/share/PTD Launcher/Games");
    assert_eq!(get_flash_dir(&app), "/home/u/.local/share/PTD Launcher/Flash");
    assert_eq!(get_ruffle_dir(&app), "/home/u/.local/share/PTD Launcher/Ruffle");
}

#[test]
fn override_wins_only_when_it_exists() {
    let custom = Some("/opt/custom/flashplayer".to_string());
    // Present and existing: the override is authoritative.
    assert_eq!(
        resolve_install_path(&custom, true, "/data/Flash", "flashplayer"),
        "/opt/custom/flashplayer"
    );
    // Present but stale: silently fall back to the default location,
    // even though the override field is non-empty.
    assert_eq!(
        resolve_install_path(&custom, false, "/data/Flash", "flashplayer"),
        "/data/Flash/flashplayer"
    );
    // Absent: the default location.
    assert_eq!(
        resolve_install_path(&None, false, "/data/Flash", "flashplayer"),
        "/data/Flash/flashplayer"
    );
}

#[test]
fn flash_path_resolution_uses_settings_and_os() {
    let config = AppConfig::default();
    let mut settings = Settings::default();
    assert_eq!(
        get_flash_player_path(&config, &settings, Os::Windows, "/data/Flash", false),
        "/data/Flash/flashplayer_sa.exe"
    );
    settings.flash_player_path = Some("/elsewhere/fp".to_string());
    assert_eq!(
        get_flash_player_path(&config, &settings, Os::Windows, "/data/Flash", true),
        "/elsewhere/fp"
    );
    assert_eq!(
        get_flash_player_path(&config, &settings, Os::Linux, "/data/Flash", false),
        "/data/Flash/flashplayer"
    );
}

#[test]
fn ruffle_path_resolution_uses_settings_and_os() {
    let config = AppConfig::default();
    let mut settings = Settings::default();
    assert_eq!(
        get_ruffle_path(&config, &settings, Os::Windows, "/data/Ruffle", false),
        "/data/Ruffle/ruffle.exe"
    );
    assert_eq!(
        get_ruffle_path(&config, &settings, Os::Linux, "/data/Ruffle", false),
        "/data/Ruffle/ruffle"
    );
    settings.ruffle_path = Some("/elsewhere/ruffle".to_string());
    assert_eq!(
        get_ruffle_path(&config, &settings, Os::Linux, "/data/Ruffle", true),
        "/elsewhere/ruffle"
    );
}

#[test]
fn default_settings_have_no_preferences() {
    let settings = Settings::default();
    assert!(settings.flash_player_path.is_none());
    assert!(settings.use_ruffle.is_none());
    assert!(settings.ruffle_path.is_none());
    assert!(settings.sound_enabled.is_none());
}

#[test]
fn default_catalog_knows_the_six_games() {
    let config = AppConfig::default();
    for (id, url) in [
        ("PTD1", "https://ptd.onl/ptd1-latest.swf"),
        ("PTD1_Hacked", "https://ptd.onl/ptd1-hacked-latest.swf"),
        ("PTD2", "https://ptd.onl/ptd2-latest.swf"),
        ("PTD2_Hacked", "https://ptd.onl/ptd2-hacked-latest.swf"),
        ("PTD3", "https://ptd.onl/ptd3-latest.swf"),
        ("PTD3_Hacked", "https://ptd.onl/ptd3-hacked-latest.swf"),
    ] {
        assert_eq!(config.game_url(&id.to_string()).unwrap(), url);
    }
    assert!(config.game_url(&"PTD4".to_string()).is_none());
}

#[test]
fn ledger_defaults_to_empty_values_when_absent() {
    let versions = GameVersions::default();
    assert_eq!(versions.flash_player, "");
    assert_eq!(versions.ruffle, "");
    assert!(versions.games.is_empty());
    assert!(versions.get_game_version(&"PTD1".to_string()).is_none());
}

#[test]
fn ledger_updates_are_last_write_wins() {
    let mut versions = GameVersions::default();
    versions.set_game_version(&"PTD1".to_string(), &"100".to_string());
    versions.set_game_version(&"PTD2".to_string(), &"200".to_string());
    versions.set_game_version(&"PTD1".to_string(), &"300".to_string());
    assert_eq!(versions.get_game_version(&"PTD1".to_string()).unwrap(), "300");
    assert_eq!(versions.get_game_version(&"PTD2".to_string()).unwrap(), "200");
    assert_eq!(versions.games.len(), 2);
}
