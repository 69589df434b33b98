use ptd_launcher::chooses_ruffle;
use ptd_launcher::pick_game_file;
use ptd_launcher::plan_launch;
use ptd_launcher::select_nightly_asset;
use ptd_launcher::resolve_ruffle_source;
use ptd_launcher::DiscoverError;
use ptd_launcher::GameFile;
use ptd_launcher::Os;
use ptd_launcher::ReleaseAsset;
use ptd_launcher::RuffleConfig;
use ptd_launcher::RuffleRelease;
use ptd_launcher::Settings;

fn file(name: &str, mtime: u64) -> GameFile {
    GameFile {
        name: name.to_string(),
        mtime,
    }
}

#[test]
fn standard_file_wins_when_present() {
    let entries = vec![file("PTD1-v9.swf", 999)];
    let r = pick_game_file(&"PTD1".to_string(), true, &entries);
    assert_eq!(r.unwrap(), "PTD1.swf");
}

#[test]
fn newest_versioned_file_wins_otherwise() {
    let entries = vec![
        file("PTD1-v1.swf", 100),
        file("other.swf", 9999),
        file("PTD1-v2.swf", 300),
        file("PTD1-v3.swf", 200),
        file("PTD1-vX.txt", 400),
    ];
    let r = pick_game_file(&"PTD1".to_string(), false, &entries);
    assert_eq!(r.unwrap(), "PTD1-v2.swf");
}

#[test]
fn ties_go_to_the_earliest_listing() {
    let entries = vec![file("PTD1-va.swf", 300), file("PTD1-vb.swf", 300)];
    let r = pick_game_file(&"PTD1".to_string(), false, &entries);
    assert_eq!(r.unwrap(), "PTD1-va.swf");
}

#[test]
fn files_with_unknown_mtime_are_never_chosen() {
    let entries = vec![file("PTD1-v1.swf", 0), file("PTD1-v2.swf", 0)];
    assert!(pick_game_file(&"PTD1".to_string(), false, &entries).is_none());
    assert!(pick_game_file(&"PTD1".to_string(), false, &Vec::new()).is_none());
}

#[test]
fn ruffle_choice_defaults_to_the_legacy_player() {
    let mut settings = Settings::default();
    assert!(!chooses_ruffle(&settings));
    settings.use_ruffle = Some(false);
    assert!(!chooses_ruffle(&settings));
    settings.use_ruffle = Some(true);
    assert!(chooses_ruffle(&settings));
}

#[test]
fn launch_errors_name_what_is_missing() {
    let r = plan_launch(
        &"PTD1".to_string(),
        &None,
        false,
        &"/p/flash".to_string(),
        true,
        Some(&"https://ptd.onl/ptd1-latest.swf".to_string()),
        Os::Linux,
    );
    assert_eq!(
        r.unwrap_err(),
        "Game 'PTD1' not found. Please download it first."
    );

    let game = Some("/g/PTD1.swf".to_string());
    let r = plan_launch(
        &"PTD1".to_string(),
        &game,
        true,
        &"/p/ruffle".to_string(),
        false,
        Some(&"https://ptd.onl/ptd1-latest.swf".to_string()),
        Os::Linux,
    );
    assert_eq!(r.unwrap_err(), "Ruffle not installed. Please download it first.");

    let r = plan_launch(
        &"PTD1".to_string(),
        &game,
        false,
        &"/p/flash".to_string(),
        false,
        Some(&"https://ptd.onl/ptd1-latest.swf".to_string()),
        Os::Linux,
    );
    assert_eq!(
        r.unwrap_err(),
        "Flash Player not installed. Please download it first."
    );

    let r = plan_launch(
        &"PTD1".to_string(),
        &game,
        false,
        &"/p/flash".to_string(),
        true,
        None,
        Os::Linux,
    );
    assert_eq!(r.unwrap_err(), "Game 'PTD1' not found in configuration");
}

#[test]
fn ruffle_launch_spoofs_the_game_url() {
    let game = Some("/g/PTD1.swf".to_string());
    let url = "https://ptd.onl/ptd1-latest.swf".to_string();
    let plan = plan_launch(
        &"PTD1".to_string(),
        &game,
        true,
        &"/p/ruffle".to_string(),
        true,
        Some(&url),
        Os::Linux,
    )
    .unwrap();
    assert_eq!(plan.program, "/p/ruffle");
    assert!(!plan.via_open);
    assert_eq!(
        plan.args,
        vec![
            "/g/PTD1.swf".to_string(),
            "--spoof-url".to_string(),
            "https://ptd.onl/ptd1-latest.swf".to_string(),
            "--base".to_string(),
            "https://ptd.onl/".to_string(),
        ]
    );
}

#[test]
fn legacy_player_takes_the_file_alone_and_opens_the_bundle_on_macos() {
    let game = Some("/g/PTD1.swf".to_string());
    let url = "https://ptd.onl/ptd1-latest.swf".to_string();
    let plan = plan_launch(
        &"PTD1".to_string(),
        &game,
        false,
        &"/Applications/Flash Player.app".to_string(),
        true,
        Some(&url),
        Os::MacOs,
    )
    .unwrap();
    assert!(plan.via_open);
    assert_eq!(plan.args, vec!["/g/PTD1.swf".to_string()]);

    let plan = plan_launch(
        &"PTD1".to_string(),
        &game,
        false,
        &"/p/flash".to_string(),
        true,
        Some(&url),
        Os::Windows,
    )
    .unwrap();
    assert!(!plan.via_open);
    assert_eq!(plan.args.len(), 1);
}

fn release(tag: &str, names: &[&str]) -> RuffleRelease {
    RuffleRelease {
        tag_name: tag.to_string(),
        assets: names
            .iter()
            .map(|n| ReleaseAsset {
                name: n.to_string(),
                browser_download_url: format!("https://host/{}", n),
            })
            .collect(),
    }
}

#[test]
fn discovery_picks_the_first_release_and_skips_extensions() {
    let releases = vec![
        release(
            "nightly-2026-03-01",
            &[
                "ruffle-extension-windows-x86_64.zip",
                "ruffle-nightly-windows-x86_64.zip",
                "ruffle-nightly-linux-x86_64.tar.gz",
            ],
        ),
        release("nightly-2026-02-28", &["ruffle-nightly-windows-x86_64.zip"]),
    ];
    let d = select_nightly_asset(&releases, Os::Windows).unwrap();
    assert_eq!(d.url, "https://host/ruffle-nightly-windows-x86_64.zip");
    assert_eq!(d.filename, "ruffle.exe");
    assert_eq!(d.tag, "nightly-2026-03-01");

    let d = select_nightly_asset(&releases, Os::Linux).unwrap();
    assert_eq!(d.url, "https://host/ruffle-nightly-linux-x86_64.tar.gz");
    assert_eq!(d.filename, "ruffle");
}

#[test]
fn discovery_failures_are_named() {
    let r = select_nightly_asset(&Vec::new(), Os::Linux);
    assert!(matches!(r, Err(DiscoverError::NoReleases)));

    let releases = vec![release("nightly", &["ruffle-nightly-windows-x86_64.zip"])];
    let r = select_nightly_asset(&releases, Os::MacOs);
    assert!(matches!(r, Err(DiscoverError::NoMatchingAsset)));
}

#[test]
fn discovery_failure_falls_back_to_the_static_location() {
    let config = RuffleConfig::default();
    let d = resolve_ruffle_source(Err(DiscoverError::NoReleases), &config, Os::Linux);
    assert_eq!(
        d.url,
        "https://github.com/ruffle-rs/ruffle/releases/download/nightly-2026-02-09/ruffle-nightly-2026_02_09-linux-x86_64.tar.gz"
    );
    assert_eq!(d.filename, "ruffle");
    assert_eq!(d.tag, "fallback");
}
