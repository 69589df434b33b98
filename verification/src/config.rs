//! Static configuration, user settings, and install-path resolution.
//!
//! Paths are plain strings here; reading directories from the
//! environment, probing the filesystem, and persisting the JSON documents
//! are a driver's business. Every function of this module is a pure
//! computation over the values the driver hands in.

use vstd::prelude::*;
use vstd::string::StringExecFns;
use crate::text::join_path;

verus! {

/// The operating system the launcher runs on, chosen once at startup.
#[derive(Clone, Copy, PartialEq, Eq, Structural)]
pub enum Os {
    Windows,
    MacOs,
    Linux,
}

/// Where the legacy runtime for one OS is downloaded from: a primary
/// URL, an optional static fallback URL, and the installed filename.
pub struct FlashPlayerOs {
    pub primary_url: String,
    pub fallback_url: Option<String>,
    pub filename: String,
}

impl FlashPlayerOs {
    /// An asset location always names a file.
    pub open spec fn wf(&self) -> bool {
        self.filename@.len() > 0
    }
}

/// Legacy-runtime configuration: one location per OS and the version
/// string recorded after an install.
pub struct FlashPlayerConfig {
    pub fallback_version: String,
    pub windows: FlashPlayerOs,
    pub macos: FlashPlayerOs,
    pub linux: FlashPlayerOs,
}

impl FlashPlayerConfig {
    pub open spec fn wf(&self) -> bool {
        self.windows.wf() && self.macos.wf() && self.linux.wf()
    }

    /// The location for `os`.
    pub open spec fn spec_for_os(&self, os: Os) -> FlashPlayerOs {
        match os {
            Os::Windows => self.windows,
            Os::MacOs => self.macos,
            Os::Linux => self.linux,
        }
    }

    pub fn for_os(&self, os: Os) -> (r: &FlashPlayerOs)
        ensures
            *r == self.spec_for_os(os),
    {
        match os {
            Os::Windows => &self.windows,
            Os::MacOs => &self.macos,
            Os::Linux => &self.linux,
        }
    }
}

/// Where the emulator runtime for one OS is downloaded from when the
/// release index cannot be reached, and the installed filename.
pub struct RuffleOs {
    pub url: String,
    pub filename: String,
}

impl RuffleOs {
    pub open spec fn wf(&self) -> bool {
        self.filename@.len() > 0
    }
}

/// Emulator-runtime configuration: one static fallback location per OS.
pub struct RuffleConfig {
    pub windows: RuffleOs,
    pub macos: RuffleOs,
    pub linux: RuffleOs,
}

impl RuffleConfig {
    pub open spec fn wf(&self) -> bool {
        self.windows.wf() && self.macos.wf() && self.linux.wf()
    }

    /// The location for `os`.
    pub open spec fn spec_for_os(&self, os: Os) -> RuffleOs {
        match os {
            Os::Windows => self.windows,
            Os::MacOs => self.macos,
            Os::Linux => self.linux,
        }
    }

    pub fn for_os(&self, os: Os) -> (r: &RuffleOs)
        ensures
            *r == self.spec_for_os(os),
    {
        match os {
            Os::Windows => &self.windows,
            Os::MacOs => &self.macos,
            Os::Linux => &self.linux,
        }
    }
}

/// The value at the first entry of `pairs` whose key is `id`, if any.
pub open spec fn catalog_lookup(pairs: Seq<(String, String)>, id: Seq<char>) -> Option<Seq<char>>
    decreases pairs.len(),
{
    if pairs.len() == 0 {
        None
    } else if pairs[0].0@ == id {
        Some(pairs[0].1@)
    } else {
        catalog_lookup(pairs.drop_first(), id)
    }
}

/// The whole static configuration: both runtimes and the game catalog,
/// a mapping from game identifier to canonical download URL that stays
/// immutable for the process lifetime.
pub struct AppConfig {
    pub flash_player: FlashPlayerConfig,
    pub ruffle: RuffleConfig,
    pub game_urls: Vec<(String, String)>,
}

impl AppConfig {
    pub open spec fn wf(&self) -> bool {
        self.flash_player.wf() && self.ruffle.wf()
    }

    /// The canonical download URL for `id`, or `None` when the catalog
    /// does not know the game.
    pub fn game_url<'a>(&'a self, id: &String) -> (r: Option<&'a String>)
        ensures
            match r {
                Some(u) => catalog_lookup(self.game_urls@, id@) == Some(u@),
                None => catalog_lookup(self.game_urls@, id@) is None,
            },
    {
        proof {
            assert(self.game_urls@.skip(0) =~= self.game_urls@);
        }
        let mut i: usize = 0;
        while i < self.game_urls.len()
            invariant
                i <= self.game_urls@.len(),
                catalog_lookup(self.game_urls@, id@) == catalog_lookup(
                    self.game_urls@.skip(i as int),
                    id@,
                ),
            decreases self.game_urls@.len() - i,
        {
            let pair = &self.game_urls[i];
            proof {
                assert(self.game_urls@.skip(i as int)[0] == self.game_urls@[i as int]);
            }
            if pair.0 == *id {
                return Some(&pair.1);
            }
            proof {
                assert(self.game_urls@.skip(i as int).drop_first() =~= self.game_urls@.skip(
                    i as int + 1,
                ));
            }
            i = i + 1;
        }
        proof {
            assert(self.game_urls@.skip(i as int) =~= Seq::<(String, String)>::empty());
        }
        None
    }
}

/// The hard-coded legacy-runtime locations used when no configuration
/// document is found.
pub open spec fn is_default_flash_config(r: FlashPlayerConfig) -> bool {
    &&& r.fallback_version@ == "32.0.0.465"@
    &&& r.windows.primary_url@ == "https://www.flash.cn/cdm/latest/flashplayer_sa.exe"@
    &&& r.windows.fallback_url matches Some(u) && u@
        == "https://fpdownload.macromedia.com/pub/flashplayer/updaters/32/flashplayer_32_sa.exe"@
    &&& r.windows.filename@ == "flashplayer_sa.exe"@
    &&& r.macos.primary_url@
        == "https://fpdownload.macromedia.com/pub/flashplayer/updaters/32/flashplayer_32_sa.dmg"@
    &&& r.macos.fallback_url is None
    &&& r.macos.filename@ == "Flash Player.app"@
    &&& r.linux.primary_url@
        == "https://fpdownload.macromedia.com/pub/flashplayer/updaters/32/flash_player_sa_linux.x86_64.tar.gz"@
    &&& r.linux.fallback_url matches Some(u) && u@
        == "https://archive.org/download/flashplayer_standalone_projectors/flash_player_sa_linux.x86_64.tar.gz"@
    &&& r.linux.filename@ == "flashplayer"@
}

/// The hard-coded emulator locations used when fetching the latest
/// release fails.
pub open spec fn is_default_ruffle_config(r: RuffleConfig) -> bool {
    &&& r.windows.url@
        == "https://github.com/ruffle-rs/ruffle/releases/download/nightly-2026-02-09/ruffle-nightly-2026_02_09-windows-x86_64.zip"@
    &&& r.windows.filename@ == "ruffle.exe"@
    &&& r.macos.url@
        == "https://github.com/ruffle-rs/ruffle/releases/download/nightly-2026-02-09/ruffle-nightly-2026_02_09-macos-universal.tar.gz"@
    &&& r.macos.filename@ == "ruffle"@
    &&& r.linux.url@
        == "https://github.com/ruffle-rs/ruffle/releases/download/nightly-2026-02-09/ruffle-nightly-2026_02_09-linux-x86_64.tar.gz"@
    &&& r.linux.filename@ == "ruffle"@
}

impl Default for FlashPlayerConfig {
    /// The hard-coded legacy-runtime locations used when no
    /// configuration document is found.
    fn default() -> (r: FlashPlayerConfig)
        ensures
            r.wf(),
            is_default_flash_config(r),
    {
        proof {
            reveal_strlit("flashplayer_sa.exe");
            reveal_strlit("Flash Player.app");
            reveal_strlit("flashplayer");
        }
        FlashPlayerConfig {
            fallback_version: String::from_str("32.0.0.465"),
            windows: FlashPlayerOs {
                primary_url: String::from_str("https://www.flash.cn/cdm/latest/flashplayer_sa.exe"),
                fallback_url: Some(
                    String::from_str(
                        "https://fpdownload.macromedia.com/pub/flashplayer/updaters/32/flashplayer_32_sa.exe",
                    ),
                ),
                filename: String::from_str("flashplayer_sa.exe"),
            },
            macos: FlashPlayerOs {
                primary_url: String::from_str(
                    "https://fpdownload.macromedia.com/pub/flashplayer/updaters/32/flashplayer_32_sa.dmg",
                ),
                fallback_url: None,
                filename: String::from_str("Flash Player.app"),
            },
            linux: FlashPlayerOs {
                primary_url: String::from_str(
                    "https://fpdownload.macromedia.com/pub/flashplayer/updaters/32/flash_player_sa_linux.x86_64.tar.gz",
                ),
                fallback_url: Some(
                    String::from_str(
                        "https://archive.org/download/flashplayer_standalone_projectors/flash_player_sa_linux.x86_64.tar.gz",
                    ),
                ),
                filename: String::from_str("flashplayer"),
            },
        }
    }
}

impl Default for RuffleConfig {
    /// The hard-coded emulator locations used when fetching the latest
    /// release fails.
    fn default() -> (r: RuffleConfig)
        ensures
            r.wf(),
            is_default_ruffle_config(r),
    {
        proof {
            reveal_strlit("ruffle.exe");
            reveal_strlit("ruffle");
        }
        RuffleConfig {
            windows: RuffleOs {
                url: String::from_str(
                    "https://github.com/ruffle-rs/ruffle/releases/download/nightly-2026-02-09/ruffle-nightly-2026_02_09-windows-x86_64.zip",
                ),
                filename: String::from_str("ruffle.exe"),
            },
            macos: RuffleOs {
                url: String::from_str(
                    "https://github.com/ruffle-rs/ruffle/releases/download/nightly-2026-02-09/ruffle-nightly-2026_02_09-macos-universal.tar.gz",
                ),
                filename: String::from_str("ruffle"),
            },
            linux: RuffleOs {
                url: String::from_str(
                    "https://github.com/ruffle-rs/ruffle/releases/download/nightly-2026-02-09/ruffle-nightly-2026_02_09-linux-x86_64.tar.gz",
                ),
                filename: String::from_str("ruffle"),
            },
        }
    }
}

impl Default for AppConfig {
    /// The hard-coded configuration: both runtimes' defaults and the
    /// built-in game catalog.
    fn default() -> (r: AppConfig)
        ensures
            r.wf(),
            is_default_flash_config(r.flash_player),
            is_default_ruffle_config(r.ruffle),
            r.game_urls@.len() == 6,
            r.game_urls@[0].0@ == "PTD1"@ && r.game_urls@[0].1@
                == "https://ptd.onl/ptd1-latest.swf"@,
            r.game_urls@[1].0@ == "PTD1_Hacked"@ && r.game_urls@[1].1@
                == "https://ptd.onl/ptd1-hacked-latest.swf"@,
            r.game_urls@[2].0@ == "PTD2"@ && r.game_urls@[2].1@
                == "https://ptd.onl/ptd2-latest.swf"@,
            r.game_urls@[3].0@ == "PTD2_Hacked"@ && r.game_urls@[3].1@
                == "https://ptd.onl/ptd2-hacked-latest.swf"@,
            r.game_urls@[4].0@ == "PTD3"@ && r.game_urls@[4].1@
                == "https://ptd.onl/ptd3-latest.swf"@,
            r.game_urls@[5].0@ == "PTD3_Hacked"@ && r.game_urls@[5].1@
                == "https://ptd.onl/ptd3-hacked-latest.swf"@,
    {
        let mut game_urls: Vec<(String, String)> = Vec::new();
        game_urls.push(
            (String::from_str("PTD1"), String::from_str("https://ptd.onl/ptd1-latest.swf")),
        );
        game_urls.push(
            (
                String::from_str("PTD1_Hacked"),
                String::from_str("https://ptd.onl/ptd1-hacked-latest.swf"),
            ),
        );
        game_urls.push(
            (String::from_str("PTD2"), String::from_str("https://ptd.onl/ptd2-latest.swf")),
        );
        game_urls.push(
            (
                String::from_str("PTD2_Hacked"),
                String::from_str("https://ptd.onl/ptd2-hacked-latest.swf"),
            ),
        );
        game_urls.push(
            (String::from_str("PTD3"), String::from_str("https://ptd.onl/ptd3-latest.swf")),
        );
        game_urls.push(
            (
                String::from_str("PTD3_Hacked"),
                String::from_str("https://ptd.onl/ptd3-hacked-latest.swf"),
            ),
        );
        AppConfig {
            flash_player: FlashPlayerConfig::default(),
            ruffle: RuffleConfig::default(),
            game_urls,
        }
    }
}

/// User settings: an optional override path per runtime, the choice of
/// runtime, and whether sound is on. Absent fields mean "no preference".
pub struct Settings {
    pub flash_player_path: Option<String>,
    pub use_ruffle: Option<bool>,
    pub ruffle_path: Option<String>,
    pub sound_enabled: Option<bool>,
}

impl Default for Settings {
    /// All fields absent.
    fn default() -> (r: Settings)
        ensures
            r.flash_player_path is None,
            r.use_ruffle is None,
            r.ruffle_path is None,
            r.sound_enabled is None,
    {
        Settings { flash_player_path: None, use_ruffle: None, ruffle_path: None, sound_enabled: None }
    }
}

/// The per-user application data directory for `os`, under the
/// OS-conventional base the driver read from the environment (the
/// roaming application-data directory on Windows, the home directory
/// elsewhere).
pub fn get_app_dir(os: Os, base_dir: &str) -> (r: String)
    ensures
        match os {
            Os::Windows => r@ == base_dir@ + seq!['/'] + "PTD Launcher"@,
            Os::MacOs => r@ == base_dir@ + seq!['/'] + "Library/Application Support/PTD Launcher"@,
            Os::Linux => r@ == base_dir@ + seq!['/'] + ".local/share/PTD Launcher"@,
        },
{
    match os {
        Os::Windows => join_path(base_dir, "PTD Launcher"),
        Os::MacOs => join_path(base_dir, "Library/Application Support/PTD Launcher"),
        Os::Linux => join_path(base_dir, ".local/share/PTD Launcher"),
    }
}

/// The games directory under the application data directory.
pub fn get_games_dir(app_dir: &str) -> (r: String)
    ensures
        r@ == app_dir@ + seq!['/'] + "Games"@,
{
    join_path(app_dir, "Games")
}

/// The legacy-runtime directory under the application data directory.
pub fn get_flash_dir(app_dir: &str) -> (r: String)
    ensures
        r@ == app_dir@ + seq!['/'] + "Flash"@,
{
    join_path(app_dir, "Flash")
}

/// The emulator directory under the application data directory.
pub fn get_ruffle_dir(app_dir: &str) -> (r: String)
    ensures
        r@ == app_dir@ + seq!['/'] + "Ruffle"@,
{
    join_path(app_dir, "Ruffle")
}

/// The authoritative path of an installed artifact: the user's override
/// path exactly when one is set and currently resolves to a real file
/// (`custom_exists` is the driver's probe of that path), and otherwise
/// the conventional location `default_dir/filename`. A stale override
/// pointing at a deleted file thus falls back silently to the default.
pub fn resolve_install_path(
    custom: &Option<String>,
    custom_exists: bool,
    default_dir: &str,
    filename: &str,
) -> (r: String)
    ensures
        match custom {
            Some(p) => {
                if custom_exists {
                    r@ == p@
                } else {
                    r@ == default_dir@ + seq!['/'] + filename@
                }
            },
            None => r@ == default_dir@ + seq!['/'] + filename@,
        },
{
    match custom {
        Some(p) => {
            if custom_exists {
                p.clone()
            } else {
                join_path(default_dir, filename)
            }
        },
        None => join_path(default_dir, filename),
    }
}

/// The legacy-runtime executable path for `os`: the settings override
/// when it is set and exists on disk (`custom_exists` is the driver's
/// probe of it), else the conventional file under `flash_dir`.
pub fn get_flash_player_path(
    config: &AppConfig,
    settings: &Settings,
    os: Os,
    flash_dir: &str,
    custom_exists: bool,
) -> (r: String)
    ensures
        match settings.flash_player_path {
            Some(p) => {
                if custom_exists {
                    r@ == p@
                } else {
                    r@ == flash_dir@ + seq!['/'] + config.flash_player.spec_for_os(os).filename@
                }
            },
            None => r@ == flash_dir@ + seq!['/'] + config.flash_player.spec_for_os(os).filename@,
        },
{
    resolve_install_path(
        &settings.flash_player_path,
        custom_exists,
        flash_dir,
        config.flash_player.for_os(os).filename.as_str(),
    )
}

/// The emulator executable path for `os`: the settings override when it
/// is set and exists on disk (`custom_exists` is the driver's probe of
/// it), else the conventional file under `ruffle_dir`.
pub fn get_ruffle_path(
    config: &AppConfig,
    settings: &Settings,
    os: Os,
    ruffle_dir: &str,
    custom_exists: bool,
) -> (r: String)
    ensures
        match settings.ruffle_path {
            Some(p) => {
                if custom_exists {
                    r@ == p@
                } else {
                    r@ == ruffle_dir@ + seq!['/'] + config.ruffle.spec_for_os(os).filename@
                }
            },
            None => r@ == ruffle_dir@ + seq!['/'] + config.ruffle.spec_for_os(os).filename@,
        },
{
    resolve_install_path(
        &settings.ruffle_path,
        custom_exists,
        ruffle_dir,
        config.ruffle.for_os(os).filename.as_str(),
    )
}

} // verus!
