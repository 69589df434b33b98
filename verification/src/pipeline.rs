//! The acquisition coordinator: one state machine per acquisition that
//! sequences locate, download, the primary/fallback retry, extraction,
//! permission fix-ups and the ledger update, and converts any stage
//! failure into one terminal outcome.
//!
//! The machine performs no I/O. A driver asks it which URL to fetch,
//! reports how each stage went, emits the milestone snapshots it returns,
//! and the contracts here pin the policy: the fallback URL is tried
//! exactly once and only after a primary failure, a primary failure with
//! no fallback is forwarded verbatim, and a fallback failure is terminal
//! with the fallback's own error.

use vstd::prelude::*;
use vstd::string::StringExecFns;
use crate::config::AppConfig;
use crate::config::FlashPlayerConfig;
use crate::config::Os;
use crate::config::catalog_lookup;
use crate::download::DownloadError;
use crate::extract::ExtractError;
use crate::progress::DownloadProgress;
use crate::progress::milestone;
use crate::text::concat2;
use crate::text::concat3;
use crate::versions::GameVersions;

verus! {

/// Where one asset is downloaded from and what its file is called: the
/// primary URL, the optional static fallback URL, and the on-disk name
/// of the downloaded file.
#[derive(Debug)]
pub struct AssetSpec {
    pub primary_url: String,
    pub fallback_url: Option<String>,
    pub filename: String,
}

impl AssetSpec {
    /// An asset always names a file.
    pub open spec fn wf(&self) -> bool {
        self.filename@.len() > 0
    }
}

/// The distinct installable things the pipeline manages.
#[derive(Clone, Copy, PartialEq, Eq, Structural)]
pub enum AssetClass {
    FlashPlayer,
    Ruffle,
    Game,
}

/// The one terminal failure of an acquisition: the deepest error of the
/// stage that died.
#[derive(Debug)]
pub enum PipelineError {
    /// A download attempt failed and no further attempt was allowed.
    Download(DownloadError),
    /// Extraction or the disk-image path failed.
    Extract(ExtractError),
    /// Setting the executable bit failed in the filesystem call itself
    /// (a merely absent target is not an error).
    PermissionFailed(String),
    /// The requested asset is unknown to the static catalog.
    NotConfigured(String),
}

/// The stages of one acquisition. `Failed` is reachable from every
/// non-terminal stage and is terminal, as is `Complete`.
#[derive(Clone, Copy, PartialEq, Eq, Structural)]
pub enum Stage {
    Locating,
    Downloading,
    FallbackDownloading,
    Extracting,
    PostProcessing,
    Publishing,
    Complete,
    Failed,
}

/// How the driver's permission fix-up went after extraction.
pub enum PermissionOutcome {
    /// The executable bit was set on the expected binary.
    Applied,
    /// The expected binary is not at the conventional path; the archive
    /// laid its files out otherwise, which is not an error.
    TargetAbsent,
    /// This OS needs no permission fix-up.
    NotNeeded,
    /// The filesystem call itself failed; carries its message.
    Failed(String),
}

/// One acquisition being coordinated.
pub struct Acquisition {
    /// The identifier carried by every progress snapshot, and the game
    /// id for game acquisitions.
    pub item: String,
    /// Which installable thing this is, deciding the ledger update.
    pub class: AssetClass,
    /// The located source; `None` until locating finishes.
    pub asset: Option<AssetSpec>,
    /// Whether the downloaded file is an archive to extract, or a bare
    /// file published as it is.
    pub is_archive: bool,
    pub stage: Stage,
    /// Download attempts begun; never more than two.
    pub attempts: u64,
    /// The terminal failure; set exactly when the stage is `Failed`.
    pub error: Option<PipelineError>,
}

impl Acquisition {
    pub open spec fn wf(&self) -> bool {
        &&& self.attempts <= 2
        &&& (self.stage is Locating ==> self.attempts == 0 && self.asset is None)
        &&& (self.stage is Downloading ==> self.attempts == 1 && self.asset is Some)
        &&& (self.stage is FallbackDownloading ==> self.attempts == 2 && (self.asset matches Some(
            a,
        ) && a.fallback_url is Some))
        &&& (self.stage is Extracting || self.stage is PostProcessing || self.stage is Publishing
            || self.stage is Complete ==> self.asset is Some)
        &&& (self.stage is Failed <==> self.error is Some)
    }

    /// Begins an acquisition for `item`, waiting for the locator, and
    /// returns the opening milestone snapshot.
    pub fn begin(item: String, class: AssetClass) -> (r: (Acquisition, DownloadProgress))
        ensures
            r.0.wf(),
            r.0.stage is Locating,
            r.0.item == item,
            r.0.class == class,
            r.0.attempts == 0,
            r.0.error is None,
            r.1.item@ == item@,
            r.1.progress == 0,
            r.1.downloaded == 0,
            r.1.total == 0,
            r.1.status@ == "Starting download..."@,
    {
        let ev = milestone(&item, 0, "Starting download...");
        (
            Acquisition {
                item,
                class,
                asset: None,
                is_archive: false,
                stage: Stage::Locating,
                attempts: 0,
                error: None,
            },
            ev,
        )
    }

    /// Hands the machine the located source. The first download attempt,
    /// against the primary URL, is now due.
    pub fn located(&mut self, asset: AssetSpec, is_archive: bool)
        requires
            old(self).wf(),
            old(self).stage is Locating,
        ensures
            final(self).wf(),
            final(self).stage is Downloading,
            final(self).attempts == 1,
            final(self).asset == Some(asset),
            final(self).is_archive == is_archive,
            final(self).item == old(self).item,
            final(self).class == old(self).class,
            final(self).error is None,
    {
        self.asset = Some(asset);
        self.is_archive = is_archive;
        self.stage = Stage::Downloading;
        self.attempts = 1;
    }

    /// Ends the acquisition while locating, for an asset the catalog
    /// does not know.
    pub fn locate_failed(&mut self, err: PipelineError)
        requires
            old(self).wf(),
            old(self).stage is Locating,
        ensures
            final(self).wf(),
            final(self).stage is Failed,
            final(self).error == Some(err),
            final(self).item == old(self).item,
            final(self).class == old(self).class,
            final(self).attempts == old(self).attempts,
    {
        self.error = Some(err);
        self.stage = Stage::Failed;
    }

    /// The URL of the attempt now due: the primary while `Downloading`,
    /// the fallback while `FallbackDownloading`, nothing otherwise.
    pub fn current_url(&self) -> (r: Option<&String>)
        requires
            self.wf(),
        ensures
            self.stage is Downloading ==> (self.asset matches Some(a) && r == Some(
                &a.primary_url,
            )),
            self.stage is FallbackDownloading ==> (self.asset matches Some(a)
                && a.fallback_url matches Some(u) && r matches Some(x) && x == u),
            !(self.stage is Downloading || self.stage is FallbackDownloading) ==> r is None,
    {
        match &self.asset {
            Some(a) => {
                if self.stage == Stage::Downloading {
                    Some(&a.primary_url)
                } else if self.stage == Stage::FallbackDownloading {
                    match &a.fallback_url {
                        Some(u) => Some(u),
                        None => None,
                    }
                } else {
                    None
                }
            },
            None => None,
        }
    }

    /// Accounts for a failed download attempt.
    ///
    /// A primary failure with a fallback URL configured starts exactly
    /// one more attempt and returns the fallback milestone snapshot to
    /// emit. A primary failure with no fallback is terminal with
    /// exactly the primary's error. A fallback failure is terminal with
    /// exactly the fallback's error — there is no third tier.
    pub fn on_download_failure(&mut self, err: DownloadError) -> (ev: Option<DownloadProgress>)
        requires
            old(self).wf(),
            old(self).stage is Downloading || old(self).stage is FallbackDownloading,
        ensures
            final(self).wf(),
            final(self).item == old(self).item,
            final(self).class == old(self).class,
            final(self).asset == old(self).asset,
            final(self).is_archive == old(self).is_archive,
            (old(self).stage is Downloading && (old(self).asset matches Some(a)
                && a.fallback_url is Some)) ==> {
                &&& final(self).stage is FallbackDownloading
                &&& final(self).attempts == old(self).attempts + 1
                &&& final(self).error is None
                &&& ev matches Some(e) && e.item@ == old(self).item@ && e.progress == 0
                    && e.downloaded == 0 && e.total == 0 && e.status@
                    == "Primary failed, trying fallback..."@
            },
            (old(self).stage is Downloading && (old(self).asset matches Some(a)
                && a.fallback_url is None)) ==> {
                &&& final(self).stage is Failed
                &&& final(self).error == Some(PipelineError::Download(err))
                &&& final(self).attempts == old(self).attempts
                &&& ev is None
            },
            old(self).stage is FallbackDownloading ==> {
                &&& final(self).stage is Failed
                &&& final(self).error == Some(PipelineError::Download(err))
                &&& final(self).attempts == old(self).attempts
                &&& ev is None
            },
    {
        let has_fallback = match &self.asset {
            Some(a) => a.fallback_url.is_some(),
            None => false,
        };
        if self.stage == Stage::Downloading && has_fallback {
            self.stage = Stage::FallbackDownloading;
            self.attempts = self.attempts + 1;
            Some(milestone(&self.item, 0, "Primary failed, trying fallback..."))
        } else {
            self.stage = Stage::Failed;
            self.error = Some(PipelineError::Download(err));
            None
        }
    }

    /// Accounts for a successful download attempt: an archive moves on
    /// to extraction, a bare file goes straight to publishing.
    pub fn on_download_success(&mut self)
        requires
            old(self).wf(),
            old(self).stage is Downloading || old(self).stage is FallbackDownloading,
        ensures
            final(self).wf(),
            final(self).item == old(self).item,
            final(self).class == old(self).class,
            final(self).asset == old(self).asset,
            final(self).is_archive == old(self).is_archive,
            final(self).attempts == old(self).attempts,
            final(self).error is None,
            old(self).is_archive ==> final(self).stage is Extracting,
            !old(self).is_archive ==> final(self).stage is Publishing,
    {
        if self.is_archive {
            self.stage = Stage::Extracting;
        } else {
            self.stage = Stage::Publishing;
        }
    }

    /// Accounts for the extraction stage: failure is terminal and not
    /// retried; success moves on to the permission fix-ups.
    pub fn on_extract_result(&mut self, result: Result<(), ExtractError>)
        requires
            old(self).wf(),
            old(self).stage is Extracting,
        ensures
            final(self).wf(),
            final(self).item == old(self).item,
            final(self).class == old(self).class,
            final(self).asset == old(self).asset,
            final(self).is_archive == old(self).is_archive,
            final(self).attempts == old(self).attempts,
            match result {
                Ok(()) => final(self).stage is PostProcessing && final(self).error is None,
                Err(e) => final(self).stage is Failed && final(self).error == Some(
                    PipelineError::Extract(e),
                ),
            },
    {
        match result {
            Ok(()) => {
                self.stage = Stage::PostProcessing;
            },
            Err(e) => {
                self.stage = Stage::Failed;
                self.error = Some(PipelineError::Extract(e));
            },
        }
    }

    /// Accounts for the permission fix-up: only a failing filesystem
    /// call is terminal; an absent target, or an OS that needs none, is
    /// not an error.
    pub fn on_post_process(&mut self, outcome: PermissionOutcome)
        requires
            old(self).wf(),
            old(self).stage is PostProcessing,
        ensures
            final(self).wf(),
            final(self).item == old(self).item,
            final(self).class == old(self).class,
            final(self).asset == old(self).asset,
            final(self).is_archive == old(self).is_archive,
            final(self).attempts == old(self).attempts,
            match outcome {
                PermissionOutcome::Failed(m) => final(self).stage is Failed && final(self).error
                    == Some(PipelineError::PermissionFailed(m)),
                _ => final(self).stage is Publishing && final(self).error is None,
            },
    {
        match outcome {
            PermissionOutcome::Failed(m) => {
                self.stage = Stage::Failed;
                self.error = Some(PipelineError::PermissionFailed(m));
            },
            _ => {
                self.stage = Stage::Publishing;
            },
        }
    }

    /// Publishes the install: records `token` in the ledger slot of this
    /// asset class — the runtime's version string, or the game's token
    /// under the game id — completes the acquisition, and returns the
    /// closing milestone snapshot.
    pub fn on_published(&mut self, versions: &mut GameVersions, token: &String) -> (ev:
        DownloadProgress)
        requires
            old(self).wf(),
            old(self).stage is Publishing,
            old(versions).wf(),
        ensures
            final(self).wf(),
            final(self).stage is Complete,
            final(self).item == old(self).item,
            final(self).class == old(self).class,
            final(self).asset == old(self).asset,
            final(self).is_archive == old(self).is_archive,
            final(self).attempts == old(self).attempts,
            final(self).error is None,
            final(versions).wf(),
            match old(self).class {
                AssetClass::FlashPlayer => {
                    &&& final(versions).flash_player@ == token@
                    &&& final(versions).ruffle == old(versions).ruffle
                    &&& final(versions).games == old(versions).games
                },
                AssetClass::Ruffle => {
                    &&& final(versions).ruffle@ == token@
                    &&& final(versions).flash_player == old(versions).flash_player
                    &&& final(versions).games == old(versions).games
                },
                AssetClass::Game => {
                    &&& final(versions).games_map() == old(versions).games_map().insert(
                        old(self).item@,
                        token@,
                    )
                    &&& final(versions).flash_player == old(versions).flash_player
                    &&& final(versions).ruffle == old(versions).ruffle
                },
            },
            ev.item@ == old(self).item@,
            ev.progress == 100,
            ev.downloaded == 0,
            ev.total == 0,
            ev.status@ == "Download complete"@,
    {
        match self.class {
            AssetClass::FlashPlayer => {
                versions.flash_player = token.clone();
            },
            AssetClass::Ruffle => {
                versions.ruffle = token.clone();
            },
            AssetClass::Game => {
                versions.set_game_version(&self.item, token);
            },
        }
        self.stage = Stage::Complete;
        milestone(&self.item, 100, "Download complete")
    }
}

/// There is no third tier: however an acquisition is driven, it never
/// begins more than two download attempts — the primary, and at most one
/// fallback.
pub proof fn lemma_at_most_two_attempts(a: Acquisition)
    requires
        a.wf(),
    ensures
        a.attempts <= 2,
{
}

/// The located source of the legacy runtime for `os`: the configured
/// URLs, and the OS-conventional name for the downloaded file — the
/// configured executable name on Windows, a fixed disk-image or archive
/// name elsewhere.
pub fn locate_flash(config: &FlashPlayerConfig, os: Os) -> (r: AssetSpec)
    requires
        config.wf(),
    ensures
        r.wf(),
        r.primary_url@ == config.spec_for_os(os).primary_url@,
        match (r.fallback_url, config.spec_for_os(os).fallback_url) {
            (Some(u), Some(v)) => u@ == v@,
            (None, None) => true,
            _ => false,
        },
        match os {
            Os::Windows => r.filename@ == config.windows.filename@,
            Os::MacOs => r.filename@ == "flash_player.dmg"@,
            Os::Linux => r.filename@ == "flash_player.tar.gz"@,
        },
{
    let os_config = config.for_os(os);
    let filename = match os {
        Os::Windows => os_config.filename.clone(),
        Os::MacOs => String::from_str("flash_player.dmg"),
        Os::Linux => String::from_str("flash_player.tar.gz"),
    };
    proof {
        reveal_strlit("flash_player.dmg");
        reveal_strlit("flash_player.tar.gz");
    }
    AssetSpec {
        primary_url: os_config.primary_url.clone(),
        fallback_url: os_config.fallback_url.clone(),
        filename,
    }
}

/// The located source of a game: its catalog URL, no fallback, and the
/// standard `<id>.swf` name. A game the catalog does not know fails
/// with `NotConfigured`.
pub fn locate_game(config: &AppConfig, game_id: &String) -> (r: Result<AssetSpec, PipelineError>)
    ensures
        match r {
            Ok(a) => {
                &&& a.wf()
                &&& catalog_lookup(config.game_urls@, game_id@) == Some(a.primary_url@)
                &&& a.fallback_url is None
                &&& a.filename@ == game_id@ + ".swf"@
            },
            Err(e) => {
                &&& catalog_lookup(config.game_urls@, game_id@) is None
                &&& e matches PipelineError::NotConfigured(m) && m@ == "Game '"@ + game_id@
                    + "' not found in configuration"@
            },
        },
{
    proof {
        reveal_strlit(".swf");
    }
    match config.game_url(game_id) {
        Some(url) => Ok(
            AssetSpec {
                primary_url: url.clone(),
                fallback_url: None,
                filename: concat2(game_id.as_str(), ".swf"),
            },
        ),
        None => Err(
            PipelineError::NotConfigured(
                concat3("Game '", game_id.as_str(), "' not found in configuration"),
            ),
        ),
    }
}

} // verus!
