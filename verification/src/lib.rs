//! Resource acquisition and installation pipeline for a launcher of
//! Flash-era games: locating assets (static configuration or a remote
//! release index), bounded streaming downloads with progress reporting,
//! archive extraction, install-path resolution, and a persisted version
//! ledger.

mod config;
mod discover;
mod download;
mod extract;
mod games;
mod launch;
mod pipeline;
mod progress;
mod text;
mod versions;

pub use config::AppConfig;
pub use config::FlashPlayerConfig;
pub use config::FlashPlayerOs;
pub use config::Os;
pub use config::RuffleConfig;
pub use config::RuffleOs;
pub use config::Settings;
pub use config::catalog_lookup;
pub use config::get_app_dir;
pub use config::get_flash_dir;
pub use config::get_flash_player_path;
pub use config::get_games_dir;
pub use config::get_ruffle_dir;
pub use config::get_ruffle_path;
pub use config::is_default_flash_config;
pub use config::is_default_ruffle_config;
pub use config::resolve_install_path;

pub use discover::DiscoverError;
pub use discover::DiscoveredAsset;
pub use discover::ReleaseAsset;
pub use discover::RuffleRelease;
pub use discover::asset_matches;
pub use discover::nightly_pattern_spec;
pub use discover::resolve_ruffle_source;
pub use discover::ruffle_binary_name_spec;
pub use discover::ruffle_fallback_asset;
pub use discover::select_nightly_asset;

pub use download::DownloadError;
pub use download::DownloadSession;
pub use download::lemma_download_bytes_accounted;
pub use download::sum_of;

pub use extract::ArchiveEntry;
pub use extract::ArchiveFormat;
pub use extract::DmgCopyOutcome;
pub use extract::DmgExtraction;
pub use extract::DmgStage;
pub use extract::ExtractError;
pub use extract::classify_archive;
pub use extract::entries_view;
pub use extract::extract_archive;
pub use extract::extract_tar_gz;
pub use extract::extract_zip;
pub use extract::format_of;
pub use extract::gunzip_of;
pub use extract::needs_extraction;
pub use extract::tar_entries_of;
pub use extract::targz_entries_of;
pub use extract::zip_entries_of;

pub use games::GameFile;
pub use games::pick_game_file;
pub use games::versioned_match;

pub use launch::LaunchPlan;
pub use launch::chooses_ruffle;
pub use launch::plan_launch;

pub use pipeline::Acquisition;
pub use pipeline::AssetClass;
pub use pipeline::AssetSpec;
pub use pipeline::PermissionOutcome;
pub use pipeline::PipelineError;
pub use pipeline::Stage;
pub use pipeline::lemma_at_most_two_attempts;
pub use pipeline::locate_flash;
pub use pipeline::locate_game;

pub use progress::DownloadProgress;
pub use progress::compute_percent;
pub use progress::milestone;
pub use progress::percent_of;

pub use text::base_url_of;
pub use text::base_url_spec;
pub use text::concat2;
pub use text::concat3;
pub use text::contains_spec;
pub use text::ends_with_spec;
pub use text::join_path;
pub use text::last_index_of_char;
pub use text::last_segment;
pub use text::last_segment_spec;
pub use text::last_slash_index;
pub use text::lemma_last_index_of_char;
pub use text::starts_with_spec;
pub use text::str_contains;
pub use text::str_ends_with;
pub use text::str_starts_with;

pub use versions::GameVersions;
pub use versions::has_key;
pub use versions::keys_unique;
pub use versions::map_of_pairs;
pub use versions::value_of;
