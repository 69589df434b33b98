//! Dynamic discovery of the newest emulator release from a remote
//! release index.
//!
//! A driver fetches the index over HTTP and hands the decoded releases
//! here; this module's selection is the verified part. The index order is
//! taken as-is: the first release is "the latest", with no semantic
//! version comparison, and discovery failure is recoverable — the caller
//! falls back to the static location with the literal tag `fallback`.

use vstd::prelude::*;
use vstd::string::StringExecFns;
use crate::config::Os;
use crate::config::RuffleConfig;
use crate::text::contains_spec;
use crate::text::str_contains;

verus! {

/// One downloadable file of a release, as listed by the index.
pub struct ReleaseAsset {
    pub name: String,
    pub browser_download_url: String,
}

/// One release of the index: its tag and its downloadable files.
pub struct RuffleRelease {
    pub tag_name: String,
    pub assets: Vec<ReleaseAsset>,
}

/// Why discovery found nothing. Both cases are recoverable: the
/// coordinator then uses the static fallback location.
#[derive(Debug)]
pub enum DiscoverError {
    /// The release index was empty.
    NoReleases,
    /// The first release lists no file for this OS.
    NoMatchingAsset,
}

/// Where a discovered or fallback emulator build lives: the archive URL,
/// the installed binary's name, and the release tag to record.
pub struct DiscoveredAsset {
    pub url: String,
    pub filename: String,
    pub tag: String,
}

/// The file-name pattern that picks the right build for `os` out of a
/// release's files.
pub open spec fn nightly_pattern_spec(os: Os) -> Seq<char> {
    match os {
        Os::Windows => "windows-x86_64.zip"@,
        Os::MacOs => "macos-universal.tar.gz"@,
        Os::Linux => "linux-x86_64.tar.gz"@,
    }
}

/// The conventional name of the installed emulator binary for `os`.
pub open spec fn ruffle_binary_name_spec(os: Os) -> Seq<char> {
    if os is Windows {
        "ruffle.exe"@
    } else {
        "ruffle"@
    }
}

/// A release file is the build for this OS when its name holds the OS
/// pattern and is not a browser-extension build.
pub open spec fn asset_matches(name: Seq<char>, os: Os) -> bool {
    contains_spec(name, nightly_pattern_spec(os)) && !contains_spec(name, "extension"@)
}

fn nightly_pattern(os: Os) -> (r: &'static str)
    ensures
        r@ == nightly_pattern_spec(os),
{
    match os {
        Os::Windows => "windows-x86_64.zip",
        Os::MacOs => "macos-universal.tar.gz",
        Os::Linux => "linux-x86_64.tar.gz",
    }
}

/// Picks the build for `os` out of a fetched release index: the first
/// release is taken as the latest, and within it the first file whose
/// name holds the OS pattern and is not a browser-extension build wins.
/// The installed filename follows the OS convention; the URL and tag are
/// the release's own.
pub fn select_nightly_asset(releases: &Vec<RuffleRelease>, os: Os) -> (r: Result<
    DiscoveredAsset,
    DiscoverError,
>)
    ensures
        match r {
            Ok(d) => {
                &&& releases@.len() > 0
                &&& exists|i: int|
                    {
                        &&& 0 <= i < releases@[0].assets@.len()
                        &&& asset_matches(#[trigger] releases@[0].assets@[i].name@, os)
                        &&& d.url@ == releases@[0].assets@[i].browser_download_url@
                        &&& forall|j: int|
                            0 <= j < i ==> !asset_matches(
                                #[trigger] releases@[0].assets@[j].name@,
                                os,
                            )
                    }
                &&& d.tag@ == releases@[0].tag_name@
                &&& d.filename@ == ruffle_binary_name_spec(os)
            },
            Err(DiscoverError::NoReleases) => releases@.len() == 0,
            Err(DiscoverError::NoMatchingAsset) => {
                &&& releases@.len() > 0
                &&& forall|j: int|
                    0 <= j < releases@[0].assets@.len() ==> !asset_matches(
                        #[trigger] releases@[0].assets@[j].name@,
                        os,
                    )
            },
        },
{
    if releases.len() == 0 {
        return Err(DiscoverError::NoReleases);
    }
    let release = &releases[0];
    let pattern = nightly_pattern(os);
    let n = release.assets.len();
    let mut i: usize = 0;
    while i < n
        invariant
            i <= n,
            releases@.len() > 0,
            n == release.assets@.len(),
            *release == releases@[0],
            pattern@ == nightly_pattern_spec(os),
            forall|j: int| 0 <= j < i ==> !asset_matches(#[trigger] release.assets@[j].name@, os),
        decreases n - i,
    {
        let asset = &release.assets[i];
        if str_contains(asset.name.as_str(), pattern) && !str_contains(
            asset.name.as_str(),
            "extension",
        ) {
            proof {
                assert((i as int) < releases@[0].assets@.len());
                assert(asset_matches(releases@[0].assets@[i as int].name@, os));
            }
            let filename = if matches!(os, Os::Windows) {
                String::from_str("ruffle.exe")
            } else {
                String::from_str("ruffle")
            };
            return Ok(
                DiscoveredAsset {
                    url: asset.browser_download_url.clone(),
                    filename,
                    tag: release.tag_name.clone(),
                },
            );
        }
        i = i + 1;
    }
    Err(DiscoverError::NoMatchingAsset)
}

/// Absorbs a discovery failure: a discovered build is used as it is, and
/// any failure — an unreachable index, an empty one, or one without a
/// matching file — falls back to the static location under the literal
/// tag `fallback`, never reaching the caller as an error by itself.
pub fn resolve_ruffle_source(
    discovery: Result<DiscoveredAsset, DiscoverError>,
    config: &RuffleConfig,
    os: Os,
) -> (r: DiscoveredAsset)
    ensures
        match discovery {
            Ok(d) => r == d,
            Err(_) => {
                &&& r.url@ == config.spec_for_os(os).url@
                &&& r.filename@ == config.spec_for_os(os).filename@
                &&& r.tag@ == "fallback"@
            },
        },
{
    match discovery {
        Ok(d) => d,
        Err(_) => ruffle_fallback_asset(config, os),
    }
}

/// The static fallback location for `os`, tagged with the literal token
/// `fallback` that the ledger records when discovery failed.
pub fn ruffle_fallback_asset(config: &RuffleConfig, os: Os) -> (r: DiscoveredAsset)
    ensures
        r.url@ == config.spec_for_os(os).url@,
        r.filename@ == config.spec_for_os(os).filename@,
        r.tag@ == "fallback"@,
{
    let os_config = config.for_os(os);
    DiscoveredAsset {
        url: os_config.url.clone(),
        filename: os_config.filename.clone(),
        tag: String::from_str("fallback"),
    }
}

} // verus!
