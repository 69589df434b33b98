//! Archive extraction. The format is picked from the file name alone —
//! never by content sniffing — and the decoding itself is done by the
//! `zip`, `flate2` and `tar` crates on in-memory bytes, behind trusted
//! wrappers. A driver reads the downloaded archive into memory, extracts
//! here, and writes the entries it gets back to disk.
//!
//! The OS-specific disk-image path (mount, copy, unmount) is not a
//! generic archive: [`DmgExtraction`] is its verified policy, and a
//! driver performs the mount and copy it asks for.

use vstd::prelude::*;
use crate::text::ends_with_spec;
use crate::text::str_ends_with;

verus! {

/// One file taken out of an archive: its path inside the archive and its
/// bytes. Directory entries come through too, with empty `data`.
pub struct ArchiveEntry {
    pub name: String,
    pub data: Vec<u8>,
}

/// The entries as plain values, for contracts.
pub open spec fn entries_view(es: Seq<ArchiveEntry>) -> Seq<(Seq<char>, Seq<u8>)> {
    es.map_values(|e: ArchiveEntry| (e.name@, e.data@))
}

/// The archive format implied by a file name's suffix.
#[derive(Clone, Copy, PartialEq, Eq, Structural)]
pub enum ArchiveFormat {
    Zip,
    TarGz,
    Unsupported,
}

/// Format selection: `.zip` means zip, `.tar.gz` or `.tgz` means
/// gzip-then-tar, anything else is refused.
pub open spec fn format_of(name: Seq<char>) -> ArchiveFormat {
    if ends_with_spec(name, ".zip"@) {
        ArchiveFormat::Zip
    } else if ends_with_spec(name, ".tar.gz"@) || ends_with_spec(name, ".tgz"@) {
        ArchiveFormat::TarGz
    } else {
        ArchiveFormat::Unsupported
    }
}

/// Picks the archive format from the file name's suffix.
pub fn classify_archive(name: &str) -> (r: ArchiveFormat)
    ensures
        r == format_of(name@),
{
    if str_ends_with(name, ".zip") {
        ArchiveFormat::Zip
    } else if str_ends_with(name, ".tar.gz") || str_ends_with(name, ".tgz") {
        ArchiveFormat::TarGz
    } else {
        ArchiveFormat::Unsupported
    }
}

/// Whether a downloaded file of this name goes through an extraction
/// stage before publishing: a recognized archive, or the OS disk image.
/// A bare file (an executable, a game file) is published as it is.
pub fn needs_extraction(name: &str) -> (r: bool)
    ensures
        r == (format_of(name@) != ArchiveFormat::Unsupported || ends_with_spec(name@, ".dmg"@)),
{
    !matches!(classify_archive(name), ArchiveFormat::Unsupported) || str_ends_with(name, ".dmg")
}

/// Why extraction failed.
#[derive(Debug)]
pub enum ExtractError {
    /// The file name implies no supported format.
    UnsupportedFormat,
    /// The decoder refused the bytes; carries its message.
    ExtractionFailed(String),
    /// The disk image could not be mounted; carries the mount tool's
    /// message.
    MountFailed(String),
    /// The bundle could not be copied out of the mounted image; carries
    /// the filesystem's message.
    CopyFailed(String),
}

/// What a gzip stream inflates to, when it is valid: a function of the
/// bytes alone.
pub uninterp spec fn gunzip_of(data: Seq<u8>) -> Option<Seq<u8>>;

/// The (path, bytes) entries of a tar stream, when it is valid: a
/// function of the bytes alone.
pub uninterp spec fn tar_entries_of(data: Seq<u8>) -> Option<Seq<(Seq<char>, Seq<u8>)>>;

/// The (path, bytes) entries of a zip archive, when it is valid: a
/// function of the bytes alone.
pub uninterp spec fn zip_entries_of(data: Seq<u8>) -> Option<Seq<(Seq<char>, Seq<u8>)>>;

/// The entries of a gzip-compressed tar archive: inflate, then read the
/// tar entries; invalid at either step means invalid.
pub open spec fn targz_entries_of(data: Seq<u8>) -> Option<Seq<(Seq<char>, Seq<u8>)>> {
    match gunzip_of(data) {
        Some(t) => tar_entries_of(t),
        None => None,
    }
}

/// Relies on flate2's read::GzDecoder: inflating a gzip stream is a
/// function of the input bytes alone.
#[verifier::external_body]
fn gunzip_bytes(data: &Vec<u8>) -> (r: Result<Vec<u8>, String>)
    ensures
        match r {
            Ok(out) => gunzip_of(data@) == Some(out@),
            Err(_) => gunzip_of(data@) is None,
        },
{
    let mut dec = flate2::read::GzDecoder::new(data.as_slice());
    let mut out = Vec::new();
    match std::io::Read::read_to_end(&mut dec, &mut out) {
        Ok(_) => Ok(out),
        Err(e) => Err(e.to_string()),
    }
}

/// Relies on the tar crate's Archive: reading the entries of a tar
/// stream is a function of the input bytes alone.
#[verifier::external_body]
fn untar_bytes(data: &Vec<u8>) -> (r: Result<Vec<ArchiveEntry>, String>)
    ensures
        match r {
            Ok(es) => tar_entries_of(data@) == Some(entries_view(es@)),
            Err(_) => tar_entries_of(data@) is None,
        },
{
    let mut archive = tar::Archive::new(data.as_slice());
    let mut out = Vec::new();
    for entry in archive.entries().map_err(|e| e.to_string())? {
        let mut entry = entry.map_err(|e| e.to_string())?;
        let name = entry.path().map_err(|e| e.to_string())?.to_string_lossy().into_owned();
        let mut bytes = Vec::new();
        std::io::Read::read_to_end(&mut entry, &mut bytes).map_err(|e| e.to_string())?;
        out.push(ArchiveEntry { name, data: bytes });
    }
    Ok(out)
}

/// Relies on the zip crate's ZipArchive: reading the entries of a zip
/// archive is a function of the input bytes alone.
#[verifier::external_body]
fn unzip_bytes(data: &Vec<u8>) -> (r: Result<Vec<ArchiveEntry>, String>)
    ensures
        match r {
            Ok(es) => zip_entries_of(data@) == Some(entries_view(es@)),
            Err(_) => zip_entries_of(data@) is None,
        },
{
    let cursor = std::io::Cursor::new(data.as_slice());
    let mut archive = zip::ZipArchive::new(cursor).map_err(|e| e.to_string())?;
    let mut out = Vec::new();
    for i in 0..archive.len() {
        let mut file = archive.by_index(i).map_err(|e| e.to_string())?;
        let name = file.name().to_string();
        let mut bytes = Vec::new();
        std::io::Read::read_to_end(&mut file, &mut bytes).map_err(|e| e.to_string())?;
        out.push(ArchiveEntry { name, data: bytes });
    }
    Ok(out)
}

/// Extracts a zip archive held in memory into its entries.
pub fn extract_zip(data: &Vec<u8>) -> (r: Result<Vec<ArchiveEntry>, ExtractError>)
    ensures
        match r {
            Ok(es) => zip_entries_of(data@) == Some(entries_view(es@)),
            Err(e) => e matches ExtractError::ExtractionFailed(_) && zip_entries_of(data@) is None,
        },
{
    match unzip_bytes(data) {
        Ok(es) => Ok(es),
        Err(m) => Err(ExtractError::ExtractionFailed(m)),
    }
}

/// Extracts a gzip-compressed tar archive held in memory into its
/// entries: inflates, then reads the tar entries.
pub fn extract_tar_gz(data: &Vec<u8>) -> (r: Result<Vec<ArchiveEntry>, ExtractError>)
    ensures
        match r {
            Ok(es) => targz_entries_of(data@) == Some(entries_view(es@)),
            Err(e) => e matches ExtractError::ExtractionFailed(_) && targz_entries_of(data@)
                is None,
        },
{
    let tar_data = match gunzip_bytes(data) {
        Ok(t) => t,
        Err(m) => {
            return Err(ExtractError::ExtractionFailed(m));
        },
    };
    match untar_bytes(&tar_data) {
        Ok(es) => Ok(es),
        Err(m) => Err(ExtractError::ExtractionFailed(m)),
    }
}

/// Extracts an archive by the format its file name implies: zip for
/// `.zip`, gzip-then-tar for `.tar.gz` and `.tgz`. Any other name fails
/// with `UnsupportedFormat` before a byte is looked at.
pub fn extract_archive(archive_name: &str, data: &Vec<u8>) -> (r: Result<
    Vec<ArchiveEntry>,
    ExtractError,
>)
    ensures
        match format_of(archive_name@) {
            ArchiveFormat::Zip => match r {
                Ok(es) => zip_entries_of(data@) == Some(entries_view(es@)),
                Err(e) => e matches ExtractError::ExtractionFailed(_) && zip_entries_of(data@)
                    is None,
            },
            ArchiveFormat::TarGz => match r {
                Ok(es) => targz_entries_of(data@) == Some(entries_view(es@)),
                Err(e) => e matches ExtractError::ExtractionFailed(_) && targz_entries_of(data@)
                    is None,
            },
            ArchiveFormat::Unsupported => r matches Err(e) && e
                == ExtractError::UnsupportedFormat,
        },
{
    match classify_archive(archive_name) {
        ArchiveFormat::Zip => extract_zip(data),
        ArchiveFormat::TarGz => extract_tar_gz(data),
        ArchiveFormat::Unsupported => Err(ExtractError::UnsupportedFormat),
    }
}

/// Where a disk-image extraction stands.
#[derive(Clone, Copy, PartialEq, Eq, Structural)]
pub enum DmgStage {
    /// Waiting for the image to be mounted at the scratch mount point.
    Mounting,
    /// Waiting for the bundle to be copied out of the mounted volume.
    Copying,
    /// Waiting for the unmount attempt.
    Unmounting,
    /// The copy is done; the scratch mount point has been removed.
    Complete,
    /// Mount or copy failed; the acquisition is over.
    Failed,
}

/// How the driver's copy step went.
pub enum DmgCopyOutcome {
    /// The bundle was copied into the destination directory.
    Copied,
    /// The mounted volume holds no bundle of the expected name; the
    /// extraction is still a success.
    SourceAbsent,
    /// The copy itself failed; carries the filesystem's message.
    Failed(String),
}

/// The disk-image extraction policy: mount, copy the bundle out, then
/// unmount. Mount or copy failure aborts the acquisition; a failed
/// unmount after a successful copy is only a cleanup concern and never
/// fails the operation, and the scratch mount point is removed whatever
/// the unmount outcome.
pub struct DmgExtraction {
    pub stage: DmgStage,
}

impl DmgExtraction {
    /// Begins a disk-image extraction, waiting for the mount.
    pub fn start() -> (r: DmgExtraction)
        ensures
            r.stage is Mounting,
    {
        DmgExtraction { stage: DmgStage::Mounting }
    }

    /// Accounts for the mount attempt: failure is terminal and carries
    /// the mount tool's message; success moves on to the copy.
    pub fn on_mount(&mut self, ok: bool, err: String) -> (r: Result<(), ExtractError>)
        requires
            old(self).stage is Mounting,
        ensures
            ok ==> final(self).stage is Copying && r is Ok,
            !ok ==> final(self).stage is Failed && r == Err::<(), ExtractError>(
                ExtractError::MountFailed(err),
            ),
    {
        if ok {
            self.stage = DmgStage::Copying;
            Ok(())
        } else {
            self.stage = DmgStage::Failed;
            Err(ExtractError::MountFailed(err))
        }
    }

    /// Accounts for the copy attempt: a failed copy is terminal; a
    /// missing bundle in the image is not an error; either way short of
    /// failure, the unmount is next.
    pub fn on_copy(&mut self, outcome: DmgCopyOutcome) -> (r: Result<(), ExtractError>)
        requires
            old(self).stage is Copying,
        ensures
            match outcome {
                DmgCopyOutcome::Copied => final(self).stage is Unmounting && r is Ok,
                DmgCopyOutcome::SourceAbsent => final(self).stage is Unmounting && r is Ok,
                DmgCopyOutcome::Failed(m) => final(self).stage is Failed && r == Err::<
                    (),
                    ExtractError,
                >(ExtractError::CopyFailed(m)),
            },
    {
        match outcome {
            DmgCopyOutcome::Copied => {
                self.stage = DmgStage::Unmounting;
                Ok(())
            },
            DmgCopyOutcome::SourceAbsent => {
                self.stage = DmgStage::Unmounting;
                Ok(())
            },
            DmgCopyOutcome::Failed(m) => {
                self.stage = DmgStage::Failed;
                Err(ExtractError::CopyFailed(m))
            },
        }
    }

    /// Accounts for the unmount attempt. The copy already succeeded, so
    /// the extraction completes whether or not the unmount worked; the
    /// returned flag tells the driver to remove the scratch mount point,
    /// and it is set in every case.
    pub fn on_unmount(&mut self, ok: bool) -> (remove_scratch: bool)
        requires
            old(self).stage is Unmounting,
        ensures
            final(self).stage is Complete,
            remove_scratch,
    {
        let _ = ok;
        self.stage = DmgStage::Complete;
        true
    }
}

} // verus!
